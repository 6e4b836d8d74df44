//! Report formatter: renders the aggregated usage tree and the schema field
//! listing to indented, human-readable text. Presentation only; every
//! function's contract pins the exact character sequence produced.

use vstd::prelude::*;
use vstd::string::StringExecFns;

use crate::fields::{spec_type_tag, Field, Fields, FieldV};
use crate::space_usage::{
    ComponentKind, ComponentUsage, ComponentUsageV, DiskUsage, DiskUsageV, FieldUsage, FieldUsageV,
    SegmentUsage, SegmentUsageV,
};

verus! {

/// The character a single decimal digit prints as.
pub open spec fn spec_dec_digit(d: int) -> char {
    if d == 0 {
        '0'
    } else if d == 1 {
        '1'
    } else if d == 2 {
        '2'
    } else if d == 3 {
        '3'
    } else if d == 4 {
        '4'
    } else if d == 5 {
        '5'
    } else if d == 6 {
        '6'
    } else if d == 7 {
        '7'
    } else if d == 8 {
        '8'
    } else {
        '9'
    }
}

/// The usual decimal rendering of a non-negative integer, without leading
/// zeros (a single `'0'` for zero itself).
pub open spec fn spec_dec(n: int) -> Seq<char>
    recommends
        n >= 0,
    decreases n,
{
    if n < 10 {
        seq![spec_dec_digit(n)]
    } else {
        spec_dec(n / 10).push(spec_dec_digit(n % 10))
    }
}

fn digit_str(d: u64) -> (r: &'static str)
    requires
        d < 10,
    ensures
        r@ == spec_dec(d as int),
{
    proof {
        reveal_strlit("0");
        reveal_strlit("1");
        reveal_strlit("2");
        reveal_strlit("3");
        reveal_strlit("4");
        reveal_strlit("5");
        reveal_strlit("6");
        reveal_strlit("7");
        reveal_strlit("8");
        reveal_strlit("9");
    }
    let r = if d == 0 {
        "0"
    } else if d == 1 {
        "1"
    } else if d == 2 {
        "2"
    } else if d == 3 {
        "3"
    } else if d == 4 {
        "4"
    } else if d == 5 {
        "5"
    } else if d == 6 {
        "6"
    } else if d == 7 {
        "7"
    } else if d == 8 {
        "8"
    } else {
        "9"
    };
    proof {
        assert(r@ =~= spec_dec(d as int));
    }
    r
}

/// Decimal rendering of `n`.
pub fn u64_to_string(n: u64) -> (r: String)
    ensures
        r@ == spec_dec(n as int),
    decreases n,
{
    if n < 10 {
        String::from_str(digit_str(n))
    } else {
        let rest = u64_to_string(n / 10);
        let r = rest.concat(digit_str(n % 10));
        proof {
            assert(r@ =~= spec_dec(n as int));
        }
        r
    }
}

/// One field line of the report.
pub open spec fn spec_render_field(f: FieldUsageV) -> Seq<char> {
    "\t\t'"@ + f.field_name + "' : "@ + spec_dec(f.total_bytes as int) + " bytes ("@ + spec_dec(
        f.percent_of_index as int,
    ) + "%)\n"@
}

/// The field lines of one component, in order.
pub open spec fn spec_render_fields(fs: Seq<FieldUsageV>) -> Seq<char>
    decreases fs.len(),
{
    if fs.len() == 0 {
        Seq::<char>::empty()
    } else {
        spec_render_fields(fs.drop_last()) + spec_render_field(fs.last())
    }
}

/// The header each component kind prints under.
pub open spec fn spec_component_name(kind: ComponentKind) -> Seq<char> {
    match kind {
        ComponentKind::TermDictionary => "Term dict"@,
        ComponentKind::Postings => "Postings"@,
        ComponentKind::Positions => "Positions"@,
        ComponentKind::FastFields => "Fast fields"@,
        ComponentKind::FieldNorms => "Field norm"@,
    }
}

/// One component block: its header, its total line, then its field lines.
pub open spec fn spec_render_component(c: ComponentUsageV) -> Seq<char> {
    "\t"@ + spec_component_name(c.kind) + " :\n"@ + "\t\tTotal : "@ + spec_dec(
        c.total_bytes as int,
    ) + " bytes ("@ + spec_dec(c.percent_of_index as int) + "%)\n"@ + spec_render_fields(c.fields)
}

/// The component blocks of one segment, in order.
pub open spec fn spec_render_components(cs: Seq<ComponentUsageV>) -> Seq<char>
    decreases cs.len(),
{
    if cs.len() == 0 {
        Seq::<char>::empty()
    } else {
        spec_render_components(cs.drop_last()) + spec_render_component(cs.last())
    }
}

/// One segment block: header, totals, doc counts, then its components.
pub open spec fn spec_render_segment(g: SegmentUsageV) -> Seq<char> {
    "Segment "@ + g.id + "\n"@ + "\tTotal : "@ + spec_dec(g.total_bytes as int) + " bytes ("@
        + spec_dec(g.percent_of_index as int) + "%)\n"@ + "\tNum docs : "@ + spec_dec(
        g.num_docs as int,
    ) + "\n"@ + "\tDeleted : "@ + spec_dec(g.deleted_bytes as int) + " bytes\n"@
        + spec_render_components(g.components)
}

/// The segment blocks of the report, in order.
pub open spec fn spec_render_segments(gs: Seq<SegmentUsageV>) -> Seq<char>
    decreases gs.len(),
{
    if gs.len() == 0 {
        Seq::<char>::empty()
    } else {
        spec_render_segments(gs.drop_last()) + spec_render_segment(gs.last())
    }
}

/// The whole report: a totals line, a segment count line, then each segment.
pub open spec fn spec_render_disk_usage(d: DiskUsageV) -> Seq<char> {
    "Total : "@ + spec_dec(d.total_bytes as int) + " bytes\n"@ + "Number of segments : "@
        + spec_dec(d.segments.len() as int) + "\n"@ + spec_render_segments(d.segments)
}

/// One schema field line of the listing.
pub open spec fn spec_render_schema_field(f: FieldV) -> Seq<char> {
    "Field '"@ + f.name + "' ("@ + spec_type_tag(f.kind) + ")\n"@
}

/// The schema listing: a header line, then one line per field, in order.
pub open spec fn spec_render_schema_fields(fs: Seq<FieldV>) -> Seq<char>
    decreases fs.len(),
{
    if fs.len() == 0 {
        "Available fields\n"@
    } else {
        spec_render_schema_fields(fs.drop_last()) + spec_render_schema_field(fs.last())
    }
}

impl FieldUsage {
    /// Render this field's report line.
    pub fn render(&self) -> (r: String)
        ensures
            r@ == spec_render_field(self@),
    {
        let mut s = String::from_str("\t\t'");
        s.append(self.field_name.as_str());
        s.append("' : ");
        let b = u64_to_string(self.total_bytes);
        s.append(b.as_str());
        s.append(" bytes (");
        let p = u64_to_string(self.percent_of_index);
        s.append(p.as_str());
        s.append("%)\n");
        proof {
            assert(s@ =~= spec_render_field(self@));
        }
        s
    }
}

impl ComponentUsage {
    /// Render this component's block: header, total line, field lines.
    pub fn render(&self) -> (r: String)
        ensures
            r@ == spec_render_component(self@),
    {
        let mut s = String::from_str("\t");
        let name = match self.kind {
            ComponentKind::TermDictionary => "Term dict",
            ComponentKind::Postings => "Postings",
            ComponentKind::Positions => "Positions",
            ComponentKind::FastFields => "Fast fields",
            ComponentKind::FieldNorms => "Field norm",
        };
        proof {
            assert(name@ == spec_component_name(self@.kind));
        }
        s.append(name);
        s.append(" :\n");
        s.append("\t\tTotal : ");
        let b = u64_to_string(self.total_bytes);
        s.append(b.as_str());
        s.append(" bytes (");
        let p = u64_to_string(self.percent_of_index);
        s.append(p.as_str());
        s.append("%)\n");
        let ghost views = self.fields@.map_values(|f: FieldUsage| f@);
        let ghost head = s@;
        let n = self.fields.len();
        for i in 0..n
            invariant
                n == self.fields@.len(),
                views == self.fields@.map_values(|f: FieldUsage| f@),
                s@ == head + spec_render_fields(views.take(i as int)),
        {
            let line = self.fields[i].render();
            s.append(line.as_str());
            proof {
                assert(views.take(i + 1).drop_last() =~= views.take(i as int));
                assert(views.take(i + 1).last() == views[i as int]);
                assert(s@ =~= head + spec_render_fields(views.take(i + 1)));
            }
        }
        proof {
            assert(views.take(n as int) =~= views);
            assert(s@ =~= spec_render_component(self@));
        }
        s
    }
}

impl SegmentUsage {
    /// Render this segment's block: header, totals, counts, components.
    pub fn render(&self) -> (r: String)
        ensures
            r@ == spec_render_segment(self@),
    {
        let mut s = String::from_str("Segment ");
        s.append(self.id.as_str());
        s.append("\n");
        s.append("\tTotal : ");
        let b = u64_to_string(self.total_bytes);
        s.append(b.as_str());
        s.append(" bytes (");
        let p = u64_to_string(self.percent_of_index);
        s.append(p.as_str());
        s.append("%)\n");
        s.append("\tNum docs : ");
        let d = u64_to_string(self.num_docs as u64);
        s.append(d.as_str());
        s.append("\n");
        s.append("\tDeleted : ");
        let del = u64_to_string(self.deleted_bytes);
        s.append(del.as_str());
        s.append(" bytes\n");
        let ghost views = self.components@.map_values(|c: ComponentUsage| c@);
        let ghost head = s@;
        let n = self.components.len();
        for i in 0..n
            invariant
                n == self.components@.len(),
                views == self.components@.map_values(|c: ComponentUsage| c@),
                s@ == head + spec_render_components(views.take(i as int)),
        {
            let block = self.components[i].render();
            s.append(block.as_str());
            proof {
                assert(views.take(i + 1).drop_last() =~= views.take(i as int));
                assert(views.take(i + 1).last() == views[i as int]);
                assert(s@ =~= head + spec_render_components(views.take(i + 1)));
            }
        }
        proof {
            assert(views.take(n as int) =~= views);
            assert(s@ =~= spec_render_segment(self@));
        }
        s
    }
}

impl DiskUsage {
    /// Render the whole report.
    pub fn render(&self) -> (r: String)
        ensures
            r@ == spec_render_disk_usage(self@),
    {
        let mut s = String::from_str("Total : ");
        let b = u64_to_string(self.total_bytes);
        s.append(b.as_str());
        s.append(" bytes\n");
        s.append("Number of segments : ");
        let c = u64_to_string(self.segments.len() as u64);
        s.append(c.as_str());
        s.append("\n");
        let ghost views = self.segments@.map_values(|g: SegmentUsage| g@);
        let ghost head = s@;
        let n = self.segments.len();
        for i in 0..n
            invariant
                n == self.segments@.len(),
                views == self.segments@.map_values(|g: SegmentUsage| g@),
                s@ == head + spec_render_segments(views.take(i as int)),
        {
            let block = self.segments[i].render();
            s.append(block.as_str());
            proof {
                assert(views.take(i + 1).drop_last() =~= views.take(i as int));
                assert(views.take(i + 1).last() == views[i as int]);
                assert(s@ =~= head + spec_render_segments(views.take(i + 1)));
            }
        }
        proof {
            assert(views.take(n as int) =~= views);
            assert(s@ =~= spec_render_disk_usage(self@));
        }
        s
    }
}

impl Field {
    /// Render this schema field's listing line.
    pub fn render(&self) -> (r: String)
        ensures
            r@ == spec_render_schema_field(self@),
    {
        let mut s = String::from_str("Field '");
        s.append(self.name.as_str());
        s.append("' (");
        let tag = self.type_tag();
        s.append(tag.as_str());
        s.append(")\n");
        proof {
            assert(s@ =~= spec_render_schema_field(self@));
        }
        s
    }
}

impl Fields {
    /// Render the schema listing.
    pub fn render(&self) -> (r: String)
        ensures
            r@ == spec_render_schema_fields(self.0@.map_values(|f: Field| f@)),
    {
        let mut s = String::from_str("Available fields\n");
        let ghost views = self.0@.map_values(|f: Field| f@);
        let n = self.0.len();
        proof {
            assert(views.take(0) =~= Seq::<FieldV>::empty());
        }
        for i in 0..n
            invariant
                n == self.0@.len(),
                views == self.0@.map_values(|f: Field| f@),
                s@ == spec_render_schema_fields(views.take(i as int)),
        {
            let line = self.0[i].render();
            s.append(line.as_str());
            proof {
                assert(views.take(i + 1).drop_last() =~= views.take(i as int));
                assert(views.take(i + 1).last() == views[i as int]);
                assert(s@ =~= spec_render_schema_fields(views.take(i + 1)));
            }
        }
        proof {
            assert(views.take(n as int) =~= views);
        }
        s
    }
}

} // verus!
