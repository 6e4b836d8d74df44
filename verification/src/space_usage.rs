//! Usage aggregator and its immutable output tree. One invocation walks a
//! snapshot's hierarchy (index, segments, components, fields), restricts the
//! listed fields to a requested subset, and computes every percentage against
//! the grand total index byte count — a deliberate normalization policy, not
//! against the immediate parent's byte count.

use vstd::prelude::*;

use crate::filter::{filter_fields, lemma_filter_all_present, lemma_filter_elements_from, names_of, spec_filter_fields};
use crate::percent::{lemma_percent_bounds, percent, spec_percent};
use crate::snapshot::{
    ComponentBytes, ComponentBytesV, FieldBytes, FieldBytesV, IndexSnapshot, IndexSnapshotV,
    SegmentSnapshotV,
};

verus! {

/// The five tracked physical sub-structures of a segment. Other internal
/// structures of a segment are a deliberately unaccounted residual.
#[derive(Clone, Copy, Debug, PartialEq, Eq, Structural)]
pub enum ComponentKind {
    TermDictionary,
    Postings,
    Positions,
    FastFields,
    FieldNorms,
}

/// Why no report could be produced.
#[derive(Clone, Copy, Debug, PartialEq, Eq, Structural)]
pub enum UsageError {
    /// The index's total byte count is zero, so percentage math is undefined.
    ZeroSizeIndex,
}

/// Usage of one field within one component: its byte count and its share of
/// the whole index.
pub struct FieldUsage {
    pub field_name: String,
    pub total_bytes: u64,
    pub percent_of_index: u64,
}

pub ghost struct FieldUsageV {
    pub field_name: Seq<char>,
    pub total_bytes: u64,
    pub percent_of_index: u64,
}

impl View for FieldUsage {
    type V = FieldUsageV;

    open spec fn view(&self) -> FieldUsageV {
        FieldUsageV {
            field_name: self.field_name@,
            total_bytes: self.total_bytes,
            percent_of_index: self.percent_of_index,
        }
    }
}

/// Usage of one component within one segment, with the retained per-field
/// entries. Filtering narrows the listed fields only; the component's own
/// total is always the snapshot's reported total.
pub struct ComponentUsage {
    pub kind: ComponentKind,
    pub total_bytes: u64,
    pub percent_of_index: u64,
    pub fields: Vec<FieldUsage>,
}

#[verifier::ext_equal]
pub ghost struct ComponentUsageV {
    pub kind: ComponentKind,
    pub total_bytes: u64,
    pub percent_of_index: u64,
    pub fields: Seq<FieldUsageV>,
}

impl View for ComponentUsage {
    type V = ComponentUsageV;

    open spec fn view(&self) -> ComponentUsageV {
        ComponentUsageV {
            kind: self.kind,
            total_bytes: self.total_bytes,
            percent_of_index: self.percent_of_index,
            fields: self.fields@.map_values(|f: FieldUsage| f@),
        }
    }
}

/// Usage of one segment, with its five components in a fixed order.
pub struct SegmentUsage {
    pub id: String,
    pub total_bytes: u64,
    pub percent_of_index: u64,
    pub num_docs: u32,
    pub deleted_bytes: u64,
    pub components: Vec<ComponentUsage>,
}

#[verifier::ext_equal]
pub ghost struct SegmentUsageV {
    pub id: Seq<char>,
    pub total_bytes: u64,
    pub percent_of_index: u64,
    pub num_docs: u32,
    pub deleted_bytes: u64,
    pub components: Seq<ComponentUsageV>,
}

impl View for SegmentUsage {
    type V = SegmentUsageV;

    open spec fn view(&self) -> SegmentUsageV {
        SegmentUsageV {
            id: self.id@,
            total_bytes: self.total_bytes,
            percent_of_index: self.percent_of_index,
            num_docs: self.num_docs,
            deleted_bytes: self.deleted_bytes,
            components: self.components@.map_values(|c: ComponentUsage| c@),
        }
    }
}

/// Root of the report: the grand total and the per-segment breakdown, in the
/// snapshot provider's segment order. Built once per invocation; immutable
/// thereafter.
pub struct DiskUsage {
    pub total_bytes: u64,
    pub segments: Vec<SegmentUsage>,
}

#[verifier::ext_equal]
pub ghost struct DiskUsageV {
    pub total_bytes: u64,
    pub segments: Seq<SegmentUsageV>,
}

impl View for DiskUsage {
    type V = DiskUsageV;

    open spec fn view(&self) -> DiskUsageV {
        DiskUsageV {
            total_bytes: self.total_bytes,
            segments: self.segments@.map_values(|s: SegmentUsage| s@),
        }
    }
}

/// The usage entry a retained (field, bytes) pair turns into.
pub open spec fn spec_field_usage(fb: FieldBytesV, total: u64) -> FieldUsageV {
    FieldUsageV {
        field_name: fb.field_name,
        total_bytes: fb.bytes,
        percent_of_index: spec_percent(fb.bytes, total) as u64,
    }
}

/// The usage entry one component turns into: its own reported total and
/// share, plus the retained fields in the snapshot's order.
pub open spec fn spec_component_usage(
    kind: ComponentKind,
    comp: ComponentBytesV,
    total: u64,
    requested: Seq<Seq<char>>,
) -> ComponentUsageV {
    ComponentUsageV {
        kind: kind,
        total_bytes: comp.total_bytes,
        percent_of_index: spec_percent(comp.total_bytes, total) as u64,
        fields: spec_filter_fields(comp.fields, requested).map_values(
            |fb: FieldBytesV| spec_field_usage(fb, total),
        ),
    }
}

/// The usage entry one segment turns into, with its five components in the
/// order they are reported.
pub open spec fn spec_segment_usage(
    seg: SegmentSnapshotV,
    total: u64,
    requested: Seq<Seq<char>>,
) -> SegmentUsageV {
    SegmentUsageV {
        id: seg.id,
        total_bytes: seg.total_bytes,
        percent_of_index: spec_percent(seg.total_bytes, total) as u64,
        num_docs: seg.num_docs,
        deleted_bytes: seg.deleted_bytes,
        components: seq![
            spec_component_usage(ComponentKind::Positions, seg.positions, total, requested),
            spec_component_usage(ComponentKind::Postings, seg.postings, total, requested),
            spec_component_usage(ComponentKind::FastFields, seg.fast_fields, total, requested),
            spec_component_usage(ComponentKind::TermDictionary, seg.termdict, total, requested),
            spec_component_usage(ComponentKind::FieldNorms, seg.fieldnorms, total, requested),
        ],
    }
}

/// The whole report a snapshot turns into.
pub open spec fn spec_disk_usage(snap: IndexSnapshotV, requested: Seq<Seq<char>>) -> DiskUsageV {
    DiskUsageV {
        total_bytes: snap.total_bytes,
        segments: snap.segments.map_values(
            |s: SegmentSnapshotV| spec_segment_usage(s, snap.total_bytes, requested),
        ),
    }
}

/// The requested names an optional filter argument stands for: none means an
/// empty request, which retains everything.
pub open spec fn requested_names(fields: Option<Vec<String>>) -> Seq<Seq<char>> {
    match fields {
        Option::None => Seq::<Seq<char>>::empty(),
        Option::Some(v) => names_of(v@),
    }
}

/// Aggregate one component: keep the snapshot's reported component total and
/// share, and list the retained fields, each with its share of the index.
fn per_field_usage(
    kind: ComponentKind,
    comp: &ComponentBytes,
    total: u64,
    requested: &Vec<String>,
) -> (r: ComponentUsage)
    requires
        total > 0,
        comp@.bounded(total),
    ensures
        r@ == spec_component_usage(kind, comp@, total, names_of(requested@)),
{
    let ghost avail = comp.fields@.map_values(|f: FieldBytes| f@);
    let ghost names = names_of(requested@);
    let kept = filter_fields(&comp.fields, requested);
    let ghost kept_views = kept@.map_values(|f: FieldBytes| f@);
    let mut fields: Vec<FieldUsage> = Vec::new();
    let n = kept.len();
    for i in 0..n
        invariant
            total > 0,
            comp@.bounded(total),
            n == kept@.len(),
            avail == comp.fields@.map_values(|f: FieldBytes| f@),
            kept_views == kept@.map_values(|f: FieldBytes| f@),
            kept_views == spec_filter_fields(avail, names),
            forall|k: int| 0 <= k < kept@.len() ==> avail.contains(#[trigger] kept@[k]@),
            fields@.len() == i,
            forall|k: int|
                0 <= k < i ==> #[trigger] fields@[k]@ == spec_field_usage(kept_views[k], total),
    {
        proof {
            assert(avail.contains(kept@[i as int]@));
            let j = choose|j: int| 0 <= j < avail.len() && avail[j] == kept@[i as int]@;
            assert(avail[j] == comp.fields@[j]@);
            assert(comp@.fields[j].bytes <= total);
        }
        let p = percent(kept[i].bytes, total);
        fields.push(
            FieldUsage {
                field_name: kept[i].field_name.clone(),
                total_bytes: kept[i].bytes,
                percent_of_index: p,
            },
        );
    }
    let p = percent(comp.total_bytes, total);
    let r = ComponentUsage { kind, total_bytes: comp.total_bytes, percent_of_index: p, fields };
    proof {
        assert(r@.fields =~= spec_filter_fields(avail, names).map_values(
            |fb: FieldBytesV| spec_field_usage(fb, total),
        ));
        assert(r@ =~= spec_component_usage(kind, comp@, total, names));
    }
    r
}

impl UsageError {
    /// Human-readable description of the failure.
    pub fn message(&self) -> (r: String)
        ensures
            r@ == "index has a total size of zero bytes; no usage report can be produced"@,
    {
        String::from_str("index has a total size of zero bytes; no usage report can be produced")
    }
}

impl DiskUsage {
    /// Build the full usage report from one snapshot, optionally restricted
    /// to the given field names. `None` and an empty list both keep every
    /// field. Fails with `ZeroSizeIndex` exactly when the snapshot's total
    /// byte count is zero; a requested name that matches nothing is not an
    /// error and simply contributes no rows.
    pub fn new(snapshot: &IndexSnapshot, fields: Option<Vec<String>>) -> (r: Result<
        DiskUsage,
        UsageError,
    >)
        requires
            snapshot@.bounded(),
        ensures
            match r {
                Result::Ok(u) => snapshot.total_bytes > 0 && u@ == spec_disk_usage(
                    snapshot@,
                    requested_names(fields),
                ),
                Result::Err(e) => snapshot.total_bytes == 0 && e == UsageError::ZeroSizeIndex,
            },
    {
        let ghost req = requested_names(fields);
        let requested: Vec<String> = match fields {
            Option::None => Vec::new(),
            Option::Some(v) => v,
        };
        proof {
            assert(names_of(requested@) =~= req);
        }
        if snapshot.total_bytes == 0 {
            return Result::Err(UsageError::ZeroSizeIndex);
        }
        let total = snapshot.total_bytes;
        let ghost snap = snapshot@;
        let mut segments: Vec<SegmentUsage> = Vec::new();
        let n = snapshot.segments.len();
        for i in 0..n
            invariant
                total == snapshot.total_bytes,
                total > 0,
                snap == snapshot@,
                snap.bounded(),
                req == names_of(requested@),
                n == snapshot.segments@.len(),
                segments@.len() == i,
                forall|k: int|
                    0 <= k < i ==> #[trigger] segments@[k]@ == spec_segment_usage(
                        snap.segments[k],
                        total,
                        req,
                    ),
        {
            let seg = &snapshot.segments[i];
            proof {
                assert(snap.segments[i as int] == seg@);
                assert(seg@.bounded(total));
            }
            let mut components: Vec<ComponentUsage> = Vec::new();
            components.push(per_field_usage(ComponentKind::Positions, &seg.positions, total, &requested));
            components.push(per_field_usage(ComponentKind::Postings, &seg.postings, total, &requested));
            components.push(per_field_usage(ComponentKind::FastFields, &seg.fast_fields, total, &requested));
            components.push(per_field_usage(ComponentKind::TermDictionary, &seg.termdict, total, &requested));
            components.push(per_field_usage(ComponentKind::FieldNorms, &seg.fieldnorms, total, &requested));
            let p = percent(seg.total_bytes, total);
            let su = SegmentUsage {
                id: seg.id.clone(),
                total_bytes: seg.total_bytes,
                percent_of_index: p,
                num_docs: seg.num_docs,
                deleted_bytes: seg.deleted_bytes,
                components,
            };
            proof {
                assert(su@.components =~= spec_segment_usage(
                    snap.segments[i as int],
                    total,
                    req,
                ).components);
                assert(su@ =~= spec_segment_usage(snap.segments[i as int], total, req));
            }
            segments.push(su);
        }
        let r = DiskUsage { total_bytes: total, segments };
        proof {
            assert(r@.segments =~= spec_disk_usage(snap, req).segments);
            assert(r@ =~= spec_disk_usage(snap, req));
        }
        Result::Ok(r)
    }
}

impl ComponentUsageV {
    /// The component's own share and every listed field's share lie in
    /// `0..=100`.
    pub open spec fn percents_bounded(self) -> bool {
        &&& self.percent_of_index <= 100
        &&& forall|k: int|
            0 <= k < self.fields.len() ==> (#[trigger] self.fields[k]).percent_of_index <= 100
    }
}

impl SegmentUsageV {
    /// The segment's share and every share below it lie in `0..=100`.
    pub open spec fn percents_bounded(self) -> bool {
        &&& self.percent_of_index <= 100
        &&& forall|j: int|
            0 <= j < self.components.len() ==> (#[trigger] self.components[j]).percents_bounded()
    }
}

impl DiskUsageV {
    /// Every percentage anywhere in the report lies in `0..=100`.
    pub open spec fn percents_bounded(self) -> bool {
        forall|i: int|
            0 <= i < self.segments.len() ==> (#[trigger] self.segments[i]).percents_bounded()
    }
}

proof fn lemma_component_percents_bounded(
    kind: ComponentKind,
    comp: ComponentBytesV,
    total: u64,
    requested: Seq<Seq<char>>,
)
    requires
        total > 0,
        comp.bounded(total),
    ensures
        spec_component_usage(kind, comp, total, requested).percents_bounded(),
{
    lemma_percent_bounds(comp.total_bytes, total);
    let c = spec_component_usage(kind, comp, total, requested);
    let kept = spec_filter_fields(comp.fields, requested);
    assert forall|k: int| 0 <= k < c.fields.len() implies (#[trigger] c.fields[k]).percent_of_index
        <= 100 by {
        lemma_filter_elements_from(comp.fields, requested, k);
        let fb = kept[k];
        let j = choose|j: int| 0 <= j < comp.fields.len() && comp.fields[j] == fb;
        assert(fb.bytes <= total);
        lemma_percent_bounds(fb.bytes, total);
        assert(c.fields[k] == spec_field_usage(fb, total));
    }
}

proof fn lemma_segment_percents_bounded(seg: SegmentSnapshotV, total: u64, requested: Seq<Seq<char>>)
    requires
        total > 0,
        seg.bounded(total),
    ensures
        spec_segment_usage(seg, total, requested).percents_bounded(),
{
    lemma_percent_bounds(seg.total_bytes, total);
    lemma_component_percents_bounded(ComponentKind::Positions, seg.positions, total, requested);
    lemma_component_percents_bounded(ComponentKind::Postings, seg.postings, total, requested);
    lemma_component_percents_bounded(ComponentKind::FastFields, seg.fast_fields, total, requested);
    lemma_component_percents_bounded(ComponentKind::TermDictionary, seg.termdict, total, requested);
    lemma_component_percents_bounded(ComponentKind::FieldNorms, seg.fieldnorms, total, requested);
    let g = spec_segment_usage(seg, total, requested);
    assert forall|j: int| 0 <= j < g.components.len() implies (#[trigger] g.components[j]).percents_bounded() by {
        if j == 0 {
            assert(g.components[0] == spec_component_usage(
                ComponentKind::Positions, seg.positions, total, requested));
        } else if j == 1 {
            assert(g.components[1] == spec_component_usage(
                ComponentKind::Postings, seg.postings, total, requested));
        } else if j == 2 {
            assert(g.components[2] == spec_component_usage(
                ComponentKind::FastFields, seg.fast_fields, total, requested));
        } else if j == 3 {
            assert(g.components[3] == spec_component_usage(
                ComponentKind::TermDictionary, seg.termdict, total, requested));
        } else {
            assert(g.components[4] == spec_component_usage(
                ComponentKind::FieldNorms, seg.fieldnorms, total, requested));
        }
    }
}

/// In a report built from a bounded snapshot with a positive grand total,
/// every percentage at every level — segment, component, field — lies in
/// `0..=100`.
pub proof fn lemma_report_percents_bounded(snap: IndexSnapshotV, requested: Seq<Seq<char>>)
    requires
        snap.bounded(),
        snap.total_bytes > 0,
    ensures
        spec_disk_usage(snap, requested).percents_bounded(),
{
    let u = spec_disk_usage(snap, requested);
    assert forall|i: int| 0 <= i < u.segments.len() implies (#[trigger] u.segments[i]).percents_bounded() by {
        assert(snap.segments[i].bounded(snap.total_bytes));
        lemma_segment_percents_bounded(snap.segments[i], snap.total_bytes, requested);
        assert(u.segments[i] == spec_segment_usage(snap.segments[i], snap.total_bytes, requested));
    }
}

/// Filtering a component with a request that names every field actually
/// present in it yields exactly the same usage entries as an empty request:
/// the filter narrows nothing.
pub proof fn lemma_component_filter_all_present(
    kind: ComponentKind,
    comp: ComponentBytesV,
    total: u64,
    requested: Seq<Seq<char>>,
)
    requires
        forall|i: int|
            0 <= i < comp.fields.len() ==> requested.contains(
                (#[trigger] comp.fields[i]).field_name,
            ),
    ensures
        spec_component_usage(kind, comp, total, requested) == spec_component_usage(
            kind,
            comp,
            total,
            Seq::<Seq<char>>::empty(),
        ),
{
    lemma_filter_all_present(comp.fields, requested);
    assert(spec_component_usage(kind, comp, total, requested) =~= spec_component_usage(
        kind,
        comp,
        total,
        Seq::<Seq<char>>::empty(),
    ));
}

/// Sum of the per-segment total byte counts in a built report.
pub open spec fn sum_usage_bytes(segments: Seq<SegmentUsageV>) -> int
    decreases segments.len(),
{
    if segments.len() == 0 {
        0
    } else {
        sum_usage_bytes(segments.drop_last()) + segments.last().total_bytes
    }
}

proof fn lemma_sum_usage_matches_snapshot(
    segments: Seq<SegmentSnapshotV>,
    total: u64,
    requested: Seq<Seq<char>>,
)
    ensures
        sum_usage_bytes(
            segments.map_values(|s: SegmentSnapshotV| spec_segment_usage(s, total, requested)),
        ) == crate::snapshot::sum_segment_bytes(segments),
    decreases segments.len(),
{
    let f = |s: SegmentSnapshotV| spec_segment_usage(s, total, requested);
    let mapped = segments.map_values(f);
    if segments.len() > 0 {
        lemma_sum_usage_matches_snapshot(segments.drop_last(), total, requested);
        assert(mapped.drop_last() =~= segments.drop_last().map_values(f));
        assert(mapped.last() == f(segments.last()));
    }
}

/// In a report built from a snapshot whose grand total is the sum of its
/// segments' totals, the per-segment totals sum back to the report's grand
/// total.
pub proof fn lemma_segment_totals_sum_to_index_total(
    snap: IndexSnapshotV,
    requested: Seq<Seq<char>>,
)
    requires
        snap.totals_consistent(),
    ensures
        sum_usage_bytes(spec_disk_usage(snap, requested).segments) == spec_disk_usage(
            snap,
            requested,
        ).total_bytes,
{
    lemma_sum_usage_matches_snapshot(snap.segments, snap.total_bytes, requested);
}

} // verus!
