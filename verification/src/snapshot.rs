//! Plain-value model of one read-only, point-in-time view over an index:
//! its total byte count and, per segment, doc counts plus per-component
//! per-field byte counts for the five tracked component kinds. The snapshot
//! provider (the index engine) fills these values in; the aggregator only
//! reads them.

use vstd::prelude::*;

verus! {

/// Raw byte count that one field occupies inside one component, as the
/// snapshot provider reports it.
pub struct FieldBytes {
    pub field_name: String,
    pub bytes: u64,
}

pub ghost struct FieldBytesV {
    pub field_name: Seq<char>,
    pub bytes: u64,
}

impl View for FieldBytes {
    type V = FieldBytesV;

    open spec fn view(&self) -> FieldBytesV {
        FieldBytesV { field_name: self.field_name@, bytes: self.bytes }
    }
}

/// Raw usage of one component within one segment: the component's own total
/// and its per-field breakdown, in the provider's iteration order.
pub struct ComponentBytes {
    pub total_bytes: u64,
    pub fields: Vec<FieldBytes>,
}

#[verifier::ext_equal]
pub ghost struct ComponentBytesV {
    pub total_bytes: u64,
    pub fields: Seq<FieldBytesV>,
}

impl View for ComponentBytes {
    type V = ComponentBytesV;

    open spec fn view(&self) -> ComponentBytesV {
        ComponentBytesV {
            total_bytes: self.total_bytes,
            fields: self.fields@.map_values(|f: FieldBytes| f@),
        }
    }
}

impl ComponentBytesV {
    /// Every byte count in the component is part of the index, so none can
    /// exceed the index's grand total.
    pub open spec fn bounded(self, index_total: u64) -> bool {
        &&& self.total_bytes <= index_total
        &&& forall|i: int|
            0 <= i < self.fields.len() ==> (#[trigger] self.fields[i]).bytes <= index_total
    }
}

/// Raw usage of one segment: identity, doc counts, total size, and the five
/// tracked components.
pub struct SegmentSnapshot {
    pub id: String,
    pub num_docs: u32,
    pub deleted_bytes: u64,
    pub total_bytes: u64,
    pub positions: ComponentBytes,
    pub postings: ComponentBytes,
    pub fast_fields: ComponentBytes,
    pub termdict: ComponentBytes,
    pub fieldnorms: ComponentBytes,
}

#[verifier::ext_equal]
pub ghost struct SegmentSnapshotV {
    pub id: Seq<char>,
    pub num_docs: u32,
    pub deleted_bytes: u64,
    pub total_bytes: u64,
    pub positions: ComponentBytesV,
    pub postings: ComponentBytesV,
    pub fast_fields: ComponentBytesV,
    pub termdict: ComponentBytesV,
    pub fieldnorms: ComponentBytesV,
}

impl View for SegmentSnapshot {
    type V = SegmentSnapshotV;

    open spec fn view(&self) -> SegmentSnapshotV {
        SegmentSnapshotV {
            id: self.id@,
            num_docs: self.num_docs,
            deleted_bytes: self.deleted_bytes,
            total_bytes: self.total_bytes,
            positions: self.positions@,
            postings: self.postings@,
            fast_fields: self.fast_fields@,
            termdict: self.termdict@,
            fieldnorms: self.fieldnorms@,
        }
    }
}

impl SegmentSnapshotV {
    /// A segment is part of the index, so neither it nor anything inside it
    /// can exceed the index's grand total.
    pub open spec fn bounded(self, index_total: u64) -> bool {
        &&& self.total_bytes <= index_total
        &&& self.positions.bounded(index_total)
        &&& self.postings.bounded(index_total)
        &&& self.fast_fields.bounded(index_total)
        &&& self.termdict.bounded(index_total)
        &&& self.fieldnorms.bounded(index_total)
    }
}

/// One index's current state as the snapshot provider reports it: the grand
/// total byte count and the segments, in provider-defined order.
pub struct IndexSnapshot {
    pub total_bytes: u64,
    pub segments: Vec<SegmentSnapshot>,
}

#[verifier::ext_equal]
pub ghost struct IndexSnapshotV {
    pub total_bytes: u64,
    pub segments: Seq<SegmentSnapshotV>,
}

impl View for IndexSnapshot {
    type V = IndexSnapshotV;

    open spec fn view(&self) -> IndexSnapshotV {
        IndexSnapshotV {
            total_bytes: self.total_bytes,
            segments: self.segments@.map_values(|s: SegmentSnapshot| s@),
        }
    }
}

/// Sum of the segments' own total byte counts.
pub open spec fn sum_segment_bytes(segments: Seq<SegmentSnapshotV>) -> int
    decreases segments.len(),
{
    if segments.len() == 0 {
        0
    } else {
        sum_segment_bytes(segments.drop_last()) + segments.last().total_bytes
    }
}

impl IndexSnapshotV {
    /// No byte count anywhere in the snapshot exceeds the grand total.
    pub open spec fn bounded(self) -> bool {
        forall|i: int|
            0 <= i < self.segments.len() ==> (#[trigger] self.segments[i]).bounded(
                self.total_bytes,
            )
    }

    /// The grand total is exactly the sum of the segments' totals, as the
    /// snapshot provider computes it.
    pub open spec fn totals_consistent(self) -> bool {
        sum_segment_bytes(self.segments) == self.total_bytes
    }
}

} // verus!
