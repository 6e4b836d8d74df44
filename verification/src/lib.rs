//! Disk-usage inspection model for a persisted search index.
//!
//! The library aggregates raw per-segment, per-component, per-field byte
//! counts (supplied by an index snapshot provider) into an immutable usage
//! tree, optionally restricted to a requested subset of field names, with
//! every percentage normalized against the grand total index byte count.
//! It also lists schema fields with their declared type tags and renders
//! the usage tree to indented text.

pub mod fields;
pub mod filter;
pub mod percent;
pub mod render;
pub mod snapshot;
pub mod space_usage;

pub use percent::percent;
pub use space_usage::{ComponentKind, ComponentUsage, DiskUsage, FieldUsage, SegmentUsage, UsageError};
