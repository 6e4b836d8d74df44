//! Schema field listing: each field of the index's schema with its declared
//! type tag, drawn from a fixed, closed enumeration. A field whose underlying
//! type maps to none of the eight known tags is reported with an explicit
//! unknown tag rather than treated as an error.

use vstd::prelude::*;

verus! {

/// The closed enumeration of declared field types, plus an explicit catch-all
/// for a type outside the eight known tags.
#[derive(Clone, Copy, Debug, PartialEq, Eq, Structural)]
pub enum FieldKind {
    Text,
    U64,
    I64,
    F64,
    Date,
    Facet,
    Bytes,
    JsonObject,
    Unknown,
}

/// The type tag each kind is listed under.
pub open spec fn spec_type_tag(kind: FieldKind) -> Seq<char> {
    match kind {
        FieldKind::Text => "text"@,
        FieldKind::U64 => "u64"@,
        FieldKind::I64 => "i64"@,
        FieldKind::F64 => "f64"@,
        FieldKind::Date => "date"@,
        FieldKind::Facet => "facet"@,
        FieldKind::Bytes => "bytes"@,
        FieldKind::JsonObject => "JSON object"@,
        FieldKind::Unknown => "unknown"@,
    }
}

/// One schema field: its name and its declared type.
pub struct Field {
    pub name: String,
    pub kind: FieldKind,
}

pub ghost struct FieldV {
    pub name: Seq<char>,
    pub kind: FieldKind,
}

impl View for Field {
    type V = FieldV;

    open spec fn view(&self) -> FieldV {
        FieldV { name: self.name@, kind: self.kind }
    }
}

impl Field {
    pub fn new(name: String, kind: FieldKind) -> (r: Field)
        ensures
            r@ == (FieldV { name: name@, kind }),
    {
        Field { name, kind }
    }

    /// The fixed tag this field is listed under.
    pub fn type_tag(&self) -> (r: String)
        ensures
            r@ == spec_type_tag(self.kind),
    {
        match self.kind {
            FieldKind::Text => String::from_str("text"),
            FieldKind::U64 => String::from_str("u64"),
            FieldKind::I64 => String::from_str("i64"),
            FieldKind::F64 => String::from_str("f64"),
            FieldKind::Date => String::from_str("date"),
            FieldKind::Facet => String::from_str("facet"),
            FieldKind::Bytes => String::from_str("bytes"),
            FieldKind::JsonObject => String::from_str("JSON object"),
            FieldKind::Unknown => String::from_str("unknown"),
        }
    }
}

/// The schema's fields, in the order the schema enumerates them.
pub struct Fields(pub Vec<Field>);

impl Fields {
    /// Build the listing from (name, declared kind) pairs, keeping their
    /// order.
    pub fn from_entries(entries: Vec<(String, FieldKind)>) -> (r: Fields)
        ensures
            r.0@.len() == entries@.len(),
            forall|i: int|
                0 <= i < entries@.len() ==> #[trigger] r.0@[i]@ == (FieldV {
                    name: entries@[i].0@,
                    kind: entries@[i].1,
                }),
    {
        let mut fields: Vec<Field> = Vec::new();
        let n = entries.len();
        for i in 0..n
            invariant
                n == entries@.len(),
                fields@.len() == i,
                forall|k: int|
                    0 <= k < i ==> #[trigger] fields@[k]@ == (FieldV {
                        name: entries@[k].0@,
                        kind: entries@[k].1,
                    }),
        {
            let (name, kind) = (entries[i].0.clone(), entries[i].1);
            fields.push(Field { name, kind });
        }
        Fields(fields)
    }
}

} // verus!
