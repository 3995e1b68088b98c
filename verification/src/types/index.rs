//! Secondary indexes, as they are sent to and listed by the server.

use crate::types::document::DocumentId;
use crate::types::find::SortSpec;
use vstd::prelude::*;

verus! {

/// The fields an index covers, in order.
#[derive(Debug, Clone, PartialEq, Eq)]
pub struct IndexFields {
    pub fields: Vec<SortSpec>,
}

impl IndexFields {
    /// The definition that covers exactly `fields`, in the order given.
    pub fn new(fields: Vec<SortSpec>) -> (r: IndexFields)
        ensures
            r.fields == fields,
    {
        IndexFields { fields }
    }
}

/// A secondary index.
#[derive(Debug, Clone, PartialEq, Eq)]
pub struct Index {
    /// The design document that holds the index, where it has one.
    pub ddoc: Option<DocumentId>,
    pub name: String,
    /// The kind of index; `type` on the wire.
    pub index_type: String,
    pub def: IndexFields,
}

/// The answer to the creation of an index.
#[derive(Debug, Clone, PartialEq, Eq)]
pub struct IndexCreated {
    pub result: Option<String>,
    pub id: Option<String>,
    pub name: Option<String>,
    pub error: Option<String>,
    pub reason: Option<String>,
}

/// The indexes of one database.
#[derive(Debug, Clone, PartialEq)]
pub struct DatabaseIndexList {
    pub total_rows: u32,
    pub indexes: Vec<Index>,
}

} // verus!
