//! How the fields of an index, or of a query's result, are ordered.

use vstd::prelude::*;

verus! {

/// The direction in which a field is sorted.
#[derive(Debug, Clone, Copy, PartialEq, Eq)]
pub enum SortDirection {
    Asc,
    Desc,
}

/// One entry of a sort list: a field by its name alone, or fields each with
/// a direction.
#[derive(Debug, Clone, PartialEq, Eq)]
pub enum SortSpec {
    Simple(String),
    Complex(Vec<(String, SortDirection)>),
}

} // verus!
