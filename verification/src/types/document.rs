//! Document identifiers.

use vstd::prelude::*;

verus! {

/// The identifier of a document, unique within its database.
pub type DocumentId = String;

} // verus!
