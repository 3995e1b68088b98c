//! What the server answers when a design document is created.

use vstd::prelude::*;

verus! {

/// The answer to the creation of a design document.
#[derive(Debug, Clone, PartialEq, Eq)]
pub struct DesignCreated {
    pub result: Option<String>,
    pub id: Option<String>,
    pub name: Option<String>,
    pub error: Option<String>,
    pub reason: Option<String>,
}

} // verus!
