//! The handle to one database.

use crate::client::{Client, ClientView};
use vstd::prelude::*;

verus! {

/// A database that is known to exist on the server: the name it has there,
/// and the settings of the connection it was reached through.
///
/// The library hands one out only when the server has confirmed the database
/// or has created it.
#[derive(Debug, Clone, PartialEq, Eq)]
pub struct Database {
    name: String,
    client: Client,
}

/// The mathematical value of a [`Database`].
pub struct DatabaseView {
    pub name: Seq<char>,
    pub client: ClientView,
}

impl View for Database {
    type V = DatabaseView;

    closed spec fn view(&self) -> DatabaseView {
        DatabaseView { name: self.name@, client: self.client@ }
    }
}

impl Database {
    pub(crate) fn new(name: String, client: Client) -> (r: Database)
        ensures
            r@ == (DatabaseView { name: name@, client: client@ }),
    {
        Database { name, client }
    }

    /// The name of the database on the server, prefix included.
    pub fn name(&self) -> (r: &str)
        ensures
            r@ == self@.name,
    {
        self.name.as_str()
    }

    /// The settings of the connection that the database was reached through.
    pub fn client(&self) -> (r: &Client)
        ensures
            r@ == self@.client,
    {
        &self.client
    }
}

} // verus!
