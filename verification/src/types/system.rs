//! What the server says of itself, and the envelope it wraps around the
//! outcome of a change.

use vstd::prelude::*;

verus! {

/// Who distributes the server.
#[derive(Debug, Clone, PartialEq, Eq)]
pub struct CouchVendor {
    pub name: String,
    pub version: String,
}

/// The server's answer to a request for its root.
#[derive(Debug, Clone, PartialEq, Eq)]
pub struct CouchStatus {
    pub couchdb: String,
    pub uuid: String,
    pub version: String,
    pub vendor: CouchVendor,
}

/// The envelope around the outcome of a change: `ok` is true on success;
/// on failure `error` and `reason` say what went wrong.
#[derive(Debug, Clone, PartialEq, Eq)]
pub struct CouchResponse {
    pub ok: Option<bool>,
    pub error: Option<String>,
    pub reason: Option<String>,
}

/// The mathematical value of a [`CouchVendor`].
pub struct VendorView {
    pub name: Seq<char>,
    pub version: Seq<char>,
}

/// The mathematical value of a [`CouchStatus`].
pub struct StatusView {
    pub couchdb: Seq<char>,
    pub uuid: Seq<char>,
    pub version: Seq<char>,
    pub vendor: VendorView,
}

/// The mathematical value of a [`CouchResponse`].
pub struct EnvelopeView {
    pub ok: Option<bool>,
    pub error: Option<Seq<char>>,
    pub reason: Option<Seq<char>>,
}

impl View for CouchVendor {
    type V = VendorView;

    open spec fn view(&self) -> VendorView {
        VendorView { name: self.name@, version: self.version@ }
    }
}

impl View for CouchStatus {
    type V = StatusView;

    open spec fn view(&self) -> StatusView {
        StatusView {
            couchdb: self.couchdb@,
            uuid: self.uuid@,
            version: self.version@,
            vendor: self.vendor@,
        }
    }
}

impl View for CouchResponse {
    type V = EnvelopeView;

    open spec fn view(&self) -> EnvelopeView {
        EnvelopeView {
            ok: self.ok,
            error: match self.error {
                Some(text) => Some(text@),
                None => None,
            },
            reason: match self.reason {
                Some(text) => Some(text@),
                None => None,
            },
        }
    }
}

} // verus!
