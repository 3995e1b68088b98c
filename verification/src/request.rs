//! Requests as values: what is to be sent, to where, and how.

use vstd::prelude::*;

verus! {

/// The HTTP verbs the server's interface is spoken in.
#[derive(Debug, Clone, Copy, PartialEq, Eq)]
pub enum Method {
    Get,
    Post,
    Put,
    Head,
    Delete,
}

/// One header line of a request.
#[derive(Debug, Clone, PartialEq, Eq)]
pub struct Header {
    pub name: String,
    pub value: String,
}

impl View for Header {
    type V = (Seq<char>, Seq<char>);

    open spec fn view(&self) -> (Seq<char>, Seq<char>) {
        (self.name@, self.value@)
    }
}

/// A request ready to be sent. It names the transport settings that were in
/// force when it was built: whoever sends it sends it with these.
#[derive(Debug, Clone, PartialEq, Eq)]
pub struct Request {
    pub method: Method,
    /// The absolute URI the request goes to.
    pub uri: String,
    /// The header lines, in the order they were set.
    pub headers: Vec<Header>,
    pub body: Option<String>,
    /// Whether compressed answers are asked for and unpacked.
    pub gzip: bool,
    /// After how many seconds the request is given up.
    pub timeout: u8,
}

/// The mathematical value of a [`Request`].
pub struct RequestView {
    pub method: Method,
    pub uri: Seq<char>,
    pub headers: Seq<(Seq<char>, Seq<char>)>,
    pub body: Option<Seq<char>>,
    pub gzip: bool,
    pub timeout: u8,
}

impl View for Request {
    type V = RequestView;

    open spec fn view(&self) -> RequestView {
        RequestView {
            method: self.method,
            uri: self.uri@,
            headers: self.headers@.map_values(|h: Header| h@),
            body: match self.body {
                Some(text) => Some(text@),
                None => None,
            },
            gzip: self.gzip,
            timeout: self.timeout,
        }
    }
}

/// The headers that every request carries: the request's own URI as its
/// referer, and JSON as the type of its content.
pub open spec fn standard_headers(uri: Seq<char>) -> Seq<(Seq<char>, Seq<char>)> {
    seq![("Referer"@, uri), ("Content-Type"@, "application/json"@)]
}

} // verus!
