//! The connection's settings, and the requests built from them.

use crate::error::{ErrorView, SofaError};
use crate::request::{standard_headers, Header, Method, Request, RequestView};
use crate::uri::{
    base_location, base_uri, is_absolute, joined, location, pairs_of, parsed, request_uri, url_text,
};
use vstd::prelude::*;
use vstd::string::StringExecFns;

verus! {

/// The settings of a connection to one server.
///
/// The client sends nothing itself. It builds [`Request`] values; each names
/// the compression and timeout settings that were in force when it was built.
#[derive(Debug, Clone, PartialEq, Eq)]
pub struct Client {
    /// The base URI that every path is resolved against.
    pub uri: String,
    /// What is put in front of every database name.
    pub db_prefix: String,
    /// Whether compressed answers are asked for.
    pub gzip: bool,
    /// The time allowed to a request, in seconds.
    pub timeout: u8,
}

/// The mathematical value of a [`Client`].
pub struct ClientView {
    pub uri: Seq<char>,
    pub db_prefix: Seq<char>,
    pub gzip: bool,
    pub timeout: u8,
}

impl View for Client {
    type V = ClientView;

    open spec fn view(&self) -> ClientView {
        ClientView {
            uri: self.uri@,
            db_prefix: self.db_prefix@,
            gzip: self.gzip,
            timeout: self.timeout,
        }
    }
}

/// The settings a new client starts with: no prefix, compression on, four
/// seconds for each request.
pub open spec fn initial(uri: Seq<char>) -> ClientView {
    ClientView { uri, db_prefix: Seq::empty(), gzip: true, timeout: 4 }
}

/// The name a database has on the server: the prefix, then the name given.
pub open spec fn effective_name(c: ClientView, dbname: Seq<char>) -> Seq<char> {
    c.db_prefix + dbname
}

/// The request that a client builds for a URI that is already resolved.
pub open spec fn request_to(
    c: ClientView,
    method: Method,
    uri: Seq<char>,
    body: Option<Seq<char>>,
) -> RequestView {
    RequestView {
        method,
        uri,
        headers: standard_headers(uri),
        body,
        gzip: c.gzip,
        timeout: c.timeout,
    }
}

/// The request that a client builds for a path, or the failure to compose
/// its URI.
pub open spec fn request_of(
    c: ClientView,
    method: Method,
    path: Seq<char>,
    args: Option<Seq<(Seq<char>, Seq<char>)>>,
    body: Option<Seq<char>>,
) -> Result<RequestView, ErrorView> {
    match location(c.uri, path, args) {
        Some(uri) => Ok(request_to(c, method, uri, body)),
        None => Err(ErrorView::Configuration),
    }
}

/// The request that a client builds for the base URI itself.
pub open spec fn root_request(c: ClientView, method: Method) -> Result<RequestView, ErrorView> {
    match base_location(c.uri) {
        Some(uri) => Ok(request_to(c, method, uri, None)),
        None => Err(ErrorView::Configuration),
    }
}

/// The mathematical value of what building a request gives.
pub open spec fn built(r: Result<Request, SofaError>) -> Result<RequestView, ErrorView> {
    match r {
        Ok(request) => Ok(request@),
        Err(e) => Err(e@),
    }
}

/// The query pairs handed to a request, as sequences of characters.
pub open spec fn args_of(args: Option<Vec<(String, String)>>) -> Option<
    Seq<(Seq<char>, Seq<char>)>,
> {
    match args {
        Some(pairs) => Some(pairs_of(pairs@)),
        None => None,
    }
}

impl Client {
    /// A client for the server at `uri`, which has to be an absolute URI.
    pub fn new(uri: &str) -> (r: Result<Client, SofaError>)
        ensures
            match r {
                Ok(client) => parsed(uri@).is_some() && client@ == initial(uri@),
                Err(e) => parsed(uri@).is_none() && e@ == ErrorView::Configuration,
            },
    {
        if is_absolute(uri) {
            Ok(Client { uri: String::from_str(uri), db_prefix: String::new(), gzip: true, timeout: 4 })
        } else {
            Err(SofaError::Configuration)
        }
    }

    /// The client itself, to be changed in place.
    pub fn get_self(&mut self) -> (r: &mut Self)
        ensures
            *r == *old(self),
            *final(self) == *final(r),
    {
        self
    }

    /// Replaces the base URI. The text is stored as it is; a request built
    /// while it is not an absolute URI fails.
    pub fn set_uri(&mut self, uri: &str) -> (r: &Self)
        ensures
            final(self)@ == (ClientView { uri: uri@, ..old(self)@ }),
            *r == *final(self),
    {
        self.uri = String::from_str(uri);
        self
    }

    /// Replaces the prefix of database names.
    pub fn set_prefix(&mut self, prefix: &str) -> (r: &Self)
        ensures
            final(self)@ == (ClientView { db_prefix: prefix@, ..old(self)@ }),
            *r == *final(self),
    {
        self.db_prefix = String::from_str(prefix);
        self
    }

    /// Turns compression on or off for the requests built from now on.
    pub fn gzip(&mut self, enabled: bool) -> (r: &Self)
        ensures
            final(self)@ == (ClientView { gzip: enabled, ..old(self)@ }),
            *r == *final(self),
    {
        self.gzip = enabled;
        self
    }

    /// Sets the time, in seconds, allowed to the requests built from now on.
    pub fn timeout(&mut self, to: u8) -> (r: &Self)
        ensures
            final(self)@ == (ClientView { timeout: to, ..old(self)@ }),
            *r == *final(self),
    {
        self.timeout = to;
        self
    }

    /// A copy of the client.
    pub fn duplicate(&self) -> (r: Client)
        ensures
            r@ == self@,
    {
        Client {
            uri: self.uri.clone(),
            db_prefix: self.db_prefix.clone(),
            gzip: self.gzip,
            timeout: self.timeout,
        }
    }

    /// The name that the database `dbname` has on the server.
    pub fn build_dbname(&self, dbname: &str) -> (name: String)
        ensures
            name@ == effective_name(self@, dbname@),
    {
        self.db_prefix.clone().concat(dbname)
    }

    /// The request for a URI that is already resolved.
    fn request_for(&self, method: Method, uri: String, body: Option<String>) -> (r: Request)
        ensures
            r@ == request_to(
                self@,
                method,
                uri@,
                match body {
                    Some(text) => Some(text@),
                    None => None,
                },
            ),
    {
        let mut headers: Vec<Header> = Vec::new();
        headers.push(Header { name: String::from_str("Referer"), value: uri.clone() });
        headers.push(
            Header {
                name: String::from_str("Content-Type"),
                value: String::from_str("application/json"),
            },
        );
        assert(headers@.map_values(|h: Header| h@) =~= standard_headers(uri@));
        Request { method, uri, headers, body, gzip: self.gzip, timeout: self.timeout }
    }

    /// Builds the request for `path`, resolved against the base URI, with
    /// `opts` as its query.
    pub fn req(&self, method: Method, path: &str, opts: Option<Vec<(String, String)>>) -> (r:
        Result<Request, SofaError>)
        ensures
            built(r) == request_of(self@, method, path@, args_of(opts), None),
    {
        let uri = match &opts {
            Some(pairs) => request_uri(self.uri.as_str(), path, Some(pairs)),
            None => request_uri(self.uri.as_str(), path, None),
        };
        match uri {
            Some(uri) => Ok(self.request_for(method, uri, None)),
            None => Err(SofaError::Configuration),
        }
    }

    /// Builds a request for `path` that carries `body`.
    fn req_with_body(&self, method: Method, path: &str, body: String) -> (r: Result<
        Request,
        SofaError,
    >)
        ensures
            built(r) == request_of(self@, method, path@, None, Some(body@)),
    {
        match request_uri(self.uri.as_str(), path, None) {
            Some(uri) => Ok(self.request_for(method, uri, Some(body))),
            None => Err(SofaError::Configuration),
        }
    }

    /// Builds a `GET` request for `path` with `args` as its query.
    pub fn get(&self, path: &str, args: Option<Vec<(String, String)>>) -> (r: Result<
        Request,
        SofaError,
    >)
        ensures
            built(r) == request_of(self@, Method::Get, path@, args_of(args), None),
    {
        self.req(Method::Get, path, args)
    }

    /// Builds a `POST` request for `path` that carries `body`.
    pub fn post(&self, path: &str, body: String) -> (r: Result<Request, SofaError>)
        ensures
            built(r) == request_of(self@, Method::Post, path@, None, Some(body@)),
    {
        self.req_with_body(Method::Post, path, body)
    }

    /// Builds a `PUT` request for `path` that carries `body`.
    pub fn put(&self, path: &str, body: String) -> (r: Result<Request, SofaError>)
        ensures
            built(r) == request_of(self@, Method::Put, path@, None, Some(body@)),
    {
        self.req_with_body(Method::Put, path, body)
    }

    /// Builds a `HEAD` request for `path` with `args` as its query.
    pub fn head(&self, path: &str, args: Option<Vec<(String, String)>>) -> (r: Result<
        Request,
        SofaError,
    >)
        ensures
            built(r) == request_of(self@, Method::Head, path@, args_of(args), None),
    {
        self.req(Method::Head, path, args)
    }

    /// Builds a `DELETE` request for `path` with `args` as its query.
    pub fn delete(&self, path: &str, args: Option<Vec<(String, String)>>) -> (r: Result<
        Request,
        SofaError,
    >)
        ensures
            built(r) == request_of(self@, Method::Delete, path@, args_of(args), None),
    {
        self.req(Method::Delete, path, args)
    }

    /// Builds the request for the base URI itself.
    pub fn root(&self, method: Method) -> (r: Result<Request, SofaError>)
        ensures
            built(r) == root_request(self@, method),
    {
        match base_uri(self.uri.as_str()) {
            Some(uri) => Ok(self.request_for(method, uri, None)),
            None => Err(SofaError::Configuration),
        }
    }
}

/// Where the base is an absolute URI and the path resolves against it, the
/// request goes to the path joined to the base, and names that URI as its
/// referer.
pub proof fn lemma_request_goes_to_the_joined_uri(
    c: ClientView,
    method: Method,
    path: Seq<char>,
    body: Option<Seq<char>>,
)
    requires
        parsed(c.uri).is_some(),
        joined(parsed(c.uri).unwrap(), path).is_some(),
    ensures
        request_of(c, method, path, None, body) matches Ok(request) && {
            &&& request.uri == url_text(joined(parsed(c.uri).unwrap(), path).unwrap())
            &&& request.headers[0] == ("Referer"@, request.uri)
            &&& request.headers[1] == ("Content-Type"@, "application/json"@)
        },
{
}

/// A request is built with the settings the client has at that moment. A
/// client whose compression and timeout have been changed builds the
/// requests it built before, but for these two settings, which are the new
/// ones; it fails to build exactly the requests it failed to build before.
pub proof fn lemma_request_carries_current_settings(
    c: ClientView,
    gzip: bool,
    timeout: u8,
    method: Method,
    path: Seq<char>,
    args: Option<Seq<(Seq<char>, Seq<char>)>>,
    body: Option<Seq<char>>,
)
    ensures
        request_of(ClientView { gzip, timeout, ..c }, method, path, args, body) == match request_of(
            c,
            method,
            path,
            args,
            body,
        ) {
            Ok(request) => Ok(RequestView { gzip, timeout, ..request }),
            Err(e) => Err(e),
        },
{
}

} // verus!
