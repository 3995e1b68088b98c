//! A client for the HTTP interface of a CouchDB server that performs no I/O
//! of its own.
//!
//! The library turns a connection's settings and a caller's intent into
//! [`Request`] values, and turns what the server answered into results. Sending
//! a request and reading its reply is left to the program that uses the
//! library; every decision in between is made, and proved, here.
//!
//! - [`client`] holds the settings of a connection and builds requests.
//! - [`uri`] composes the URI of a request with the `url` crate.
//! - [`exchange`] runs the operations on databases as exchanges of requests
//!   and answers, and states what holds of every such exchange.
//! - [`types`] are the values that the server's answers are read into.

pub mod client;
pub mod database;
pub mod error;
pub mod exchange;
pub mod request;
pub mod types;
pub mod uri;

pub use client::Client;
pub use database::Database;
pub use error::SofaError;
pub use exchange::{replay, Awaiting, Body, Expect, Outcome, Response, Step, Transcript};
pub use request::{Header, Method, Request};
pub use types::{
    CouchResponse, CouchStatus, CouchVendor, DatabaseIndexList, DesignCreated, DocumentId, Index,
    IndexCreated, IndexFields, SortDirection, SortSpec,
};
