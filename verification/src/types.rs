//! The values that the server's JSON answers are read into.
//!
//! They are plain data: every field the server may leave out is an `Option`.

pub mod design;
pub mod document;
pub mod find;
pub mod index;
pub mod system;

pub use design::DesignCreated;
pub use document::DocumentId;
pub use find::{SortDirection, SortSpec};
pub use index::{DatabaseIndexList, Index, IndexCreated, IndexFields};
pub use system::{CouchResponse, CouchStatus, CouchVendor, EnvelopeView, StatusView, VendorView};
