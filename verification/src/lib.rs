//! Reader for a versioned, proprietary photo-catalog database.
//!
//! The catalog is a SQLite store produced by an external photo-management
//! application.  This crate reconstructs a typed, in-memory object model
//! from it: version metadata, a runtime entity-type registry, keyword
//! hierarchies, folder locations, image records, stacks and collections.
//! All loading is read-only; every collection is loaded at most once per
//! session and cached.

use vstd::prelude::*;

pub mod catalog;
pub mod collections;
mod db;
pub mod folders;
pub mod images;
pub mod keywords;
pub mod keywordtree;
pub mod registry;
pub mod stack;

pub use catalog::{Catalog, CatalogVersion};
pub use collections::{decode_collection_row, decode_collections, Collection, CollectionRow,
    CollectionType};
pub use folders::{decode_folders, Folder, Folders};
pub use images::{decode_images, Image, ImageFormat, ImageRow};
pub use keywords::{decode_keywords, Keyword};
pub use keywordtree::KeywordTree;
pub use registry::Registry;
pub use stack::{decode_stacks, Stack};

verus! {

/// Catalog identifier: an opaque 64-bit integer, unique only within one
/// catalog instance.  Used as primary key and as every foreign-key
/// reference (parent, folder, collection, pick, ...).
pub type CoId = i64;

/// The error conditions this crate surfaces.
#[derive(Debug)]
pub enum CatalogError {
    /// No database open: a session method that needs the connection was
    /// called before `open()` succeeded.
    NoDatabase,
    /// The requested operation is not implemented.
    Unimplemented,
    /// The catalog's version number does not map to a supported generation.
    UnsupportedVersion,
    /// A typed loader was invoked before `load_version()` succeeded, so the
    /// entity-type registry is not populated.
    NoRegistry,
    /// A required field of a row could not be decoded.
    Decode,
    /// An underlying SQLite error, propagated verbatim.
    Sql(rusqlite::Error),
}

impl CatalogError {
    /// Classifies a typed loader's storage failure: what the store
    /// reports as a per-column read failure is a malformed field and
    /// becomes the decode error; every other failure is propagated
    /// verbatim as the SQL error.
    pub fn of_row_failure(e: rusqlite::Error) -> (r: Self)
        ensures
            r is Decode || r is Sql,
    {
        if db::is_column_failure(&e) {
            CatalogError::Decode
        } else {
            CatalogError::Sql(e)
        }
    }
}

} // verus!
