//! Folder records: the path locations images live in.

use vstd::prelude::*;

use crate::CoId;
use crate::CatalogError;
use crate::db;

verus! {

/// The folders of a catalog, in underlying storage order.
pub type Folders = Vec<Folder>;

/// One folder (path location) of the catalog.  Two folders may share a
/// root but differ in relative path.
pub struct Folder {
    pub id: CoId,
    /// Whether the path is relative to the catalog's own location.
    pub is_relative: bool,
    /// Path from the root folder.
    pub path_from_root: String,
    /// Path of the root folder.
    pub root_folder: String,
}

/// The folder a raw row (identifier, root, path, relative flag)
/// decodes to.  An absent flag falls back to false.
pub open spec fn spec_folder_of_row(row: (i64, String, String, Option<bool>)) -> Folder {
    Folder {
        id: row.0,
        is_relative: match row.3 {
            Some(b) => b,
            None => false,
        },
        path_from_root: row.2,
        root_folder: row.1,
    }
}

/// The folders a whole sequence of raw rows decodes to, in row order.
pub open spec fn spec_decode_folders(rows: Seq<(i64, String, String, Option<bool>)>) -> Seq<
    Folder,
> {
    rows.map_values(|row: (i64, String, String, Option<bool>)| spec_folder_of_row(row))
}

/// Decodes raw folder rows into folder records, in row order.
pub fn decode_folders(rows: &Vec<(i64, String, String, Option<bool>)>) -> (r: Folders)
    ensures
        r@ == spec_decode_folders(rows@),
{
    let mut out: Folders = Vec::new();
    let mut i: usize = 0;
    while i < rows.len()
        invariant
            i <= rows@.len(),
            out@ == spec_decode_folders(rows@.take(i as int)),
        decreases rows@.len() - i,
    {
        let folder = Folder {
            id: rows[i].0,
            is_relative: match rows[i].3 {
                Some(b) => b,
                None => false,
            },
            path_from_root: rows[i].2.clone(),
            root_folder: rows[i].1.clone(),
        };
        proof {
            assert(spec_decode_folders(rows@.take(i + 1)) =~= spec_decode_folders(
                rows@.take(i as int),
            ).push(spec_folder_of_row(rows@[i as int])));
        }
        out.push(folder);
        i = i + 1;
    }
    proof {
        assert(rows@.take(rows@.len() as int) =~= rows@);
    }
    out
}

impl Folder {
    /// The folder's identifier.
    pub fn id(&self) -> (r: CoId)
        ensures
            r == self.id,
    {
        self.id
    }

    /// Loads every folder row of the given entity type and decodes it,
    /// in storage order.  A malformed field is the decode error; any
    /// other query failure is propagated verbatim.
    pub fn load_objects(conn: &rusqlite::Connection, entity: CoId) -> (r: Result<Folders, CatalogError>)
        ensures
            (r matches Ok(folders) ==> exists|rows: Seq<(i64, String, String, Option<bool>)>|
                folders@ == spec_decode_folders(rows)),
            r matches Err(e) ==> (e is Sql || e is Decode),
    {
        match db::query_folder_rows(conn, entity) {
            Ok(rows) => {
                let folders = decode_folders(&rows);
                proof {
                    assert(folders@ == spec_decode_folders(rows@));
                }
                Ok(folders)
            },
            Err(e) => Err(CatalogError::of_row_failure(e)),
        }
    }
}

} // verus!
