//! Collection records: the polymorphic grouping constructs of the
//! catalog (albums, virtual folders, projects, trash, ...), each
//! holding stacks.
//!
//! One physical table encodes all of them; which variant a row builds
//! is decided by resolving the row's entity-type identifier through the
//! registry — never by a hardcoded numeric constant, because the same
//! logical type carries different numeric identifiers in different
//! catalog generations.

use vstd::prelude::*;

use crate::CoId;
use crate::CatalogError;
use crate::db;
use crate::keywords::spec_parent_or_root;
use crate::registry::Registry;

verus! {

/// What kind of collection a row is, selected from the semantic name
/// of the row's entity type.
pub enum CollectionType {
    Invalid,
    /// An album, with its display name.
    Album(String),
    /// A virtual folder, with its display name.
    VirtualFolder(String),
    Project,
    CatalogAll,
    Trash,
    CatalogInternalImages,
    /// A folder-backed collection, with the folder's identifier.
    Folder(CoId),
}

/// One raw row of the collection table, as the store hands it back.
pub struct CollectionRow {
    pub entity: i64,
    pub id: i64,
    pub name: Option<String>,
    pub parent: Option<i64>,
    pub folder_location: Option<i64>,
}

/// One collection of the catalog.  `content` is the lazily resolved
/// list of the member stacks' identifiers: `None` until it has been
/// fetched, which is distinct from "fetched and empty".
pub struct Collection {
    pub id: CoId,
    pub collection_type: CollectionType,
    pub parent: CoId,
    pub content: Option<Vec<CoId>>,
}

/// The variant a row builds for a resolved semantic name.  `Ok(None)`
/// means the name is not a collection subtype this crate knows: the
/// row is skipped, never failing the load.  A missing display name or
/// folder location where the subtype requires one is a decode error.
pub open spec fn spec_type_of_name(name: Seq<char>, row: CollectionRow) -> Result<
    Option<CollectionType>,
    CatalogError,
> {
    if name == "ProjectCollection"@ {
        Ok(Some(CollectionType::Project))
    } else if name == "CatalogAllImagesCollection"@ {
        Ok(Some(CollectionType::CatalogAll))
    } else if name == "CatalogInternalImagesCollection"@ {
        Ok(Some(CollectionType::CatalogInternalImages))
    } else if name == "TrashCollection"@ {
        Ok(Some(CollectionType::Trash))
    } else if name == "AlbumCollection"@ {
        match row.name {
            Some(n) => Ok(Some(CollectionType::Album(n))),
            None => Err(CatalogError::Decode),
        }
    } else if name == "CatalogFolderCollection"@ {
        match row.folder_location {
            Some(f) => Ok(Some(CollectionType::Folder(f))),
            None => Err(CatalogError::Decode),
        }
    } else if name == "VirtualFolderCollection"@ {
        match row.name {
            Some(n) => Ok(Some(CollectionType::VirtualFolder(n))),
            None => Err(CatalogError::Decode),
        }
    } else {
        Ok(None)
    }
}

/// The collection a raw row decodes to under a registry: `Ok(None)`
/// when the row's entity identifier resolves to no name, or to a name
/// this crate does not know — such rows are skipped.  An absent parent
/// falls back to 0; content starts unresolved.
pub open spec fn spec_decode_collection_row(registry: Registry, row: CollectionRow) -> Result<
    Option<Collection>,
    CatalogError,
> {
    match registry.name_of(row.entity) {
        None => Ok(None),
        Some(name) => match spec_type_of_name(name, row) {
            Ok(None) => Ok(None),
            Ok(Some(ct)) => Ok(
                Some(
                    Collection {
                        id: row.id,
                        collection_type: ct,
                        parent: spec_parent_or_root(row.parent),
                        content: None,
                    },
                ),
            ),
            Err(e) => Err(e),
        },
    }
}

/// The collections a whole sequence of raw rows decodes to, in row
/// order, skipped rows left out; the first decode error fails the
/// whole load.
pub open spec fn spec_decode_collections(registry: Registry, rows: Seq<CollectionRow>) -> Result<
    Seq<Collection>,
    CatalogError,
>
    decreases rows.len(),
{
    if rows.len() == 0 {
        Ok(Seq::empty())
    } else {
        match spec_decode_collections(registry, rows.drop_last()) {
            Err(e) => Err(e),
            Ok(prefix) => match spec_decode_collection_row(registry, rows.last()) {
                Err(e) => Err(e),
                Ok(None) => Ok(prefix),
                Ok(Some(c)) => Ok(prefix.push(c)),
            },
        }
    }
}

/// Two collections agree on everything but their resolved content.
pub open spec fn same_collection_core(a: Collection, b: Collection) -> bool {
    &&& a.id == b.id
    &&& a.collection_type == b.collection_type
    &&& a.parent == b.parent
}

/// Once a prefix of the rows fails to decode, the whole sequence fails
/// the same way.
proof fn lemma_decode_error_propagates(registry: Registry, rows: Seq<CollectionRow>, i: int)
    requires
        0 <= i <= rows.len(),
        spec_decode_collections(registry, rows.take(i)) is Err,
    ensures
        spec_decode_collections(registry, rows) == spec_decode_collections(registry, rows.take(i)),
    decreases rows.len() - i,
{
    if i == rows.len() {
        assert(rows.take(i) =~= rows);
    } else {
        assert(rows.take(i + 1).drop_last() =~= rows.take(i));
        lemma_decode_error_propagates(registry, rows, i + 1);
    }
}

/// Decodes one raw collection row under the registry.  `Ok(None)`
/// means the row is skipped: its entity identifier resolves to no
/// name, or to a subtype this crate does not know.
pub fn decode_collection_row(registry: &Registry, row: &CollectionRow) -> (r: Result<
    Option<Collection>,
    CatalogError,
>)
    ensures
        match r {
            Ok(c) => spec_decode_collection_row(*registry, *row) == Ok::<Option<Collection>, CatalogError>(
                c,
            ),
            Err(e) => spec_decode_collection_row(*registry, *row) == Err::<
                Option<Collection>,
                CatalogError,
            >(e),
        },
        r matches Err(e) ==> e is Decode,
{
    let name = match registry.resolve_name(row.entity) {
        Some(n) => n,
        None => {
            return Ok(None);
        },
    };
    let parent: CoId = match row.parent {
        Some(p) => p,
        None => 0,
    };
    let collection_type: CollectionType = if name == "ProjectCollection".to_owned() {
        CollectionType::Project
    } else if name == "CatalogAllImagesCollection".to_owned() {
        CollectionType::CatalogAll
    } else if name == "CatalogInternalImagesCollection".to_owned() {
        CollectionType::CatalogInternalImages
    } else if name == "TrashCollection".to_owned() {
        CollectionType::Trash
    } else if name == "AlbumCollection".to_owned() {
        match &row.name {
            Some(n) => CollectionType::Album(n.clone()),
            None => {
                return Err(CatalogError::Decode);
            },
        }
    } else if name == "CatalogFolderCollection".to_owned() {
        match row.folder_location {
            Some(f) => CollectionType::Folder(f),
            None => {
                return Err(CatalogError::Decode);
            },
        }
    } else if name == "VirtualFolderCollection".to_owned() {
        match &row.name {
            Some(n) => CollectionType::VirtualFolder(n.clone()),
            None => {
                return Err(CatalogError::Decode);
            },
        }
    } else {
        return Ok(None);
    };
    Ok(Some(Collection { id: row.id, collection_type, parent, content: None }))
}

/// Decodes raw collection rows under the registry, in row order,
/// skipping rows of unknown subtype; the first decode error fails the
/// whole load.
pub fn decode_collections(registry: &Registry, rows: &Vec<CollectionRow>) -> (r: Result<
    Vec<Collection>,
    CatalogError,
>)
    ensures
        match r {
            Ok(cs) => spec_decode_collections(*registry, rows@) == Ok::<Seq<Collection>, CatalogError>(
                cs@,
            ),
            Err(e) => spec_decode_collections(*registry, rows@) == Err::<Seq<Collection>, CatalogError>(
                e,
            ),
        },
        (r matches Ok(cs) ==> forall|i: int| 0 <= i < cs@.len() ==> (#[trigger] cs@[i]).content
            is None),
        r matches Err(e) ==> e is Decode,
{
    let mut out: Vec<Collection> = Vec::new();
    let mut i: usize = 0;
    while i < rows.len()
        invariant
            i <= rows@.len(),
            spec_decode_collections(*registry, rows@.take(i as int)) == Ok::<
                Seq<Collection>,
                CatalogError,
            >(out@),
            forall|j: int| 0 <= j < out@.len() ==> (#[trigger] out@[j]).content is None,
        decreases rows@.len() - i,
    {
        proof {
            assert(rows@.take(i + 1).drop_last() =~= rows@.take(i as int));
            assert(rows@.take(i + 1).last() == rows@[i as int]);
        }
        match decode_collection_row(registry, &rows[i]) {
            Ok(Some(c)) => {
                out.push(c);
            },
            Ok(None) => {},
            Err(e) => {
                proof {
                    lemma_decode_error_propagates(*registry, rows@, i + 1);
                }
                return Err(e);
            },
        }
        i = i + 1;
    }
    proof {
        assert(rows@.take(rows@.len() as int) =~= rows@);
    }
    Ok(out)
}

impl Collection {
    /// Loads every row of the collection table and decodes it under
    /// the registry, in storage order, skipping rows of unknown
    /// subtype; no content is resolved yet.  A query failure or a
    /// decode error is propagated.
    pub fn load_objects(conn: &rusqlite::Connection, entities: &Registry) -> (r: Result<
        Vec<Collection>,
        CatalogError,
    >)
        ensures
            (r matches Ok(cs) ==> exists|rows: Seq<CollectionRow>|
                spec_decode_collections(*entities, rows) == Ok::<Seq<Collection>, CatalogError>(cs@)),
            (r matches Ok(cs) ==> forall|i: int| 0 <= i < cs@.len() ==> (#[trigger] cs@[i]).content
                is None),
            r matches Err(e) ==> e is Sql || e is Decode,
    {
        match db::query_collection_rows(conn) {
            Ok(rows) => {
                let r = decode_collections(entities, &rows);
                match r {
                    Ok(cs) => {
                        proof {
                            assert(spec_decode_collections(*entities, rows@) == Ok::<
                                Seq<Collection>,
                                CatalogError,
                            >(cs@));
                        }
                        Ok(cs)
                    },
                    Err(e) => Err(e),
                }
            },
            Err(e) => Err(CatalogError::of_row_failure(e)),
        }
    }

    /// Resolves the collection's content: the identifiers of the
    /// stacks it owns.  Content already resolved is left exactly as it
    /// is — a second call never changes identifiers already present.
    /// On a fresh resolution the fetched (possibly empty) list is
    /// attached; a query failure is propagated verbatim and leaves the
    /// collection unchanged.
    pub fn get_content(&mut self, conn: &rusqlite::Connection) -> (r: Result<(), CatalogError>)
        ensures
            old(self).content matches Some(c) ==> r is Ok && *final(self) == *old(self),
            r is Ok ==> final(self).content is Some,
            final(self).id == old(self).id,
            final(self).collection_type == old(self).collection_type,
            final(self).parent == old(self).parent,
            r matches Err(e) ==> ((e is Sql || e is Decode) && *final(self) == *old(self)),
    {
        if self.content.is_some() {
            return Ok(());
        }
        match db::query_collection_stacks(conn, self.id) {
            Ok(ids) => {
                self.content = Some(ids);
                Ok(())
            },
            Err(e) => Err(CatalogError::of_row_failure(e)),
        }
    }
}

} // verus!
