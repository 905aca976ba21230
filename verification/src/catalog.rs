//! The catalog session: owns the single connection to one catalog
//! instance and is the sole entry point for every loader.
//!
//! The session opens the store, classifies its version, populates the
//! entity-type registry — only then may a typed loader run — and caches
//! each loaded collection for the session's lifetime.  There is no
//! invalidation or refresh path.

use vstd::prelude::*;

use crate::CoId;
use crate::CatalogError;
use crate::collections::Collection;
use crate::collections::spec_decode_collections;
use crate::db;
use crate::folders::Folders;
use crate::folders::spec_decode_folders;
use crate::images::Image;
use crate::images::spec_decode_images;
use crate::keywords::Keyword;
use crate::keywords::decode_keywords;
use crate::keywords::spec_decode_keywords;
use crate::keywordtree::KeywordTree;
use crate::keywordtree::spec_children_in;
use crate::registry::Registry;
use crate::stack::Stack;
use crate::stack::spec_decode_stacks;
use vstd::string::StringExecFns;

verus! {

/// The closed set of known catalog generations.  A version number
/// outside it classifies as `Unknown`, and unknown or unsupported
/// versions stop all further loading.
#[derive(Clone, Copy, Debug, Default, PartialEq, Eq, Structural)]
pub enum CatalogVersion {
    #[default]
    Unknown,
    Co1106,
    Co1200,
    Co1210,
}

/// The generation a raw version number classifies into.
pub open spec fn spec_version_of(val: i32) -> CatalogVersion {
    if val == 1210 {
        CatalogVersion::Co1210
    } else if val == 1200 {
        CatalogVersion::Co1200
    } else if val == 1106 {
        CatalogVersion::Co1106
    } else {
        CatalogVersion::Unknown
    }
}

impl CatalogVersion {
    /// A generation is supported exactly when it is known.
    pub open spec fn is_supported(self) -> bool {
        self != CatalogVersion::Unknown
    }
}

impl From<i32> for CatalogVersion {
    /// Classifies a raw version number read from the store.
    fn from(val: i32) -> (r: Self)
        ensures
            r == spec_version_of(val),
    {
        if val == 1210 {
            CatalogVersion::Co1210
        } else if val == 1200 {
            CatalogVersion::Co1200
        } else if val == 1106 {
            CatalogVersion::Co1106
        } else {
            CatalogVersion::Unknown
        }
    }
}

impl vstd::std_specs::convert::FromSpecImpl<i32> for CatalogVersion {
    open spec fn obeys_from_spec() -> bool {
        true
    }

    open spec fn from_spec(val: i32) -> Self {
        spec_version_of(val)
    }
}

/// One session over one catalog instance.
pub struct Catalog {
    /// Path the session was created for: the store file itself, or a
    /// directory holding it under the well-known name.
    path: String,
    /// Raw version number read from the store, 0 before `load_version`.
    pub version: i32,
    /// The generation the raw version number classifies into.
    pub catalog_version: CatalogVersion,
    /// Identifier of the root collection, 0 before `load_version`.
    pub root_collection_id: CoId,
    keywords: Option<Vec<Keyword>>,
    folders: Option<Folders>,
    collections: Option<Vec<Collection>>,
    images: Option<Vec<Image>>,
    stacks: Option<Vec<Stack>>,
    entities: Registry,
    registry_ready: bool,
    dbconn: Option<rusqlite::Connection>,
}

/// The parts of a session that no typed loader touches: the connection,
/// the version gate and the registry.
pub open spec fn same_session(pre: Catalog, post: Catalog) -> bool {
    &&& post.version_spec() == pre.version_spec()
    &&& post.catalog_version_spec() == pre.catalog_version_spec()
    &&& post.root_collection_spec() == pre.root_collection_spec()
    &&& post.path_spec() == pre.path_spec()
    &&& post.has_db() == pre.has_db()
    &&& post.registry_loaded() == pre.registry_loaded()
    &&& post.registry_spec() == pre.registry_spec()
}

/// The store file for a session path: the path itself, or the
/// well-known catalog filename inside it when the path names a
/// directory.
pub fn store_path(path: &str, is_dir: bool) -> (r: String)
    ensures
        is_dir ==> r@ == path@ + "/"@ + "Capture One Catalog.cocatalogdb"@,
        !is_dir ==> r@ == path@,
{
    if is_dir {
        let p: String = path.to_owned();
        let p = p.concat("/");
        p.concat("Capture One Catalog.cocatalogdb")
    } else {
        path.to_owned()
    }
}

impl Catalog {
    /// The path this session was created for.
    pub closed spec fn path_spec(&self) -> Seq<char> {
        self.path@
    }

    /// The raw version number, as `load_version()` left it.
    pub closed spec fn version_spec(&self) -> i32 {
        self.version
    }

    /// The classified generation, as `load_version()` left it.
    pub closed spec fn catalog_version_spec(&self) -> CatalogVersion {
        self.catalog_version
    }

    /// The root-collection identifier, as `load_version()` left it.
    pub closed spec fn root_collection_spec(&self) -> CoId {
        self.root_collection_id
    }

    /// Whether `open()` has succeeded: the session holds a connection.
    pub closed spec fn has_db(&self) -> bool {
        self.dbconn is Some
    }

    /// Whether `load_version()` has succeeded: the entity-type
    /// registry is populated and typed loaders may run.
    pub closed spec fn registry_loaded(&self) -> bool {
        self.registry_ready
    }

    /// The entity-type registry of this session.
    pub closed spec fn registry_spec(&self) -> Registry {
        self.entities
    }

    /// The cached keywords: `None` until the first successful
    /// `load_keywords()`.
    pub closed spec fn keywords_cache(&self) -> Option<Seq<Keyword>> {
        match self.keywords {
            Some(v) => Some(v@),
            None => None,
        }
    }

    /// The cached folders: `None` until the first successful
    /// `load_folders()`.
    pub closed spec fn folders_cache(&self) -> Option<Seq<crate::folders::Folder>> {
        match self.folders {
            Some(v) => Some(v@),
            None => None,
        }
    }

    /// The cached collections: `None` until the first successful
    /// `load_collections()`.
    pub closed spec fn collections_cache(&self) -> Option<Seq<Collection>> {
        match self.collections {
            Some(v) => Some(v@),
            None => None,
        }
    }

    /// The cached images: `None` until the first successful
    /// `load_images()`.
    pub closed spec fn images_cache(&self) -> Option<Seq<Image>> {
        match self.images {
            Some(v) => Some(v@),
            None => None,
        }
    }

    /// The cached stacks: `None` until the first successful
    /// `load_stacks()`.
    pub closed spec fn stacks_cache(&self) -> Option<Seq<Stack>> {
        match self.stacks {
            Some(v) => Some(v@),
            None => None,
        }
    }

    /// A fresh session for the catalog at `path`: nothing opened,
    /// nothing loaded.
    pub fn new(path: &str) -> (r: Self)
        ensures
            r.path_spec() == path@,
            !r.has_db(),
            !r.registry_loaded(),
            r.version_spec() == 0,
            r.catalog_version_spec() == CatalogVersion::Unknown,
            r.root_collection_spec() == 0,
            r.registry_spec().entries_spec() == Seq::<(i64, String)>::empty(),
            r.keywords_cache() is None,
            r.folders_cache() is None,
            r.collections_cache() is None,
            r.images_cache() is None,
            r.stacks_cache() is None,
    {
        Catalog {
            path: path.to_owned(),
            version: 0,
            catalog_version: CatalogVersion::Unknown,
            root_collection_id: 0,
            keywords: None,
            folders: None,
            collections: None,
            images: None,
            stacks: None,
            entities: Registry::new(),
            registry_ready: false,
            dbconn: None,
        }
    }

    /// A session over an already-open connection to a store.  The
    /// session behaves as if `open()` had just succeeded on it:
    /// nothing is classified or loaded yet.
    pub fn from_connection(conn: rusqlite::Connection) -> (r: Self)
        ensures
            r.has_db(),
            !r.registry_loaded(),
            r.version_spec() == 0,
            r.catalog_version_spec() == CatalogVersion::Unknown,
            r.root_collection_spec() == 0,
            r.registry_spec().entries_spec() == Seq::<(i64, String)>::empty(),
            r.keywords_cache() is None,
            r.folders_cache() is None,
            r.collections_cache() is None,
            r.images_cache() is None,
            r.stacks_cache() is None,
    {
        Catalog {
            path: String::new(),
            version: 0,
            catalog_version: CatalogVersion::Unknown,
            root_collection_id: 0,
            keywords: None,
            folders: None,
            collections: None,
            images: None,
            stacks: None,
            entities: Registry::new(),
            registry_ready: false,
            dbconn: Some(conn),
        }
    }

    /// Opens the backing store: the file at this session's path, or
    /// the well-known catalog filename inside it when the path is a
    /// directory.  On failure no state is touched; on success only the
    /// connection is attached.
    pub fn open(&mut self) -> (r: Result<(), CatalogError>)
        ensures
            r is Ok ==> final(self).has_db(),
            r matches Err(e) ==> e is Sql && *final(self) == *old(self),
            same_session_but_db(*old(self), *final(self)),
            final(self).keywords_cache() == old(self).keywords_cache(),
            final(self).folders_cache() == old(self).folders_cache(),
            final(self).collections_cache() == old(self).collections_cache(),
            final(self).images_cache() == old(self).images_cache(),
            final(self).stacks_cache() == old(self).stacks_cache(),
    {
        let dir = db::path_is_dir(self.path.as_str());
        let db_path = store_path(self.path.as_str(), dir);
        match db::connect(db_path.as_str()) {
            Ok(conn) => {
                self.dbconn = Some(conn);
                Ok(())
            },
            Err(e) => Err(CatalogError::Sql(e)),
        }
    }

    /// Reads the latest version record, classifies it, and — only for
    /// a supported generation — populates the entity-type registry
    /// from the type table and reads the root-collection identifier.
    /// Must succeed before any typed loader is used.  Fails with the
    /// no-database error if called before `open()` succeeded, with the
    /// unsupported-version error if classification yields an
    /// unrecognized generation, and propagates query failures
    /// verbatim.
    pub fn load_version(&mut self) -> (r: Result<(), CatalogError>)
        ensures
            !old(self).has_db() ==> (r matches Err(e) && e is NoDatabase && *final(self) == *old(
                self,
            )),
            old(self).has_db() ==> final(self).has_db(),
            final(self).path_spec() == old(self).path_spec(),
            final(self).keywords_cache() == old(self).keywords_cache(),
            final(self).folders_cache() == old(self).folders_cache(),
            final(self).collections_cache() == old(self).collections_cache(),
            final(self).images_cache() == old(self).images_cache(),
            final(self).stacks_cache() == old(self).stacks_cache(),
            r is Ok ==> {
                &&& final(self).registry_loaded()
                &&& final(self).catalog_version_spec() == spec_version_of(final(self).version_spec())
                &&& final(self).catalog_version_spec().is_supported()
            },
            r matches Err(e) ==> (e is NoDatabase || e is UnsupportedVersion || e is Sql),
            r is Err ==> {
                &&& final(self).registry_spec() == old(self).registry_spec()
                &&& final(self).root_collection_spec() == old(self).root_collection_spec()
            },
            (r matches Err(e) && e is NoDatabase) <==> !old(self).has_db(),
            r matches Err(e) && !(e is NoDatabase) ==> !final(self).registry_loaded(),
            r matches Err(e) && e is UnsupportedVersion ==> {
                &&& final(self).catalog_version_spec() == spec_version_of(final(self).version_spec())
                &&& !final(self).catalog_version_spec().is_supported()
            },
    {
        if self.dbconn.is_none() {
            return Err(CatalogError::NoDatabase);
        }
        self.registry_ready = false;
        let version_row = match &self.dbconn {
            Some(conn) => db::query_version(conn),
            None => {
                return Err(CatalogError::NoDatabase);
            },
        };
        let code: i32 = match version_row {
            Ok(Some(v)) => v,
            Ok(None) => 0,
            Err(e) => {
                return Err(CatalogError::Sql(e));
            },
        };
        self.version = code;
        self.catalog_version = CatalogVersion::from(code);
        if self.catalog_version == CatalogVersion::Unknown {
            return Err(CatalogError::UnsupportedVersion);
        }
        let entity_rows = match &self.dbconn {
            Some(conn) => db::query_entities(conn),
            None => {
                return Err(CatalogError::NoDatabase);
            },
        };
        let entity_rows = match entity_rows {
            Ok(rows) => rows,
            Err(e) => {
                return Err(CatalogError::Sql(e));
            },
        };
        let root_row = match &self.dbconn {
            Some(conn) => db::query_root_collection(conn),
            None => {
                return Err(CatalogError::NoDatabase);
            },
        };
        let root: CoId = match root_row {
            Ok(Some(v)) => v,
            Ok(None) => 0,
            Err(e) => {
                return Err(CatalogError::Sql(e));
            },
        };
        self.entities = Registry::from_rows(entity_rows);
        self.root_collection_id = root;
        self.registry_ready = true;
        Ok(())
    }

    /// Loads the keyword collection.  Idempotent: the first successful
    /// call queries and caches; later calls return the cached
    /// collection, identical in content and order, without touching
    /// the store.  A catalog generation without the Keyword concept
    /// yields an empty collection, not an error.  Fails fast with the
    /// no-registry error when `load_version()` has not succeeded.
    pub fn load_keywords(&mut self) -> (r: Result<&Vec<Keyword>, CatalogError>)
        ensures
            same_session(*old(self), *final(self)),
            final(self).folders_cache() == old(self).folders_cache(),
            final(self).collections_cache() == old(self).collections_cache(),
            final(self).images_cache() == old(self).images_cache(),
            final(self).stacks_cache() == old(self).stacks_cache(),
            !old(self).registry_loaded() ==> (r matches Err(e) && e is NoRegistry && *final(self)
                == *old(self)),
            old(self).registry_loaded() ==> (old(self).keywords_cache() matches Some(ks) ==> (r
                matches Ok(v) && v@ == ks && *final(self) == *old(self))),
            r matches Ok(v) ==> final(self).keywords_cache() == Some(v@),
            r matches Ok(v) ==> ((old(self).keywords_cache() is None && old(
                self,
            ).registry_spec().id_of("Keyword"@) is None) ==> v@ == Seq::<Keyword>::empty()),
            r matches Ok(v) ==> (old(self).keywords_cache() is None ==> exists|
                rows: Seq<(i64, String, Option<i64>)>,
            | v@ == spec_decode_keywords(rows)),
            (old(self).registry_loaded() && old(self).keywords_cache() is None && old(
                self,
            ).registry_spec().id_of("Keyword"@) is None) ==> r is Ok,
            r matches Err(_) ==> final(self).keywords_cache() == old(self).keywords_cache(),
            r matches Err(e) ==> (e is NoRegistry || e is NoDatabase || e is Sql || e is Decode),
            (old(self).registry_loaded() && old(self).has_db()) ==> (r matches Err(e) ==> (e
                is Sql || e is Decode)),
    {
        if !self.registry_ready {
            return Err(CatalogError::NoRegistry);
        }
        if self.keywords.is_some() {
            return Ok(self.keywords.as_ref().unwrap());
        }
        let entity = match self.entities.resolve_id("Keyword") {
            Some(e) => e,
            None => {
                let empty: Vec<Keyword> = Vec::new();
                proof {
                    assert(empty@ =~= spec_decode_keywords(
                        Seq::<(i64, String, Option<i64>)>::empty(),
                    ));
                }
                self.keywords = Some(empty);
                return Ok(self.keywords.as_ref().unwrap());
            },
        };
        let rows = match &self.dbconn {
            Some(conn) => db::query_keyword_rows(conn, entity),
            None => {
                return Err(CatalogError::NoDatabase);
            },
        };
        let rows = match rows {
            Ok(rows) => rows,
            Err(e) => {
                return Err(CatalogError::of_row_failure(e));
            },
        };
        let decoded = decode_keywords(&rows);
        self.keywords = Some(decoded);
        Ok(self.keywords.as_ref().unwrap())
    }

    /// Rebuilds the keyword hierarchy from the (possibly cached)
    /// keyword collection: one synthetic root (identifier 0) plus
    /// every loaded keyword indexed under its declared parent, in
    /// insertion order.  Always rebuilt; cheap enough that no separate
    /// caching is needed.
    pub fn load_keywords_tree(&mut self) -> (r: Result<KeywordTree, CatalogError>)
        ensures
            same_session(*old(self), *final(self)),
            final(self).folders_cache() == old(self).folders_cache(),
            final(self).collections_cache() == old(self).collections_cache(),
            final(self).images_cache() == old(self).images_cache(),
            final(self).stacks_cache() == old(self).stacks_cache(),
            !old(self).registry_loaded() ==> (r matches Err(e) && e is NoRegistry && *final(self)
                == *old(self)),
            r matches Ok(tree) ==> (final(self).keywords_cache() matches Some(ks) && (forall|
                id: CoId,
            | tree.children(id) == spec_children_in(ks, id)) && tree.has_node(0)),
            (old(self).registry_loaded() && (old(self).keywords_cache() is Some || old(
                self,
            ).registry_spec().id_of("Keyword"@) is None)) ==> r is Ok,
            r matches Err(_) ==> final(self).keywords_cache() == old(self).keywords_cache(),
            r matches Err(e) ==> (e is NoRegistry || e is NoDatabase || e is Sql || e is Decode),
            (old(self).registry_loaded() && old(self).has_db()) ==> (r matches Err(e) ==> (e
                is Sql || e is Decode)),
    {
        let keywords = match self.load_keywords() {
            Ok(k) => k,
            Err(e) => {
                return Err(e);
            },
        };
        let mut tree = KeywordTree::new();
        let root = Keyword::new(0, "", 0);
        tree.add_child(&root);
        tree.add_children(keywords);
        proof {
            assert forall|id: CoId| tree.children(id) == spec_children_in(keywords@, id) by {
                assert(Seq::<CoId>::empty() + spec_children_in(keywords@, id) =~= spec_children_in(
                    keywords@,
                    id,
                ));
            }
        }
        Ok(tree)
    }

    /// Loads the folder collection.  Idempotent: the first successful
    /// call queries and caches; later calls return the cached
    /// collection, identical in content and order, without touching
    /// the store.  A catalog generation without the PathLocation
    /// concept yields an empty collection, not an error.  Fails fast
    /// with the no-registry error when `load_version()` has not
    /// succeeded.
    pub fn load_folders(&mut self) -> (r: Result<&Folders, CatalogError>)
        ensures
            same_session(*old(self), *final(self)),
            final(self).keywords_cache() == old(self).keywords_cache(),
            final(self).collections_cache() == old(self).collections_cache(),
            final(self).images_cache() == old(self).images_cache(),
            final(self).stacks_cache() == old(self).stacks_cache(),
            !old(self).registry_loaded() ==> (r matches Err(e) && e is NoRegistry && *final(self)
                == *old(self)),
            old(self).registry_loaded() ==> (old(self).folders_cache() matches Some(fs) ==> (r
                matches Ok(v) && v@ == fs && *final(self) == *old(self))),
            r matches Ok(v) ==> final(self).folders_cache() == Some(v@),
            r matches Ok(v) ==> ((old(self).folders_cache() is None && old(
                self,
            ).registry_spec().id_of("PathLocation"@) is None) ==> v@ == Seq::<
                crate::folders::Folder,
            >::empty()),
            r matches Ok(v) ==> (old(self).folders_cache() is None ==> exists|
                rows: Seq<(i64, String, String, Option<bool>)>,
            | v@ == spec_decode_folders(rows)),
            (old(self).registry_loaded() && old(self).folders_cache() is None && old(
                self,
            ).registry_spec().id_of("PathLocation"@) is None) ==> r is Ok,
            r matches Err(_) ==> final(self).folders_cache() == old(self).folders_cache(),
            r matches Err(e) ==> (e is NoRegistry || e is NoDatabase || e is Sql || e is Decode),
            (old(self).registry_loaded() && old(self).has_db()) ==> (r matches Err(e) ==> (e
                is Sql || e is Decode)),
    {
        if !self.registry_ready {
            return Err(CatalogError::NoRegistry);
        }
        if self.folders.is_some() {
            return Ok(self.folders.as_ref().unwrap());
        }
        let entity = match self.entities.resolve_id("PathLocation") {
            Some(e) => e,
            None => {
                let empty: Folders = Vec::new();
                proof {
                    assert(empty@ =~= spec_decode_folders(
                        Seq::<(i64, String, String, Option<bool>)>::empty(),
                    ));
                }
                self.folders = Some(empty);
                return Ok(self.folders.as_ref().unwrap());
            },
        };
        let loaded = match &self.dbconn {
            Some(conn) => crate::folders::Folder::load_objects(conn, entity),
            None => {
                return Err(CatalogError::NoDatabase);
            },
        };
        let folders = match loaded {
            Ok(fs) => fs,
            Err(e) => {
                return Err(e);
            },
        };
        self.folders = Some(folders);
        Ok(self.folders.as_ref().unwrap())
    }

    /// Loads the image collection.  Idempotent: the first successful
    /// call queries and caches; later calls return the cached
    /// collection, identical in content and order, without touching
    /// the store.  A catalog generation without the Image concept
    /// yields an empty collection, not an error.  Fails fast with the
    /// no-registry error when `load_version()` has not succeeded.
    pub fn load_images(&mut self) -> (r: Result<&Vec<Image>, CatalogError>)
        ensures
            same_session(*old(self), *final(self)),
            final(self).keywords_cache() == old(self).keywords_cache(),
            final(self).folders_cache() == old(self).folders_cache(),
            final(self).collections_cache() == old(self).collections_cache(),
            final(self).stacks_cache() == old(self).stacks_cache(),
            !old(self).registry_loaded() ==> (r matches Err(e) && e is NoRegistry && *final(self)
                == *old(self)),
            old(self).registry_loaded() ==> (old(self).images_cache() matches Some(is) ==> (r
                matches Ok(v) && v@ == is && *final(self) == *old(self))),
            r matches Ok(v) ==> final(self).images_cache() == Some(v@),
            r matches Ok(v) ==> ((old(self).images_cache() is None && old(
                self,
            ).registry_spec().id_of("Image"@) is None) ==> v@ == Seq::<Image>::empty()),
            r matches Ok(v) ==> (old(self).images_cache() is None ==> exists|
                rows: Seq<crate::images::ImageRow>,
            | v@ == spec_decode_images(rows)),
            (old(self).registry_loaded() && old(self).images_cache() is None && old(
                self,
            ).registry_spec().id_of("Image"@) is None) ==> r is Ok,
            r matches Err(_) ==> final(self).images_cache() == old(self).images_cache(),
            r matches Err(e) ==> (e is NoRegistry || e is NoDatabase || e is Sql || e is Decode),
            (old(self).registry_loaded() && old(self).has_db()) ==> (r matches Err(e) ==> (e
                is Sql || e is Decode)),
    {
        if !self.registry_ready {
            return Err(CatalogError::NoRegistry);
        }
        if self.images.is_some() {
            return Ok(self.images.as_ref().unwrap());
        }
        let entity = match self.entities.resolve_id("Image") {
            Some(e) => e,
            None => {
                let empty: Vec<Image> = Vec::new();
                proof {
                    assert(empty@ =~= spec_decode_images(Seq::<crate::images::ImageRow>::empty()));
                }
                self.images = Some(empty);
                return Ok(self.images.as_ref().unwrap());
            },
        };
        let loaded = match &self.dbconn {
            Some(conn) => Image::load_objects(conn, entity),
            None => {
                return Err(CatalogError::NoDatabase);
            },
        };
        let images = match loaded {
            Ok(is) => is,
            Err(e) => {
                return Err(e);
            },
        };
        self.images = Some(images);
        Ok(self.images.as_ref().unwrap())
    }

    /// Loads the stack collection and resolves each stack's content.
    /// Idempotent: the first successful call queries and caches; later
    /// calls return the cached collection, identical in content and
    /// order, without touching the store.  A catalog generation
    /// without the Stack concept yields an empty collection, not an
    /// error.  Fails fast with the no-registry error when
    /// `load_version()` has not succeeded.
    pub fn load_stacks(&mut self) -> (r: Result<&Vec<Stack>, CatalogError>)
        ensures
            same_session(*old(self), *final(self)),
            final(self).keywords_cache() == old(self).keywords_cache(),
            final(self).folders_cache() == old(self).folders_cache(),
            final(self).collections_cache() == old(self).collections_cache(),
            final(self).images_cache() == old(self).images_cache(),
            !old(self).registry_loaded() ==> (r matches Err(e) && e is NoRegistry && *final(self)
                == *old(self)),
            old(self).registry_loaded() ==> (old(self).stacks_cache() matches Some(ss) ==> (r
                matches Ok(v) && v@ == ss && *final(self) == *old(self))),
            r matches Ok(v) ==> final(self).stacks_cache() == Some(v@),
            r matches Ok(v) ==> ((old(self).stacks_cache() is None && old(
                self,
            ).registry_spec().id_of("Stack"@) is None) ==> v@ == Seq::<Stack>::empty()),
            r matches Ok(v) ==> (old(self).stacks_cache() is None ==> forall|i: int|
                0 <= i < v@.len() ==> (#[trigger] v@[i]).content is Some),
            r matches Ok(v) ==> (old(self).stacks_cache() is None ==> exists|
                rows: Seq<(i64, i64, i64)>,
            |
                #![trigger spec_decode_stacks(rows)]
                {
                    let decoded = spec_decode_stacks(rows);
                    &&& v@.len() == decoded.len()
                    &&& forall|i: int| 0 <= i < v@.len() ==> crate::stack::same_stack_core(
                        #[trigger] v@[i],
                        decoded[i],
                    )
                }),
            (old(self).registry_loaded() && old(self).stacks_cache() is None && old(
                self,
            ).registry_spec().id_of("Stack"@) is None) ==> r is Ok,
            r matches Err(_) ==> final(self).stacks_cache() == old(self).stacks_cache(),
            r matches Err(e) ==> (e is NoRegistry || e is NoDatabase || e is Sql || e is Decode),
            (old(self).registry_loaded() && old(self).has_db()) ==> (r matches Err(e) ==> (e
                is Sql || e is Decode)),
    {
        if !self.registry_ready {
            return Err(CatalogError::NoRegistry);
        }
        if self.stacks.is_some() {
            return Ok(self.stacks.as_ref().unwrap());
        }
        let entity = match self.entities.resolve_id("Stack") {
            Some(e) => e,
            None => {
                proof {
                    assert(Seq::<Stack>::empty() =~= spec_decode_stacks(
                        Seq::<(i64, i64, i64)>::empty(),
                    ));
                }
                self.stacks = Some(Vec::new());
                return Ok(self.stacks.as_ref().unwrap());
            },
        };
        let conn = match &self.dbconn {
            Some(conn) => conn,
            None => {
                return Err(CatalogError::NoDatabase);
            },
        };
        let mut stacks = match Stack::load_objects(conn, entity) {
            Ok(ss) => ss,
            Err(e) => {
                return Err(e);
            },
        };
        let ghost fetched = stacks@;
        let mut i: usize = 0;
        while i < stacks.len()
            invariant
                i <= stacks@.len(),
                *self == *old(self),
                self.registry_loaded(),
                self.stacks_cache() is None,
                self.registry_spec().id_of("Stack"@) is Some,
                stacks@.len() == fetched.len(),
                exists|rows: Seq<(i64, i64, i64)>| fetched == spec_decode_stacks(rows),
                forall|j: int| 0 <= j < i ==> (#[trigger] stacks@[j]).content is Some,
                forall|j: int| 0 <= j < stacks@.len() ==> crate::stack::same_stack_core(
                    #[trigger] stacks@[j],
                    fetched[j],
                ),
            decreases stacks@.len() - i,
        {
            let ghost before = stacks@;
            let mut s = stacks.remove(i);
            match s.get_content(conn) {
                Ok(()) => {},
                Err(e) => {
                    return Err(e);
                },
            }
            stacks.insert(i, s);
            proof {
                assert(stacks@ =~= before.update(i as int, stacks@[i as int]));
            }
            i = i + 1;
        }
        self.stacks = Some(stacks);
        Ok(self.stacks.as_ref().unwrap())
    }

    /// Loads the collection table and resolves each collection's
    /// content.  Idempotent: the first successful call queries and
    /// caches; later calls return the cached collections, identical in
    /// content and order, without touching the store.  Rows whose
    /// subtype this crate does not know are skipped, never failing the
    /// load.  Fails fast with the no-registry error when
    /// `load_version()` has not succeeded.
    pub fn load_collections(&mut self) -> (r: Result<&Vec<Collection>, CatalogError>)
        ensures
            same_session(*old(self), *final(self)),
            final(self).keywords_cache() == old(self).keywords_cache(),
            final(self).folders_cache() == old(self).folders_cache(),
            final(self).images_cache() == old(self).images_cache(),
            final(self).stacks_cache() == old(self).stacks_cache(),
            !old(self).registry_loaded() ==> (r matches Err(e) && e is NoRegistry && *final(self)
                == *old(self)),
            old(self).registry_loaded() ==> (old(self).collections_cache() matches Some(cs) ==> (r
                matches Ok(v) && v@ == cs && *final(self) == *old(self))),
            r matches Ok(v) ==> final(self).collections_cache() == Some(v@),
            r matches Ok(v) ==> (old(self).collections_cache() is None ==> forall|i: int|
                0 <= i < v@.len() ==> (#[trigger] v@[i]).content is Some),
            r matches Ok(v) ==> (old(self).collections_cache() is None ==> exists|
                rows: Seq<crate::collections::CollectionRow>,
            |
                #![trigger spec_decode_collections(old(self).registry_spec(), rows)]
                {
                    let decoded = spec_decode_collections(old(self).registry_spec(), rows);
                    &&& decoded matches Ok(cs)
                    &&& v@.len() == cs.len()
                    &&& forall|i: int| 0 <= i < v@.len()
                        ==> crate::collections::same_collection_core(#[trigger] v@[i], cs[i])
                }),
            r matches Err(_) ==> final(self).collections_cache() == old(self).collections_cache(),
            r matches Err(e) ==> (e is NoRegistry || e is NoDatabase || e is Sql || e is Decode),
            (old(self).registry_loaded() && old(self).has_db()) ==> (r matches Err(e) ==> (e
                is Sql || e is Decode)),
    {
        if !self.registry_ready {
            return Err(CatalogError::NoRegistry);
        }
        if self.collections.is_some() {
            return Ok(self.collections.as_ref().unwrap());
        }
        let conn = match &self.dbconn {
            Some(conn) => conn,
            None => {
                return Err(CatalogError::NoDatabase);
            },
        };
        let mut collections = match Collection::load_objects(conn, &self.entities) {
            Ok(cs) => cs,
            Err(e) => {
                return Err(e);
            },
        };
        let ghost fetched = collections@;
        let mut i: usize = 0;
        while i < collections.len()
            invariant
                i <= collections@.len(),
                *self == *old(self),
                self.registry_loaded(),
                self.collections_cache() is None,
                collections@.len() == fetched.len(),
                exists|rows: Seq<crate::collections::CollectionRow>| spec_decode_collections(
                    self.registry_spec(),
                    rows,
                ) == Ok::<Seq<Collection>, CatalogError>(fetched),
                forall|j: int| 0 <= j < i ==> (#[trigger] collections@[j]).content is Some,
                forall|j: int| 0 <= j < collections@.len()
                    ==> crate::collections::same_collection_core(
                    #[trigger] collections@[j],
                    fetched[j],
                ),
            decreases collections@.len() - i,
        {
            let ghost before = collections@;
            let mut c = collections.remove(i);
            match c.get_content(conn) {
                Ok(()) => {},
                Err(e) => {
                    return Err(e);
                },
            }
            collections.insert(i, c);
            proof {
                assert(collections@ =~= before.update(i as int, collections@[i as int]));
            }
            i = i + 1;
        }
        self.collections = Some(collections);
        Ok(self.collections.as_ref().unwrap())
    }
}

/// The parts of a session `open()` does not touch: everything but the
/// connection.
pub open spec fn same_session_but_db(pre: Catalog, post: Catalog) -> bool {
    &&& post.version_spec() == pre.version_spec()
    &&& post.catalog_version_spec() == pre.catalog_version_spec()
    &&& post.root_collection_spec() == pre.root_collection_spec()
    &&& post.path_spec() == pre.path_spec()
    &&& post.registry_loaded() == pre.registry_loaded()
    &&& post.registry_spec() == pre.registry_spec()
}

} // verus!
