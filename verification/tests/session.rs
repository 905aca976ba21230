use c1::Catalog;
use c1::CatalogError;
use c1::CatalogVersion;
use c1::CollectionType;
use c1::ImageFormat;
use c1::Stack;

const SCHEMA: &str = "
CREATE TABLE ZVERSIONINFO (Z_PK INTEGER PRIMARY KEY, ZVERSION INTEGER);
CREATE TABLE ZENTITIES (Z_ENT INTEGER, ZNAME TEXT);
CREATE TABLE ZDOCUMENTCONTENT (ZROOTCOLLECTION INTEGER);
CREATE TABLE ZKEYWORD (Z_PK INTEGER, ZNAME TEXT, ZPARENT INTEGER, Z_ENT INTEGER);
CREATE TABLE ZPATHLOCATION (Z_PK INTEGER, ZMACROOT TEXT, ZRELATIVEPATH TEXT,
    ZISRELATIVE INTEGER, Z_ENT INTEGER);
CREATE TABLE ZIMAGE (Z_PK INTEGER, ZIMAGEUUID TEXT, ZIMAGELOCATION INTEGER,
    ZDISPLAYNAME TEXT, ZIMAGEFILENAME TEXT, ZIMAGECLASSIFICATION INTEGER,
    ZEXP_FORMAT TEXT, ZGPSALTITUDE REAL, ZGPSLATITUDE REAL, ZGPSLONGITUDE REAL,
    Z_ENT INTEGER);
CREATE TABLE ZSTACK (Z_PK INTEGER, ZCOLLECTION INTEGER, ZPICKEDIMAGE INTEGER,
    Z_ENT INTEGER);
CREATE TABLE ZSTACKIMAGELINK (ZIMAGE INTEGER, ZSTACK INTEGER);
CREATE TABLE ZCOLLECTION (Z_ENT INTEGER, Z_PK INTEGER, ZNAME TEXT,
    ZPARENT INTEGER, ZFOLDERLOCATION INTEGER);
";

const ENTITIES: &str = "
INSERT INTO ZENTITIES VALUES (35, 'Keyword');
INSERT INTO ZENTITIES VALUES (19, 'PathLocation');
INSERT INTO ZENTITIES VALUES (20, 'Image');
INSERT INTO ZENTITIES VALUES (21, 'Stack');
INSERT INTO ZENTITIES VALUES (30, 'ProjectCollection');
INSERT INTO ZENTITIES VALUES (31, 'AlbumCollection');
INSERT INTO ZENTITIES VALUES (32, 'CatalogFolderCollection');
INSERT INTO ZENTITIES VALUES (33, 'VirtualFolderCollection');
INSERT INTO ZENTITIES VALUES (34, 'TrashCollection');
INSERT INTO ZENTITIES VALUES (40, 'FancyCollection');
";

const DATA: &str = "
INSERT INTO ZVERSIONINFO VALUES (1, 1210);
INSERT INTO ZDOCUMENTCONTENT VALUES (100);
INSERT INTO ZKEYWORD VALUES (500, 'animals', 0, 35);
INSERT INTO ZKEYWORD VALUES (501, 'cats', 500, 35);
INSERT INTO ZKEYWORD VALUES (502, 'dogs', 500, 35);
INSERT INTO ZPATHLOCATION VALUES (200, '/media/', 'photos', 0, 19);
INSERT INTO ZPATHLOCATION VALUES (201, '/media/', 'videos', 1, 19);
INSERT INTO ZIMAGE VALUES (300, 'u-300', 200, 'One', 'one.jpg', 1, 'JPEG',
    12.5, NULL, NULL, 20);
INSERT INTO ZIMAGE VALUES (301, 'u-301', 201, 'Two', 'two.nef', 2, 'RAW',
    NULL, NULL, NULL, 20);
INSERT INTO ZSTACK VALUES (400, 101, 300, 21);
INSERT INTO ZSTACK VALUES (401, 102, 301, 21);
INSERT INTO ZSTACKIMAGELINK VALUES (300, 400);
INSERT INTO ZSTACKIMAGELINK VALUES (301, 400);
INSERT INTO ZCOLLECTION VALUES (30, 100, NULL, NULL, NULL);
INSERT INTO ZCOLLECTION VALUES (31, 101, 'Trip', 100, NULL);
INSERT INTO ZCOLLECTION VALUES (32, 102, NULL, 100, 200);
INSERT INTO ZCOLLECTION VALUES (33, 104, 'Favs', 100, NULL);
INSERT INTO ZCOLLECTION VALUES (34, 105, NULL, 100, NULL);
INSERT INTO ZCOLLECTION VALUES (40, 103, 'clever', 100, NULL);
INSERT INTO ZCOLLECTION VALUES (77, 106, NULL, NULL, NULL);
";

fn fixture_catalog() -> Catalog {
    let conn = rusqlite::Connection::open_in_memory().unwrap();
    conn.execute_batch(SCHEMA).unwrap();
    conn.execute_batch(ENTITIES).unwrap();
    conn.execute_batch(DATA).unwrap();
    Catalog::from_connection(conn)
}

#[test]
fn load_version_before_open_is_no_database() {
    let mut catalog = Catalog::new("no-store-here");
    assert!(matches!(catalog.load_version(), Err(CatalogError::NoDatabase)));
}

#[test]
fn load_version_on_empty_store_is_a_sql_error() {
    let conn = rusqlite::Connection::open_in_memory().unwrap();
    let mut catalog = Catalog::from_connection(conn);
    assert!(matches!(catalog.load_version(), Err(CatalogError::Sql(_))));
}

#[test]
fn open_accepts_a_plain_file_path() {
    let mut catalog = Catalog::new(":memory:");
    assert!(catalog.open().is_ok());
    // the freshly created in-memory store has no version table
    assert!(matches!(catalog.load_version(), Err(CatalogError::Sql(_))));
}

#[test]
fn unsupported_version_stops_loading() {
    let conn = rusqlite::Connection::open_in_memory().unwrap();
    conn.execute_batch(SCHEMA).unwrap();
    conn.execute_batch(ENTITIES).unwrap();
    conn.execute_batch("INSERT INTO ZVERSIONINFO VALUES (1, 999);").unwrap();
    let mut catalog = Catalog::from_connection(conn);
    assert!(matches!(
        catalog.load_version(),
        Err(CatalogError::UnsupportedVersion)
    ));
    assert_eq!(catalog.version, 999);
    assert_eq!(catalog.catalog_version, CatalogVersion::Unknown);
    // the registry never came up, so no typed loader returns data
    assert!(matches!(catalog.load_keywords(), Err(CatalogError::NoRegistry)));
    assert!(matches!(catalog.load_folders(), Err(CatalogError::NoRegistry)));
    assert!(matches!(catalog.load_images(), Err(CatalogError::NoRegistry)));
    assert!(matches!(catalog.load_stacks(), Err(CatalogError::NoRegistry)));
    assert!(matches!(
        catalog.load_collections(),
        Err(CatalogError::NoRegistry)
    ));
    assert!(matches!(
        catalog.load_keywords_tree(),
        Err(CatalogError::NoRegistry)
    ));
}

#[test]
fn loader_before_load_version_is_no_registry() {
    let mut catalog = fixture_catalog();
    assert!(matches!(catalog.load_keywords(), Err(CatalogError::NoRegistry)));
}

#[test]
fn supported_version_populates_the_gate() {
    let mut catalog = fixture_catalog();
    catalog.load_version().unwrap();
    assert_eq!(catalog.version, 1210);
    assert_eq!(catalog.catalog_version, CatalogVersion::Co1210);
    assert_eq!(catalog.root_collection_id, 100);
}

#[test]
fn loaders_are_idempotent_and_cached() {
    let mut catalog = fixture_catalog();
    catalog.load_version().unwrap();

    let first: Vec<(i64, String, i64)> = catalog
        .load_keywords()
        .unwrap()
        .iter()
        .map(|k| (k.id(), k.name.clone(), k.parent))
        .collect();
    let second: Vec<(i64, String, i64)> = catalog
        .load_keywords()
        .unwrap()
        .iter()
        .map(|k| (k.id(), k.name.clone(), k.parent))
        .collect();
    assert_eq!(first, second);
    assert_eq!(
        first,
        vec![
            (500, "animals".to_string(), 0),
            (501, "cats".to_string(), 500),
            (502, "dogs".to_string(), 500),
        ]
    );

    let folders_once: Vec<i64> =
        catalog.load_folders().unwrap().iter().map(|f| f.id()).collect();
    let folders_again: Vec<i64> =
        catalog.load_folders().unwrap().iter().map(|f| f.id()).collect();
    assert_eq!(folders_once, folders_again);
    assert_eq!(folders_once, vec![200, 201]);

    let images_once: Vec<i64> =
        catalog.load_images().unwrap().iter().map(|i| i.id).collect();
    let images_again: Vec<i64> =
        catalog.load_images().unwrap().iter().map(|i| i.id).collect();
    assert_eq!(images_once, images_again);
    assert_eq!(images_once, vec![300, 301]);

    let stacks_once: Vec<i64> =
        catalog.load_stacks().unwrap().iter().map(|s| s.id).collect();
    let stacks_again: Vec<i64> =
        catalog.load_stacks().unwrap().iter().map(|s| s.id).collect();
    assert_eq!(stacks_once, stacks_again);
    assert_eq!(stacks_once, vec![400, 401]);

    let collections_once: Vec<i64> =
        catalog.load_collections().unwrap().iter().map(|c| c.id).collect();
    let collections_again: Vec<i64> =
        catalog.load_collections().unwrap().iter().map(|c| c.id).collect();
    assert_eq!(collections_once, collections_again);
}

#[test]
fn image_records_carry_their_fields() {
    let mut catalog = fixture_catalog();
    catalog.load_version().unwrap();
    let images = catalog.load_images().unwrap();
    assert_eq!(images.len(), 2);
    assert_eq!(images[0].uuid, "u-300");
    assert_eq!(images[0].folder, 200);
    assert_eq!(images[0].display_name, "One");
    assert_eq!(images[0].file_name, "one.jpg");
    assert_eq!(images[0].class, 1);
    assert_eq!(images[0].format, ImageFormat::Jpeg);
    assert_eq!(images[0].gps_alt.as_deref(), Some("12.5"));
    assert!(images[0].gps_lat.is_none());
    assert_eq!(images[1].format, ImageFormat::Raw);
    assert!(images[1].gps_alt.is_none());
}

#[test]
fn folder_records_carry_their_fields() {
    let mut catalog = fixture_catalog();
    catalog.load_version().unwrap();
    let folders = catalog.load_folders().unwrap();
    assert_eq!(folders.len(), 2);
    assert_eq!(folders[0].root_folder, "/media/");
    assert_eq!(folders[0].path_from_root, "photos");
    assert!(!folders[0].is_relative);
    assert!(folders[1].is_relative);
}

#[test]
fn unknown_collection_subtypes_are_skipped() {
    let mut catalog = fixture_catalog();
    catalog.load_version().unwrap();
    let collections = catalog.load_collections().unwrap();
    // rows 103 (registered, unknown subtype) and 106 (unregistered
    // entity) are skipped; the five known rows survive
    let ids: Vec<i64> = collections.iter().map(|c| c.id).collect();
    assert_eq!(ids, vec![100, 101, 102, 104, 105]);
    assert!(matches!(collections[0].collection_type, CollectionType::Project));
    match &collections[1].collection_type {
        CollectionType::Album(name) => assert_eq!(name, "Trip"),
        _ => panic!("expected an Album variant"),
    }
    assert!(matches!(
        collections[2].collection_type,
        CollectionType::Folder(200)
    ));
    match &collections[3].collection_type {
        CollectionType::VirtualFolder(name) => assert_eq!(name, "Favs"),
        _ => panic!("expected a VirtualFolder variant"),
    }
    assert!(matches!(collections[4].collection_type, CollectionType::Trash));
}

#[test]
fn album_without_name_fails_the_collection_load() {
    let conn = rusqlite::Connection::open_in_memory().unwrap();
    conn.execute_batch(SCHEMA).unwrap();
    conn.execute_batch(ENTITIES).unwrap();
    conn.execute_batch(
        "INSERT INTO ZVERSIONINFO VALUES (1, 1200);
         INSERT INTO ZDOCUMENTCONTENT VALUES (1);
         INSERT INTO ZCOLLECTION VALUES (31, 101, NULL, NULL, NULL);",
    )
    .unwrap();
    let mut catalog = Catalog::from_connection(conn);
    catalog.load_version().unwrap();
    assert_eq!(catalog.catalog_version, CatalogVersion::Co1200);
    assert!(matches!(
        catalog.load_collections(),
        Err(CatalogError::Decode)
    ));
}

#[test]
fn malformed_required_image_field_is_a_decode_error() {
    let conn = rusqlite::Connection::open_in_memory().unwrap();
    conn.execute_batch(SCHEMA).unwrap();
    conn.execute_batch(ENTITIES).unwrap();
    conn.execute_batch(
        "INSERT INTO ZVERSIONINFO VALUES (1, 1210);
         INSERT INTO ZDOCUMENTCONTENT VALUES (1);
         INSERT INTO ZIMAGE VALUES (300, X'01', 200, 'One', 'one.jpg', 1, 'JPEG',
             NULL, NULL, NULL, 20);",
    )
    .unwrap();
    let mut catalog = Catalog::from_connection(conn);
    catalog.load_version().unwrap();
    // the uuid column holds a blob where text is required
    assert!(matches!(catalog.load_images(), Err(CatalogError::Decode)));
}

#[test]
fn malformed_required_keyword_field_is_a_decode_error() {
    let conn = rusqlite::Connection::open_in_memory().unwrap();
    conn.execute_batch(SCHEMA).unwrap();
    conn.execute_batch(ENTITIES).unwrap();
    conn.execute_batch(
        "INSERT INTO ZVERSIONINFO VALUES (1, 1210);
         INSERT INTO ZDOCUMENTCONTENT VALUES (1);
         INSERT INTO ZKEYWORD VALUES ('not-an-id', 'animals', 0, 35);",
    )
    .unwrap();
    let mut catalog = Catalog::from_connection(conn);
    catalog.load_version().unwrap();
    // the identifier column holds text where an integer is required
    assert!(matches!(catalog.load_keywords(), Err(CatalogError::Decode)));
}

#[test]
fn missing_table_is_a_sql_error_not_a_decode_error() {
    let conn = rusqlite::Connection::open_in_memory().unwrap();
    conn.execute_batch(
        "CREATE TABLE ZVERSIONINFO (Z_PK INTEGER PRIMARY KEY, ZVERSION INTEGER);
         CREATE TABLE ZENTITIES (Z_ENT INTEGER, ZNAME TEXT);
         CREATE TABLE ZDOCUMENTCONTENT (ZROOTCOLLECTION INTEGER);
         INSERT INTO ZVERSIONINFO VALUES (1, 1210);
         INSERT INTO ZENTITIES VALUES (35, 'Keyword');
         INSERT INTO ZDOCUMENTCONTENT VALUES (1);",
    )
    .unwrap();
    let mut catalog = Catalog::from_connection(conn);
    catalog.load_version().unwrap();
    // there is no ZKEYWORD table at all: a storage failure, not a
    // malformed field
    assert!(matches!(catalog.load_keywords(), Err(CatalogError::Sql(_))));
}

#[test]
fn missing_concept_yields_an_empty_collection() {
    let conn = rusqlite::Connection::open_in_memory().unwrap();
    conn.execute_batch(SCHEMA).unwrap();
    conn.execute_batch(
        "INSERT INTO ZENTITIES VALUES (35, 'Keyword');
         INSERT INTO ZVERSIONINFO VALUES (1, 1106);
         INSERT INTO ZDOCUMENTCONTENT VALUES (1);",
    )
    .unwrap();
    let mut catalog = Catalog::from_connection(conn);
    catalog.load_version().unwrap();
    assert_eq!(catalog.catalog_version, CatalogVersion::Co1106);
    assert!(catalog.load_stacks().unwrap().is_empty());
    assert!(catalog.load_folders().unwrap().is_empty());
    assert!(catalog.load_images().unwrap().is_empty());
    assert!(catalog.load_keywords().unwrap().is_empty());
}

#[test]
fn stack_content_resolution_is_lazy_and_idempotent() {
    let conn = rusqlite::Connection::open_in_memory().unwrap();
    conn.execute_batch(SCHEMA).unwrap();
    conn.execute_batch(
        "INSERT INTO ZSTACKIMAGELINK VALUES (300, 400);
         INSERT INTO ZSTACKIMAGELINK VALUES (301, 400);",
    )
    .unwrap();

    let mut stack = Stack { id: 400, collection: 101, pick: 300, content: None };
    assert!(stack.content.is_none());

    stack.get_content(&conn).unwrap();
    assert_eq!(stack.content.as_deref(), Some(&[300, 301][..]));

    stack.get_content(&conn).unwrap();
    assert_eq!(stack.content.as_deref(), Some(&[300, 301][..]));

    // resolved-and-empty is distinct from never-resolved
    let mut empty_stack = Stack { id: 999, collection: 101, pick: 300, content: None };
    empty_stack.get_content(&conn).unwrap();
    assert_eq!(empty_stack.content.as_deref(), Some(&[][..]));
}

#[test]
fn loaded_stacks_and_collections_have_resolved_content() {
    let mut catalog = fixture_catalog();
    catalog.load_version().unwrap();
    for stack in catalog.load_stacks().unwrap() {
        assert!(stack.content.is_some());
    }
    let stacks = catalog.load_stacks().unwrap();
    assert_eq!(stacks[0].content.as_deref(), Some(&[300, 301][..]));
    assert_eq!(stacks[1].content.as_deref(), Some(&[][..]));
    for collection in catalog.load_collections().unwrap() {
        assert!(collection.content.is_some());
    }
}

#[test]
fn keyword_tree_follows_the_loaded_keywords() {
    let mut catalog = fixture_catalog();
    catalog.load_version().unwrap();
    let tree = catalog.load_keywords_tree().unwrap();
    assert_eq!(tree.children_for(0), vec![500]);
    assert_eq!(tree.children_for(500), vec![501, 502]);
    assert!(tree.children_for(501).is_empty());
    assert!(tree.children_for(12345).is_empty());
}

#[test]
fn cross_references_resolve_on_a_known_good_catalog() {
    let mut catalog = fixture_catalog();
    catalog.load_version().unwrap();

    let keyword_ids: Vec<i64> =
        catalog.load_keywords().unwrap().iter().map(|k| k.id()).collect();
    let keyword_parents: Vec<i64> =
        catalog.load_keywords().unwrap().iter().map(|k| k.parent).collect();
    let folder_ids: Vec<i64> =
        catalog.load_folders().unwrap().iter().map(|f| f.id()).collect();
    let image_ids: Vec<i64> =
        catalog.load_images().unwrap().iter().map(|i| i.id).collect();
    let image_folders: Vec<i64> =
        catalog.load_images().unwrap().iter().map(|i| i.folder).collect();
    let stack_ids: Vec<i64> =
        catalog.load_stacks().unwrap().iter().map(|s| s.id).collect();

    // every keyword parent is another keyword or the synthetic root
    for parent in keyword_parents {
        assert!(parent == 0 || keyword_ids.contains(&parent));
    }
    // every image's folder is a loaded folder
    for folder in image_folders {
        assert!(folder_ids.contains(&folder));
    }

    let collection_ids: Vec<i64> =
        catalog.load_collections().unwrap().iter().map(|c| c.id).collect();
    let collections = catalog.load_collections().unwrap();
    for collection in collections {
        // every collection parent is another collection or absent
        assert!(collection.parent == 0 || collection_ids.contains(&collection.parent));
        // every member stack identifier is a loaded stack
        for member in collection.content.as_deref().unwrap() {
            assert!(stack_ids.contains(member));
        }
        if let CollectionType::Folder(folder) = &collection.collection_type {
            assert!(folder_ids.contains(folder));
        }
    }

    let stacks = catalog.load_stacks().unwrap();
    for stack in stacks {
        // every stack's owning collection and pick image resolve
        assert!(collection_ids.contains(&stack.collection));
        assert!(image_ids.contains(&stack.pick));
        // every member image identifier is a loaded image
        for member in stack.content.as_deref().unwrap() {
            assert!(image_ids.contains(member));
        }
    }
}
