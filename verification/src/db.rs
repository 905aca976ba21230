//! Trusted boundary to the SQLite store.
//!
//! Every access to the backing database goes through one of the wrappers
//! below; each wrapper runs exactly one of the queries the catalog format
//! defines and hands the rows back as plain values.  What a query returns
//! depends on what is on disk, so the wrappers promise nothing about the
//! row values themselves: the verified decoders state what is made of
//! whatever came back.

use vstd::prelude::*;

use crate::collections::CollectionRow;
use crate::images::ImageRow;

verus! {

/// Declares rusqlite's connection handle so it can stand in signatures
/// and fields.  Values of it are opaque to the verifier.
#[verifier::external_type_specification]
#[verifier::external_body]
pub struct ExConnection(rusqlite::Connection);

/// Declares rusqlite's error type so queries can hand their failures
/// back verbatim.  Values of it are opaque to the verifier.
#[verifier::external_type_specification]
#[verifier::external_body]
pub struct ExSqlError(rusqlite::Error);

/// Relies on `std::path::Path::is_dir`: whether the path names an
/// existing directory on disk.  The answer depends on the file system,
/// so nothing is promised of it.
#[verifier::external_body]
pub(crate) fn path_is_dir(path: &str) -> bool {
    std::path::Path::new(path).is_dir()
}

/// Relies on `rusqlite::Connection::open` to open the SQLite store at
/// the given path.
#[verifier::external_body]
pub(crate) fn connect(db_path: &str) -> Result<rusqlite::Connection, rusqlite::Error> {
    rusqlite::Connection::open(db_path)
}

/// Relies on rusqlite's error variants: `Row::get` reports a column
/// that cannot be read as the requested Rust type through exactly
/// `InvalidColumnType`, `IntegralValueOutOfRange`, `Utf8Error` and
/// `FromSqlConversionFailure`.  Such a failure means a malformed field;
/// any other failure does not.
#[verifier::external_body]
pub(crate) fn is_column_failure(e: &rusqlite::Error) -> bool {
    matches!(
        e,
        rusqlite::Error::InvalidColumnType(_, _, _)
            | rusqlite::Error::IntegralValueOutOfRange(_, _)
            | rusqlite::Error::Utf8Error(_, _)
            | rusqlite::Error::FromSqlConversionFailure(_, _, _)
    )
}

/// Relies on rusqlite's `Connection::prepare`, `Statement::query`,
/// `Rows::next` and `Row::get` to read the most recent version number
/// from the version table, if any row exists.
#[verifier::external_body]
pub(crate) fn query_version(conn: &rusqlite::Connection) -> Result<
    Option<i32>,
    rusqlite::Error,
> {
    let mut stmt = conn.prepare("SELECT ZVERSION FROM ZVERSIONINFO ORDER BY Z_PK DESC")?;
    let mut rows = stmt.query(())?;
    match rows.next()? {
        Some(row) => Ok(Some(row.get(0)?)),
        None => Ok(None),
    }
}

/// Relies on rusqlite's `Connection::prepare`, `Statement::query`,
/// `Rows::next` and `Row::get` to read every (numeric identifier,
/// semantic name) pair of the entity-type table.
#[verifier::external_body]
pub(crate) fn query_entities(conn: &rusqlite::Connection) -> Result<
    Vec<(i64, String)>,
    rusqlite::Error,
> {
    let mut stmt = conn.prepare("SELECT Z_ENT, ZNAME FROM ZENTITIES")?;
    let mut rows = stmt.query(())?;
    let mut out: Vec<(i64, String)> = Vec::new();
    while let Some(row) = rows.next()? {
        out.push((row.get(0)?, row.get(1)?));
    }
    Ok(out)
}

/// Relies on rusqlite's `Connection::prepare`, `Statement::query`,
/// `Rows::next` and `Row::get` to read the root-collection identifier
/// record, if any row exists.
#[verifier::external_body]
pub(crate) fn query_root_collection(conn: &rusqlite::Connection) -> Result<
    Option<i64>,
    rusqlite::Error,
> {
    let mut stmt = conn.prepare("SELECT ZROOTCOLLECTION FROM ZDOCUMENTCONTENT")?;
    let mut rows = stmt.query(())?;
    match rows.next()? {
        Some(row) => Ok(Some(row.get(0)?)),
        None => Ok(None),
    }
}

/// Relies on rusqlite's `Connection::prepare`, `Statement::query`,
/// `Rows::next` and `Row::get` to read every keyword row of the given
/// entity type as (identifier, name, parent).  The parent is `None`
/// when the column is absent or cannot be read as an integer.
#[verifier::external_body]
pub(crate) fn query_keyword_rows(conn: &rusqlite::Connection, entity: i64) -> Result<
    Vec<(i64, String, Option<i64>)>,
    rusqlite::Error,
> {
    let mut stmt = conn.prepare("SELECT Z_PK, ZNAME, ZPARENT FROM ZKEYWORD WHERE Z_ENT=?1")?;
    let mut rows = stmt.query([entity])?;
    let mut out: Vec<(i64, String, Option<i64>)> = Vec::new();
    while let Some(row) = rows.next()? {
        out.push((row.get(0)?, row.get(1)?, row.get::<usize, Option<i64>>(2).ok().flatten()));
    }
    Ok(out)
}

/// Relies on rusqlite's `Connection::prepare`, `Statement::query`,
/// `Rows::next` and `Row::get` to read every folder row of the given
/// entity type as (identifier, root path, path from root, relative flag).
/// The flag is `None` when the column is absent.
#[verifier::external_body]
pub(crate) fn query_folder_rows(conn: &rusqlite::Connection, entity: i64) -> Result<
    Vec<(i64, String, String, Option<bool>)>,
    rusqlite::Error,
> {
    let mut stmt = conn.prepare(
        "SELECT Z_PK, ZMACROOT, ZRELATIVEPATH, ZISRELATIVE FROM ZPATHLOCATION WHERE Z_ENT=?1",
    )?;
    let mut rows = stmt.query([entity])?;
    let mut out: Vec<(i64, String, String, Option<bool>)> = Vec::new();
    while let Some(row) = rows.next()? {
        out.push((row.get(0)?, row.get(1)?, row.get(2)?, row.get(3)?));
    }
    Ok(out)
}

/// Relies on rusqlite's `Connection::prepare`, `Statement::query`,
/// `Rows::next` and `Row::get` to read every image row of the given
/// entity type.  The GPS columns are rendered to decimal text by the
/// query itself (`CAST ... AS TEXT`) and are `None` when not recorded.
#[verifier::external_body]
pub(crate) fn query_image_rows(conn: &rusqlite::Connection, entity: i64) -> Result<
    Vec<ImageRow>,
    rusqlite::Error,
> {
    let mut stmt = conn.prepare(
        "SELECT Z_PK, ZIMAGEUUID, ZIMAGELOCATION, ZDISPLAYNAME, ZIMAGEFILENAME, ZIMAGECLASSIFICATION, ZEXP_FORMAT, CAST(ZGPSALTITUDE AS TEXT), CAST(ZGPSLATITUDE AS TEXT), CAST(ZGPSLONGITUDE AS TEXT) FROM ZIMAGE WHERE Z_ENT=?1",
    )?;
    let mut rows = stmt.query([entity])?;
    let mut out: Vec<ImageRow> = Vec::new();
    while let Some(row) = rows.next()? {
        out.push(ImageRow {
            id: row.get(0)?, uuid: row.get(1)?, folder: row.get(2)?,
            display_name: row.get(3)?, file_name: row.get(4)?, class: row.get(5)?,
            format: row.get(6)?, gps_alt: row.get(7)?, gps_lat: row.get(8)?,
            gps_long: row.get(9)?,
        });
    }
    Ok(out)
}

/// Relies on rusqlite's `Connection::prepare`, `Statement::query`,
/// `Rows::next` and `Row::get` to read every stack row of the given
/// entity type as (identifier, owning collection, pick image).
#[verifier::external_body]
pub(crate) fn query_stack_rows(conn: &rusqlite::Connection, entity: i64) -> Result<
    Vec<(i64, i64, i64)>,
    rusqlite::Error,
> {
    let mut stmt = conn.prepare(
        "SELECT Z_PK, ZCOLLECTION, ZPICKEDIMAGE FROM ZSTACK WHERE Z_ENT=?1",
    )?;
    let mut rows = stmt.query([entity])?;
    let mut out: Vec<(i64, i64, i64)> = Vec::new();
    while let Some(row) = rows.next()? {
        out.push((row.get(0)?, row.get(1)?, row.get(2)?));
    }
    Ok(out)
}

/// Relies on rusqlite's `Connection::prepare`, `Statement::query`,
/// `Rows::next` and `Row::get` to read the identifiers of the images
/// linked to the given stack.
#[verifier::external_body]
pub(crate) fn query_stack_images(conn: &rusqlite::Connection, stack: i64) -> Result<
    Vec<i64>,
    rusqlite::Error,
> {
    let mut stmt = conn.prepare("SELECT ZIMAGE FROM ZSTACKIMAGELINK WHERE ZSTACK=?1")?;
    let mut rows = stmt.query([stack])?;
    let mut out: Vec<i64> = Vec::new();
    while let Some(row) = rows.next()? {
        out.push(row.get(0)?);
    }
    Ok(out)
}

/// Relies on rusqlite's `Connection::prepare`, `Statement::query`,
/// `Rows::next` and `Row::get` to read every row of the collection
/// table: its entity type, identifier, display name, parent and folder
/// location.  Name, parent and folder location are `None` when absent
/// (the parent also when it cannot be read as an integer).
#[verifier::external_body]
pub(crate) fn query_collection_rows(conn: &rusqlite::Connection) -> Result<
    Vec<CollectionRow>,
    rusqlite::Error,
> {
    let mut stmt = conn.prepare(
        "SELECT Z_ENT, Z_PK, ZNAME, ZPARENT, ZFOLDERLOCATION FROM ZCOLLECTION",
    )?;
    let mut rows = stmt.query(())?;
    let mut out: Vec<CollectionRow> = Vec::new();
    while let Some(row) = rows.next()? {
        out.push(CollectionRow {
            entity: row.get(0)?,
            id: row.get(1)?,
            name: row.get(2)?,
            parent: row.get::<usize, Option<i64>>(3).ok().flatten(),
            folder_location: row.get(4)?,
        });
    }
    Ok(out)
}

/// Relies on rusqlite's `Connection::prepare`, `Statement::query`,
/// `Rows::next` and `Row::get` to read the identifiers of the stacks
/// owned by the given collection.
#[verifier::external_body]
pub(crate) fn query_collection_stacks(conn: &rusqlite::Connection, collection: i64) -> Result<
    Vec<i64>,
    rusqlite::Error,
> {
    let mut stmt = conn.prepare("SELECT Z_PK FROM ZSTACK WHERE ZCOLLECTION=?1")?;
    let mut rows = stmt.query([collection])?;
    let mut out: Vec<i64> = Vec::new();
    while let Some(row) = rows.next()? {
        out.push(row.get(0)?);
    }
    Ok(out)
}

} // verus!
