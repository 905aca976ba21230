//! Image records and the closed set of image formats.

use vstd::prelude::*;

use crate::CoId;

verus! {

/// The format of an image, decoded from a raw string.  Values outside
/// the closed set fold to `Unknown` rather than failing.
#[derive(Clone, Copy, Debug, PartialEq, Eq, Structural)]
pub enum ImageFormat {
    Unknown,
    Jpeg,
    Raw,
    Movie,
}

/// The format a raw format string decodes to.
pub open spec fn spec_format_of(s: Seq<char>) -> ImageFormat {
    if s == "JPEG"@ {
        ImageFormat::Jpeg
    } else if s == "RAW"@ {
        ImageFormat::Raw
    } else if s == "MOVIE"@ {
        ImageFormat::Movie
    } else {
        ImageFormat::Unknown
    }
}

impl From<&str> for ImageFormat {
    /// Decodes a raw format string; unrecognized values fold to
    /// `Unknown`.
    fn from(val: &str) -> (r: Self)
        ensures
            r == spec_format_of(val@),
    {
        let v: String = val.to_owned();
        if v == "JPEG".to_owned() {
            ImageFormat::Jpeg
        } else if v == "RAW".to_owned() {
            ImageFormat::Raw
        } else if v == "MOVIE".to_owned() {
            ImageFormat::Movie
        } else {
            ImageFormat::Unknown
        }
    }
}

impl vstd::std_specs::convert::FromSpecImpl<&str> for ImageFormat {
    open spec fn obeys_from_spec() -> bool {
        true
    }

    open spec fn from_spec(val: &str) -> Self {
        spec_format_of(val@)
    }
}

/// One raw row of the image table, as the store hands it back.  The GPS
/// coordinates are carried as decimal text, `None` when not recorded.
pub struct ImageRow {
    pub id: i64,
    pub uuid: String,
    pub folder: i64,
    pub display_name: String,
    pub file_name: String,
    pub class: i32,
    pub format: String,
    pub gps_alt: Option<String>,
    pub gps_lat: Option<String>,
    pub gps_long: Option<String>,
}

/// One image of the catalog.  `folder` is a foreign key into the folder
/// collection.  The GPS coordinates are carried as decimal text exactly
/// as the store rendered them, `None` when not recorded.
pub struct Image {
    pub id: CoId,
    pub uuid: String,
    pub folder: CoId,
    pub class: i32,
    pub format: ImageFormat,
    pub display_name: String,
    pub file_name: String,
    pub gps_alt: Option<String>,
    pub gps_lat: Option<String>,
    pub gps_long: Option<String>,
}

/// The image a raw row decodes to: fields are taken as they stand and
/// the format string is folded into the closed format set.
pub open spec fn spec_image_of_row(row: ImageRow) -> Image {
    Image {
        id: row.id,
        uuid: row.uuid,
        folder: row.folder,
        class: row.class,
        format: spec_format_of(row.format@),
        display_name: row.display_name,
        file_name: row.file_name,
        gps_alt: row.gps_alt,
        gps_lat: row.gps_lat,
        gps_long: row.gps_long,
    }
}

/// The images a whole sequence of raw rows decodes to, in row order.
pub open spec fn spec_decode_images(rows: Seq<ImageRow>) -> Seq<Image> {
    rows.map_values(|row: ImageRow| spec_image_of_row(row))
}

/// Decodes raw image rows into image records, in row order.
pub fn decode_images(rows: &Vec<ImageRow>) -> (r: Vec<Image>)
    ensures
        r@ == spec_decode_images(rows@),
{
    let mut out: Vec<Image> = Vec::new();
    let mut i: usize = 0;
    while i < rows.len()
        invariant
            i <= rows@.len(),
            out@ == spec_decode_images(rows@.take(i as int)),
        decreases rows@.len() - i,
    {
        let row = &rows[i];
        let format = ImageFormat::from(row.format.as_str());
        let image = Image {
            id: row.id,
            uuid: row.uuid.clone(),
            folder: row.folder,
            class: row.class,
            format,
            display_name: row.display_name.clone(),
            file_name: row.file_name.clone(),
            gps_alt: clone_opt_string(&row.gps_alt),
            gps_lat: clone_opt_string(&row.gps_lat),
            gps_long: clone_opt_string(&row.gps_long),
        };
        proof {
            assert(spec_decode_images(rows@.take(i + 1)) =~= spec_decode_images(
                rows@.take(i as int),
            ).push(spec_image_of_row(rows@[i as int])));
        }
        out.push(image);
        i = i + 1;
    }
    proof {
        assert(rows@.take(rows@.len() as int) =~= rows@);
    }
    out
}

impl Image {
    /// Loads every image row of the given entity type and decodes it,
    /// in storage order.  A malformed field is the decode error; any
    /// other query failure is propagated verbatim.
    pub fn load_objects(conn: &rusqlite::Connection, entity: CoId) -> (r: Result<
        Vec<Image>,
        crate::CatalogError,
    >)
        ensures
            (r matches Ok(images) ==> exists|rows: Seq<ImageRow>|
                images@ == spec_decode_images(rows)),
            r matches Err(e) ==> (e is Sql || e is Decode),
    {
        match crate::db::query_image_rows(conn, entity) {
            Ok(rows) => {
                let images = decode_images(&rows);
                proof {
                    assert(images@ == spec_decode_images(rows@));
                }
                Ok(images)
            },
            Err(e) => Err(crate::CatalogError::of_row_failure(e)),
        }
    }
}

/// Clones an optional string, keeping its value.
fn clone_opt_string(s: &Option<String>) -> (r: Option<String>)
    ensures
        r == *s,
{
    match s {
        Some(v) => Some(v.clone()),
        None => None,
    }
}

} // verus!
