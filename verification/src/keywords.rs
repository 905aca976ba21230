//! Keyword records: a name plus a parent pointer into the keyword
//! hierarchy.

use vstd::prelude::*;

use crate::CoId;

verus! {

/// One keyword of the catalog.  `parent` is the identifier of the
/// enclosing keyword, or 0 for a top-level keyword.
pub struct Keyword {
    pub id: CoId,
    pub name: String,
    pub parent: CoId,
}

/// An absent or unreadable parent pointer falls back to 0, the
/// synthetic root.
pub open spec fn spec_parent_or_root(parent: Option<i64>) -> CoId {
    match parent {
        Some(p) => p,
        None => 0,
    }
}

/// The keyword a raw row (identifier, name, parent) decodes to.
pub open spec fn spec_keyword_of_row(row: (i64, String, Option<i64>)) -> Keyword {
    Keyword { id: row.0, name: row.1, parent: spec_parent_or_root(row.2) }
}

/// The keywords a whole sequence of raw rows decodes to, in row order.
pub open spec fn spec_decode_keywords(rows: Seq<(i64, String, Option<i64>)>) -> Seq<Keyword> {
    rows.map_values(|row: (i64, String, Option<i64>)| spec_keyword_of_row(row))
}

impl Keyword {
    /// Builds a keyword from its parts.
    pub fn new(id: CoId, name: &str, parent: CoId) -> (r: Self)
        ensures
            r.id == id,
            r.name@ == name@,
            r.parent == parent,
    {
        Keyword { id, name: name.to_owned(), parent }
    }

    /// The keyword's identifier.
    pub fn id(&self) -> (r: CoId)
        ensures
            r == self.id,
    {
        self.id
    }
}

/// Decodes raw keyword rows into keyword records, in row order.  An
/// absent parent pointer falls back to 0; the other fields are taken
/// as they stand.
pub fn decode_keywords(rows: &Vec<(i64, String, Option<i64>)>) -> (r: Vec<Keyword>)
    ensures
        r@ == spec_decode_keywords(rows@),
{
    let mut out: Vec<Keyword> = Vec::new();
    let mut i: usize = 0;
    while i < rows.len()
        invariant
            i <= rows@.len(),
            out@ == spec_decode_keywords(rows@.take(i as int)),
        decreases rows@.len() - i,
    {
        let id: i64 = rows[i].0;
        let name: String = rows[i].1.clone();
        let parent: CoId = match rows[i].2 {
            Some(v) => v,
            None => 0,
        };
        proof {
            assert(spec_decode_keywords(rows@.take(i + 1)) =~= spec_decode_keywords(
                rows@.take(i as int),
            ).push(spec_keyword_of_row(rows@[i as int])));
        }
        out.push(Keyword { id, name, parent });
        i = i + 1;
    }
    proof {
        assert(rows@.take(rows@.len() as int) =~= rows@);
    }
    out
}

} // verus!
