//! Stack records: groups of images with one designated "pick"
//! (representative) image.

use vstd::prelude::*;

use crate::CoId;
use crate::CatalogError;
use crate::db;

verus! {

/// One stack of the catalog.  `content` is the lazily resolved list of
/// the member images' identifiers: `None` until it has been fetched,
/// which is distinct from "fetched and empty".
pub struct Stack {
    pub id: CoId,
    pub collection: CoId,
    pub pick: CoId,
    pub content: Option<Vec<CoId>>,
}

/// The stack a raw row (identifier, collection, pick) decodes to: its
/// content starts unresolved.
pub open spec fn spec_stack_of_row(row: (i64, i64, i64)) -> Stack {
    Stack { id: row.0, collection: row.1, pick: row.2, content: None }
}

/// The stacks a whole sequence of raw rows decodes to, in row order.
pub open spec fn spec_decode_stacks(rows: Seq<(i64, i64, i64)>) -> Seq<Stack> {
    rows.map_values(|row: (i64, i64, i64)| spec_stack_of_row(row))
}

/// Two stacks agree on everything but their resolved content.
pub open spec fn same_stack_core(a: Stack, b: Stack) -> bool {
    &&& a.id == b.id
    &&& a.collection == b.collection
    &&& a.pick == b.pick
}

/// Decodes raw stack rows into stack records, in row order, every one
/// with unresolved content.
pub fn decode_stacks(rows: &Vec<(i64, i64, i64)>) -> (r: Vec<Stack>)
    ensures
        r@ == spec_decode_stacks(rows@),
{
    let mut out: Vec<Stack> = Vec::new();
    let mut i: usize = 0;
    while i < rows.len()
        invariant
            i <= rows@.len(),
            out@ == spec_decode_stacks(rows@.take(i as int)),
        decreases rows@.len() - i,
    {
        let stack = Stack { id: rows[i].0, collection: rows[i].1, pick: rows[i].2, content: None };
        proof {
            assert(spec_decode_stacks(rows@.take(i + 1)) =~= spec_decode_stacks(
                rows@.take(i as int),
            ).push(spec_stack_of_row(rows@[i as int])));
        }
        out.push(stack);
        i = i + 1;
    }
    proof {
        assert(rows@.take(rows@.len() as int) =~= rows@);
    }
    out
}

impl Stack {
    /// Loads every stack row of the given entity type and decodes it,
    /// in storage order; no content is resolved yet.  A malformed field
    /// is the decode error; any other query failure is propagated
    /// verbatim.
    pub fn load_objects(conn: &rusqlite::Connection, entity: CoId) -> (r: Result<Vec<Stack>, CatalogError>)
        ensures
            (r matches Ok(stacks) ==> exists|rows: Seq<(i64, i64, i64)>|
                stacks@ == spec_decode_stacks(rows)),
            (r matches Ok(stacks) ==> forall|i: int| 0 <= i < stacks@.len() ==> (
            #[trigger] stacks@[i]).content is None),
            r matches Err(e) ==> (e is Sql || e is Decode),
    {
        match db::query_stack_rows(conn, entity) {
            Ok(rows) => {
                let stacks = decode_stacks(&rows);
                proof {
                    assert(stacks@ == spec_decode_stacks(rows@));
                }
                Ok(stacks)
            },
            Err(e) => Err(CatalogError::of_row_failure(e)),
        }
    }

    /// Resolves the stack's content: the identifiers of its member
    /// images.  Content already resolved is left exactly as it is — a
    /// second call never changes identifiers already present.  On a
    /// fresh resolution the fetched (possibly empty) list is attached;
    /// a malformed member identifier is the decode error, any other
    /// query failure is propagated verbatim, and either failure leaves
    /// the stack unchanged.
    pub fn get_content(&mut self, conn: &rusqlite::Connection) -> (r: Result<(), CatalogError>)
        ensures
            old(self).content matches Some(c) ==> r is Ok && *final(self) == *old(self),
            r is Ok ==> final(self).content is Some,
            final(self).id == old(self).id,
            final(self).collection == old(self).collection,
            final(self).pick == old(self).pick,
            r matches Err(e) ==> ((e is Sql || e is Decode) && *final(self) == *old(self)),
    {
        if self.content.is_some() {
            return Ok(());
        }
        match db::query_stack_images(conn, self.id) {
            Ok(ids) => {
                self.content = Some(ids);
                Ok(())
            },
            Err(e) => Err(CatalogError::of_row_failure(e)),
        }
    }
}

} // verus!
