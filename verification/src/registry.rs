//! The entity-type registry: a two-way lookup between the raw numeric
//! entity-type identifiers the store assigns and the semantic type names
//! the loaders go by.
//!
//! The numeric identifiers are not stable across catalog generations, so
//! no loader hardcodes one: each resolves the name it cares about here
//! first.  An absent name means the concept does not exist in this
//! catalog generation; callers treat that as "no such rows", not as an
//! error.

use vstd::prelude::*;

use crate::CoId;

verus! {

/// The identifier the (identifier, name) pairs resolve a name to: that
/// of the last pair carrying the name, as later rows of the type table
/// overwrite earlier ones.
pub open spec fn spec_id_of(entries: Seq<(i64, String)>, name: Seq<char>) -> Option<CoId>
    decreases entries.len(),
{
    if entries.len() == 0 {
        None
    } else if entries.last().1@ == name {
        Some(entries.last().0)
    } else {
        spec_id_of(entries.drop_last(), name)
    }
}

/// The name the (identifier, name) pairs resolve an identifier to: that
/// of the last pair carrying the identifier.
pub open spec fn spec_name_of(entries: Seq<(i64, String)>, id: CoId) -> Option<Seq<char>>
    decreases entries.len(),
{
    if entries.len() == 0 {
        None
    } else if entries.last().0 == id {
        Some(entries.last().1@)
    } else {
        spec_name_of(entries.drop_last(), id)
    }
}

/// The entity-type registry, populated once per session from the
/// store's self-describing type table.
pub struct Registry {
    entries: Vec<(i64, String)>,
}

impl Registry {
    /// The raw (identifier, name) pairs this registry was built from,
    /// in table order.
    pub closed spec fn entries_spec(&self) -> Seq<(i64, String)> {
        self.entries@
    }

    /// The identifier a semantic name resolves to, if the concept
    /// exists in this catalog generation.
    pub open spec fn id_of(&self, name: Seq<char>) -> Option<CoId> {
        spec_id_of(self.entries_spec(), name)
    }

    /// The semantic name a raw identifier resolves to, if any.
    pub open spec fn name_of(&self, id: CoId) -> Option<Seq<char>> {
        spec_name_of(self.entries_spec(), id)
    }

    /// An empty registry: nothing resolves.
    pub fn new() -> (r: Self)
        ensures
            r.entries_spec() == Seq::<(i64, String)>::empty(),
    {
        Registry { entries: Vec::new() }
    }

    /// Builds the registry from the raw rows of the type table.
    pub fn from_rows(rows: Vec<(i64, String)>) -> (r: Self)
        ensures
            r.entries_spec() == rows@,
    {
        Registry { entries: rows }
    }

    /// Resolves a semantic type name to its raw numeric identifier.
    /// `None` means the concept does not exist in this catalog
    /// generation.
    pub fn resolve_id(&self, name: &str) -> (r: Option<CoId>)
        ensures
            r == self.id_of(name@),
    {
        let wanted: String = name.to_owned();
        let mut i: usize = self.entries.len();
        proof {
            assert(self.entries@.take(i as int) =~= self.entries@);
        }
        while i > 0
            invariant
                i <= self.entries@.len(),
                wanted@ == name@,
                self.id_of(name@) == spec_id_of(self.entries@.take(i as int), name@),
            decreases i,
        {
            i = i - 1;
            proof {
                assert(self.entries@.take(i + 1).drop_last() =~= self.entries@.take(i as int));
                assert(self.entries@.take(i + 1).last() == self.entries@[i as int]);
            }
            if self.entries[i].1 == wanted {
                return Some(self.entries[i].0);
            }
        }
        proof {
            assert(self.entries@.take(0).len() == 0);
        }
        None
    }

    /// Resolves a raw numeric identifier to its semantic type name, if
    /// any.  Used by the polymorphic collection loader to decide which
    /// variant a row builds.
    pub fn resolve_name(&self, id: CoId) -> (r: Option<String>)
        ensures
            match r {
                Some(name) => self.name_of(id) == Some(name@),
                None => self.name_of(id) is None,
            },
    {
        let mut i: usize = self.entries.len();
        proof {
            assert(self.entries@.take(i as int) =~= self.entries@);
        }
        while i > 0
            invariant
                i <= self.entries@.len(),
                self.name_of(id) == spec_name_of(self.entries@.take(i as int), id),
            decreases i,
        {
            i = i - 1;
            proof {
                assert(self.entries@.take(i + 1).drop_last() =~= self.entries@.take(i as int));
                assert(self.entries@.take(i + 1).last() == self.entries@[i as int]);
            }
            if self.entries[i].0 == id {
                return Some(self.entries[i].1.clone());
            }
        }
        proof {
            assert(self.entries@.take(0).len() == 0);
        }
        None
    }
}

} // verus!
