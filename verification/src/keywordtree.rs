//! The keyword hierarchy: a derived parent-to-children index over the
//! flat keyword records, rooted at a synthetic identifier-0 node.

use vstd::prelude::*;

use crate::CoId;
use crate::keywords::Keyword;

verus! {

/// The identifiers of the keywords of `kws` whose parent is `parent`,
/// in the order the keywords stand in `kws`.
pub open spec fn spec_children_in(kws: Seq<Keyword>, parent: CoId) -> Seq<CoId>
    decreases kws.len(),
{
    if kws.len() == 0 {
        Seq::empty()
    } else if kws.last().parent == parent {
        spec_children_in(kws.drop_last(), parent).push(kws.last().id)
    } else {
        spec_children_in(kws.drop_last(), parent)
    }
}

/// The children recorded for `id` by the index entries, read so that
/// the latest entry for an identifier wins.
pub open spec fn spec_children_of_entries(entries: Seq<(CoId, Vec<CoId>)>, id: CoId) -> Seq<CoId>
    decreases entries.len(),
{
    if entries.len() == 0 {
        Seq::empty()
    } else if entries.last().0 == id {
        entries.last().1@
    } else {
        spec_children_of_entries(entries.drop_last(), id)
    }
}

/// An identifier no entry carries has no children recorded.
proof fn lemma_children_absent(entries: Seq<(CoId, Vec<CoId>)>, id: CoId)
    requires
        forall|j: int| 0 <= j < entries.len() ==> (#[trigger] entries[j]).0 != id,
    ensures
        spec_children_of_entries(entries, id) == Seq::<CoId>::empty(),
    decreases entries.len(),
{
    if entries.len() > 0 {
        lemma_children_absent(entries.drop_last(), id);
    }
}

/// Replacing the latest entry of a key rewrites that key's children and
/// no other's.
proof fn lemma_children_update(
    entries: Seq<(CoId, Vec<CoId>)>,
    idx: int,
    entry: (CoId, Vec<CoId>),
    id: CoId,
)
    requires
        0 <= idx < entries.len(),
        entries[idx].0 == entry.0,
        forall|j: int| idx < j < entries.len() ==> (#[trigger] entries[j]).0 != entry.0,
    ensures
        spec_children_of_entries(entries.update(idx, entry), id) == if id == entry.0 {
            entry.1@
        } else {
            spec_children_of_entries(entries, id)
        },
    decreases entries.len(),
{
    let updated = entries.update(idx, entry);
    if idx == entries.len() - 1 {
        assert(updated.last() == entry);
        assert(updated.drop_last() =~= entries.drop_last());
    } else {
        assert(updated.last() == entries.last());
        assert(updated.drop_last() =~= entries.drop_last().update(idx, entry));
        lemma_children_update(entries.drop_last(), idx, entry, id);
    }
}

/// The latest entry of a key holds exactly that key's recorded
/// children.
proof fn lemma_children_at_last(entries: Seq<(CoId, Vec<CoId>)>, idx: int)
    requires
        0 <= idx < entries.len(),
        forall|j: int| idx < j < entries.len() ==> (#[trigger] entries[j]).0 != entries[idx].0,
    ensures
        spec_children_of_entries(entries, entries[idx].0) == entries[idx].1@,
    decreases entries.len(),
{
    if idx < entries.len() - 1 {
        lemma_children_at_last(entries.drop_last(), idx);
    }
}

/// The keyword hierarchy: for every identifier, the ordered list of its
/// direct children's identifiers.  Built from the flat keyword records;
/// one synthetic root (identifier 0) owns every top-level keyword.
pub struct KeywordTree {
    entries: Vec<(CoId, Vec<CoId>)>,
    nodes: Vec<CoId>,
}

impl KeywordTree {
    /// The ordered identifiers of the direct children recorded for
    /// `id`.  Empty for an identifier nothing was inserted under.
    pub closed spec fn children(&self, id: CoId) -> Seq<CoId> {
        spec_children_of_entries(self.entries@, id)
    }

    /// Whether `id` was registered as a record of its own (the
    /// synthetic root, through `add_child`).
    pub closed spec fn has_node(&self, id: CoId) -> bool {
        self.nodes@.contains(id)
    }

    /// An empty hierarchy: no children recorded for any identifier.
    pub fn new() -> (r: Self)
        ensures
            forall|id: CoId| r.children(id) == Seq::<CoId>::empty(),
            forall|id: CoId| !r.has_node(id),
    {
        let r = KeywordTree { entries: Vec::new(), nodes: Vec::new() };
        proof {
            assert forall|id: CoId| r.children(id) == Seq::<CoId>::empty() by {
                assert(r.entries@.len() == 0);
            }
        }
        r
    }

    /// Registers `keyword` as a record of the hierarchy without
    /// attaching it under any parent; the children recorded for every
    /// identifier are unchanged.  Used for the synthetic root.
    pub fn add_child(&mut self, keyword: &Keyword)
        ensures
            forall|id: CoId| final(self).children(id) == old(self).children(id),
            final(self).has_node(keyword.id),
            forall|id: CoId| old(self).has_node(id) ==> final(self).has_node(id),
    {
        let ghost before = self.nodes@;
        self.nodes.push(keyword.id);
        proof {
            assert(self.nodes@.last() == keyword.id);
            assert(self.nodes@.contains(keyword.id));
            assert forall|id: CoId| before.contains(id) implies self.nodes@.contains(id) by {
                let j = choose|j: int| 0 <= j < before.len() && before[j] == id;
                assert(self.nodes@[j] == id);
            }
        }
    }

    /// The index of the latest entry recorded for `key`, if any.
    fn find_last(&self, key: CoId) -> (r: Option<usize>)
        ensures
            match r {
                Some(idx) => {
                    &&& idx < self.entries@.len()
                    &&& self.entries@[idx as int].0 == key
                    &&& forall|j: int|
                        idx < j < self.entries@.len() ==> (#[trigger] self.entries@[j]).0 != key
                },
                None => forall|j: int|
                    0 <= j < self.entries@.len() ==> (#[trigger] self.entries@[j]).0 != key,
            },
    {
        let mut i: usize = self.entries.len();
        while i > 0
            invariant
                i <= self.entries@.len(),
                forall|j: int| i <= j < self.entries@.len() ==> (#[trigger] self.entries@[j]).0
                    != key,
            decreases i,
        {
            i = i - 1;
            if self.entries[i].0 == key {
                return Some(i);
            }
        }
        None
    }

    /// Inserts `child` at the end of the children recorded for
    /// `parent`; every other identifier's children are unchanged.
    fn add_under(&mut self, parent: CoId, child: CoId)
        ensures
            forall|id: CoId| final(self).children(id) == old(self).children(id) + (if id == parent {
                seq![child]
            } else {
                Seq::<CoId>::empty()
            }),
            forall|id: CoId| final(self).has_node(id) == old(self).has_node(id),
    {
        let ghost before = self.entries@;
        match self.find_last(parent) {
            Some(idx) => {
                let mut entry = self.entries.remove(idx);
                entry.1.push(child);
                let ghost updated_entry = entry;
                self.entries.insert(idx, entry);
                proof {
                    assert(self.entries@ =~= before.update(idx as int, updated_entry));
                    assert forall|id: CoId|
                        self.children(id) == old(self).children(id) + (if id == parent {
                            seq![child]
                        } else {
                            Seq::<CoId>::empty()
                        }) by {
                        lemma_children_update(before, idx as int, updated_entry, id);
                        if id == parent {
                            lemma_children_at_last(before, idx as int);
                            assert(updated_entry.1@ =~= before[idx as int].1@ + seq![child]);
                        } else {
                            assert(old(self).children(id) + Seq::<CoId>::empty() =~= old(
                                self,
                            ).children(id));
                        }
                    }
                }
            },
            None => {
                let mut v: Vec<CoId> = Vec::new();
                v.push(child);
                let ghost new_entry = (parent, v);
                self.entries.push((parent, v));
                proof {
                    assert(self.entries@.last().0 == parent);
                    assert(self.entries@.drop_last() =~= before);
                    assert forall|id: CoId|
                        self.children(id) == old(self).children(id) + (if id == parent {
                            seq![child]
                        } else {
                            Seq::<CoId>::empty()
                        }) by {
                        if id == parent {
                            assert(self.children(id) == new_entry.1@);
                            lemma_children_absent(before, parent);
                            assert(self.children(id) =~= Seq::<CoId>::empty() + seq![child]);
                        } else {
                            assert(old(self).children(id) + Seq::<CoId>::empty() =~= old(
                                self,
                            ).children(id));
                        }
                    }
                }
            },
        }
    }

    /// Inserts every keyword of `keywords`, in order, under its
    /// declared parent identifier.  No sorting: insertion order is
    /// preserved.
    pub fn add_children(&mut self, keywords: &Vec<Keyword>)
        ensures
            forall|id: CoId| final(self).children(id) == old(self).children(id)
                + spec_children_in(keywords@, id),
            forall|id: CoId| final(self).has_node(id) == old(self).has_node(id),
    {
        let mut i: usize = 0;
        while i < keywords.len()
            invariant
                i <= keywords@.len(),
                forall|id: CoId| self.children(id) == old(self).children(id) + spec_children_in(
                    keywords@.take(i as int),
                    id,
                ),
                forall|id: CoId| self.has_node(id) == old(self).has_node(id),
            decreases keywords@.len() - i,
        {
            let kw = &keywords[i];
            self.add_under(kw.parent, kw.id);
            proof {
                assert(keywords@.take(i + 1).drop_last() =~= keywords@.take(i as int));
                assert(keywords@.take(i + 1).last() == keywords@[i as int]);
                assert forall|id: CoId|
                    self.children(id) == old(self).children(id) + spec_children_in(
                        keywords@.take(i + 1),
                        id,
                    ) by {
                    if id == keywords@[i as int].parent {
                        assert(spec_children_in(keywords@.take(i + 1), id) =~= spec_children_in(
                            keywords@.take(i as int),
                            id,
                        ).push(keywords@[i as int].id));
                        assert(self.children(id) =~= old(self).children(id) + spec_children_in(
                            keywords@.take(i + 1),
                            id,
                        ));
                    } else {
                        assert(self.children(id) =~= old(self).children(id) + spec_children_in(
                            keywords@.take(i + 1),
                            id,
                        ));
                    }
                }
            }
            i = i + 1;
        }
        proof {
            assert(keywords@.take(keywords@.len() as int) =~= keywords@);
        }
    }

    /// The (possibly empty) ordered sequence of direct children
    /// recorded for `id`.  An identifier that no loaded keyword
    /// declares as parent — known or not — yields an empty sequence,
    /// never an error.
    pub fn children_for(&self, id: CoId) -> (r: Vec<CoId>)
        ensures
            r@ == self.children(id),
    {
        match self.find_last(id) {
            Some(idx) => {
                let r = self.entries[idx].1.clone();
                proof {
                    lemma_children_at_last(self.entries@, idx as int);
                    let recorded = self.entries@[idx as int].1;
                    assert forall|k: int| 0 <= k < r@.len() implies r@[k] == recorded@[k] by {}
                    assert(r@ =~= recorded@);
                }
                r
            },
            None => {
                proof {
                    lemma_children_absent(self.entries@, id);
                }
                Vec::new()
            },
        }
    }
}

} // verus!
