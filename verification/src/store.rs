//! The key store: a mapping from key id to decoded public key.
//!
//! Entries live in a vector with unique key ids; the store's view is the
//! mapping that vector stands for.  Lookups never change the store; a merge
//! inserts or overwrites exactly the fetched entries.  The store itself is
//! sequential — the enclosing service shares it behind a lock and keeps the
//! exclusive phase to the in-memory merge, never across a network call.

use vstd::prelude::*;

use crate::json::string_eq_str;
use crate::keys::KeyEntry;
use crate::keys::KeyOriginM;
use crate::keys::RsaKey;
use crate::keys::clone_key;

verus! {

/// The mapping that a sequence of entries stands for; a later entry with
/// the same key id wins.
pub open spec fn entries_map(s: Seq<KeyEntry>) -> Map<Seq<char>, KeyOriginM>
    decreases s.len(),
{
    if s.len() == 0 {
        Map::empty()
    } else {
        entries_map(s.drop_last()).insert(s.last().kid@, s.last().key@)
    }
}

/// No key id appears twice.
pub open spec fn kids_unique(s: Seq<KeyEntry>) -> bool {
    forall|i: int, j: int| 0 <= i < j < s.len() ==> s[i].kid@ != s[j].kid@
}

/// Every entry of a unique-id sequence is in its mapping, with its key.
proof fn lemma_entries_map_index(s: Seq<KeyEntry>, i: int)
    requires
        kids_unique(s),
        0 <= i < s.len(),
    ensures
        entries_map(s).contains_key(s[i].kid@),
        entries_map(s)[s[i].kid@] == s[i].key@,
    decreases s.len(),
{
    if i == s.len() - 1 {
    } else {
        assert(kids_unique(s.drop_last()));
        assert(s.drop_last()[i] == s[i]);
        lemma_entries_map_index(s.drop_last(), i);
        assert(s[i].kid@ != s.last().kid@);
    }
}

/// A key id in the mapping belongs to some entry.
proof fn lemma_entries_map_dom(s: Seq<KeyEntry>, kid: Seq<char>)
    requires
        entries_map(s).contains_key(kid),
    ensures
        exists|i: int| 0 <= i < s.len() && s[i].kid@ == kid,
    decreases s.len(),
{
    if s.len() == 0 {
    } else if s.last().kid@ == kid {
        assert(s[s.len() - 1].kid@ == kid);
    } else {
        lemma_entries_map_dom(s.drop_last(), kid);
        let i = choose|i: int| 0 <= i < s.drop_last().len() && s.drop_last()[i].kid@ == kid;
        assert(s[i].kid@ == kid);
    }
}

/// Overwriting the entry that holds a key id updates the mapping at that
/// id and keeps the ids unique.
proof fn lemma_entries_map_update(s: Seq<KeyEntry>, i: int, ke: KeyEntry)
    requires
        kids_unique(s),
        0 <= i < s.len(),
        s[i].kid@ == ke.kid@,
    ensures
        entries_map(s.update(i, ke)) == entries_map(s).insert(ke.kid@, ke.key@),
        kids_unique(s.update(i, ke)),
    decreases s.len(),
{
    let t = s.update(i, ke);
    assert(forall|a: int| 0 <= a < s.len() ==> t[a].kid@ == s[a].kid@);
    if i == s.len() - 1 {
        assert(t.drop_last() =~= s.drop_last());
        assert(t.last() == ke);
        assert(entries_map(s.drop_last()).insert(ke.kid@, ke.key@) =~= entries_map(s).insert(
            ke.kid@,
            ke.key@,
        ));
    } else {
        assert(kids_unique(s.drop_last()));
        assert(s.drop_last()[i] == s[i]);
        lemma_entries_map_update(s.drop_last(), i, ke);
        assert(t.drop_last() =~= s.drop_last().update(i, ke));
        assert(t.last() == s.last());
        assert(ke.kid@ != s.last().kid@);
        assert(entries_map(s.drop_last()).insert(ke.kid@, ke.key@).insert(
            s.last().kid@,
            s.last().key@,
        ) =~= entries_map(s.drop_last()).insert(s.last().kid@, s.last().key@).insert(
            ke.kid@,
            ke.key@,
        ));
    }
}

/// An entry with no later entry for the same key id is what its mapping
/// holds at that id.
proof fn lemma_entries_map_latest(s: Seq<KeyEntry>, i: int)
    requires
        0 <= i < s.len(),
        forall|j: int| i < j < s.len() ==> s[j].kid@ != s[i].kid@,
    ensures
        entries_map(s).contains_key(s[i].kid@),
        entries_map(s)[s[i].kid@] == s[i].key@,
    decreases s.len(),
{
    if i == s.len() - 1 {
    } else {
        assert(s.drop_last()[i] == s[i]);
        lemma_entries_map_latest(s.drop_last(), i);
        assert(s[i].kid@ != s.last().kid@);
    }
}

/// What a merge publishes: an entry of the merged document with no later
/// entry for the same key id is exactly what a lookup after the merge
/// finds under that id, whatever the store held before.
pub proof fn lemma_merge_publishes(
    base: Map<Seq<char>, KeyOriginM>,
    new_keys: Seq<KeyEntry>,
    i: int,
)
    requires
        0 <= i < new_keys.len(),
        forall|j: int| i < j < new_keys.len() ==> new_keys[j].kid@ != new_keys[i].kid@,
    ensures
        base.union_prefer_right(entries_map(new_keys)).contains_key(new_keys[i].kid@),
        base.union_prefer_right(entries_map(new_keys))[new_keys[i].kid@] == new_keys[i].key@,
{
    lemma_entries_map_latest(new_keys, i);
}

/// A concurrency-safe mapping from key identifier to decoded public key;
/// supports lookup and bulk merge.
pub struct KeyStore {
    entries: Vec<KeyEntry>,
}

impl View for KeyStore {
    type V = Map<Seq<char>, KeyOriginM>;

    closed spec fn view(&self) -> Map<Seq<char>, KeyOriginM> {
        entries_map(self.entries@)
    }
}

impl KeyStore {
    /// Internal invariant: key ids are unique, so the vector and its
    /// mapping agree entry by entry.
    pub closed spec fn wf(&self) -> bool {
        kids_unique(self.entries@)
    }

    /// An empty store, as each process starts with.
    pub fn new() -> (r: KeyStore)
        ensures
            r.wf(),
            r@ == Map::<Seq<char>, KeyOriginM>::empty(),
    {
        KeyStore { entries: Vec::new() }
    }

    /// The index holding a key id, if any.
    fn find_idx(&self, kid: &str) -> (r: Option<usize>)
        ensures
            match r {
                Some(i) => i < self.entries@.len() && self.entries@[i as int].kid@ == kid@,
                None => forall|j: int|
                    0 <= j < self.entries@.len() ==> self.entries@[j].kid@ != kid@,
            },
    {
        let n = self.entries.len();
        let mut i: usize = 0;
        while i < n
            invariant
                n == self.entries@.len(),
                i <= n,
                forall|j: int| 0 <= j < i ==> self.entries@[j].kid@ != kid@,
            decreases n - i,
        {
            if string_eq_str(&self.entries[i].kid, kid) {
                return Some(i);
            }
            i = i + 1;
        }
        None
    }

    /// Looks a key id up; the store is unchanged, whatever the outcome.
    pub fn lookup(&self, kid: &str) -> (r: Option<&RsaKey>)
        requires
            self.wf(),
        ensures
            match r {
                Some(k) => self@.contains_key(kid@) && k@ == self@[kid@],
                None => !self@.contains_key(kid@),
            },
    {
        match self.find_idx(kid) {
            Some(i) => {
                proof {
                    lemma_entries_map_index(self.entries@, i as int);
                }
                Some(&self.entries[i].key)
            },
            None => {
                proof {
                    if self@.contains_key(kid@) {
                        lemma_entries_map_dom(self.entries@, kid@);
                    }
                }
                None
            },
        }
    }

    /// Inserts one entry, overwriting the one that held its key id.
    fn upsert(&mut self, ke: KeyEntry)
        requires
            old(self).wf(),
        ensures
            final(self).wf(),
            final(self)@ == old(self)@.insert(ke.kid@, ke.key@),
    {
        let ghost s0 = self.entries@;
        match self.find_idx(ke.kid.as_str()) {
            Some(i) => {
                proof {
                    lemma_entries_map_update(s0, i as int, ke);
                }
                self.entries[i] = ke;
            },
            None => {
                proof {
                    assert(s0.push(ke).drop_last() =~= s0);
                    assert(forall|a: int| 0 <= a < s0.len() ==> s0.push(ke)[a] == s0[a]);
                }
                self.entries.push(ke);
            },
        }
    }

    /// Merges fetched entries in: each is inserted or overwrites, and no
    /// unrelated entry changes.
    pub fn merge(&mut self, new_keys: &Vec<KeyEntry>)
        requires
            old(self).wf(),
        ensures
            final(self).wf(),
            final(self)@ == old(self)@.union_prefer_right(entries_map(new_keys@)),
    {
        let n = new_keys.len();
        let mut i: usize = 0;
        proof {
            assert(new_keys@.take(0) =~= Seq::<KeyEntry>::empty());
            assert(old(self)@.union_prefer_right(entries_map(new_keys@.take(0))) =~= old(self)@);
        }
        while i < n
            invariant
                old(self).wf(),
                self.wf(),
                n == new_keys@.len(),
                i <= n,
                self@ == old(self)@.union_prefer_right(entries_map(new_keys@.take(i as int))),
            decreases n - i,
        {
            let kid_copy = new_keys[i].kid.clone();
            let key_copy = clone_key(&new_keys[i].key);
            let ke = KeyEntry { kid: kid_copy, key: key_copy };
            let ghost mid = self@;
            self.upsert(ke);
            proof {
                let pre = new_keys@.take(i as int);
                let cur = new_keys@.take(i + 1);
                assert(cur.drop_last() =~= pre);
                assert(cur.last() == new_keys@[i as int]);
                assert(mid.insert(new_keys@[i as int].kid@, new_keys@[i as int].key@)
                    =~= old(self)@.union_prefer_right(entries_map(cur)));
            }
            i = i + 1;
        }
        proof {
            assert(new_keys@.take(n as int) =~= new_keys@);
        }
    }
}

} // verus!
