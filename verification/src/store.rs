//! The entry store: at most one entry for each `(topic, key)`, the latest
//! write winning.

use vstd::prelude::*;
use crate::entry::{CacheEntry, EntryView};
use crate::freshness::entry_view;

verus! {

/// A `(topic, key)` pair.
pub type EntryId = (Seq<char>, Seq<char>);

/// Whether every entry of `entries` is well formed and filed under its own
/// `(topic, key)`.
pub open spec fn entries_well_formed(entries: Map<EntryId, EntryView>) -> bool {
    forall|id: EntryId| #[trigger]
        entries.contains_key(id) ==> entries[id].id() == id && entries[id].well_formed()
}

/// Whether some entry of `s` is filed under `id`.
spec fn holds(s: Seq<EntryView>, id: EntryId) -> bool {
    exists|i: int| 0 <= i < s.len() && (#[trigger] s[i]).id() == id
}

/// The place of the entry filed under `id`.
spec fn place(s: Seq<EntryView>, id: EntryId) -> int {
    choose|i: int| 0 <= i < s.len() && (#[trigger] s[i]).id() == id
}

/// Whether no two entries of `s` are filed under the same pair.
spec fn distinct(s: Seq<EntryView>) -> bool {
    forall|i: int, j: int| 0 <= i < j < s.len() ==> (#[trigger] s[i]).id() != (#[trigger] s[j]).id()
}

/// The entries of `s` by the pair they are filed under.
spec fn by_id(s: Seq<EntryView>) -> Map<EntryId, EntryView> {
    Map::new(|id: EntryId| holds(s, id), |id: EntryId| s[place(s, id)])
}

proof fn lemma_place(s: Seq<EntryView>, i: int)
    requires
        distinct(s),
        0 <= i < s.len(),
    ensures
        holds(s, s[i].id()),
        place(s, s[i].id()) == i,
{
    let j = place(s, s[i].id());
    assert(0 <= j < s.len() && s[j].id() == s[i].id());
    if j < i {
        assert(s[j].id() != s[i].id());
    } else if i < j {
        assert(s[i].id() != s[j].id());
    }
}

proof fn lemma_replace(s: Seq<EntryView>, i: int, e: EntryView)
    requires
        distinct(s),
        0 <= i < s.len(),
        s[i].id() == e.id(),
    ensures
        distinct(s.update(i, e)),
        by_id(s.update(i, e)) == by_id(s).insert(e.id(), e),
{
    let t = s.update(i, e);
    assert(distinct(t)) by {
        assert forall|a: int, b: int| 0 <= a < b < t.len() implies (#[trigger] t[a]).id() != (
        #[trigger] t[b]).id() by {
            assert(t[a].id() == s[a].id());
            assert(t[b].id() == s[b].id());
        }
    }
    assert forall|id: EntryId| holds(t, id) <==> holds(s, id) by {
        if holds(t, id) {
            let k = place(t, id);
            assert(s[k].id() == id);
        }
        if holds(s, id) {
            let k = place(s, id);
            assert(t[k].id() == id);
        }
    }
    lemma_place(s, i);
    assert forall|id: EntryId| holds(t, id) implies t[place(t, id)] == (if id == e.id() {
        e
    } else {
        s[place(s, id)]
    }) by {
        let k = place(t, id);
        lemma_place(t, k);
        assert(s[k].id() == id);
        lemma_place(s, k);
    }
    assert(by_id(t) =~= by_id(s).insert(e.id(), e));
}

proof fn lemma_append(s: Seq<EntryView>, e: EntryView)
    requires
        distinct(s),
        !holds(s, e.id()),
    ensures
        distinct(s.push(e)),
        by_id(s.push(e)) == by_id(s).insert(e.id(), e),
{
    let t = s.push(e);
    assert(distinct(t)) by {
        assert forall|a: int, b: int| 0 <= a < b < t.len() implies (#[trigger] t[a]).id() != (
        #[trigger] t[b]).id() by {
            assert(t[a] == s[a]);
            if b < s.len() {
                assert(t[b] == s[b]);
            } else {
                assert(t[b] == e);
            }
        }
    }
    assert(t[s.len() as int] == e);
    assert forall|id: EntryId| holds(t, id) <==> (holds(s, id) || id == e.id()) by {
        if holds(t, id) {
            let k = place(t, id);
            if k < s.len() {
                assert(s[k].id() == id);
            }
        }
        if holds(s, id) {
            let k = place(s, id);
            assert(t[k].id() == id);
        }
    }
    assert forall|id: EntryId| holds(t, id) implies t[place(t, id)] == (if id == e.id() {
        e
    } else {
        s[place(s, id)]
    }) by {
        let k = place(t, id);
        lemma_place(t, k);
        if k < s.len() {
            assert(s[k].id() == id);
            lemma_place(s, k);
        }
    }
    assert(by_id(t) =~= by_id(s).insert(e.id(), e));
}

proof fn lemma_drop(s: Seq<EntryView>, i: int)
    requires
        distinct(s),
        0 <= i < s.len(),
    ensures
        distinct(s.remove(i)),
        by_id(s.remove(i)) == by_id(s).remove(s[i].id()),
{
    let t = s.remove(i);
    let gone = s[i].id();
    assert forall|a: int| 0 <= a < t.len() implies (#[trigger] t[a]) == s[if a < i {
        a
    } else {
        a + 1
    }] by {}
    assert(distinct(t)) by {
        assert forall|a: int, b: int| 0 <= a < b < t.len() implies (#[trigger] t[a]).id() != (
        #[trigger] t[b]).id() by {
            let a2 = if a < i { a } else { a + 1 };
            let b2 = if b < i { b } else { b + 1 };
            assert(t[a] == s[a2]);
            assert(t[b] == s[b2]);
            assert(s[a2].id() != s[b2].id());
        }
    }
    assert forall|id: EntryId| holds(t, id) <==> (holds(s, id) && id != gone) by {
        if holds(t, id) {
            let k = place(t, id);
            let k2 = if k < i { k } else { k + 1 };
            assert(t[k] == s[k2]);
            assert(s[k2].id() == id);
            if k2 < i {
                assert(s[k2].id() != s[i].id());
            } else {
                assert(s[i].id() != s[k2].id());
            }
        }
        if holds(s, id) && id != gone {
            let k = place(s, id);
            let k2 = if k < i { k } else { k - 1 };
            assert(t[k2] == s[k]);
            assert(t[k2].id() == id);
        }
    }
    assert forall|id: EntryId| holds(t, id) implies t[place(t, id)] == s[place(s, id)] by {
        let k = place(t, id);
        let k2 = if k < i { k } else { k + 1 };
        assert(t[k] == s[k2]);
        lemma_place(s, k2);
    }
    assert(by_id(t) =~= by_id(s).remove(gone));
}

/// Keyed storage for cache entries.
pub struct EntryStore {
    entries: Vec<CacheEntry>,
}

impl View for EntryStore {
    type V = Map<EntryId, EntryView>;

    closed spec fn view(&self) -> Map<EntryId, EntryView> {
        by_id(self.views())
    }
}

impl EntryStore {
    spec fn views(self) -> Seq<EntryView> {
        Seq::new(self.entries.len() as nat, |i: int| self.entries[i]@)
    }

    #[verifier::type_invariant]
    spec fn inv(self) -> bool {
        &&& distinct(self.views())
        &&& forall|i: int| 0 <= i < self.entries.len() ==> (#[trigger] self.entries[i])@.well_formed()
    }

    proof fn lemma_view_well_formed(self)
        requires
            self.inv(),
        ensures
            entries_well_formed(self@),
    {
        let s = self.views();
        assert forall|id: EntryId| #[trigger] self@.contains_key(id) implies self@[id].id() == id
            && self@[id].well_formed() by {
            let k = place(s, id);
            assert(s[k] == self.entries[k]@);
        }
    }

    /// A store that holds nothing.
    pub fn new() -> (store: EntryStore)
        ensures
            store@ == Map::<EntryId, EntryView>::empty(),
    {
        let store = EntryStore { entries: Vec::new() };
        assert(store@ =~= Map::<EntryId, EntryView>::empty());
        store
    }

    /// Where the entry for `(topic, key)` lies, if there is one.
    fn position(&self, topic: &String, key: &String) -> (at: Option<usize>)
        ensures
            match at {
                Some(i) => i < self.entries.len() && self.views()[i as int].id() == (topic@, key@),
                None => !holds(self.views(), (topic@, key@)),
            },
    {
        let mut i: usize = 0;
        while i < self.entries.len()
            invariant
                i <= self.entries.len(),
                forall|j: int| 0 <= j < i ==> (#[trigger] self.views()[j]).id() != (topic@, key@),
            decreases self.entries.len() - i,
        {
            let e = &self.entries[i];
            if *e.topic() == *topic && *e.key() == *key {
                return Some(i);
            }
            i += 1;
        }
        None
    }

    /// The entry stored for `(topic, key)`, if there is one.
    pub fn get(&self, topic: &str, key: &str) -> (found: Option<&CacheEntry>)
        ensures
            entry_view(found) == (if self@.contains_key((topic@, key@)) {
                Some(self@[(topic@, key@)])
            } else {
                None
            }),
            entries_well_formed(self@),
    {
        proof {
            use_type_invariant(self);
            self.lemma_view_well_formed();
        }
        let topic_owned = topic.to_owned();
        let key_owned = key.to_owned();
        match self.position(&topic_owned, &key_owned) {
            Some(i) => {
                proof {
                    lemma_place(self.views(), i as int);
                }
                Some(&self.entries[i])
            },
            None => None,
        }
    }

    /// Everything that is stored, one entry for each `(topic, key)`.
    pub fn entries(&self) -> (all: &Vec<CacheEntry>)
        ensures
            forall|i: int|
                0 <= i < all@.len() ==> self@.contains_key((#[trigger] all@[i])@.id()) && self@[all@[i]@.id()]
                    == all@[i]@,
            forall|id: EntryId| #[trigger]
                self@.contains_key(id) ==> exists|i: int|
                    0 <= i < all@.len() && (#[trigger] all@[i])@ == self@[id],
            forall|i: int, j: int|
                0 <= i < j < all@.len() ==> (#[trigger] all@[i])@.id() != (#[trigger] all@[j])@.id(),
    {
        proof {
            use_type_invariant(self);
            let s = self.views();
            assert forall|i: int| 0 <= i < self.entries@.len() implies self@.contains_key(
                (#[trigger] self.entries@[i])@.id(),
            ) && self@[self.entries@[i]@.id()] == self.entries@[i]@ by {
                assert(s[i] == self.entries@[i]@);
                lemma_place(s, i);
            }
            assert forall|id: EntryId| #[trigger] self@.contains_key(id) implies exists|i: int|
                0 <= i < self.entries@.len() && (#[trigger] self.entries@[i])@ == self@[id] by {
                let k = place(s, id);
                assert(s[k] == self.entries@[k]@);
            }
            assert forall|i: int, j: int| 0 <= i < j < self.entries@.len() implies (
            #[trigger] self.entries@[i])@.id() != (#[trigger] self.entries@[j])@.id() by {
                assert(s[i] == self.entries@[i]@);
                assert(s[j] == self.entries@[j]@);
            }
        }
        &self.entries
    }

    /// Stores `entry` under its `(topic, key)`, replacing what was there.
    pub fn put(&mut self, entry: CacheEntry)
        ensures
            final(self)@ == old(self)@.insert(entry@.id(), entry@),
            entries_well_formed(final(self)@),
    {
        proof {
            use_type_invariant(&*self);
            use_type_invariant(&entry);
        }
        let ghost before = self.views();
        let ghost value = entry@;
        let at = self.position(entry.topic(), entry.key());
        let mut entries: Vec<CacheEntry> = Vec::new();
        core::mem::swap(&mut self.entries, &mut entries);
        match at {
            Some(i) => {
                entries[i] = entry;
                proof {
                    lemma_replace(before, i as int, value);
                    assert(Seq::new(entries.len() as nat, |k: int| entries[k]@) =~= before.update(
                        i as int,
                        value,
                    ));
                }
            },
            None => {
                entries.push(entry);
                proof {
                    lemma_append(before, value);
                    assert(Seq::new(entries.len() as nat, |k: int| entries[k]@) =~= before.push(
                        value,
                    ));
                }
            },
        }
        self.entries = entries;
        proof {
            self.lemma_view_well_formed();
        }
    }

    /// Removes the entry for `(topic, key)`; a no-op where there is none.
    pub fn delete(&mut self, topic: &str, key: &str)
        ensures
            final(self)@ == old(self)@.remove((topic@, key@)),
            entries_well_formed(final(self)@),
    {
        proof {
            use_type_invariant(&*self);
        }
        let ghost before = self.views();
        let topic_owned = topic.to_owned();
        let key_owned = key.to_owned();
        let at = self.position(&topic_owned, &key_owned);
        let mut entries: Vec<CacheEntry> = Vec::new();
        core::mem::swap(&mut self.entries, &mut entries);
        let ghost held = entries@;
        match at {
            Some(i) => {
                entries.remove(i);
                proof {
                    lemma_drop(before, i as int);
                    assert forall|k: int| 0 <= k < entries.len() implies (#[trigger] entries[k])
                        == held[if k < i { k } else { k + 1 }] by {}
                    assert(Seq::new(entries.len() as nat, |k: int| entries[k]@) =~= before.remove(
                        i as int,
                    ));
                }
            },
            None => {
                assert(by_id(before).remove((topic@, key@)) =~= by_id(before));
                assert(Seq::new(entries.len() as nat, |k: int| entries[k]@) =~= before);
            },
        }
        self.entries = entries;
        proof {
            self.lemma_view_well_formed();
        }
    }
}

} // verus!
