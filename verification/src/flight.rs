//! The registry of computations in flight: the keys for which a computation
//! has been started and has not completed.

use vstd::prelude::*;
use crate::store::EntryId;

verus! {

struct FlightKey {
    topic: String,
    key: String,
}

impl FlightKey {
    spec fn id(self) -> EntryId {
        (self.topic@, self.key@)
    }
}

/// Whether `id` is among `keys`.
spec fn listed(keys: Seq<FlightKey>, id: EntryId) -> bool {
    exists|i: int| 0 <= i < keys.len() && (#[trigger] keys[i]).id() == id
}

proof fn lemma_listed_push(keys: Seq<FlightKey>, k: FlightKey, id: EntryId)
    ensures
        listed(keys.push(k), id) <==> (listed(keys, id) || k.id() == id),
{
    let t = keys.push(k);
    if listed(t, id) {
        let i = choose|i: int| 0 <= i < t.len() && (#[trigger] t[i]).id() == id;
        if i < keys.len() {
            assert(keys[i].id() == id);
        }
    }
    if listed(keys, id) {
        let i = choose|i: int| 0 <= i < keys.len() && (#[trigger] keys[i]).id() == id;
        assert(t[i].id() == id);
    }
    if k.id() == id {
        assert(t[keys.len() as int].id() == id);
    }
}

/// The keys with a computation in flight.
pub struct FlightRegistry {
    keys: Vec<FlightKey>,
}

impl View for FlightRegistry {
    type V = Set<EntryId>;

    closed spec fn view(&self) -> Set<EntryId> {
        Set::new(|id: EntryId| listed(self.keys@, id))
    }
}

impl FlightRegistry {
    /// A registry with nothing in flight.
    pub fn new() -> (registry: FlightRegistry)
        ensures
            registry@ == Set::<EntryId>::empty(),
    {
        let registry = FlightRegistry { keys: Vec::new() };
        assert(registry@ =~= Set::<EntryId>::empty());
        registry
    }

    /// Whether a computation for `(topic, key)` is in flight.
    pub fn contains(&self, topic: &str, key: &str) -> (r: bool)
        ensures
            r == self@.contains((topic@, key@)),
    {
        let topic_owned = topic.to_owned();
        let key_owned = key.to_owned();
        let mut i: usize = 0;
        while i < self.keys.len()
            invariant
                i <= self.keys.len(),
                topic_owned@ == topic@,
                key_owned@ == key@,
                forall|j: int| 0 <= j < i ==> (#[trigger] self.keys[j]).id() != (topic@, key@),
            decreases self.keys.len() - i,
        {
            if self.keys[i].topic == topic_owned && self.keys[i].key == key_owned {
                return true;
            }
            i += 1;
        }
        false
    }

    /// Registers a computation for `(topic, key)`.
    pub fn insert(&mut self, topic: &str, key: &str)
        ensures
            final(self)@ == old(self)@.insert((topic@, key@)),
    {
        if !self.contains(topic, key) {
            let ghost before = self.keys@;
            let entry = FlightKey { topic: topic.to_owned(), key: key.to_owned() };
            self.keys.push(entry);
            proof {
                assert forall|id: EntryId| #[trigger]
                    self@.contains(id) <==> old(self)@.insert((topic@, key@)).contains(id) by {
                    lemma_listed_push(before, entry, id);
                }
            }
        }
        assert(self@ =~= old(self)@.insert((topic@, key@)));
    }

    /// Clears the registration of `(topic, key)`; a no-op where there is none.
    pub fn remove(&mut self, topic: &str, key: &str)
        ensures
            final(self)@ == old(self)@.remove((topic@, key@)),
    {
        let topic_owned = topic.to_owned();
        let key_owned = key.to_owned();
        let ghost before = self.keys@;
        let ghost gone = (topic@, key@);
        let mut kept: Vec<FlightKey> = Vec::new();
        while self.keys.len() > 0
            invariant
                topic_owned@ == topic@,
                key_owned@ == key@,
                gone == (topic@, key@),
                !listed(kept@, gone),
                forall|id: EntryId|
                    id != gone ==> (#[trigger] listed(before, id) <==> (listed(kept@, id) || listed(
                        self.keys@,
                        id,
                    ))),
            decreases self.keys.len(),
        {
            let ghost rest = self.keys@;
            let ghost had = kept@;
            let last = self.keys.pop().unwrap();
            let keep = !(last.topic == topic_owned && last.key == key_owned);
            proof {
                assert(rest =~= self.keys@.push(last));
                assert forall|id: EntryId| listed(rest, id) <==> (listed(self.keys@, id)
                    || last.id() == id) by {
                    lemma_listed_push(self.keys@, last, id);
                }
                assert forall|id: EntryId| listed(had.push(last), id) <==> (listed(had, id)
                    || last.id() == id) by {
                    lemma_listed_push(had, last, id);
                }
            }
            if keep {
                kept.push(last);
            }
            proof {
                assert forall|id: EntryId| id != gone implies (#[trigger] listed(before, id) <==> (
                listed(kept@, id) || listed(self.keys@, id))) by {
                    assert(listed(before, id) <==> (listed(had, id) || listed(rest, id)));
                }
            }
        }
        self.keys = kept;
        proof {
            assert forall|id: EntryId| #[trigger]
                self@.contains(id) <==> old(self)@.remove(gone).contains(id) by {
                if id != gone {
                    assert(listed(before, id) <==> (listed(kept@, id) || listed(
                        Seq::<FlightKey>::empty(),
                        id,
                    )));
                }
            }
            assert(self@ =~= old(self)@.remove(gone));
        }
    }
}

} // verus!
