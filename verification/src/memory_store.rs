//! A store that keeps its records in memory.

use vstd::prelude::*;
use crate::key_info::{KeyInfo, KeyInfoView, KeyTriple, KeyTripleView, ManageKeyInfo};

verus! {

/// Whether `entries` holds a record for `key_triple` at `index`.
spec fn holds_at(
    entries: Seq<(KeyTriple, KeyInfo)>,
    key_triple: KeyTripleView,
    index: int,
) -> bool {
    0 <= index < entries.len() && entries[index].0@ == key_triple
}

/// The mapping that a list of records stands for.
spec fn bindings_of(entries: Seq<(KeyTriple, KeyInfo)>) -> Map<KeyTripleView, KeyInfoView> {
    Map::new(
        |key_triple: KeyTripleView| exists|index: int| holds_at(entries, key_triple, index),
        |key_triple: KeyTripleView|
            entries[choose|index: int| holds_at(entries, key_triple, index)].1@,
    )
}

/// Whether no two records of `entries` are for the same triple.
spec fn one_record_each(entries: Seq<(KeyTriple, KeyInfo)>) -> bool {
    forall|i: int, j: int| 0 <= i < j < entries.len() ==> entries[i].0@ != entries[j].0@
}

proof fn lemma_record_at(entries: Seq<(KeyTriple, KeyInfo)>, index: int)
    requires
        one_record_each(entries),
        0 <= index < entries.len(),
    ensures
        bindings_of(entries).contains_key(entries[index].0@),
        bindings_of(entries)[entries[index].0@] == entries[index].1@,
{
    let key_triple = entries[index].0@;
    assert(holds_at(entries, key_triple, index));
    let chosen = choose|i: int| holds_at(entries, key_triple, i);
    assert(chosen == index);
}

proof fn lemma_no_record(entries: Seq<(KeyTriple, KeyInfo)>, key_triple: KeyTripleView)
    requires
        forall|i: int| 0 <= i < entries.len() ==> entries[i].0@ != key_triple,
    ensures
        !bindings_of(entries).contains_key(key_triple),
{
}

/// A store that keeps its records in memory, and never fails.
pub struct InMemoryKeyInfoManager {
    entries: Vec<(KeyTriple, KeyInfo)>,
}

impl InMemoryKeyInfoManager {
    #[verifier::type_invariant]
    spec fn well_formed(&self) -> bool {
        one_record_each(self.entries@)
    }

    /// A store without records.
    pub fn new() -> (store: Self)
        ensures
            store.bindings() == Map::<KeyTripleView, KeyInfoView>::empty(),
    {
        let store = InMemoryKeyInfoManager { entries: Vec::new() };
        assert(store.bindings() =~= Map::<KeyTripleView, KeyInfoView>::empty());
        store
    }

    /// How many records the store holds.
    pub fn len(&self) -> (len: usize)
        ensures
            len == self.bindings().len(),
            self.bindings().dom().finite(),
    {
        proof {
            use_type_invariant(self);
            lemma_count(self.entries@);
        }
        self.entries.len()
    }

    fn find(&self, key_triple: &KeyTriple) -> (found: Option<usize>)
        ensures
            match found {
                Some(index) => holds_at(self.entries@, key_triple@, index as int),
                None => forall|i: int| 0 <= i < self.entries@.len() ==> self.entries@[i].0@
                    != key_triple@,
            },
    {
        let mut index: usize = 0;
        while index < self.entries.len()
            invariant
                index <= self.entries@.len(),
                forall|i: int| 0 <= i < index ==> self.entries@[i].0@ != key_triple@,
            decreases self.entries@.len() - index,
        {
            if self.entries[index].0 == *key_triple {
                return Some(index);
            }
            index += 1;
        }
        None
    }
}

proof fn lemma_count(entries: Seq<(KeyTriple, KeyInfo)>)
    requires
        one_record_each(entries),
    ensures
        bindings_of(entries).dom().finite(),
        bindings_of(entries).len() == entries.len(),
    decreases entries.len(),
{
    if entries.len() == 0 {
        assert(bindings_of(entries).dom() =~= Set::<KeyTripleView>::empty());
    } else {
        let front = entries.drop_last();
        let last = entries.last();
        lemma_count(front);
        assert forall|key_triple: KeyTripleView|
            bindings_of(entries).dom().contains(key_triple) <==> bindings_of(front).dom().insert(
                last.0@,
            ).contains(key_triple) by {
            if bindings_of(entries).dom().contains(key_triple) {
                let i = choose|i: int| holds_at(entries, key_triple, i);
                if i < front.len() {
                    assert(holds_at(front, key_triple, i));
                }
            }
            if bindings_of(front).dom().contains(key_triple) {
                let i = choose|i: int| holds_at(front, key_triple, i);
                assert(holds_at(entries, key_triple, i));
            }
            if key_triple == last.0@ {
                assert(holds_at(entries, key_triple, entries.len() - 1));
            }
        }
        assert(bindings_of(entries).dom() =~= bindings_of(front).dom().insert(last.0@));
        if bindings_of(front).dom().contains(last.0@) {
            let i = choose|i: int| holds_at(front, last.0@, i);
            assert(entries[i].0@ == entries[entries.len() - 1].0@);
        }
    }
}

impl ManageKeyInfo for InMemoryKeyInfoManager {
    closed spec fn bindings(&self) -> Map<KeyTripleView, KeyInfoView> {
        bindings_of(self.entries@)
    }

    open spec fn never_fails(&self) -> bool {
        true
    }

    fn get(&self, key_triple: &KeyTriple) -> (r: Result<Option<&KeyInfo>, String>) {
        proof {
            use_type_invariant(self);
        }
        match self.find(key_triple) {
            Some(index) => {
                proof {
                    lemma_record_at(self.entries@, index as int);
                }
                Ok(Some(&self.entries[index].1))
            },
            None => {
                proof {
                    lemma_no_record(self.entries@, key_triple@);
                }
                Ok(None)
            },
        }
    }

    fn insert(&mut self, key_triple: KeyTriple, key_info: KeyInfo) -> (r: Result<
        Option<KeyInfo>,
        String,
    >) {
        proof {
            use_type_invariant(&*self);
        }
        let ghost before = self.entries@;
        let found = self.find(&key_triple);
        let mut entries: Vec<(KeyTriple, KeyInfo)> = Vec::new();
        std::mem::swap(&mut self.entries, &mut entries);
        let previous = match found {
            Some(index) => {
                proof {
                    lemma_record_at(before, index as int);
                }
                let entry = entries.remove(index);
                Some(entry.1)
            },
            None => {
                proof {
                    lemma_no_record(before, key_triple@);
                }
                None
            },
        };
        let ghost between = entries@;
        let ghost added = (key_triple, key_info);
        entries.push((key_triple, key_info));
        proof {
            let after = entries@;
            assert(after =~= between.push(added));
            assert(forall|i: int| 0 <= i < between.len() ==> between[i].0@ != added.0@);
            assert(one_record_each(after));
            assert forall|t: KeyTripleView|
                bindings_of(after).contains_key(t) <==> bindings_of(before).insert(
                    added.0@,
                    added.1@,
                ).contains_key(t) by {
                if bindings_of(after).contains_key(t) && t != added.0@ {
                    let i = choose|i: int| holds_at(after, t, i);
                    assert(i < between.len());
                    if previous is Some {
                        let removed = choose|k: int| holds_at(before, added.0@, k);
                        assert(holds_at(before, t, if i < removed { i } else { i + 1 }));
                    } else {
                        assert(holds_at(before, t, i));
                    }
                }
                if bindings_of(before).contains_key(t) && t != added.0@ {
                    let i = choose|i: int| holds_at(before, t, i);
                    if previous is Some {
                        let removed = choose|k: int| holds_at(before, added.0@, k);
                        assert(holds_at(after, t, if i < removed { i } else { i - 1 }));
                    } else {
                        assert(holds_at(after, t, i));
                    }
                }
                if t == added.0@ {
                    assert(holds_at(after, t, after.len() - 1));
                }
            }
            assert forall|t: KeyTripleView| bindings_of(after).contains_key(t) implies bindings_of(
                after,
            )[t] == bindings_of(before).insert(added.0@, added.1@)[t] by {
                let i = choose|i: int| holds_at(after, t, i);
                lemma_record_at(after, i);
                if t != added.0@ {
                    assert(i < between.len());
                    if previous is Some {
                        let removed = choose|k: int| holds_at(before, added.0@, k);
                        lemma_record_at(before, if i < removed { i } else { i + 1 });
                    } else {
                        lemma_record_at(before, i);
                    }
                } else {
                    assert(i == after.len() - 1);
                }
            }
            assert(bindings_of(after) =~= bindings_of(before).insert(added.0@, added.1@));
        }
        self.entries = entries;
        Ok(previous)
    }

    fn remove(&mut self, key_triple: &KeyTriple) -> (r: Result<Option<KeyInfo>, String>) {
        proof {
            use_type_invariant(&*self);
        }
        let ghost before = self.entries@;
        match self.find(key_triple) {
            Some(index) => {
                proof {
                    lemma_record_at(before, index as int);
                }
                let mut entries: Vec<(KeyTriple, KeyInfo)> = Vec::new();
                std::mem::swap(&mut self.entries, &mut entries);
                let entry = entries.remove(index);
                proof {
                    let after = entries@;
                    let t0 = key_triple@;
                    assert(one_record_each(after));
                    assert forall|t: KeyTripleView|
                        bindings_of(after).contains_key(t) <==> bindings_of(before).remove(
                            t0,
                        ).contains_key(t) by {
                        if bindings_of(after).contains_key(t) {
                            let i = choose|i: int| holds_at(after, t, i);
                            assert(holds_at(before, t, if i < index { i } else { i + 1 }));
                        }
                        if bindings_of(before).contains_key(t) && t != t0 {
                            let i = choose|i: int| holds_at(before, t, i);
                            assert(holds_at(after, t, if i < index { i } else { i - 1 }));
                        }
                    }
                    assert forall|t: KeyTripleView|
                        bindings_of(after).contains_key(t) implies bindings_of(after)[t]
                        == bindings_of(before).remove(t0)[t] by {
                        let i = choose|i: int| holds_at(after, t, i);
                        lemma_record_at(after, i);
                        lemma_record_at(before, if i < index { i } else { i + 1 });
                    }
                    assert(bindings_of(after) =~= bindings_of(before).remove(t0));
                }
                self.entries = entries;
                Ok(Some(entry.1))
            },
            None => {
                proof {
                    lemma_no_record(before, key_triple@);
                    assert(bindings_of(before) =~= bindings_of(before).remove(key_triple@));
                }
                Ok(None)
            },
        }
    }

    fn contains(&self, key_triple: &KeyTriple) -> (r: Result<bool, String>) {
        match self.find(key_triple) {
            Some(index) => {
                proof {
                    assert(holds_at(self.entries@, key_triple@, index as int));
                }
                Ok(true)
            },
            None => {
                proof {
                    lemma_no_record(self.entries@, key_triple@);
                }
                Ok(false)
            },
        }
    }
}

} // verus!
