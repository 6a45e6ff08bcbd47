//! The store of signing keys: the keys that proofs are checked against, by
//! the names under which tokens refer to them. A name, once it stands for a
//! key, stands for that key as long as the store lives.

use vstd::prelude::*;
use fastcrypto_zkp::bn254::zk_login::{JwkId, JWK};
use im::hashmap::HashMap as ImHashMap;
use crate::jwk::{Jwk, JwkView, KeyId, KeyIdView, KeyMap};
use crate::snapshot::{key_set_contents, key_set_insert, key_set_new};

verus! {

/// A set of keys after one more key was offered under a name: the key is
/// taken in where the name is new, and turned away where the name is known.
pub open spec fn upsert(keys: KeyMap, id: KeyIdView, jwk: JwkView) -> KeyMap {
    if keys.contains_key(id) {
        keys
    } else {
        keys.insert(id, jwk)
    }
}

/// A set of keys after a list of keys was offered, one by one from the front.
pub open spec fn merge(keys: KeyMap, offered: Seq<(KeyIdView, JwkView)>) -> KeyMap
    decreases offered.len(),
{
    if offered.len() == 0 {
        keys
    } else {
        upsert(merge(keys, offered.drop_last()), offered.last().0, offered.last().1)
    }
}

/// A list of named keys as contracts see it.
pub open spec fn named_keys(list: Seq<(KeyId, Jwk)>) -> Seq<(KeyIdView, JwkView)> {
    list.map_values(|entry: (KeyId, Jwk)| (entry.0@, entry.1@))
}

/// No name occurs twice in the list.
pub open spec fn distinct_names(list: Seq<(KeyIdView, JwkView)>) -> bool {
    forall|i: int, j: int| 0 <= i < j < list.len() ==> list[i].0 != list[j].0
}

/// Offering keys removes nothing and changes nothing that was there.
pub proof fn lemma_merge_keeps(keys: KeyMap, offered: Seq<(KeyIdView, JwkView)>)
    ensures
        keys.submap_of(merge(keys, offered)),
    decreases offered.len(),
{
    if offered.len() > 0 {
        let front = merge(keys, offered.drop_last());
        lemma_merge_keeps(keys, offered.drop_last());
        assert forall|id: KeyIdView| #[trigger] keys.dom().contains(id) implies merge(
            keys,
            offered,
        ).dom().contains(id) && keys[id] == merge(keys, offered)[id] by {
            assert(front.dom().contains(id));
            assert(keys[id] == front[id]);
        }
    }
}

/// The names known after keys were offered are those known before and those
/// that were offered.
pub proof fn lemma_merge_names(keys: KeyMap, offered: Seq<(KeyIdView, JwkView)>, id: KeyIdView)
    ensures
        merge(keys, offered).contains_key(id) <==> keys.contains_key(id) || exists|i: int|
            0 <= i < offered.len() && #[trigger] offered[i].0 == id,
    decreases offered.len(),
{
    let known = exists|i: int| 0 <= i < offered.len() && #[trigger] offered[i].0 == id;
    if offered.len() > 0 {
        let front = offered.drop_last();
        let last = offered.last();
        lemma_merge_names(keys, front, id);
        assert(merge(keys, offered) == upsert(merge(keys, front), last.0, last.1));
        if merge(keys, offered).contains_key(id) && !keys.contains_key(id) {
            if merge(keys, front).contains_key(id) {
                let i = choose|i: int| 0 <= i < front.len() && #[trigger] front[i].0 == id;
                assert(offered[i].0 == id);
            } else {
                assert(offered[offered.len() - 1].0 == id);
            }
            assert(known);
        }
        if known {
            let i = choose|i: int| 0 <= i < offered.len() && #[trigger] offered[i].0 == id;
            if i < front.len() {
                assert(front[i].0 == id);
            }
            assert(merge(keys, offered).contains_key(id));
        }
    }
}

/// A set of keys stays finite when keys are offered.
pub proof fn lemma_merge_finite(keys: KeyMap, offered: Seq<(KeyIdView, JwkView)>)
    requires
        keys.dom().finite(),
    ensures
        merge(keys, offered).dom().finite(),
    decreases offered.len(),
{
    if offered.len() > 0 {
        lemma_merge_finite(keys, offered.drop_last());
    }
}

/// Offered to an empty set under names that differ, every key is taken in.
proof fn lemma_merge_distinct(list: Seq<(KeyIdView, JwkView)>)
    requires
        distinct_names(list),
    ensures
        merge(KeyMap::empty(), list).dom().finite(),
        merge(KeyMap::empty(), list).len() == list.len(),
        forall|i: int|
            0 <= i < list.len() ==> merge(KeyMap::empty(), list).contains_pair(
                #[trigger] list[i].0,
                list[i].1,
            ),
    decreases list.len(),
{
    if list.len() > 0 {
        let front = list.drop_last();
        let last = list.last();
        lemma_merge_distinct(front);
        lemma_merge_names(KeyMap::empty(), front, last.0);
        assert(!merge(KeyMap::empty(), front).contains_key(last.0)) by {
            if exists|i: int| 0 <= i < front.len() && #[trigger] front[i].0 == last.0 {
                let i = choose|i: int| 0 <= i < front.len() && #[trigger] front[i].0 == last.0;
                assert(list[i].0 != list[list.len() - 1].0);
            }
        }
        assert forall|i: int| 0 <= i < list.len() implies merge(
            KeyMap::empty(),
            list,
        ).contains_pair(#[trigger] list[i].0, list[i].1) by {
            if i < front.len() {
                assert(front[i] == list[i]);
                assert(list[i].0 != list[list.len() - 1].0);
            }
        }
    }
}

/// The store of signing keys.
pub struct JwkStore {
    entries: Vec<(KeyId, Jwk)>,
}

impl View for JwkStore {
    type V = KeyMap;

    closed spec fn view(&self) -> KeyMap {
        merge(KeyMap::empty(), named_keys(self.entries@))
    }
}

impl JwkStore {
    #[verifier::type_invariant]
    spec fn names_differ(self) -> bool {
        distinct_names(named_keys(self.entries@))
    }

    /// A store is a finite set of keys.
    pub proof fn lemma_finite(self)
        ensures
            self@.dom().finite(),
    {
        lemma_merge_finite(KeyMap::empty(), named_keys(self.entries@));
    }

    /// A store that holds no key.
    pub fn new() -> (store: JwkStore)
        ensures
            store@ == KeyMap::empty(),
    {
        JwkStore { entries: Vec::new() }
    }

    /// The number of keys in the store.
    pub fn len(&self) -> (count: usize)
        ensures
            self@.dom().finite(),
            count == self@.len(),
    {
        proof {
            use_type_invariant(self);
            lemma_merge_distinct(named_keys(self.entries@));
        }
        self.entries.len()
    }

    /// Where the key of this name lies, if the store holds one.
    fn position(&self, id: &KeyId) -> (at: Option<usize>)
        ensures
            match at {
                Some(i) => i < self.entries.len() && self.entries[i as int].0@ == id@
                    && self@.contains_pair(id@, self.entries[i as int].1@),
                None => !self@.contains_key(id@),
            },
    {
        proof {
            use_type_invariant(self);
            lemma_merge_distinct(named_keys(self.entries@));
            lemma_merge_names(KeyMap::empty(), named_keys(self.entries@), id@);
        }
        let mut i: usize = 0;
        while i < self.entries.len()
            invariant
                i <= self.entries.len(),
                forall|j: int| 0 <= j < i ==> (#[trigger] named_keys(self.entries@)[j]).0 != id@,
                forall|j: int|
                    0 <= j < self.entries.len() ==> self@.contains_pair(
                        (#[trigger] named_keys(self.entries@)[j]).0,
                        named_keys(self.entries@)[j].1,
                    ),
            decreases self.entries.len() - i,
        {
            if self.entries[i].0.same_as(id) {
                assert(named_keys(self.entries@)[i as int].0 == id@);
                return Some(i);
            }
            i += 1;
        }
        None
    }

    /// Whether the store holds a key of this name.
    pub fn contains_key(&self, id: &KeyId) -> (held: bool)
        ensures
            held == self@.contains_key(id@),
    {
        self.position(id).is_some()
    }

    /// The key of this name, if the store holds one.
    pub fn get(&self, id: &KeyId) -> (found: Option<&Jwk>)
        ensures
            match found {
                Some(jwk) => self@.contains_pair(id@, jwk@),
                None => !self@.contains_key(id@),
            },
    {
        match self.position(id) {
            Some(i) => Some(&self.entries[i].1),
            None => None,
        }
    }

    /// Takes the key in under the name unless the name already stands for a
    /// key; then that key stays and the offered one is dropped. Says whether
    /// the key was taken in.
    pub fn upsert_if_absent(&mut self, id: KeyId, jwk: Jwk) -> (taken: bool)
        ensures
            final(self)@ == upsert(old(self)@, id@, jwk@),
            taken == !old(self)@.contains_key(id@),
            old(self)@.submap_of(final(self)@),
    {
        match self.position(&id) {
            Some(_) => false,
            None => {
                proof {
                    use_type_invariant(&*self);
                    lemma_merge_names(KeyMap::empty(), named_keys(self.entries@), id@);
                }
                let ghost before = named_keys(self.entries@);
                let mut entries: Vec<(KeyId, Jwk)> = Vec::new();
                std::mem::swap(&mut entries, &mut self.entries);
                entries.push((id, jwk));
                proof {
                    let after = named_keys(entries@);
                    assert(after.drop_last() == before);
                    assert(after.last() == (id@, jwk@));
                    assert forall|i: int, j: int| 0 <= i < j < after.len() implies after[i].0
                        != after[j].0 by {
                        assert(after[i] == before[i]);
                        if j < before.len() {
                            assert(after[j] == before[j]);
                        }
                    }
                }
                self.entries = entries;
                true
            },
        }
    }

    /// Offers the store every key of the list, from the front. Says how
    /// many were taken in.
    pub fn absorb(&mut self, offered: &Vec<(KeyId, Jwk)>) -> (taken: usize)
        ensures
            final(self)@ == merge(old(self)@, named_keys(offered@)),
            old(self)@.submap_of(final(self)@),
            taken <= offered.len(),
            final(self)@.len() == old(self)@.len() + taken,
    {
        let mut taken: usize = 0;
        let mut i: usize = 0;
        proof {
            old(self).lemma_finite();
        }
        while i < offered.len()
            invariant
                i <= offered.len(),
                taken <= i,
                self@ == merge(old(self)@, named_keys(offered@).take(i as int)),
                self@.dom().finite(),
                self@.len() == old(self)@.len() + taken,
            decreases offered.len() - i,
        {
            let ghost list = named_keys(offered@);
            proof {
                assert(list.take(i + 1).drop_last() == list.take(i as int));
                assert(list.take(i + 1).last() == (offered[i as int].0@, offered[i as int].1@));
            }
            if self.upsert_if_absent(offered[i].0.clone(), offered[i].1.clone()) {
                taken += 1;
            }
            i += 1;
        }
        proof {
            assert(named_keys(offered@).take(i as int) == named_keys(offered@));
            lemma_merge_keeps(old(self)@, named_keys(offered@));
        }
        taken
    }

    /// A copy of the store as it is now. What is done to the store
    /// afterwards does not show in the copy.
    pub fn read_snapshot(&self) -> (copy: JwkStore)
        ensures
            copy@ == self@,
    {
        let mut entries: Vec<(KeyId, Jwk)> = Vec::new();
        let mut i: usize = 0;
        while i < self.entries.len()
            invariant
                i <= self.entries.len(),
                named_keys(entries@) == named_keys(self.entries@).take(i as int),
            decreases self.entries.len() - i,
        {
            let ghost before = named_keys(entries@);
            let ghost list = named_keys(self.entries@);
            entries.push((self.entries[i].0.clone(), self.entries[i].1.clone()));
            proof {
                assert(named_keys(entries@) == before.push(list[i as int]));
                assert(list.take(i + 1) == list.take(i as int).push(list[i as int]));
            }
            i += 1;
        }
        proof {
            use_type_invariant(self);
            assert(named_keys(self.entries@).take(i as int) == named_keys(self.entries@));
        }
        JwkStore { entries }
    }

    /// The keys of the store as the proof verifier takes them.
    pub fn key_set(&self) -> (keys: ImHashMap<JwkId, JWK>)
        ensures
            key_set_contents(keys) == self@,
    {
        let mut keys = key_set_new();
        let mut i: usize = 0;
        proof {
            use_type_invariant(self);
        }
        while i < self.entries.len()
            invariant
                i <= self.entries.len(),
                distinct_names(named_keys(self.entries@)),
                key_set_contents(keys) == merge(
                    KeyMap::empty(),
                    named_keys(self.entries@).take(i as int),
                ),
            decreases self.entries.len() - i,
        {
            let ghost list = named_keys(self.entries@);
            proof {
                assert(list.take(i + 1).drop_last() == list.take(i as int));
                assert(list.take(i + 1).last() == list[i as int]);
                lemma_merge_names(KeyMap::empty(), list.take(i as int), list[i as int].0);
                if exists|j: int|
                    0 <= j < list.take(i as int).len() && #[trigger] list.take(i as int)[j].0
                        == list[i as int].0 {
                    let j = choose|j: int|
                        0 <= j < list.take(i as int).len() && #[trigger] list.take(i as int)[j].0
                            == list[i as int].0;
                    assert(list[j].0 != list[i as int].0);
                }
            }
            key_set_insert(&mut keys, &self.entries[i].0, &self.entries[i].1);
            i += 1;
        }
        proof {
            assert(named_keys(self.entries@).take(i as int) == named_keys(self.entries@));
        }
        keys
    }
}

/// A name stands for the first key that was taken in under it: offered a
/// first key under a new name and then a second under the same name, the
/// store holds the first and not the second.
pub proof fn law_first_write_wins(keys: KeyMap, id: KeyIdView, first: JwkView, second: JwkView)
    requires
        !keys.contains_key(id),
        second != first,
    ensures
        upsert(upsert(keys, id, first), id, second).contains_pair(id, first),
        !upsert(upsert(keys, id, first), id, second).contains_pair(id, second),
{
}

/// A second key offered under the same name changes nothing, whatever it is
/// and whatever the store held before the first.
pub proof fn law_second_offer_changes_nothing(
    keys: KeyMap,
    id: KeyIdView,
    first: JwkView,
    second: JwkView,
)
    ensures
        upsert(upsert(keys, id, first), id, second) == upsert(keys, id, first),
{
}

/// Offering a key never removes a key and never changes one: what a name
/// stood for before, it stands for afterwards.
pub proof fn law_insert_only(keys: KeyMap, id: KeyIdView, jwk: JwkView)
    ensures
        keys.submap_of(upsert(keys, id, jwk)),
        upsert(keys, id, jwk).contains_key(id),
{
}

/// The state that the service shares between the task that refreshes the
/// keys and the calls that verify signatures.
pub struct AppState {
    /// The signing keys known so far.
    pub jwks: JwkStore,
}

impl AppState {
    /// A state whose store holds no key yet.
    pub fn new() -> (state: AppState)
        ensures
            state.jwks@ == KeyMap::empty(),
    {
        AppState { jwks: JwkStore::new() }
    }
}

} // verus!
