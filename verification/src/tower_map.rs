//! A finite map keyed by tower.

use vstd::prelude::*;
use crate::ids::TowerId;

verus! {

/// A finite map from towers to values of type `T`. Its view is the
/// mathematical map.
#[derive(Debug)]
pub struct TowerMap<T> {
    keys: Vec<TowerId>,
    values: Vec<T>,
}

/// The map that gives each key the value at the key's index.
spec fn paired<T>(keys: Seq<TowerId>, values: Seq<T>) -> Map<TowerId, T> {
    Map::new(|k: TowerId| keys.contains(k), |k: TowerId| values[keys.index_of(k)])
}

impl<T> View for TowerMap<T> {
    type V = Map<TowerId, T>;

    closed spec fn view(&self) -> Map<TowerId, T> {
        paired(self.keys@, self.values@)
    }
}

/// In a sequence without duplicates an element is found at its index only.
proof fn lemma_index_of(keys: Seq<TowerId>, i: int)
    requires
        keys.no_duplicates(),
        0 <= i < keys.len(),
    ensures
        keys.contains(keys[i]),
        keys.index_of(keys[i]) == i,
{
}

/// A new value at the index of a key is a new value for that key.
proof fn lemma_update<T>(keys: Seq<TowerId>, values: Seq<T>, i: int, value: T)
    requires
        keys.no_duplicates(),
        keys.len() == values.len(),
        0 <= i < keys.len(),
    ensures
        paired(keys, values.update(i, value)) == paired(keys, values).insert(keys[i], value),
{
    assert forall|k: TowerId| keys.contains(k) implies #[trigger] paired(
        keys,
        values.update(i, value),
    )[k] == paired(keys, values).insert(keys[i], value)[k] by {
        assert(keys[keys.index_of(k)] == k);
    }
    assert(paired(keys, values.update(i, value)) =~= paired(keys, values).insert(keys[i], value));
}

/// A key that is new, appended with its value, is a new entry of the map.
proof fn lemma_push<T>(keys: Seq<TowerId>, values: Seq<T>, key: TowerId, value: T)
    requires
        keys.no_duplicates(),
        keys.len() == values.len(),
        !keys.contains(key),
    ensures
        keys.push(key).no_duplicates(),
        paired(keys.push(key), values.push(value)) == paired(keys, values).insert(key, value),
{
    let more = keys.push(key);
    assert forall|k: TowerId| more.contains(k) <==> (k == key || keys.contains(k)) by {
        vstd::seq_lib::lemma_seq_contains_after_push(keys, key, k);
    }
    assert forall|k: TowerId| more.contains(k) implies #[trigger] paired(
        more,
        values.push(value),
    )[k] == paired(keys, values).insert(key, value)[k] by {
        assert(more[more.index_of(k)] == k);
        if k != key {
            assert(more[keys.index_of(k)] == k);
        }
    }
    assert(paired(more, values.push(value)) =~= paired(keys, values).insert(key, value));
}

/// A key taken out with its value is an entry taken out of the map.
proof fn lemma_remove<T>(keys: Seq<TowerId>, values: Seq<T>, i: int)
    requires
        keys.no_duplicates(),
        keys.len() == values.len(),
        0 <= i < keys.len(),
    ensures
        keys.remove(i).no_duplicates(),
        paired(keys.remove(i), values.remove(i)) == paired(keys, values).remove(keys[i]),
{
    let fewer = keys.remove(i);
    assert forall|k: TowerId| fewer.contains(k) <==> (k != keys[i] && keys.contains(k)) by {
        if k != keys[i] && keys.contains(k) {
            let j = keys.index_of(k);
            assert(fewer[if j < i { j } else { j - 1 }] == k);
        }
    }
    assert forall|k: TowerId| fewer.contains(k) implies #[trigger] paired(
        fewer,
        values.remove(i),
    )[k] == paired(keys, values)[k] by {
        let j = fewer.index_of(k);
        assert(keys[if j < i { j } else { j + 1 }] == k);
    }
    assert(paired(fewer, values.remove(i)) =~= paired(keys, values).remove(keys[i]));
}

impl<T> TowerMap<T> {
    #[verifier::type_invariant]
    spec fn inv(&self) -> bool {
        &&& self.keys@.len() == self.values@.len()
        &&& self.keys@.no_duplicates()
    }

    /// The empty map.
    pub fn new() -> (m: TowerMap<T>)
        ensures
            m@ == Map::<TowerId, T>::empty(),
    {
        TowerMap { keys: Vec::new(), values: Vec::new() }
    }

    /// Index at which `key` is stored.
    fn position(&self, key: TowerId) -> (r: Option<usize>)
        ensures
            match r {
                Some(i) => i < self.keys@.len() && self.keys@[i as int] == key,
                None => !self.keys@.contains(key),
            },
    {
        let mut i: usize = 0;
        while i < self.keys.len()
            invariant
                i <= self.keys@.len(),
                forall|j: int| 0 <= j < i ==> self.keys@[j] != key,
            decreases self.keys@.len() - i,
        {
            if self.keys[i] == key {
                return Some(i);
            }
            i = i + 1;
        }
        None
    }

    /// Whether `key` has a value.
    pub fn contains_key(&self, key: TowerId) -> (r: bool)
        ensures
            r == self@.contains_key(key),
    {
        self.position(key).is_some()
    }

    /// The value of `key`, if it has one.
    pub fn get(&self, key: TowerId) -> (r: Option<&T>)
        ensures
            match r {
                Some(v) => self@.contains_key(key) && *v == self@[key],
                None => !self@.contains_key(key),
            },
    {
        proof {
            use_type_invariant(self);
        }
        match self.position(key) {
            Some(i) => {
                proof {
                    lemma_index_of(self.keys@, i as int);
                }
                Some(&self.values[i])
            },
            None => None,
        }
    }

    /// Gives `key` the value `value`, in place of the one it had, if any.
    pub fn insert(&mut self, key: TowerId, value: T)
        ensures
            final(self)@ == old(self)@.insert(key, value),
    {
        proof {
            use_type_invariant(&*self);
        }
        let found = self.position(key);
        let mut taken: TowerMap<T> = TowerMap::new();
        std::mem::swap(self, &mut taken);
        let TowerMap { mut keys, mut values } = taken;
        match found {
            Some(i) => {
                proof {
                    lemma_update(keys@, values@, i as int, value);
                }
                values[i] = value;
            },
            None => {
                proof {
                    lemma_push(keys@, values@, key, value);
                }
                keys.push(key);
                values.push(value);
            },
        }
        *self = TowerMap { keys, values };
    }

    /// Takes `key` out and returns the value it had, if any.
    pub fn remove(&mut self, key: TowerId) -> (r: Option<T>)
        ensures
            final(self)@ == old(self)@.remove(key),
            r == (if old(self)@.contains_key(key) {
                Some(old(self)@[key])
            } else {
                None
            }),
    {
        proof {
            use_type_invariant(&*self);
        }
        match self.position(key) {
            Some(i) => {
                let mut taken: TowerMap<T> = TowerMap::new();
                std::mem::swap(self, &mut taken);
                let TowerMap { mut keys, mut values } = taken;
                proof {
                    lemma_index_of(keys@, i as int);
                    lemma_remove(keys@, values@, i as int);
                }
                keys.remove(i);
                let value = values.remove(i);
                *self = TowerMap { keys, values };
                Some(value)
            },
            None => {
                assert(self@ =~= old(self)@.remove(key));
                None
            },
        }
    }

    /// The towers that have a value, each once.
    pub fn keys(&self) -> (v: Vec<TowerId>)
        ensures
            v@.no_duplicates(),
            v@.to_set() == self@.dom(),
    {
        proof {
            use_type_invariant(self);
        }
        let mut v: Vec<TowerId> = Vec::new();
        let mut i: usize = 0;
        while i < self.keys.len()
            invariant
                i <= self.keys@.len(),
                v@ == self.keys@.take(i as int),
            decreases self.keys@.len() - i,
        {
            v.push(self.keys[i]);
            i = i + 1;
        }
        proof {
            assert(v@ == self.keys@);
            assert(v@.to_set() =~= self@.dom());
        }
        v
    }
}

} // verus!
