//! A hash map with entries that can be looked up once and then changed in place.
use std::collections::hash_map::{Entry, OccupiedEntry, VacantEntry};
use std::collections::HashMap;
use std::fmt::Debug;
use std::hash::Hash;
use vstd::prelude::*;
use vstd::std_specs::hash::*;

verus! {

broadcast use group_hash_axioms;

/// Whether keys of this type hash and compare as a map needs it.
pub open spec fn is_map_key<K>() -> bool {
    obeys_key_model::<K>()
}

pub struct TrackMap<K, V> {
    map: HashMap<K, V>,
}

impl<K, V> View for TrackMap<K, V> {
    type V = Map<K, V>;

    closed spec fn view(&self) -> Map<K, V> {
        self.map@
    }
}

/// The place of a key in a map, whether or not it holds a value.
pub enum TrackEntry<'a, K: 'a, V: 'a> {
    Occupied(OccupiedTrackEntry<'a, K, V>),
    Vacant(VacantTrackEntry<'a, K, V>),
}

/// The place of a key that holds a value.
pub struct OccupiedTrackEntry<'a, K: 'a, V: 'a> {
    pub base: OccupiedEntry<'a, K, V>,
}

/// The place of a key that holds no value.
pub struct VacantTrackEntry<'a, K: 'a, V: 'a> {
    pub base: VacantEntry<'a, K, V>,
}

/// `HashMap::get_mut`: gives access to the value of the key, and no other entry changes.
#[verifier::external_body]
fn hash_map_get_mut<'a, K: Hash + Eq, V>(map: &'a mut HashMap<K, V>, key: &K) -> (r: Option<
    &'a mut V,
>)
    ensures
        is_map_key::<K>() ==> match r {
            Some(value) => old(map)@.contains_key(*key) && *value == old(map)@[*key] && final(map)@
                == old(map)@.insert(*key, *final(value)),
            None => !old(map)@.contains_key(*key) && final(map)@ == old(map)@,
        },
{
    map.get_mut(key)
}

impl<K: Hash + Eq + Debug, V: Debug> TrackMap<K, V> {
    pub fn new() -> (r: Self)
        ensures
            r@ == Map::<K, V>::empty(),
    {
        TrackMap { map: HashMap::new() }
    }

    pub fn insert(&mut self, key: K, value: V)
        ensures
            is_map_key::<K>() ==> final(self)@ == old(self)@.insert(key, value),
    {
        let _ = self.map.insert(key, value);
    }

    pub fn get(&self, key: &K) -> (r: Option<&V>)
        ensures
            is_map_key::<K>() ==> match r {
                Some(value) => self@.contains_key(*key) && *value == self@[*key],
                None => !self@.contains_key(*key),
            },
    {
        self.map.get(key)
    }

    pub fn remove(&mut self, key: &K) -> (r: Option<V>)
        ensures
            is_map_key::<K>() ==> final(self)@ == old(self)@.remove(*key),
            is_map_key::<K>() ==> match r {
                Some(value) => old(self)@.contains_key(*key) && value == old(self)@[*key],
                None => !old(self)@.contains_key(*key),
            },
    {
        self.map.remove(key)
    }

    pub fn get_mut(&mut self, key: &K) -> (r: Option<&mut V>)
        ensures
            is_map_key::<K>() ==> match r {
                Some(value) => old(self)@.contains_key(*key) && *value == old(self)@[*key] && final(
                    self)@ == old(self)@.insert(*key, *final(value)),
                None => !old(self)@.contains_key(*key) && final(self)@ == old(self)@,
            },
    {
        hash_map_get_mut(&mut self.map, key)
    }

    pub fn entry(&mut self, key: K) -> (r: TrackEntry<'_, K, V>)
        ensures
            is_map_key::<K>() ==> match r {
                TrackEntry::Occupied(entry) => {
                    &&& old(self)@.contains_key(key)
                    &&& *entry.base.key() == key
                    &&& entry.base.value() == old(self)@[key]
                    &&& final(self)@ == (match entry.base.final_value() {
                        Some(value) => old(self)@.insert(key, value),
                        None => old(self)@.remove(key),
                    })
                },
                TrackEntry::Vacant(entry) => {
                    &&& !old(self)@.contains_key(key)
                    &&& *entry.base.key() == key
                    &&& final(self)@ == (match entry.base.final_value() {
                        Some(value) => old(self)@.insert(key, value),
                        None => old(self)@.remove(key),
                    })
                },
            },
    {
        match self.map.entry(key) {
            Entry::Occupied(base) => TrackEntry::Occupied(OccupiedTrackEntry { base }),
            Entry::Vacant(base) => TrackEntry::Vacant(VacantTrackEntry { base }),
        }
    }

    /// The entries, each once, in no particular order.
    pub fn iter(&self) -> (r: std::collections::hash_map::Iter<'_, K, V>)
        ensures
            self.entries()@ == self@,
            is_map_key::<K>() ==> r == spec_hash_map_iter(&self.entries()),
    {
        self.map.iter()
    }

    pub closed spec fn entries(&self) -> HashMap<K, V> {
        self.map
    }
}

impl<K: Hash + Eq + Debug, V: Debug> Default for TrackMap<K, V> {
    fn default() -> (r: Self)
        ensures
            r@ == Map::<K, V>::empty(),
    {
        Self::new()
    }
}

impl<'a, K: Hash + Eq + Debug, V: Debug> TrackEntry<'a, K, V> {
    /// The value at this place, which is the given one where there was none.
    pub fn or_insert(self, value: V) -> (r: &'a mut V)
        ensures
            match self {
                TrackEntry::Occupied(entry) => *r == entry.base.value() && entry.base.final_value()
                    == Some(*final(r)),
                TrackEntry::Vacant(entry) => *r == value && entry.base.final_value() == Some(
                    *final(r),
                ),
            },
    {
        match self {
            TrackEntry::Occupied(entry) => entry.into_mut(),
            TrackEntry::Vacant(entry) => entry.insert(value),
        }
    }

    /// Puts the given value at this place.
    pub fn insert_entry(self, value: V) -> (r: OccupiedTrackEntry<'a, K, V>)
        ensures
            r.base.value() == value,
            match self {
                TrackEntry::Occupied(entry) => r.base.key() == entry.base.key()
                    && r.base.final_value() == entry.base.final_value(),
                TrackEntry::Vacant(entry) => r.base.key() == entry.base.key()
                    && r.base.final_value() == entry.base.final_value(),
            },
    {
        match self {
            TrackEntry::Occupied(entry) => {
                let mut entry = entry;
                let _ = entry.insert(value);
                entry
            },
            TrackEntry::Vacant(entry) => entry.insert_entry(value),
        }
    }
}

impl<'a, K: Hash + Eq + Debug, V: Default + Debug> TrackEntry<'a, K, V> {
    /// The value at this place, which is the default one where there was none.
    pub fn or_default(self) -> (r: &'a mut V)
        ensures
            match self {
                TrackEntry::Occupied(entry) => *r == entry.base.value() && entry.base.final_value()
                    == Some(*final(r)),
                TrackEntry::Vacant(entry) => call_ensures(V::default, (), *r)
                    && entry.base.final_value() == Some(*final(r)),
            },
    {
        match self {
            TrackEntry::Occupied(entry) => entry.into_mut(),
            TrackEntry::Vacant(entry) => entry.insert(V::default()),
        }
    }
}

impl<'a, K: Hash + Eq + Debug, V: Debug> OccupiedTrackEntry<'a, K, V> {
    pub fn into_mut(self) -> (r: &'a mut V)
        ensures
            *r == self.base.value(),
            self.base.final_value() == Some(*final(r)),
    {
        self.base.into_mut()
    }

    /// Replaces the value and returns the one that it replaces.
    pub fn insert(&mut self, value: V) -> (r: V)
        ensures
            r == old(self).base.value(),
            final(self).base.value() == value,
            final(self).base.key() == old(self).base.key(),
            final(self).base.final_value() == old(self).base.final_value(),
    {
        self.base.insert(value)
    }

    pub fn get_mut(&mut self) -> (r: &mut V)
        ensures
            *r == old(self).base.value(),
            final(self).base.value() == *final(r),
            final(self).base.key() == old(self).base.key(),
            final(self).base.final_value() == old(self).base.final_value(),
    {
        self.base.get_mut()
    }

    pub fn get(&self) -> (r: &V)
        ensures
            *r == self.base.value(),
    {
        self.base.get()
    }

    /// Takes the entry out of the map.
    pub fn remove(self) -> (r: (K, V))
        ensures
            r.0 == *self.base.key(),
            r.1 == self.base.value(),
            self.base.final_value() is None,
    {
        self.base.remove_entry()
    }
}

impl<'a, K: Hash + Eq + Debug, V: Debug> VacantTrackEntry<'a, K, V> {
    pub fn insert(self, value: V) -> (r: &'a mut V)
        ensures
            *r == value,
            self.base.final_value() == Some(*final(r)),
    {
        self.base.insert(value)
    }

    pub fn insert_entry(self, value: V) -> (r: OccupiedTrackEntry<'a, K, V>)
        ensures
            r.base.key() == self.base.key(),
            r.base.value() == value,
            r.base.final_value() == self.base.final_value(),
    {
        OccupiedTrackEntry { base: self.base.insert_entry(value) }
    }
}

} // verus!
