//! Collections whose entries expire.
use vstd::prelude::*;

use crate::util::duration_ext::Duration;

verus! {

/// A set of `expiringmap`, whose entries expire some time after they were inserted.
#[verifier::external_type_specification]
#[verifier::external_body]
#[verifier::reject_recursive_types(K)]
pub struct ExExpiringSet<K>(expiringmap::ExpiringSet<K>);

/// A map of `expiringmap`, whose entries expire some time after they were inserted.
#[verifier::external_type_specification]
#[verifier::external_body]
#[verifier::reject_recursive_types(K)]
#[verifier::reject_recursive_types(V)]
pub struct ExExpiringMap<K, V>(expiringmap::ExpiringMap<K, V>);

/// The values that a set holds, expired or not, with how long each lives, in nanoseconds.
pub uninterp spec fn held_values(set: expiringmap::ExpiringSet<Vec<u8>>) -> Map<Seq<u8>, nat>;

/// The entries that a map holds, expired or not: the value at each key, and how long it lives, in
/// nanoseconds.
pub uninterp spec fn held_entries(map: expiringmap::ExpiringMap<Vec<u8>, Vec<u8>>) -> Map<
    Seq<u8>,
    (Seq<u8>, nat),
>;

/// `expiringmap::ExpiringSet::new`: a set that holds nothing.
#[verifier::external_body]
fn new_set() -> (r: expiringmap::ExpiringSet<Vec<u8>>)
    ensures
        held_values(r).dom() == Set::<Seq<u8>>::empty(),
{
    expiringmap::ExpiringSet::new()
}

/// `expiringmap::ExpiringSet::contains`: `true` only for a value that the set holds. One that it
/// holds counts until it expires.
#[verifier::external_body]
fn set_contains(set: &expiringmap::ExpiringSet<Vec<u8>>, value: &Vec<u8>) -> (r: bool)
    ensures
        r ==> held_values(*set).contains_key(value@),
{
    set.contains(value)
}

/// Whether the set can tell this of the value. It depends on the time whether a value that the set
/// holds has expired.
pub closed spec fn can_tell(
    set: expiringmap::ExpiringSet<Vec<u8>>,
    value: Seq<u8>,
    found: bool,
) -> bool {
    exists|v: &Vec<u8>| v@ == value && #[trigger] call_ensures(set_contains, (&set, v), found)
}

/// `expiringmap::ExpiringSet::insert`: the set holds the value afterwards, which lives as long as
/// is said. No other value enters the set or lives longer or shorter, and one leaves it only where
/// `contains` can tell that it has expired.
#[verifier::external_body]
fn insert_into_set(set: &mut expiringmap::ExpiringSet<Vec<u8>>, value: Vec<u8>, ttl: Duration)
    ensures
        held_values(*final(set)).contains_key(value@),
        held_values(*final(set)).submap_of(
            held_values(*old(set)).insert(value@, ttl.total_nanos()),
        ),
        forall|v: Seq<u8>|
            held_values(*old(set)).contains_key(v) && !#[trigger] held_values(
                *final(set),
            ).contains_key(v) ==> can_tell(*old(set), v, false),
{
    let _ = set.insert(value, std::time::Duration::new(ttl.as_secs(), ttl.subsec_nanos()));
}

/// `expiringmap::ExpiringMap::vacuum_if_needed` on a set: nothing enters the set, and a value leaves
/// it only where `contains` can tell that it has expired. What it tells then it could tell before.
#[verifier::external_body]
fn vacuum_set(set: &mut expiringmap::ExpiringSet<Vec<u8>>)
    ensures
        held_values(*final(set)).submap_of(held_values(*old(set))),
        forall|v: Seq<u8>|
            held_values(*old(set)).contains_key(v) && !#[trigger] held_values(
                *final(set),
            ).contains_key(v) ==> can_tell(*old(set), v, false),
        forall|v: Seq<u8>, found: bool|
            #[trigger] can_tell(*final(set), v, found) ==> can_tell(*old(set), v, found),
{
    set.vacuum_if_needed()
}

/// `expiringmap::ExpiringMap::remove` on a set: the value leaves the set and nothing else changes.
/// It returns what `contains` can tell of the value just before.
#[verifier::external_body]
fn remove_from_set(set: &mut expiringmap::ExpiringSet<Vec<u8>>, value: &Vec<u8>) -> (r: bool)
    ensures
        r ==> held_values(*old(set)).contains_key(value@),
        can_tell(*old(set), value@, r),
        held_values(*final(set)) == held_values(*old(set)).remove(value@),
{
    set.remove(value)
}

/// `expiringmap::ExpiringMap::new`: a map without entries.
#[verifier::external_body]
fn new_map() -> (r: expiringmap::ExpiringMap<Vec<u8>, Vec<u8>>)
    ensures
        held_entries(r).dom() == Set::<Seq<u8>>::empty(),
{
    expiringmap::ExpiringMap::new()
}

/// `expiringmap::ExpiringMap::get`: the value that the map holds for the key, until it expires.
#[verifier::external_body]
fn map_get<'a>(map: &'a expiringmap::ExpiringMap<Vec<u8>, Vec<u8>>, key: &Vec<u8>) -> (r: Option<
    &'a Vec<u8>,
>)
    ensures
        r matches Some(value) ==> held_entries(*map).contains_key(key@) && value@ == held_entries(
            *map,
        )[key@].0,
{
    map.get(key)
}

/// Whether the map can find a value at the key, or none. It depends on the time whether an entry
/// that the map holds has expired.
pub closed spec fn can_find(
    map: expiringmap::ExpiringMap<Vec<u8>, Vec<u8>>,
    key: Seq<u8>,
    found: bool,
) -> bool {
    exists|k: &Vec<u8>, r: Option<&Vec<u8>>|
        k@ == key && r is Some == found && #[trigger] call_ensures(map_get, (&map, k), r)
}

/// `expiringmap::ExpiringMap::vacuum_if_needed`: no entry enters the map, and one leaves it only
/// where `get` can find that it has expired. What it finds then it could find before.
#[verifier::external_body]
fn vacuum_map(map: &mut expiringmap::ExpiringMap<Vec<u8>, Vec<u8>>)
    ensures
        held_entries(*final(map)).submap_of(held_entries(*old(map))),
        forall|k: Seq<u8>|
            held_entries(*old(map)).contains_key(k) && !#[trigger] held_entries(
                *final(map),
            ).contains_key(k) ==> can_find(*old(map), k, false),
        forall|k: Seq<u8>, found: bool|
            #[trigger] can_find(*final(map), k, found) ==> can_find(*old(map), k, found),
{
    map.vacuum_if_needed()
}

/// `expiringmap::ExpiringMap::insert`: the map holds the entry afterwards, which lives as long as is
/// said. No other entry enters the map or changes, and one leaves it only where `get` can find that
/// it has expired. Returns the value that stood at the key, unless `get` can find that it had
/// expired, and whether it has expired by now.
#[verifier::external_body]
fn insert_into_map(
    map: &mut expiringmap::ExpiringMap<Vec<u8>, Vec<u8>>,
    key: Vec<u8>,
    value: Vec<u8>,
    ttl: Duration,
) -> (r: Option<(bool, Vec<u8>)>)
    ensures
        held_entries(*final(map)).contains_key(key@),
        held_entries(*final(map)).submap_of(
            held_entries(*old(map)).insert(key@, (value@, ttl.total_nanos())),
        ),
        forall|k: Seq<u8>|
            held_entries(*old(map)).contains_key(k) && !#[trigger] held_entries(
                *final(map),
            ).contains_key(k) ==> can_find(*old(map), k, false),
        r matches Some(previous) ==> held_entries(*old(map)).contains_key(key@) && previous.1@
            == held_entries(*old(map))[key@].0,
        can_find(*old(map), key@, r matches Some(previous) && !previous.0),
{
    map.insert(key, value, std::time::Duration::new(ttl.as_secs(), ttl.subsec_nanos())).map(
        |previous| (previous.expired(), previous.value()),
    )
}

/// `expiringmap::ExpiringMap::get_mut`: gives access to the value that `get` can find at the key.
/// The entry lives as long as it did, and no other entry changes.
#[verifier::external_body]
fn map_get_mut<'a>(map: &'a mut expiringmap::ExpiringMap<Vec<u8>, Vec<u8>>, key: &Vec<u8>) -> (r:
    Option<&'a mut Vec<u8>>)
    ensures
        can_find(*old(map), key@, r is Some),
        match r {
            Some(value) => held_entries(*old(map)).contains_key(key@) && value@ == held_entries(
                *old(map),
            )[key@].0 && held_entries(*final(map)) == held_entries(*old(map)).insert(
                key@,
                (final(value)@, held_entries(*old(map))[key@].1),
            ),
            None => held_entries(*final(map)) == held_entries(*old(map)),
        },
{
    map.get_mut(key)
}

/// `expiringmap::ExpiringMap::remove_entry`: the entry leaves the map and nothing else changes.
/// Returns the value that `get` can find at the key just before.
#[verifier::external_body]
fn remove_from_map(
    map: &mut expiringmap::ExpiringMap<Vec<u8>, Vec<u8>>,
    key: &Vec<u8>,
) -> (r: Option<
    Vec<u8>,
>)
    ensures
        held_entries(*final(map)) == held_entries(*old(map)).remove(key@),
        r matches Some(value) ==> held_entries(*old(map)).contains_key(key@) && value@
            == held_entries(*old(map))[key@].0,
        can_find(*old(map), key@, r is Some),
{
    map.remove_entry(key).map(|entry| entry.1)
}

/// A map whose entries all live equally long.
pub struct TtlMap {
    map: expiringmap::ExpiringMap<Vec<u8>, Vec<u8>>,
    ttl: Duration,
}

impl View for TtlMap {
    type V = Map<Seq<u8>, (Seq<u8>, nat)>;

    /// The value at each key, and how long it lives, in nanoseconds.
    closed spec fn view(&self) -> Map<Seq<u8>, (Seq<u8>, nat)> {
        held_entries(self.map)
    }
}

impl TtlMap {
    /// How long an entry lives from now on.
    pub closed spec fn ttl(&self) -> Duration {
        self.ttl
    }

    /// Whether the map can find a value at the key, or none because there is none or it has
    /// expired.
    pub closed spec fn finds(&self, key: Seq<u8>, found: bool) -> bool {
        can_find(self.map, key, found)
    }

    pub fn new(ttl: Duration) -> (r: Self)
        ensures
            r@ == Map::<Seq<u8>, (Seq<u8>, nat)>::empty(),
            r.ttl() == ttl,
    {
        let map = new_map();
        assert(held_entries(map) =~= Map::<Seq<u8>, (Seq<u8>, nat)>::empty());
        TtlMap { map, ttl }
    }

    /// Adds an entry and returns the value that it replaces, unless that has expired.
    pub fn insert(&mut self, key: Vec<u8>, value: Vec<u8>) -> (r: Option<Vec<u8>>)
        ensures
            final(self).ttl() == old(self).ttl(),
            final(self)@.contains_key(key@),
            final(self)@.submap_of(
                old(self)@.insert(key@, (value@, old(self).ttl().total_nanos())),
            ),
            forall|k: Seq<u8>|
                old(self)@.contains_key(k) && !#[trigger] final(self)@.contains_key(k) ==> old(
                    self,
                ).finds(k, false),
            r matches Some(previous) ==> old(self)@.contains_key(key@) && previous@ == old(
                self,
            )@[key@].0,
            old(self).finds(key@, r is Some),
    {
        vacuum_map(&mut self.map);
        let ghost vacuumed = self@;
        let ghost lifetime = self.ttl.total_nanos();
        let replaced = insert_into_map(&mut self.map, key, value, self.ttl);
        proof {
            assert forall|k: Seq<u8>| #[trigger] self@.contains_key(k) implies old(self)@.insert(
                key@,
                (value@, lifetime),
            ).contains_key(k) && old(self)@.insert(key@, (value@, lifetime))[k] == self@[k] by {
                assert(vacuumed.insert(key@, (value@, lifetime)).contains_key(k));
                if k != key@ {
                    assert(vacuumed.contains_key(k));
                }
            }
            assert forall|k: Seq<u8>|
                old(self)@.contains_key(k) && !#[trigger] self@.contains_key(k) implies old(
                self,
            ).finds(k, false) by {
                assert(vacuumed.contains_key(k) || !vacuumed.contains_key(k));
            }
        }
        match replaced {
            Some((expired, previous)) => if expired {
                None
            } else {
                Some(previous)
            },
            None => None,
        }
    }

    /// The value for the key, until it expires.
    pub fn get(&self, key: &Vec<u8>) -> (r: Option<&Vec<u8>>)
        ensures
            r matches Some(value) ==> self@.contains_key(key@) && value@ == self@[key@].0,
            self.finds(key@, r is Some),
    {
        let found = map_get(&self.map, key);
        assert(call_ensures(map_get, (&self.map, key), found));
        found
    }

    /// Access to the value for the key, until it expires.
    pub fn get_mut(&mut self, key: &Vec<u8>) -> (r: Option<&mut Vec<u8>>)
        ensures
            final(self).ttl() == old(self).ttl(),
            old(self).finds(key@, r is Some),
            match r {
                Some(value) => old(self)@.contains_key(key@) && value@ == old(self)@[key@].0
                    && final(self)@ == old(self)@.insert(
                    key@,
                    (final(value)@, old(self)@[key@].1),
                ),
                None => final(self)@ == old(self)@,
            },
    {
        map_get_mut(&mut self.map, key)
    }

    /// Removes an entry and returns its value, unless that has expired.
    pub fn remove(&mut self, key: &Vec<u8>) -> (r: Option<Vec<u8>>)
        ensures
            final(self).ttl() == old(self).ttl(),
            final(self)@ == old(self)@.remove(key@),
            r matches Some(value) ==> old(self)@.contains_key(key@) && value@ == old(
                self,
            )@[key@].0,
            old(self).finds(key@, r is Some),
    {
        remove_from_map(&mut self.map, key)
    }

    pub fn clear(&mut self)
        ensures
            final(self).ttl() == old(self).ttl(),
            final(self)@ == Map::<Seq<u8>, (Seq<u8>, nat)>::empty(),
    {
        self.map = new_map();
        assert(self@ =~= Map::<Seq<u8>, (Seq<u8>, nat)>::empty());
    }
}

/// A set whose values all live equally long.
pub struct TtlSet {
    set: expiringmap::ExpiringSet<Vec<u8>>,
    ttl: Duration,
}

impl View for TtlSet {
    type V = Map<Seq<u8>, nat>;

    /// The values, with how long each lives, in nanoseconds.
    closed spec fn view(&self) -> Map<Seq<u8>, nat> {
        held_values(self.set)
    }
}

impl TtlSet {
    /// How long a value lives from now on.
    pub closed spec fn ttl(&self) -> Duration {
        self.ttl
    }

    /// Whether the set can tell that it holds the value, or that it does not or that it has
    /// expired.
    pub closed spec fn tells(&self, value: Seq<u8>, found: bool) -> bool {
        can_tell(self.set, value, found)
    }

    pub fn new(ttl: Duration) -> (r: Self)
        ensures
            r@ == Map::<Seq<u8>, nat>::empty(),
            r.ttl() == ttl,
    {
        let set = new_set();
        assert(held_values(set) =~= Map::<Seq<u8>, nat>::empty());
        TtlSet { set, ttl }
    }

    /// Adds a value. Others leave the set only once they have expired.
    pub fn insert(&mut self, value: Vec<u8>)
        ensures
            final(self).ttl() == old(self).ttl(),
            final(self)@.contains_key(value@),
            final(self)@.submap_of(old(self)@.insert(value@, old(self).ttl().total_nanos())),
            forall|v: Seq<u8>|
                old(self)@.contains_key(v) && !#[trigger] final(self)@.contains_key(v) ==> old(
                    self,
                ).tells(v, false),
    {
        vacuum_set(&mut self.set);
        let ghost vacuumed = self@;
        let ghost lifetime = self.ttl.total_nanos();
        insert_into_set(&mut self.set, value, self.ttl);
        proof {
            assert forall|v: Seq<u8>| #[trigger] self@.contains_key(v) implies old(self)@.insert(
                value@,
                lifetime,
            ).contains_key(v) && old(self)@.insert(value@, lifetime)[v] == self@[v] by {
                assert(vacuumed.insert(value@, lifetime).contains_key(v));
                if v != value@ {
                    assert(vacuumed.contains_key(v));
                }
            }
            assert forall|v: Seq<u8>|
                old(self)@.contains_key(v) && !#[trigger] self@.contains_key(v) implies old(
                self,
            ).tells(v, false) by {
                assert(vacuumed.contains_key(v) || !vacuumed.contains_key(v));
            }
        }
    }

    /// Whether the set holds the value and it has not expired.
    pub fn contains(&self, value: &Vec<u8>) -> (r: bool)
        ensures
            r ==> self@.contains_key(value@),
            self.tells(value@, r),
    {
        let found = set_contains(&self.set, value);
        assert(call_ensures(set_contains, (&self.set, value), found));
        found
    }

    /// Removes the value and returns whether the set held it and it has not expired.
    pub fn remove(&mut self, value: &Vec<u8>) -> (r: bool)
        ensures
            final(self).ttl() == old(self).ttl(),
            final(self)@ == old(self)@.remove(value@),
            r ==> old(self)@.contains_key(value@),
            old(self).tells(value@, r),
    {
        remove_from_set(&mut self.set, value)
    }
}

} // verus!
