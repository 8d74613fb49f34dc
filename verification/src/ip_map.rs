//! A map from IP addresses to small values.

use std::collections::HashMap;
use std::hash::Hash;
use vstd::prelude::*;
use vstd::std_specs::hash::*;

use crate::ip::IpAddr;

verus! {

broadcast use vstd::std_specs::hash::group_hash_axioms;

/// A map from IP addresses to values, with one table for each version of the protocol.
pub struct IpMap<V> {
    v4: HashMap<u32, V>,
    v6: HashMap<u128, V>,
}

impl<V> View for IpMap<V> {
    type V = Map<IpAddr, V>;

    closed spec fn view(&self) -> Map<IpAddr, V> {
        Map::new(
            |ip: IpAddr|
                match ip {
                    IpAddr::V4(a) => self.v4@.contains_key(a),
                    IpAddr::V6(a) => self.v6@.contains_key(a),
                },
            |ip: IpAddr|
                match ip {
                    IpAddr::V4(a) => self.v4@[a],
                    IpAddr::V6(a) => self.v6@[a],
                },
        )
    }
}

impl<V: Copy> IpMap<V> {
    pub fn new() -> (m: Self)
        ensures
            m@ == Map::<IpAddr, V>::empty(),
    {
        let m = IpMap { v4: HashMap::new(), v6: HashMap::new() };
        assert(m@ =~= Map::<IpAddr, V>::empty());
        m
    }

    /// The value that `ip` has, if it has one.
    pub fn get(&self, ip: &IpAddr) -> (value: Option<V>)
        ensures
            value == (if self@.contains_key(*ip) {
                Some(self@[*ip])
            } else {
                None
            }),
    {
        let found = match ip {
            IpAddr::V4(a) => self.v4.get(a),
            IpAddr::V6(a) => self.v6.get(a),
        };
        match found {
            Some(v) => Some(*v),
            None => None,
        }
    }

    /// Gives `ip` the value `value`, in place of the one it had.
    pub fn insert(&mut self, ip: IpAddr, value: V)
        ensures
            final(self)@ == old(self)@.insert(ip, value),
    {
        match ip {
            IpAddr::V4(a) => {
                self.v4.insert(a, value);
            },
            IpAddr::V6(a) => {
                self.v6.insert(a, value);
            },
        }
        assert(self@ =~= old(self)@.insert(ip, value));
    }

    /// Takes `ip` out of the map.
    pub fn remove(&mut self, ip: &IpAddr)
        ensures
            final(self)@ == old(self)@.remove(*ip),
    {
        match ip {
            IpAddr::V4(a) => {
                self.v4.remove(a);
            },
            IpAddr::V6(a) => {
                self.v6.remove(a);
            },
        }
        assert(self@ =~= old(self)@.remove(*ip));
    }

    /// Whether no address has a value.
    pub fn is_empty(&self) -> (empty: bool)
        ensures
            empty == self@.is_empty(),
    {
        let empty = self.v4.is_empty() && self.v6.is_empty();
        proof {
            if self.v4@.dom().len() != 0 {
                let a = self.v4@.dom().choose();
                assert(self@.contains_key(IpAddr::V4(a)));
            }
            if self.v6@.dom().len() != 0 {
                let a = self.v6@.dom().choose();
                assert(self@.contains_key(IpAddr::V6(a)));
            }
            if empty {
                assert(self@ =~= Map::<IpAddr, V>::empty());
            }
        }
        empty
    }

    /// Drops the addresses whose value `keep` turns down.
    pub fn retain<F: Fn(V) -> bool + Copy>(&mut self, keep: F, Ghost(kept): Ghost<spec_fn(V) -> bool>)
        requires
            forall|v: V| call_requires(keep, (v,)),
            forall|v: V, b: bool| call_ensures(keep, (v,), b) ==> b == kept(v),
        ensures
            final(self)@ == retained(old(self)@, kept),
    {
        retain_values(&mut self.v4, keep, Ghost(kept));
        retain_values(&mut self.v6, keep, Ghost(kept));
        assert(self@ =~= retained(old(self)@, kept));
    }
}

/// `m` without the values that `keep` turns down.
pub open spec fn retained<K, V>(m: Map<K, V>, keep: spec_fn(V) -> bool) -> Map<K, V> {
    m.restrict(Set::new(|k: K| m.contains_key(k) && keep(m[k])))
}

/// Drops the entries whose value `keep` turns down.
fn retain_values<K: Copy + Eq + Hash, V: Copy, F: Fn(V) -> bool>(
    m: &mut HashMap<K, V>,
    keep: F,
    Ghost(kept): Ghost<spec_fn(V) -> bool>,
)
    requires
        obeys_key_model::<K>(),
        forall|v: V| call_requires(keep, (v,)),
        forall|v: V, b: bool| call_ensures(keep, (v,), b) ==> b == kept(v),
    ensures
        final(m)@ == retained(old(m)@, kept),
{
    let mut fresh: HashMap<K, V> = HashMap::new();
    for (k, v) in entries: m.iter()
        invariant
            obeys_key_model::<K>(),
            forall|v: V| call_requires(keep, (v,)),
            forall|v: V, b: bool| call_ensures(keep, (v,), b) ==> b == kept(v),
            entries.seq() == vstd::std_specs::iter::IteratorSpec::remaining(&m.iter()),
            forall|key: K| #[trigger]
                fresh@.contains_key(key) ==> m@.contains_key(key) && fresh@[key] == m@[key]
                    && kept(m@[key]),
            forall|j: int|
                0 <= j < entries.index() && kept(*(#[trigger] entries.seq()[j]).1)
                    ==> fresh@.contains_key(*entries.seq()[j].0),
    {
        assert(m@.contains_key(*k) && m@[*k] == *v);
        if keep(*v) {
            fresh.insert(*k, *v);
        }
    }
    proof {
        let all = vstd::std_specs::iter::IteratorSpec::remaining(&m.iter());
        assert forall|key: K| m@.contains_key(key) && kept(m@[key]) implies fresh@.contains_key(
            key,
        ) by {
            assert(all.contains((&key, &m@[key])));
            let j = all.index_of((&key, &m@[key]));
        }
        assert(fresh@ =~= retained(m@, kept));
    }
    *m = fresh;
}

} // verus!
