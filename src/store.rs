use std::collections::HashMap;
use vstd::prelude::*;

verus! {

broadcast use {vstd::std_specs::hash::group_hash_axioms, vstd::seq_lib::lemma_seq_contains_after_push};

/// A value together with the time, in milliseconds on the caller's clock,
/// at which it was stored.
pub struct Stamped<V> {
    pub value: V,
    pub created: u64,
}

/// How long an entry stored at `created` has existed at `now`; a clock
/// reading earlier than the stamp counts as no time at all.
pub open spec fn age(created: int, now: int) -> int {
    if now >= created {
        now - created
    } else {
        0
    }
}

/// An entry is evicted once its age reaches the retention window.
pub open spec fn is_expired(created: int, now: int, retention: int) -> bool {
    age(created, now) >= retention
}

/// The entries of `m` that a sweep at `now` keeps.
pub open spec fn swept<V>(m: Map<u128, Stamped<V>>, now: int, retention: int) -> Map<
    u128,
    Stamped<V>,
> {
    Map::new(
        |k: u128| m.contains_key(k) && !is_expired(m[k].created as int, now, retention),
        |k: u128| m[k],
    )
}

/// An entry stored at `t` survives a sweep that runs less than the
/// retention window after `t`, and is gone after a sweep that runs at or
/// beyond the window's end.
pub proof fn lemma_retention_window<V>(
    m: Map<u128, Stamped<V>>,
    key: u128,
    value: V,
    t: u64,
    retention: int,
    eps: int,
)
    requires
        0 < eps <= retention,
    ensures
        swept(m.insert(key, (Stamped { value, created: t })), t + retention - eps, retention).contains_key(key),
        !swept(m.insert(key, (Stamped { value, created: t })), t + retention + eps, retention).contains_key(key),
        !swept(m.insert(key, (Stamped { value, created: t })), t + retention, retention).contains_key(key),
{
}

/// A keyed store of stamped values whose keys are 128-bit tokens chosen by
/// the caller, and whose old entries a sweep evicts.
pub struct ExpiringStore<V> {
    entries: HashMap<u128, Stamped<V>>,
}

impl<V> View for ExpiringStore<V> {
    type V = Map<u128, Stamped<V>>;

    closed spec fn view(&self) -> Map<u128, Stamped<V>> {
        self.entries@
    }
}

impl<V> ExpiringStore<V> {
    /// An empty store.
    pub fn new() -> (r: Self)
        ensures
            r@ == Map::<u128, Stamped<V>>::empty(),
    {
        ExpiringStore { entries: HashMap::new() }
    }

    /// Stores `value` under `key`, stamped with `created`, replacing any
    /// entry that the key had.
    pub fn insert(&mut self, key: u128, value: V, created: u64)
        ensures
            final(self)@ == old(self)@.insert(key, (Stamped { value, created })),
    {
        self.entries.insert(key, Stamped { value, created });
    }

    /// The entry stored under `key`, if any.
    pub fn get(&self, key: u128) -> (r: Option<&Stamped<V>>)
        ensures
            match r {
                Some(e) => self@.contains_key(key) && *e == self@[key],
                None => !self@.contains_key(key),
            },
    {
        self.entries.get(&key)
    }

    /// Whether an entry is stored under `key`.
    pub fn contains(&self, key: u128) -> (r: bool)
        ensures
            r == self@.contains_key(key),
    {
        self.entries.contains_key(&key)
    }

    /// Takes the entry stored under `key` out of the store.
    pub fn remove(&mut self, key: u128) -> (r: Option<Stamped<V>>)
        ensures
            final(self)@ == old(self)@.remove(key),
            match r {
                Some(e) => old(self)@.contains_key(key) && e == old(self)@[key],
                None => !old(self)@.contains_key(key),
            },
    {
        self.entries.remove(&key)
    }

    /// The number of entries.
    pub fn len(&self) -> (r: usize)
        ensures
            r == self@.len(),
    {
        self.entries.len()
    }

    /// Evicts every entry whose age at `now` is at least `retention`, and
    /// keeps the others unchanged.
    pub fn sweep(&mut self, now: u64, retention: u64)
        ensures
            final(self)@ == swept(old(self)@, now as int, retention as int),
    {
        let ghost start = self@;
        let mut stale: Vec<u128> = Vec::new();
        for k in it: self.entries.keys()
            invariant
                self@ == start,
                it.seq().unref().to_set() == start.dom(),
                forall|j: int|
                    0 <= j < it.index() && is_expired(
                        start[*it.seq()[j]].created as int,
                        now as int,
                        retention as int,
                    ) ==> stale@.contains(#[trigger] *it.seq()[j]),
                forall|j: int|
                    0 <= j < stale@.len() ==> start.contains_key(#[trigger] stale@[j])
                        && is_expired(start[stale@[j]].created as int, now as int, retention as int),
        {
            let e = self.entries.get(k).unwrap();
            if now >= e.created && now - e.created >= retention || now < e.created && retention
                == 0 {
                stale.push(*k);
            }
        }
        let n = stale.len();
        let mut i: usize = 0;
        while i < n
            invariant
                n == stale@.len(),
                i <= n,
                forall|j: int|
                    0 <= j < stale@.len() ==> start.contains_key(#[trigger] stale@[j])
                        && is_expired(start[stale@[j]].created as int, now as int, retention as int),
                forall|key: u128|
                    start.contains_key(key) && is_expired(
                        start[key].created as int,
                        now as int,
                        retention as int,
                    ) ==> #[trigger] stale@.contains(key),
                forall|key: u128| #[trigger]
                    self@.contains_key(key) <==> start.contains_key(key) && !stale@.subrange(
                        0,
                        i as int,
                    ).contains(key),
                forall|key: u128| #[trigger] self@.contains_key(key) ==> self@[key] == start[key],
            decreases n - i,
        {
            let key = stale[i];
            let ghost before = self@;
            self.entries.remove(&key);
            assert(self@ == before.remove(key));
            assert(stale@.subrange(0, i + 1) =~= stale@.subrange(0, i as int).push(key));
            i = i + 1;
        }
        assert(stale@.subrange(0, n as int) =~= stale@);
        assert(self@ =~= swept(start, now as int, retention as int));
    }
}

} // verus!
