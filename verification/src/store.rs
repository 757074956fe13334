use vstd::prelude::*;
use std::collections::HashMap;
use crate::query::{Query, QueryOptions, TimerAction};

verus! {

broadcast use vstd::std_specs::hash::group_hash_axioms;

/// Every entry is stored under its own key and is well formed.
pub open spec fn entries_wf<V>(m: Map<u64, Query<V>>) -> bool {
    forall|k: u64| #[trigger] m.contains_key(k) ==> m[k].key == k && m[k].wf()
}

/// The entries of `m` with those at `keys` invalidated.
pub open spec fn invalidated_at<V>(m: Map<u64, Query<V>>, keys: Seq<u64>) -> Map<u64, Query<V>> {
    Map::new(
        |k: u64| m.contains_key(k),
        |k: u64| if keys.contains(k) { m[k].invalidated() } else { m[k] },
    )
}

/// The keys of `keys` that `m` holds, in their order.
pub open spec fn present_keys<V>(m: Map<u64, Query<V>>, keys: Seq<u64>) -> Seq<u64> {
    keys.filter(|k: u64| m.contains_key(k))
}

/// How the keys that are present grow with one more key looked at.
pub proof fn lemma_present_keys_step<V>(m: Map<u64, Query<V>>, keys: Seq<u64>, i: int)
    requires
        0 <= i < keys.len(),
    ensures
        present_keys(m, keys.take(i + 1)) == if m.contains_key(keys[i]) {
            present_keys(m, keys.take(i)).push(keys[i])
        } else {
            present_keys(m, keys.take(i))
        },
{
    reveal(Seq::filter);
    assert(keys.take(i + 1).drop_last() =~= keys.take(i));
}

/// The entries of one key type: at most one entry for each key.
pub struct TypedStore<V> {
    pub entries: HashMap<u64, Query<V>>,
}

impl<V> View for TypedStore<V> {
    type V = Map<u64, Query<V>>;

    open spec fn view(&self) -> Map<u64, Query<V>> {
        self.entries@
    }
}

impl<V> TypedStore<V> {
    pub open spec fn wf(&self) -> bool {
        entries_wf(self@)
    }

    pub fn new() -> (out: TypedStore<V>)
        ensures
            out@ == Map::<u64, Query<V>>::empty(),
            out.wf(),
    {
        TypedStore { entries: HashMap::new() }
    }

    pub fn get(&self, key: u64) -> (out: Option<&Query<V>>)
        ensures
            out.is_some() == self@.contains_key(key),
            out matches Some(q) ==> *q == self@[key],
    {
        self.entries.get(&key)
    }

    /// Makes sure that `key` has an entry. An entry that is there is left as
    /// it is; otherwise a fresh one is stored. Says whether it was created.
    pub fn get_or_create(&mut self, key: u64, options: QueryOptions<V>) -> (created: bool)
        ensures
            created == !old(self)@.contains_key(key),
            final(self)@ == (if created {
                old(self)@.insert(key, Query::<V>::fresh(key, options))
            } else {
                old(self)@
            }),
            old(self).wf() ==> final(self).wf(),
    {
        if self.entries.contains_key(&key) {
            false
        } else {
            self.entries.insert(key, Query::new(key, options));
            true
        }
    }

    /// Registers a consumer on the entry of `key`, if there is one.
    pub fn subscribe(&mut self, key: u64) -> (out: TimerAction)
        requires
            old(self)@.contains_key(key) ==> old(self)@[key].observers < u64::MAX,
        ensures
            old(self)@.contains_key(key) ==> final(self)@ == old(self)@.insert(
                key,
                old(self)@[key].subscribed(),
            ) && out == old(self)@[key].subscribe_action(),
            !old(self)@.contains_key(key) ==> final(self)@ == old(self)@ && out
                == TimerAction::Keep,
            old(self).wf() ==> final(self).wf(),
    {
        match self.entries.remove(&key) {
            Some(q) => {
                let (next, action) = q.subscribe();
                self.entries.insert(key, next);
                assert(self@ =~= old(self)@.insert(key, old(self)@[key].subscribed()));
                action
            },
            None => {
                assert(self@ =~= old(self)@);
                TimerAction::Keep
            },
        }
    }

    /// Removes a consumer from the entry of `key`, if there is one that is
    /// observed.
    pub fn unsubscribe(&mut self, key: u64) -> (out: TimerAction)
        requires
            old(self)@.contains_key(key) ==> old(self)@[key].timer_seq < u64::MAX,
        ensures
            old(self).observed(key) ==> final(self)@ == old(self)@.insert(
                key,
                old(self)@[key].unsubscribed(),
            ) && out == (if old(self)@[key].last_leaves() {
                final(self)@[key].arm_action()
            } else {
                TimerAction::Keep
            }),
            !old(self).observed(key) ==> final(self)@ == old(self)@ && out == TimerAction::Keep,
            old(self).wf() ==> final(self).wf(),
    {
        match self.entries.remove(&key) {
            Some(q) => {
                if q.observers > 0 {
                    let (next, action) = q.unsubscribe();
                    self.entries.insert(key, next);
                    assert(self@ =~= old(self)@.insert(key, old(self)@[key].unsubscribed()));
                    action
                } else {
                    self.entries.insert(key, q);
                    assert(self@ =~= old(self)@);
                    TimerAction::Keep
                }
            },
            None => {
                assert(self@ =~= old(self)@);
                TimerAction::Keep
            },
        }
    }

    /// The entry of `key` exists and has at least one consumer.
    pub open spec fn observed(&self, key: u64) -> bool {
        self@.contains_key(key) && self@[key].observers > 0
    }

    /// Runs the executor on the entry of `key` for an observation at `now`;
    /// returns the epoch of the fetch that was started, if one was.
    pub fn execute(&mut self, key: u64, now: u64) -> (out: Option<u64>)
        requires
            old(self)@.contains_key(key) ==> old(self)@[key].epoch < u64::MAX,
        ensures
            old(self)@.contains_key(key) ==> final(self)@ == old(self)@.insert(
                key,
                old(self)@[key].executed(now),
            ) && out == (if old(self)@[key].needs_fetch(now) {
                Some(final(self)@[key].epoch)
            } else {
                None
            }),
            !old(self)@.contains_key(key) ==> final(self)@ == old(self)@ && out.is_none(),
            old(self).wf() ==> final(self).wf(),
    {
        match self.entries.remove(&key) {
            Some(q) => {
                let (next, started) = q.execute(now);
                self.entries.insert(key, next);
                assert(self@ =~= old(self)@.insert(key, old(self)@[key].executed(now)));
                started
            },
            None => {
                assert(self@ =~= old(self)@);
                None
            },
        }
    }

    /// Starts a fetch on the entry of `key` whatever its status; returns the
    /// epoch of that fetch.
    pub fn refetch(&mut self, key: u64) -> (out: Option<u64>)
        requires
            old(self)@.contains_key(key) ==> old(self)@[key].epoch < u64::MAX,
        ensures
            old(self)@.contains_key(key) ==> final(self)@ == old(self)@.insert(
                key,
                old(self)@[key].begun(),
            ) && out == Some(final(self)@[key].epoch),
            !old(self)@.contains_key(key) ==> final(self)@ == old(self)@ && out.is_none(),
            old(self).wf() ==> final(self).wf(),
    {
        match self.entries.remove(&key) {
            Some(q) => {
                let (next, epoch) = q.refetch();
                self.entries.insert(key, next);
                assert(self@ =~= old(self)@.insert(key, old(self)@[key].begun()));
                Some(epoch)
            },
            None => {
                assert(self@ =~= old(self)@);
                None
            },
        }
    }

    /// Handles the end of a period on the entry of `key`; returns the epoch
    /// of the fetch that was started, if one was.
    pub fn tick(&mut self, key: u64) -> (out: Option<u64>)
        requires
            old(self)@.contains_key(key) ==> old(self)@[key].epoch < u64::MAX,
        ensures
            old(self)@.contains_key(key) ==> final(self)@ == old(self)@.insert(
                key,
                old(self)@[key].ticked(),
            ) && out == (if old(self)@[key].interval_due() {
                Some(final(self)@[key].epoch)
            } else {
                None
            }),
            !old(self)@.contains_key(key) ==> final(self)@ == old(self)@ && out.is_none(),
            old(self).wf() ==> final(self).wf(),
    {
        match self.entries.remove(&key) {
            Some(q) => {
                let (next, started) = q.tick();
                self.entries.insert(key, next);
                assert(self@ =~= old(self)@.insert(key, old(self)@[key].ticked()));
                started
            },
            None => {
                assert(self@ =~= old(self)@);
                None
            },
        }
    }

    /// Hands the result of the fetch started at `epoch` to the entry of
    /// `key`; says whether it was applied.
    pub fn complete(&mut self, key: u64, epoch: u64, data: V, now: u64) -> (out: bool)
        ensures
            out == (old(self)@.contains_key(key) && old(self)@[key].accepts(epoch)),
            out ==> final(self)@ == old(self)@.insert(
                key,
                old(self)@[key].completed(epoch, data, now),
            ),
            !out ==> final(self)@ == old(self)@,
            old(self).wf() ==> final(self).wf(),
    {
        match self.entries.remove(&key) {
            Some(q) => {
                let (next, applied) = q.complete(epoch, data, now);
                self.entries.insert(key, next);
                assert(self@ =~= old(self)@.insert(
                    key,
                    old(self)@[key].completed(epoch, data, now),
                ));
                assert(!applied ==> self@ =~= old(self)@);
                applied
            },
            None => {
                assert(self@ =~= old(self)@);
                false
            },
        }
    }

    /// Marks the entry of `key` as out of date; says whether there is one.
    pub fn invalidate(&mut self, key: u64) -> (out: bool)
        ensures
            out == old(self)@.contains_key(key),
            out ==> final(self)@ == old(self)@.insert(key, old(self)@[key].invalidated()),
            !out ==> final(self)@ == old(self)@,
            old(self).wf() ==> final(self).wf(),
    {
        match self.entries.remove(&key) {
            Some(q) => {
                self.entries.insert(key, q.invalidate());
                assert(self@ =~= old(self)@.insert(key, old(self)@[key].invalidated()));
                true
            },
            None => {
                assert(self@ =~= old(self)@);
                false
            },
        }
    }

    /// Marks the entries of all `keys` as out of date; returns the keys that
    /// have an entry, in the order given.
    pub fn invalidate_many(&mut self, keys: &Vec<u64>) -> (out: Vec<u64>)
        ensures
            out@ == present_keys(old(self)@, keys@),
            final(self)@ == invalidated_at(old(self)@, keys@),
            old(self).wf() ==> final(self).wf(),
    {
        let mut matched: Vec<u64> = Vec::new();
        let mut i: usize = 0;
        proof {
            reveal(Seq::filter);
            assert(keys@.take(0) =~= Seq::<u64>::empty());
            assert(self@ =~= invalidated_at(old(self)@, keys@.take(0)));
        }
        while i < keys.len()
            invariant
                i <= keys.len(),
                matched@ == present_keys(old(self)@, keys@.take(i as int)),
                self@ == invalidated_at(old(self)@, keys@.take(i as int)),
                old(self).wf() ==> self.wf(),
            decreases keys.len() - i,
        {
            let key: u64 = keys[i];
            let ghost before = self@;
            proof {
                lemma_present_keys_step(old(self)@, keys@, i as int);
            }
            if self.invalidate(key) {
                matched.push(key);
            }
            proof {
                let prev = keys@.take(i as int);
                let next = keys@.take(i + 1);
                assert(next =~= prev.push(key));
                assert forall|k: u64| next.contains(k) == (prev.contains(k) || k == key) by {
                    if prev.contains(k) {
                        let j = choose|j: int| 0 <= j < prev.len() && prev[j] == k;
                        assert(next[j] == k);
                    }
                    if k == key {
                        assert(next[i as int] == k);
                    }
                }
                assert(self@ =~= invalidated_at(old(self)@, next));
            }
            i += 1;
        }
        proof {
            assert(keys@.take(i as int) =~= keys@);
        }
        matched
    }

    /// Handles the report of the eviction timer started with `token`: the
    /// entry of `key` is removed if that timer is still the armed one, and
    /// so the entry is still unobserved. Says whether it was removed.
    pub fn expire(&mut self, key: u64, token: u64) -> (out: bool)
        ensures
            out == (old(self)@.contains_key(key) && old(self)@[key].expires_on(token)),
            final(self)@ == (if out {
                old(self)@.remove(key)
            } else {
                old(self)@
            }),
            old(self).wf() ==> final(self).wf(),
    {
        let due = match self.entries.get(&key) {
            Some(q) => q.timer_due(token),
            None => false,
        };
        if due {
            self.evict(key);
        }
        due
    }

    /// Removes the entry of `key`.
    pub fn evict(&mut self, key: u64)
        ensures
            final(self)@ == old(self)@.remove(key),
            old(self).wf() ==> final(self).wf(),
    {
        self.entries.remove(&key);
        assert(self@ =~= old(self)@.remove(key));
    }
}

} // verus!
