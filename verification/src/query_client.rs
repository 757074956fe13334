use vstd::prelude::*;
use std::collections::HashMap;
use crate::query::{FetchTicket, Query, QueryOptions, TimerAction};
use crate::query_result::QueryResult;
use crate::store::{entries_wf, invalidated_at, present_keys, TypedStore};

verus! {

broadcast use vstd::std_specs::hash::group_hash_axioms;

/// The whole cache as a value: for each key type the entries of its keys.
pub type CacheModel<V> = Map<u64, Map<u64, Query<V>>>;

/// The work that the runtime has to do after an operation.
#[derive(Clone, Copy, Debug, PartialEq, Eq)]
pub struct Effects {
    /// The fetch to run, if one was started.
    pub fetch: Option<FetchTicket>,
    /// What to do with the eviction timer of the entry.
    pub timer: TimerAction,
}

/// `m` holds an entry for `key` of key type `type_id`.
pub open spec fn has_entry<V>(m: CacheModel<V>, type_id: u64, key: u64) -> bool {
    m.contains_key(type_id) && m[type_id].contains_key(key)
}

/// The entries of key type `type_id`; none where the type was never used.
pub open spec fn store_of<V>(m: CacheModel<V>, type_id: u64) -> Map<u64, Query<V>> {
    if m.contains_key(type_id) {
        m[type_id]
    } else {
        Map::empty()
    }
}

/// The entry of `key`, or the fresh one that its first use creates.
pub open spec fn entry_or_fresh<V>(
    m: CacheModel<V>,
    type_id: u64,
    key: u64,
    options: QueryOptions<V>,
) -> Query<V> {
    if has_entry(m, type_id, key) {
        m[type_id][key]
    } else {
        Query::fresh(key, options)
    }
}

/// `m` with `q` as the entry of `key`.
pub open spec fn put<V>(m: CacheModel<V>, type_id: u64, key: u64, q: Query<V>) -> CacheModel<V> {
    m.insert(type_id, store_of(m, type_id).insert(key, q))
}

/// The ticket of the fetch that was started at `epoch`, if one was.
pub open spec fn ticket_for(type_id: u64, key: u64, started: Option<u64>) -> Option<FetchTicket> {
    match started {
        Some(epoch) => Some(FetchTicket { type_id, key, epoch }),
        None => None,
    }
}

/// The epoch of the fetch that the end of a period starts on `q`.
pub open spec fn started_by_interval<V>(q: Query<V>) -> Option<u64> {
    if q.interval_due() {
        Some((q.epoch + 1) as u64)
    } else {
        None
    }
}

/// The epoch of the fetch that an observation of `q` at `now` starts.
pub open spec fn started_by<V>(q: Query<V>, now: u64) -> Option<u64> {
    if q.needs_fetch(now) {
        Some((q.epoch + 1) as u64)
    } else {
        None
    }
}

/// `m` after a consumer has started to observe `key` at `now`.
pub open spec fn subscribed_at<V>(
    m: CacheModel<V>,
    type_id: u64,
    key: u64,
    options: QueryOptions<V>,
    now: u64,
) -> CacheModel<V> {
    put(m, type_id, key, entry_or_fresh(m, type_id, key, options).subscribed().executed(now))
}

/// The work that is due after a consumer has started to observe `key` at
/// `now`: the fetch that the observation starts, and the cancelling of the
/// eviction timer that was armed on an entry that was there before.
pub open spec fn subscribe_effects<V>(
    m: CacheModel<V>,
    type_id: u64,
    key: u64,
    options: QueryOptions<V>,
    now: u64,
) -> Effects {
    Effects {
        fetch: ticket_for(
            type_id,
            key,
            started_by(entry_or_fresh(m, type_id, key, options).subscribed(), now),
        ),
        timer: if has_entry(m, type_id, key) {
            m[type_id][key].subscribe_action()
        } else {
            TimerAction::Keep
        },
    }
}

/// The entry of `key` is in `m` and has at least one consumer.
pub open spec fn is_observed<V>(m: CacheModel<V>, type_id: u64, key: u64) -> bool {
    has_entry(m, type_id, key) && m[type_id][key].observers > 0
}

/// `m` after one consumer has left the entry of `key`; `m` itself where the
/// entry is missing or has no consumer.
pub open spec fn released<V>(m: CacheModel<V>, type_id: u64, key: u64) -> CacheModel<V> {
    if is_observed(m, type_id, key) {
        put(m, type_id, key, m[type_id][key].unsubscribed())
    } else {
        m
    }
}

/// What the eviction timer has to do after one consumer has left the entry
/// of `key`: it is armed when that was the last one and the entry has a
/// retention window.
pub open spec fn release_action<V>(m: CacheModel<V>, type_id: u64, key: u64) -> TimerAction {
    if has_entry(m, type_id, key) && m[type_id][key].last_leaves() {
        m[type_id][key].unsubscribed().arm_action()
    } else {
        TimerAction::Keep
    }
}

/// What a consumer gets when it synchronizes with the key that it wants.
#[derive(Clone, Copy, Debug, PartialEq, Eq)]
pub struct Switch {
    /// The handle on the entry that the consumer observes from now on.
    pub result: QueryResult,
    /// What to do with the eviction timer of the entry that it has left.
    pub left: TimerAction,
    /// The work that is due for the entry that it observes.
    pub effects: Effects,
}

/// The cache: for each key type, identified by a number, a store of entries.
pub struct QueryClient<V> {
    pub cache: HashMap<u64, TypedStore<V>>,
}

impl<V> View for QueryClient<V> {
    type V = CacheModel<V>;

    open spec fn view(&self) -> CacheModel<V> {
        Map::new(|t: u64| self.cache@.contains_key(t), |t: u64| self.cache@[t]@)
    }
}

impl<V> QueryClient<V> {
    pub open spec fn wf(&self) -> bool {
        forall|t: u64| #[trigger] self@.contains_key(t) ==> entries_wf(self@[t])
    }

    /// Creates an empty cache.
    pub fn new() -> (out: QueryClient<V>)
        ensures
            out@ == Map::<u64, Map<u64, Query<V>>>::empty(),
            out.wf(),
    {
        let out = QueryClient { cache: HashMap::new() };
        assert(out@ =~= Map::<u64, Map<u64, Query<V>>>::empty());
        out
    }

    /// The entry of `key`, if there is one.
    pub fn entry(&self, type_id: u64, key: u64) -> (out: Option<&Query<V>>)
        ensures
            out.is_some() == has_entry(self@, type_id, key),
            out matches Some(q) ==> *q == self@[type_id][key],
    {
        match self.cache.get(&type_id) {
            Some(store) => store.get(key),
            None => None,
        }
    }

    /// Takes the store of `type_id` out of the cache, or makes an empty one
    /// where the key type was never used.
    fn take_store(&mut self, type_id: u64) -> (out: TypedStore<V>)
        ensures
            out@ == store_of(old(self)@, type_id),
            final(self).cache@ == old(self).cache@.remove(type_id),
            old(self).wf() ==> out.wf(),
    {
        match self.cache.remove(&type_id) {
            Some(store) => store,
            None => TypedStore::new(),
        }
    }

    /// Puts `store` back as the store of `type_id`; `before` is the cache as
    /// it was when the store was taken out.
    fn put_store(&mut self, type_id: u64, store: TypedStore<V>, Ghost(before): Ghost<
        CacheModel<V>,
    >)
        requires
            forall|t: u64|
                t != type_id ==> (old(self).cache@.contains_key(t) == before.contains_key(t)),
            forall|t: u64|
                t != type_id && before.contains_key(t) ==> old(self).cache@[t]@ == before[t],
        ensures
            final(self)@ == before.insert(type_id, store@),
    {
        self.cache.insert(type_id, store);
        assert(self@ =~= before.insert(type_id, store@));
    }

    /// Registers a consumer of `key`: creates the entry if there is none,
    /// counts the consumer, disarms the eviction timer, and runs the
    /// executor for an observation at `now`.
    pub fn fetch_query(&mut self, type_id: u64, key: u64, options: QueryOptions<V>, now: u64) -> (out:
        (QueryResult, Effects))
        requires
            old(self).wf(),
            has_entry(old(self)@, type_id, key) ==> old(self)@[type_id][key].observers < u64::MAX
                && old(self)@[type_id][key].epoch < u64::MAX,
        ensures
            final(self).wf(),
            final(self)@ == subscribed_at(old(self)@, type_id, key, options, now),
            out.0 == (QueryResult { type_id, key }),
            out.1 == subscribe_effects(old(self)@, type_id, key, options, now),
    {
        let mut store = self.take_store(type_id);
        let created = store.get_or_create(key, options);
        let cancel = store.subscribe(key);
        let started = store.execute(key, now);
        proof {
            let q0 = entry_or_fresh(old(self)@, type_id, key, options);
            assert(store@ =~= store_of(old(self)@, type_id).insert(
                key,
                q0.subscribed().executed(now),
            ));
        }
        self.put_store(type_id, store, Ghost(old(self)@));
        let timer = if created { TimerAction::Keep } else { cancel };
        let fetch = match started {
            Some(epoch) => Some(FetchTicket { type_id, key, epoch }),
            None => None,
        };
        (QueryResult { type_id, key }, Effects { fetch, timer })
    }

    /// Warms the cache for `key` without registering a consumer: creates the
    /// entry if there is none and runs the executor for an observation at
    /// `now`. A created entry with a retention window has its eviction timer
    /// armed at once.
    pub fn prefetch_query(&mut self, type_id: u64, key: u64, options: QueryOptions<V>, now: u64) -> (out:
        Effects)
        requires
            old(self).wf(),
            has_entry(old(self)@, type_id, key) ==> old(self)@[type_id][key].epoch < u64::MAX,
        ensures
            final(self).wf(),
            final(self)@ == put(
                old(self)@,
                type_id,
                key,
                entry_or_fresh(old(self)@, type_id, key, options).executed(now),
            ),
            out.fetch == ticket_for(
                type_id,
                key,
                started_by(entry_or_fresh(old(self)@, type_id, key, options), now),
            ),
            out.timer == (if has_entry(old(self)@, type_id, key) {
                TimerAction::Keep
            } else {
                Query::<V>::fresh(key, options).arm_action()
            }),
    {
        let cache_time = options.cache_time;
        let mut store = self.take_store(type_id);
        let created = store.get_or_create(key, options);
        let started = store.execute(key, now);
        proof {
            let q0 = entry_or_fresh(old(self)@, type_id, key, options);
            assert(store@ =~= store_of(old(self)@, type_id).insert(key, q0.executed(now)));
        }
        self.put_store(type_id, store, Ghost(old(self)@));
        let timer = match cache_time {
            Some(after) if created => TimerAction::Arm { token: 1, after },
            _ => TimerAction::Keep,
        };
        let fetch = match started {
            Some(epoch) => Some(FetchTicket { type_id, key, epoch }),
            None => None,
        };
        Effects { fetch, timer }
    }

    /// Takes one consumer off the entry of `key`. When the last one leaves
    /// and the entry has a retention window, the eviction timer is armed.
    /// Nothing happens where the entry is missing or has no consumer.
    pub fn release(&mut self, type_id: u64, key: u64) -> (out: TimerAction)
        requires
            old(self).wf(),
            has_entry(old(self)@, type_id, key) ==> old(self)@[type_id][key].timer_seq < u64::MAX,
        ensures
            final(self).wf(),
            final(self)@ == released(old(self)@, type_id, key),
            out == release_action(old(self)@, type_id, key),
    {
        if !self.cache.contains_key(&type_id) {
            return TimerAction::Keep;
        }
        let mut store = self.take_store(type_id);
        let action = store.unsubscribe(key);
        self.put_store(type_id, store, Ghost(old(self)@));
        assert(!is_observed(old(self)@, type_id, key) ==> self@ =~= old(self)@);
        action
    }

    /// Brings a consumer in line with the key that it wants to observe.
    /// A consumer that already observes that key only runs the executor
    /// for an observation at `now`. Any other is taken off the entry that it
    /// observed before, if there was one, which is otherwise left as it is,
    /// and then registered on the entry of `key` as `fetch_query` does.
    pub fn synchronize(
        &mut self,
        previous: Option<QueryResult>,
        type_id: u64,
        key: u64,
        options: QueryOptions<V>,
        now: u64,
    ) -> (out: Switch)
        requires
            old(self).wf(),
            has_entry(old(self)@, type_id, key) ==> old(self)@[type_id][key].observers < u64::MAX
                && old(self)@[type_id][key].epoch < u64::MAX,
            previous matches Some(h) ==> (has_entry(old(self)@, h.type_id, h.key) ==> old(
                self,
            )@[h.type_id][h.key].timer_seq < u64::MAX),
        ensures
            final(self).wf(),
            out.result == (QueryResult { type_id, key }),
            Self::stays(old(self)@, previous, type_id, key) ==> {
                &&& final(self)@ == put(
                    old(self)@,
                    type_id,
                    key,
                    old(self)@[type_id][key].executed(now),
                )
                &&& out.left == TimerAction::Keep
                &&& out.effects == (Effects {
                    fetch: ticket_for(type_id, key, started_by(old(self)@[type_id][key], now)),
                    timer: TimerAction::Keep,
                })
            },
            !Self::stays(old(self)@, previous, type_id, key) ==> {
                let between = match previous {
                    Some(h) => released(old(self)@, h.type_id, h.key),
                    None => old(self)@,
                };
                &&& final(self)@ == subscribed_at(between, type_id, key, options, now)
                &&& out.left == match previous {
                    Some(h) => release_action(old(self)@, h.type_id, h.key),
                    None => TimerAction::Keep,
                }
                &&& out.effects == subscribe_effects(between, type_id, key, options, now)
            },
    {
        let stays = match previous {
            Some(h) => h.type_id == type_id && h.key == key && self.entry(type_id, key).is_some(),
            None => false,
        };
        if stays {
            let fetch = self.execute(type_id, key, now);
            Switch {
                result: QueryResult { type_id, key },
                left: TimerAction::Keep,
                effects: Effects { fetch, timer: TimerAction::Keep },
            }
        } else {
            let left = match previous {
                Some(h) => self.release(h.type_id, h.key),
                None => TimerAction::Keep,
            };
            let (result, effects) = self.fetch_query(type_id, key, options, now);
            Switch { result, left, effects }
        }
    }

    /// The consumer already observes the entry of `key`.
    pub open spec fn stays(
        m: CacheModel<V>,
        previous: Option<QueryResult>,
        type_id: u64,
        key: u64,
    ) -> bool {
        previous == Some(QueryResult { type_id, key }) && has_entry(m, type_id, key)
    }

    /// Runs the executor on the entry of `key` for an observation at `now`,
    /// as a consumer that reads the entry does. A fetch is started where the
    /// entry was never fetched, was invalidated or has gone stale, and none
    /// while one is under way.
    pub fn execute(&mut self, type_id: u64, key: u64, now: u64) -> (out: Option<FetchTicket>)
        requires
            old(self).wf(),
            has_entry(old(self)@, type_id, key) ==> old(self)@[type_id][key].epoch < u64::MAX,
        ensures
            final(self).wf(),
            has_entry(old(self)@, type_id, key) ==> final(self)@ == put(
                old(self)@,
                type_id,
                key,
                old(self)@[type_id][key].executed(now),
            ) && out == ticket_for(type_id, key, started_by(old(self)@[type_id][key], now)),
            !has_entry(old(self)@, type_id, key) ==> final(self)@ == old(self)@ && out.is_none(),
    {
        if !self.cache.contains_key(&type_id) {
            return None;
        }
        let mut store = self.take_store(type_id);
        let started = store.execute(key, now);
        self.put_store(type_id, store, Ghost(old(self)@));
        assert(!has_entry(old(self)@, type_id, key) ==> self@ =~= old(self)@);
        match started {
            Some(epoch) => Some(FetchTicket { type_id, key, epoch }),
            None => None,
        }
    }

    /// Starts a fetch for `key` whatever the status of its entry. A fetch
    /// that is under way is superseded: its result will be discarded.
    pub fn refetch(&mut self, type_id: u64, key: u64) -> (out: Option<FetchTicket>)
        requires
            old(self).wf(),
            has_entry(old(self)@, type_id, key) ==> old(self)@[type_id][key].epoch < u64::MAX,
        ensures
            final(self).wf(),
            has_entry(old(self)@, type_id, key) ==> final(self)@ == put(
                old(self)@,
                type_id,
                key,
                old(self)@[type_id][key].begun(),
            ) && out == Some(
                FetchTicket {
                    type_id,
                    key,
                    epoch: (old(self)@[type_id][key].epoch + 1) as u64,
                },
            ),
            !has_entry(old(self)@, type_id, key) ==> final(self)@ == old(self)@ && out.is_none(),
    {
        if !self.cache.contains_key(&type_id) {
            return None;
        }
        let mut store = self.take_store(type_id);
        let started = store.refetch(key);
        self.put_store(type_id, store, Ghost(old(self)@));
        assert(!has_entry(old(self)@, type_id, key) ==> self@ =~= old(self)@);
        match started {
            Some(epoch) => Some(FetchTicket { type_id, key, epoch }),
            None => None,
        }
    }

    /// Handles the end of a refetch period for `key`: an entry that is
    /// observed and has a period starts a fetch as `refetch` does. Nothing
    /// happens where the entry is missing, unobserved or without a period.
    pub fn interval_elapsed(&mut self, type_id: u64, key: u64) -> (out: Option<FetchTicket>)
        requires
            old(self).wf(),
            has_entry(old(self)@, type_id, key) ==> old(self)@[type_id][key].epoch < u64::MAX,
        ensures
            final(self).wf(),
            has_entry(old(self)@, type_id, key) ==> final(self)@ == put(
                old(self)@,
                type_id,
                key,
                old(self)@[type_id][key].ticked(),
            ) && out == ticket_for(type_id, key, started_by_interval(old(self)@[type_id][key])),
            !has_entry(old(self)@, type_id, key) ==> final(self)@ == old(self)@ && out.is_none(),
    {
        if !self.cache.contains_key(&type_id) {
            return None;
        }
        let mut store = self.take_store(type_id);
        let started = store.tick(key);
        self.put_store(type_id, store, Ghost(old(self)@));
        assert(!has_entry(old(self)@, type_id, key) ==> self@ =~= old(self)@);
        match started {
            Some(epoch) => Some(FetchTicket { type_id, key, epoch }),
            None => None,
        }
    }

    /// Takes the result of the fetch that `ticket` names. It becomes the
    /// value of the ticket's entry, stamped with `now`, if that fetch is
    /// still the current one of the entry; otherwise it is discarded. No
    /// other entry changes. Says whether the result was applied.
    pub fn complete_fetch(&mut self, ticket: FetchTicket, data: V, now: u64) -> (out: bool)
        requires
            old(self).wf(),
        ensures
            final(self).wf(),
            out == (has_entry(old(self)@, ticket.type_id, ticket.key) && old(
                self,
            )@[ticket.type_id][ticket.key].accepts(ticket.epoch)),
            out ==> final(self)@ == put(
                old(self)@,
                ticket.type_id,
                ticket.key,
                old(self)@[ticket.type_id][ticket.key].completed(ticket.epoch, data, now),
            ),
            !out ==> final(self)@ == old(self)@,
    {
        if !self.cache.contains_key(&ticket.type_id) {
            return false;
        }
        let mut store = self.take_store(ticket.type_id);
        let applied = store.complete(ticket.key, ticket.epoch, data, now);
        self.put_store(ticket.type_id, store, Ghost(old(self)@));
        assert(!applied ==> self@ =~= old(self)@);
        applied
    }

    /// Handles the report of the eviction timer that was armed with `token`
    /// for `key`: the entry is removed if that timer is still the armed one.
    /// A timer that was cancelled or replaced in the meantime removes
    /// nothing. Says whether the entry was removed.
    pub fn timer_fired(&mut self, type_id: u64, key: u64, token: u64) -> (out: bool)
        requires
            old(self).wf(),
        ensures
            final(self).wf(),
            out == (has_entry(old(self)@, type_id, key) && old(self)@[type_id][key].expires_on(
                token,
            )),
            out ==> final(self)@ == old(self)@.insert(type_id, old(self)@[type_id].remove(key)),
            !out ==> final(self)@ == old(self)@,
    {
        if !self.cache.contains_key(&type_id) {
            return false;
        }
        let mut store = self.take_store(type_id);
        let evicted = store.expire(key, token);
        self.put_store(type_id, store, Ghost(old(self)@));
        assert(!evicted ==> self@ =~= old(self)@);
        evicted
    }

    /// Marks the entry of `key` as out of date; says whether there is one.
    /// No fetch is started: the next observation starts it.
    pub fn invalidate_query(&mut self, type_id: u64, key: u64) -> (out: bool)
        requires
            old(self).wf(),
        ensures
            final(self).wf(),
            out == has_entry(old(self)@, type_id, key),
            out ==> final(self)@ == put(
                old(self)@,
                type_id,
                key,
                old(self)@[type_id][key].invalidated(),
            ),
            !out ==> final(self)@ == old(self)@,
    {
        if !self.cache.contains_key(&type_id) {
            return false;
        }
        let mut store = self.take_store(type_id);
        let found = store.invalidate(key);
        self.put_store(type_id, store, Ghost(old(self)@));
        assert(!found ==> self@ =~= old(self)@);
        found
    }

    /// Marks the entries of all `keys` as out of date. Returns the keys that
    /// have an entry, in the order given, or `None` where the key type has
    /// no store yet.
    pub fn invalidate_queries(&mut self, type_id: u64, keys: &Vec<u64>) -> (out: Option<Vec<u64>>)
        requires
            old(self).wf(),
        ensures
            final(self).wf(),
            out.is_some() == old(self)@.contains_key(type_id),
            out matches Some(matched) ==> matched@ == present_keys(old(self)@[type_id], keys@)
                && final(self)@ == old(self)@.insert(
                type_id,
                invalidated_at(old(self)@[type_id], keys@),
            ),
            out.is_none() ==> final(self)@ == old(self)@,
    {
        if !self.cache.contains_key(&type_id) {
            return None;
        }
        let mut store = self.take_store(type_id);
        let matched = store.invalidate_many(keys);
        self.put_store(type_id, store, Ghost(old(self)@));
        Some(matched)
    }
}

} // verus!
