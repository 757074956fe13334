//! What holds of the cache in every state, stated over the functions that
//! the contracts of the operations are written in.

use vstd::prelude::*;
use crate::query::{Query, QueryOptions, TimerAction};
use crate::query_client::{
    entry_or_fresh, has_entry, put, released, started_by, subscribed_at, CacheModel,
};
use crate::store::{invalidated_at, lemma_present_keys_step, present_keys};
use crate::status::Status;

verus! {

/// An observation never starts a fetch while one is under way, and after an
/// observation at `now` a further one at the same instant starts none.
pub proof fn law_observation_starts_at_most_one_fetch<V>(q: Query<V>, now: u64)
    ensures
        q.status.in_flight() ==> !q.needs_fetch(now) && q.executed(now) == q,
        !q.executed(now).needs_fetch(now),
        q.executed(now).executed(now) == q.executed(now),
{
}

/// Fetch deduplication. Two consumers start to observe the same key at the
/// same instant. Whatever the entry was before, the second observation
/// starts no fetch and leaves status and epoch as the first one left them;
/// on a key that had no entry the first observation starts the one fetch.
/// Both consumers hold the same handle on the same entry, so the result of
/// that fetch, once applied, is the value and the time that both read.
pub proof fn law_dedup<V>(
    m: CacheModel<V>,
    type_id: u64,
    key: u64,
    first: QueryOptions<V>,
    second: QueryOptions<V>,
    now: u64,
    data: V,
    done: u64,
)
    requires
        has_entry(m, type_id, key) ==> m[type_id][key].epoch < u64::MAX,
    ensures
        ({
            let q0 = entry_or_fresh(m, type_id, key, first).subscribed();
            let m1 = put(m, type_id, key, q0.executed(now));
            let q1 = entry_or_fresh(m1, type_id, key, second).subscribed();
            let m2 = put(m1, type_id, key, q1.executed(now));
            &&& !has_entry(m, type_id, key) ==> started_by(q0, now) == Some(1u64)
            &&& started_by(q1, now).is_none()
            &&& m2[type_id][key].status == m1[type_id][key].status
            &&& m2[type_id][key].epoch == m1[type_id][key].epoch
            &&& started_by(q0, now) matches Some(epoch) ==> m2[type_id][key].completed(
                epoch,
                data,
                done,
            ).status == (Status::Loaded { data, updated_at: done })
        }),
{
}

/// Switching keys. A consumer observes `a` while the fetch of epoch `epoch`
/// is under way there, then moves on to another key `b`: it is released from
/// `a` and registered on `b`. The move leaves status and epoch of `a` as
/// they were. When the fetch for `a` completes afterwards, its result
/// becomes the value of `a`, and the entry of `b` is not touched by it.
pub proof fn law_switch_keeps_entries_apart<V>(
    m: CacheModel<V>,
    type_a: u64,
    a: u64,
    type_b: u64,
    b: u64,
    options: QueryOptions<V>,
    now: u64,
    epoch: u64,
    data: V,
    done: u64,
)
    requires
        has_entry(m, type_a, a),
        m[type_a][a].observers > 0,
        m[type_a][a].accepts(epoch),
        type_a != type_b || a != b,
    ensures
        ({
            let m1 = released(m, type_a, a);
            let m2 = subscribed_at(m1, type_b, b, options, now);
            let m3 = put(m2, type_a, a, m2[type_a][a].completed(epoch, data, done));
            &&& has_entry(m2, type_a, a) && has_entry(m2, type_b, b)
            &&& m2[type_a][a].status == m[type_a][a].status
            &&& m2[type_a][a].epoch == m[type_a][a].epoch
            &&& m2[type_a][a].accepts(epoch)
            &&& m3[type_a][a].status == (Status::Loaded { data, updated_at: done })
            &&& m3[type_b][b] == m2[type_b][b]
        }),
{
}

/// Invalidating many keys of which only some have an entry: exactly those
/// are returned, in the order given, and exactly their entries are marked.
/// A key without an entry is passed over and creates none.
pub proof fn law_invalidate_many_partial_match<V>(
    m: Map<u64, Query<V>>,
    k1: u64,
    k2: u64,
    k3: u64,
    other: u64,
)
    requires
        m.contains_key(k1),
        !m.contains_key(k2),
        m.contains_key(k3),
    ensures
        present_keys(m, seq![k1, k2, k3]) == seq![k1, k3],
        invalidated_at(m, seq![k1, k2, k3]).dom() == m.dom(),
        invalidated_at(m, seq![k1, k2, k3])[k1] == m[k1].invalidated(),
        invalidated_at(m, seq![k1, k2, k3])[k3] == m[k3].invalidated(),
        m.contains_key(other) && other != k1 && other != k3 ==> invalidated_at(
            m,
            seq![k1, k2, k3],
        )[other] == m[other],
{
    let keys = seq![k1, k2, k3];
    reveal(Seq::filter);
    assert(present_keys(m, keys.take(0)) =~= Seq::<u64>::empty());
    lemma_present_keys_step(m, keys, 0);
    lemma_present_keys_step(m, keys, 1);
    lemma_present_keys_step(m, keys, 2);
    assert(keys.take(3) =~= keys);
    assert(present_keys(m, keys) =~= seq![k1, k3]);
    assert(keys[0] == k1 && keys[2] == k3);
    assert(keys.contains(k1) && keys.contains(k3));
    assert(invalidated_at(m, keys).dom() =~= m.dom());
}

/// A result is applied only to the fetch that is current: it leaves the
/// entry `Loaded` with that value and time, and a result that carries any
/// other epoch, or arrives while no fetch is under way, changes nothing.
pub proof fn law_completion_applies_current_epoch_only<V>(
    q: Query<V>,
    epoch: u64,
    data: V,
    now: u64,
)
    ensures
        q.accepts(epoch) ==> q.completed(epoch, data, now).status == (Status::Loaded {
            data,
            updated_at: now,
        }),
        !q.accepts(epoch) ==> q.completed(epoch, data, now) == q,
        !q.completed(epoch, data, now).accepts(epoch),
{
}

/// Ordering of results. Two fetches are started one after the other on the
/// same entry, the second while the first is under way. Whichever of the two
/// results arrives first, the entry ends with the value and the time of the
/// second fetch: the result of the first is discarded.
pub proof fn law_later_fetch_wins<V>(
    q: Query<V>,
    first: V,
    first_done: u64,
    second: V,
    second_done: u64,
)
    requires
        q.epoch < u64::MAX - 1,
    ensures
        ({
            let q1 = q.begun();
            let q2 = q1.begun();
            let wanted = Status::Loaded { data: second, updated_at: second_done };
            &&& q1.accepts(q1.epoch)
            &&& q2.accepts(q2.epoch) && !q2.accepts(q1.epoch)
            &&& q2.completed(q2.epoch, second, second_done).completed(
                q1.epoch,
                first,
                first_done,
            ).status == wanted
            &&& q2.completed(q1.epoch, first, first_done).completed(
                q2.epoch,
                second,
                second_done,
            ).status == wanted
        }),
{
}

/// Invalidation. A `Loaded` entry that is invalidated keeps its value and
/// its time. The next observation starts exactly one fetch, during which the
/// value on display is still the old one; further observations start none.
/// The result of that fetch leaves the entry `Loaded` with the new value and
/// the new time.
pub proof fn law_invalidation_refetches_on_access<V>(
    q: Query<V>,
    now: u64,
    later: u64,
    data: V,
    done: u64,
)
    requires
        q.status is Loaded,
        q.epoch < u64::MAX,
    ensures
        ({
            let marked = q.invalidated();
            let running = marked.executed(now);
            &&& marked.status is Invalid
            &&& marked.status.spec_data() == q.status.spec_data()
            &&& marked.status.spec_updated_at() == q.status.spec_updated_at()
            &&& marked.epoch == q.epoch
            &&& started_by(marked, now) == Some((q.epoch + 1) as u64)
            &&& running.status is Fetching
            &&& running.status.spec_data() == q.status.spec_data()
            &&& started_by(running, later).is_none()
            &&& running.executed(later) == running
            &&& running.completed(running.epoch, data, done).status == (Status::Loaded {
                data,
                updated_at: done,
            })
        }),
{
}

/// Eviction. On a well-formed entry that nobody observes and that has a
/// retention window, the eviction timer is armed, and its report removes the
/// entry. Once a consumer has arrived, the report of no timer removes it,
/// and value, time and epoch are what they were. When that consumer leaves
/// again, a timer with a new token is armed for the whole window, and the
/// report of the earlier timer still removes nothing.
pub proof fn law_eviction_only_while_unobserved<V>(q: Query<V>, token: u64)
    requires
        q.wf(),
        q.observers == 0,
        q.cache_time.is_some(),
        q.timer_seq < u64::MAX,
    ensures
        q.expires_on(q.timer_seq),
        q.subscribe_action() == (TimerAction::Cancel { token: q.timer_seq }),
        !q.subscribed().expires_on(token),
        q.subscribed().status == q.status && q.subscribed().epoch == q.epoch,
        q.subscribed().unsubscribed().arm_action() == (TimerAction::Arm {
            token: (q.timer_seq + 1) as u64,
            after: q.cache_time.unwrap(),
        }),
        !q.subscribed().unsubscribed().expires_on(q.timer_seq),
        q.subscribed().unsubscribed().expires_on((q.timer_seq + 1) as u64),
{
}

/// An entry that is observed, or that has no retention window, is removed by
/// the report of no timer.
pub proof fn law_observed_entry_is_never_evicted<V>(q: Query<V>, token: u64)
    requires
        q.wf(),
        q.observers > 0 || q.cache_time.is_none(),
    ensures
        !q.expires_on(token),
{
}

/// Consumers are counted one by one: arriving adds one, leaving takes one
/// off, and a consumer that arrives and leaves again has left the count as
/// it was. Neither touches the status or the epoch.
pub proof fn law_observer_count_balances<V>(q: Query<V>)
    requires
        q.observers < u64::MAX,
    ensures
        q.subscribed().observers == q.observers + 1,
        q.subscribed().unsubscribed().observers == q.observers,
        q.observers > 0 ==> q.unsubscribed().observers == q.observers - 1,
        q.subscribed().unsubscribed().status == q.status,
        q.subscribed().unsubscribed().epoch == q.epoch,
{
}

/// The eviction timer is armed exactly while the entry is unobserved and
/// has a retention window: every step of the entry keeps it so.
pub proof fn law_timer_follows_observers<V>(q: Query<V>, epoch: u64, data: V, now: u64)
    requires
        q.wf(),
        q.observers < u64::MAX,
        q.timer_seq < u64::MAX,
    ensures
        q.timer.is_some() <==> (q.observers == 0 && q.cache_time.is_some()),
        q.subscribed().wf(),
        q.observers > 0 ==> q.unsubscribed().wf(),
        q.begun().wf(),
        q.executed(now).wf(),
        q.ticked().wf(),
        q.completed(epoch, data, now).wf(),
        q.invalidated().wf(),
{
}

/// The time of the last update moves only with an applied result, and it
/// does not go back as long as the clock does not: starting a fetch,
/// invalidating, and the coming and going of consumers leave it alone.
pub proof fn law_updated_at_moves_forward<V>(q: Query<V>, epoch: u64, data: V, now: u64)
    requires
        q.status.spec_updated_at() matches Some(at) ==> at <= now,
    ensures
        q.begun().status.spec_updated_at() == q.status.spec_updated_at(),
        q.invalidated().status.spec_updated_at() == q.status.spec_updated_at(),
        q.subscribed().status == q.status,
        q.unsubscribed().status == q.status,
        q.status.spec_updated_at() matches Some(at) ==> (q.completed(
            epoch,
            data,
            now,
        ).status.spec_updated_at() matches Some(next) && at <= next),
{
}

/// Freshness is read off the entry and the clock: a value is stale exactly
/// when it has an update time and a freshness window and more than the
/// window has passed since. Reading it changes nothing, and a stale value
/// stays on display while the fetch that an observation starts is under way.
pub proof fn law_stale_value_stays_on_display<V>(q: Query<V>, now: u64)
    requires
        q.status is Loaded,
        q.is_stale_at(now),
    ensures
        q.needs_fetch(now),
        q.executed(now).status is Fetching,
        q.executed(now).status.spec_data() == q.status.spec_data(),
        q.executed(now).is_stale_at(now),
{
}

} // verus!
