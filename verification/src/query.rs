use vstd::prelude::*;
use crate::status::Status;

verus! {

/// What a consumer asks of the entry that it creates. `None` switches the
/// feature off.
#[derive(Clone, Debug, PartialEq, Eq)]
pub struct QueryOptions<V> {
    /// The value to show until the first fetch has completed.
    pub default_value: Option<V>,
    /// The period after which an observed entry is fetched again.
    pub refetch_interval: Option<u64>,
    /// The age beyond which a value counts as stale.
    pub stale_time: Option<u64>,
    /// How long the entry is kept while nobody observes it.
    pub cache_time: Option<u64>,
}

/// Names one started fetch: the entry it belongs to and the epoch at which
/// it was started. The runtime hands it back together with the result.
#[derive(Clone, Copy, Debug, PartialEq, Eq)]
pub struct FetchTicket {
    pub type_id: u64,
    pub key: u64,
    pub epoch: u64,
}

/// What the runtime has to do with the eviction timer of an entry.
#[derive(Clone, Copy, Debug, PartialEq, Eq)]
pub enum TimerAction {
    /// Nothing changes.
    Keep,
    /// Start a one-shot timer that reports `token` after `after` time units.
    Arm { token: u64, after: u64 },
    /// Cancel the timer that was started with `token`.
    Cancel { token: u64 },
}

/// The record kept for one key.
#[derive(Clone, Debug, PartialEq, Eq)]
pub struct Query<V> {
    pub key: u64,
    pub status: Status<V>,
    /// Consumers that currently observe the entry.
    pub observers: u64,
    pub default_value: Option<V>,
    pub refetch_interval: Option<u64>,
    pub stale_time: Option<u64>,
    pub cache_time: Option<u64>,
    /// Number of fetches started so far; the fetch that carries this number
    /// is the only one whose result is accepted.
    pub epoch: u64,
    /// Token of the eviction timer that is armed, if one is.
    pub timer: Option<u64>,
    /// The last timer token handed out.
    pub timer_seq: u64,
}

impl<V> Query<V> {
    /// The eviction timer is armed exactly while nobody observes the entry
    /// and a retention window is set, and it carries the latest token.
    pub open spec fn wf(self) -> bool {
        &&& self.timer.is_some() <==> (self.observers == 0 && self.cache_time.is_some())
        &&& self.timer.is_some() ==> self.timer == Some(self.timer_seq)
    }

    /// The entry as it is created: never fetched and not observed.
    pub open spec fn fresh(key: u64, options: QueryOptions<V>) -> Query<V> {
        Query {
            key,
            status: Status::Created,
            observers: 0,
            default_value: options.default_value,
            refetch_interval: options.refetch_interval,
            stale_time: options.stale_time,
            cache_time: options.cache_time,
            epoch: 0,
            timer: if options.cache_time.is_some() { Some(1u64) } else { None },
            timer_seq: 1,
        }
    }

    /// The value on display: the fetched one, or the seed value as long as
    /// nothing was fetched.
    pub open spec fn shown(self) -> Option<V> {
        match self.status.spec_data() {
            Some(d) => Some(d),
            None => self.default_value,
        }
    }

    /// The periodic fetch applies: the entry is observed and has a period.
    pub open spec fn interval_due(self) -> bool {
        self.observers > 0 && self.refetch_interval.is_some()
    }

    /// The entry after its period has elapsed.
    pub open spec fn ticked(self) -> Query<V> {
        if self.interval_due() {
            self.begun()
        } else {
            self
        }
    }

    /// The value is older than the freshness window allows.
    pub open spec fn is_stale_at(self, now: u64) -> bool {
        match (self.status.spec_updated_at(), self.stale_time) {
            (Some(at), Some(limit)) => now - at > limit,
            _ => false,
        }
    }

    /// An observation at `now` has to start a fetch: the entry was never
    /// fetched, was invalidated, or holds a value that has gone stale. While
    /// a fetch is under way an observation starts none.
    pub open spec fn needs_fetch(self, now: u64) -> bool {
        ||| self.status is Created
        ||| self.status is Invalid
        ||| (self.status is Loaded && self.is_stale_at(now))
    }

    /// The entry after a fetch is started: the next epoch, and the status
    /// that shows the fetch.
    pub open spec fn begun(self) -> Query<V> {
        Query { status: self.status.started(), epoch: (self.epoch + 1) as u64, ..self }
    }

    /// The entry after an observation at `now`.
    pub open spec fn executed(self, now: u64) -> Query<V> {
        if self.needs_fetch(now) {
            self.begun()
        } else {
            self
        }
    }

    /// A result that carries `epoch` belongs to the fetch that is current.
    pub open spec fn accepts(self, epoch: u64) -> bool {
        self.status.in_flight() && self.epoch == epoch
    }

    /// The entry after the fetch of `epoch` has delivered `data` at `now`.
    pub open spec fn completed(self, epoch: u64, data: V, now: u64) -> Query<V> {
        if self.accepts(epoch) {
            Query { status: Status::Loaded { data, updated_at: now }, ..self }
        } else {
            self
        }
    }

    pub open spec fn invalidated(self) -> Query<V> {
        Query { status: self.status.invalidated(), ..self }
    }

    /// The entry after one more consumer observes it.
    pub open spec fn subscribed(self) -> Query<V> {
        Query { observers: (self.observers + 1) as u64, timer: None, ..self }
    }

    /// What the timer has to do when a consumer arrives.
    pub open spec fn subscribe_action(self) -> TimerAction {
        match self.timer {
            Some(token) => TimerAction::Cancel { token },
            None => TimerAction::Keep,
        }
    }

    /// The departure of a consumer leaves the entry unobserved with a
    /// retention window to wait out.
    pub open spec fn last_leaves(self) -> bool {
        self.observers == 1 && self.cache_time.is_some()
    }

    /// The entry after one consumer has stopped observing it.
    pub open spec fn unsubscribed(self) -> Query<V> {
        if self.last_leaves() {
            Query {
                observers: 0,
                timer: Some((self.timer_seq + 1) as u64),
                timer_seq: (self.timer_seq + 1) as u64,
                ..self
            }
        } else {
            Query { observers: (self.observers - 1) as u64, ..self }
        }
    }

    /// What the timer has to do for the timer that is armed, if one is.
    pub open spec fn arm_action(self) -> TimerAction {
        match (self.timer, self.cache_time) {
            (Some(token), Some(after)) => TimerAction::Arm { token, after },
            _ => TimerAction::Keep,
        }
    }

    /// The timer that reports `token` is the one that is armed now.
    pub open spec fn expires_on(self, token: u64) -> bool {
        self.timer == Some(token)
    }

    pub fn new(key: u64, options: QueryOptions<V>) -> (out: Query<V>)
        ensures
            out == Query::<V>::fresh(key, options),
            out.wf(),
    {
        let timer: Option<u64> = if options.cache_time.is_some() { Some(1u64) } else { None };
        Query {
            key,
            status: Status::Created,
            observers: 0,
            default_value: options.default_value,
            refetch_interval: options.refetch_interval,
            stale_time: options.stale_time,
            cache_time: options.cache_time,
            epoch: 0,
            timer,
            timer_seq: 1,
        }
    }

    pub fn data(&self) -> (out: Option<&V>)
        ensures
            self.shown() == match out {
                Some(d) => Some(*d),
                None => None,
            },
    {
        match self.status.data() {
            Some(d) => Some(d),
            None => match &self.default_value {
                Some(d) => Some(d),
                None => None,
            },
        }
    }

    pub fn is_stale(&self, now: u64) -> (out: bool)
        ensures
            out == self.is_stale_at(now),
    {
        match (self.status.updated_at(), self.stale_time) {
            (Some(at), Some(limit)) => now > at && now - at > limit,
            _ => false,
        }
    }

    /// Runs the executor for an observation at `now`. A fetch is started
    /// only where `needs_fetch` holds; the epoch of the started fetch is
    /// returned.
    pub fn execute(self, now: u64) -> (out: (Query<V>, Option<u64>))
        requires
            self.epoch < u64::MAX,
        ensures
            out.0 == self.executed(now),
            out.1 == (if self.needs_fetch(now) { Some(out.0.epoch) } else { None }),
            self.wf() ==> out.0.wf(),
    {
        let due = self.status.is_created() || self.status.is_invalid() || (self.status.is_loaded()
            && self.is_stale(now));
        if due {
            let (next, epoch) = self.refetch();
            (next, Some(epoch))
        } else {
            (self, None)
        }
    }

    /// Starts a fetch whatever the status is. A fetch that is under way is
    /// superseded: its result will no longer be accepted.
    pub fn refetch(self) -> (out: (Query<V>, u64))
        requires
            self.epoch < u64::MAX,
        ensures
            out.0 == self.begun(),
            out.1 == self.epoch + 1,
            self.wf() ==> out.0.wf(),
    {
        let epoch: u64 = self.epoch + 1;
        (Query { status: self.status.start(), epoch, ..self }, epoch)
    }

    /// Handles the end of a period: an entry that is observed and has a
    /// period starts a fetch as `refetch` does; any other is left alone.
    pub fn tick(self) -> (out: (Query<V>, Option<u64>))
        requires
            self.epoch < u64::MAX,
        ensures
            out.0 == self.ticked(),
            out.1 == (if self.interval_due() { Some(out.0.epoch) } else { None }),
            self.wf() ==> out.0.wf(),
    {
        if self.observers > 0 && self.refetch_interval.is_some() {
            let (next, epoch) = self.refetch();
            (next, Some(epoch))
        } else {
            (self, None)
        }
    }

    /// Takes the result of the fetch started at `epoch`. It is applied only
    /// if that fetch is still the current one; the flag says whether it was.
    pub fn complete(self, epoch: u64, data: V, now: u64) -> (out: (Query<V>, bool))
        ensures
            out.0 == self.completed(epoch, data, now),
            out.1 == self.accepts(epoch),
            self.wf() ==> out.0.wf(),
    {
        if self.status.is_in_flight() && self.epoch == epoch {
            (Query { status: Status::Loaded { data, updated_at: now }, ..self }, true)
        } else {
            (self, false)
        }
    }

    pub fn invalidate(self) -> (out: Query<V>)
        ensures
            out == self.invalidated(),
            self.wf() ==> out.wf(),
    {
        Query { status: self.status.invalidate(), ..self }
    }

    /// Registers one more consumer and disarms the eviction timer.
    pub fn subscribe(self) -> (out: (Query<V>, TimerAction))
        requires
            self.observers < u64::MAX,
        ensures
            out.0 == self.subscribed(),
            out.1 == self.subscribe_action(),
            self.wf() ==> out.0.wf(),
    {
        let action = match self.timer {
            Some(token) => TimerAction::Cancel { token },
            None => TimerAction::Keep,
        };
        (Query { observers: self.observers + 1, timer: None, ..self }, action)
    }

    /// Removes one consumer; when the last one leaves and a retention window
    /// is set, arms the eviction timer under a new token.
    pub fn unsubscribe(self) -> (out: (Query<V>, TimerAction))
        requires
            self.observers > 0,
            self.timer_seq < u64::MAX,
        ensures
            out.0 == self.unsubscribed(),
            out.1 == (if self.last_leaves() { out.0.arm_action() } else { TimerAction::Keep }),
            self.wf() ==> out.0.wf(),
    {
        match self.cache_time {
            Some(after) if self.observers == 1 => {
                let token: u64 = self.timer_seq + 1;
                (
                    Query { observers: 0, timer: Some(token), timer_seq: token, ..self },
                    TimerAction::Arm { token, after },
                )
            },
            _ => (Query { observers: self.observers - 1, ..self }, TimerAction::Keep),
        }
    }

    /// The timer that reports `token` is still the armed one, so the entry
    /// is to be removed.
    pub fn timer_due(&self, token: u64) -> (out: bool)
        ensures
            out == self.expires_on(token),
    {
        match self.timer {
            Some(armed) => armed == token,
            None => false,
        }
    }
}

} // verus!
