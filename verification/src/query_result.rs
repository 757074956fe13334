use vstd::prelude::*;
use crate::query::FetchTicket;
use crate::query_client::{has_entry, put, CacheModel, QueryClient};

verus! {

/// A consumer's handle on the entry that it observes. Each reading looks
/// the entry up in the cache that is handed in.
#[derive(Clone, Copy, Debug, PartialEq, Eq)]
pub struct QueryResult {
    pub type_id: u64,
    pub key: u64,
}

impl QueryResult {
    /// The entry that the handle names is in `m`.
    pub open spec fn live<V>(self, m: CacheModel<V>) -> bool {
        has_entry(m, self.type_id, self.key)
    }

    /// The value on display: the fetched one, or the seed value of the entry
    /// as long as nothing was fetched; `None` where there is neither.
    pub fn data<'a, V>(&self, client: &'a QueryClient<V>) -> (out: Option<&'a V>)
        ensures
            self.live(client@) ==> client@[self.type_id][self.key].shown() == (match out {
                Some(d) => Some(*d),
                None => None,
            }),
            !self.live(client@) ==> out.is_none(),
    {
        match client.entry(self.type_id, self.key) {
            Some(q) => q.data(),
            None => None,
        }
    }

    /// The first fetch is under way.
    pub fn is_loading<V>(&self, client: &QueryClient<V>) -> (out: bool)
        ensures
            out == (self.live(client@) && client@[self.type_id][self.key].status is Loading),
    {
        match client.entry(self.type_id, self.key) {
            Some(q) => q.status.is_loading(),
            None => false,
        }
    }

    /// A new fetch is under way while the previous value is shown.
    pub fn is_refetching<V>(&self, client: &QueryClient<V>) -> (out: bool)
        ensures
            out == (self.live(client@) && client@[self.type_id][self.key].status is Fetching),
    {
        match client.entry(self.type_id, self.key) {
            Some(q) => q.status.is_fetching(),
            None => false,
        }
    }

    /// The value was marked as out of date and not yet fetched again.
    pub fn is_invalid<V>(&self, client: &QueryClient<V>) -> (out: bool)
        ensures
            out == (self.live(client@) && client@[self.type_id][self.key].status is Invalid),
    {
        match client.entry(self.type_id, self.key) {
            Some(q) => q.status.is_invalid(),
            None => false,
        }
    }

    /// At `now` the value is older than the freshness window of the entry.
    pub fn is_stale<V>(&self, client: &QueryClient<V>, now: u64) -> (out: bool)
        ensures
            out == (self.live(client@) && client@[self.type_id][self.key].is_stale_at(now)),
    {
        match client.entry(self.type_id, self.key) {
            Some(q) => q.is_stale(now),
            None => false,
        }
    }

    /// The time at which the last fetch completed.
    pub fn updated_at<V>(&self, client: &QueryClient<V>) -> (out: Option<u64>)
        ensures
            out == (if self.live(client@) {
                client@[self.type_id][self.key].status.spec_updated_at()
            } else {
                None
            }),
    {
        match client.entry(self.type_id, self.key) {
            Some(q) => q.status.updated_at(),
            None => None,
        }
    }

    /// Starts a fetch whether or not the value is stale.
    pub fn refetch<V>(&self, client: &mut QueryClient<V>) -> (out: Option<FetchTicket>)
        requires
            old(client).wf(),
            self.live(old(client)@) ==> old(client)@[self.type_id][self.key].epoch < u64::MAX,
        ensures
            final(client).wf(),
            self.live(old(client)@) ==> final(client)@ == put(
                old(client)@,
                self.type_id,
                self.key,
                old(client)@[self.type_id][self.key].begun(),
            ) && out == Some(
                FetchTicket {
                    type_id: self.type_id,
                    key: self.key,
                    epoch: (old(client)@[self.type_id][self.key].epoch + 1) as u64,
                },
            ),
            !self.live(old(client)@) ==> final(client)@ == old(client)@ && out.is_none(),
    {
        client.refetch(self.type_id, self.key)
    }
}

} // verus!
