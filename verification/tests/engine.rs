use leptos_query::{
    Effects, FetchTicket, Query, QueryClient, QueryOptions, QueryResult, Status, Switch,
    TimerAction, TypedStore,
};

const POSTS: u64 = 1;
const USERS: u64 = 2;

fn fetcher(key: u64) -> String {
    format!("v-{}", key)
}

fn options<V>(stale_time: Option<u64>, cache_time: Option<u64>) -> QueryOptions<V> {
    QueryOptions { default_value: None, refetch_interval: None, stale_time, cache_time }
}

fn status_of(client: &QueryClient<String>, type_id: u64, key: u64) -> Status<String> {
    client.entry(type_id, key).expect("entry").status.clone()
}

fn loaded(client: &mut QueryClient<String>, key: u64, at: u64) -> QueryResult {
    let (result, effects) = client.fetch_query(POSTS, key, options(Some(5), Some(10)), at);
    let ticket = effects.fetch.expect("first observation starts a fetch");
    assert!(client.complete_fetch(ticket, fetcher(key), at));
    result
}

#[test]
fn first_observation_loads_then_goes_stale() {
    let mut client: QueryClient<String> = QueryClient::new();
    let (result, effects) = client.fetch_query(POSTS, 7, options(Some(5), Some(10)), 0);
    assert_eq!(result, QueryResult { type_id: POSTS, key: 7 });
    assert_eq!(
        effects,
        Effects {
            fetch: Some(FetchTicket { type_id: POSTS, key: 7, epoch: 1 }),
            timer: TimerAction::Keep,
        }
    );
    assert_eq!(status_of(&client, POSTS, 7), Status::Loading);
    assert!(result.is_loading(&client));
    assert_eq!(result.data(&client), None);
    assert_eq!(result.updated_at(&client), None);
    assert!(!result.is_stale(&client, 100));

    let ticket = effects.fetch.unwrap();
    assert!(client.complete_fetch(ticket, fetcher(7), 0));
    assert_eq!(
        status_of(&client, POSTS, 7),
        Status::Loaded { data: "v-7".to_string(), updated_at: 0 }
    );
    assert!(!result.is_loading(&client));
    assert!(!result.is_refetching(&client));
    assert_eq!(result.updated_at(&client), Some(0));

    assert!(!result.is_stale(&client, 5));
    assert!(result.is_stale(&client, 6));
    assert_eq!(result.data(&client), Some(&"v-7".to_string()));
    assert_eq!(
        status_of(&client, POSTS, 7),
        Status::Loaded { data: "v-7".to_string(), updated_at: 0 }
    );

    let again = result.refetch(&mut client).expect("refetch starts a fetch");
    assert_eq!(again, FetchTicket { type_id: POSTS, key: 7, epoch: 2 });
    assert!(result.is_refetching(&client));
    assert_eq!(result.data(&client), Some(&"v-7".to_string()));
    assert!(client.complete_fetch(again, "v-7b".to_string(), 6));
    assert_eq!(result.data(&client), Some(&"v-7b".to_string()));
    assert_eq!(result.updated_at(&client), Some(6));
    assert!(!result.is_stale(&client, 6));
}

#[test]
fn stale_window_is_exclusive_at_its_end() {
    let q = Query {
        key: 1,
        status: Status::Loaded { data: 0u8, updated_at: 10 },
        observers: 1,
        default_value: None,
        refetch_interval: None,
        stale_time: Some(5),
        cache_time: None,
        epoch: 1,
        timer: None,
        timer_seq: 1,
    };
    assert!(!q.is_stale(0));
    assert!(!q.is_stale(10));
    assert!(!q.is_stale(15));
    assert!(q.is_stale(16));
    assert!(q.is_stale(u64::MAX));
    let never = Query { stale_time: None, ..q.clone() };
    assert!(!never.is_stale(u64::MAX));
    let unfetched: Query<u8> = Query::new(1, options(Some(0), None));
    assert!(!unfetched.is_stale(u64::MAX));
}

#[test]
fn two_observers_at_one_instant_cause_one_fetch() {
    let mut client: QueryClient<String> = QueryClient::new();
    let (first, fx1) = client.fetch_query(POSTS, 3, options(None, None), 0);
    let (second, fx2) = client.fetch_query(POSTS, 3, options(None, None), 0);
    assert!(fx1.fetch.is_some());
    assert_eq!(fx2.fetch, None);
    assert_eq!(first, second);
    assert_eq!(client.entry(POSTS, 3).unwrap().observers, 2);
    assert_eq!(client.execute(POSTS, 3, 0), None);
    assert!(client.complete_fetch(fx1.fetch.unwrap(), fetcher(3), 4));
    assert_eq!(first.data(&client), Some(&"v-3".to_string()));
    assert_eq!(second.data(&client), Some(&"v-3".to_string()));
    assert_eq!(first.updated_at(&client), Some(4));
    assert_eq!(second.updated_at(&client), Some(4));
    assert_eq!(client.execute(POSTS, 3, 1_000), None);
}

#[test]
fn completion_after_key_switch_lands_on_the_old_entry() {
    let mut client: QueryClient<String> = QueryClient::new();
    let (a, fx_a) = client.fetch_query(POSTS, 1, options(None, None), 0);
    let ticket_a = fx_a.fetch.unwrap();
    assert_eq!(client.release(a.type_id, a.key), TimerAction::Keep);
    let (b, fx_b) = client.fetch_query(POSTS, 2, options(None, None), 1);
    assert_eq!(fx_b.fetch, Some(FetchTicket { type_id: POSTS, key: 2, epoch: 1 }));
    assert_eq!(status_of(&client, POSTS, 1), Status::Loading);

    assert!(client.complete_fetch(ticket_a, fetcher(1), 2));
    assert_eq!(
        status_of(&client, POSTS, 1),
        Status::Loaded { data: "v-1".to_string(), updated_at: 2 }
    );
    assert_eq!(status_of(&client, POSTS, 2), Status::Loading);
    assert_eq!(b.data(&client), None);
    assert_eq!(client.entry(POSTS, 1).unwrap().observers, 0);
    assert_eq!(client.entry(POSTS, 2).unwrap().observers, 1);
}

#[test]
fn result_of_a_superseded_fetch_is_discarded() {
    let mut client: QueryClient<String> = QueryClient::new();
    let result = loaded(&mut client, 9, 0);
    let first = result.refetch(&mut client).unwrap();
    let second = result.refetch(&mut client).unwrap();
    assert_eq!(first.epoch, 2);
    assert_eq!(second.epoch, 3);
    assert!(client.complete_fetch(second, "second".to_string(), 20));
    assert!(!client.complete_fetch(first, "first".to_string(), 30));
    assert_eq!(
        status_of(&client, POSTS, 9),
        Status::Loaded { data: "second".to_string(), updated_at: 20 }
    );

    let third = result.refetch(&mut client).unwrap();
    let fourth = result.refetch(&mut client).unwrap();
    assert!(!client.complete_fetch(third, "third".to_string(), 40));
    assert_eq!(
        status_of(&client, POSTS, 9),
        Status::Fetching { data: "second".to_string(), updated_at: 20 }
    );
    assert!(client.complete_fetch(fourth, "fourth".to_string(), 41));
    assert!(!client.complete_fetch(fourth, "again".to_string(), 42));
    assert_eq!(
        status_of(&client, POSTS, 9),
        Status::Loaded { data: "fourth".to_string(), updated_at: 41 }
    );
}

#[test]
fn invalidated_entry_is_fetched_again_on_the_next_observation() {
    let mut client: QueryClient<String> = QueryClient::new();
    let result = loaded(&mut client, 4, 1);
    assert!(client.invalidate_query(POSTS, 4));
    assert!(result.is_invalid(&client));
    assert_eq!(
        status_of(&client, POSTS, 4),
        Status::Invalid { data: "v-4".to_string(), updated_at: 1 }
    );
    assert_eq!(result.data(&client), Some(&"v-4".to_string()));

    let ticket = client.execute(POSTS, 4, 2).expect("observation starts the fetch");
    assert_eq!(ticket, FetchTicket { type_id: POSTS, key: 4, epoch: 2 });
    assert_eq!(
        status_of(&client, POSTS, 4),
        Status::Fetching { data: "v-4".to_string(), updated_at: 1 }
    );
    assert_eq!(result.data(&client), Some(&"v-4".to_string()));
    assert_eq!(client.execute(POSTS, 4, 2), None);
    assert_eq!(client.execute(POSTS, 4, 3), None);

    assert!(client.complete_fetch(ticket, "new".to_string(), 3));
    assert_eq!(
        status_of(&client, POSTS, 4),
        Status::Loaded { data: "new".to_string(), updated_at: 3 }
    );
    assert!(!result.is_invalid(&client));
}

#[test]
fn invalidation_while_fetching_discards_that_fetch() {
    let mut client: QueryClient<String> = QueryClient::new();
    let result = loaded(&mut client, 4, 1);
    let running = result.refetch(&mut client).unwrap();
    assert!(client.invalidate_query(POSTS, 4));
    assert!(!client.complete_fetch(running, "late".to_string(), 2));
    assert_eq!(
        status_of(&client, POSTS, 4),
        Status::Invalid { data: "v-4".to_string(), updated_at: 1 }
    );
    let next = client.execute(POSTS, 4, 3).unwrap();
    assert_eq!(next.epoch, 3);
}

#[test]
fn invalidation_without_a_value_keeps_the_status() {
    let mut client: QueryClient<String> = QueryClient::new();
    let fx = client.prefetch_query(POSTS, 1, options(None, None), 0);
    assert!(client.invalidate_query(POSTS, 1));
    assert_eq!(status_of(&client, POSTS, 1), Status::Loading);
    assert!(client.complete_fetch(fx.fetch.unwrap(), fetcher(1), 1));
    assert!(!client.invalidate_query(POSTS, 2));
    assert!(!client.invalidate_query(USERS, 1));
    assert_eq!(Status::<u8>::Created.invalidate(), Status::Created);
}

#[test]
fn unobserved_entry_is_evicted_when_its_timer_reports() {
    let mut client: QueryClient<String> = QueryClient::new();
    let result = loaded(&mut client, 5, 0);
    let armed = client.release(result.type_id, result.key);
    assert_eq!(armed, TimerAction::Arm { token: 2, after: 10 });
    assert_eq!(client.entry(POSTS, 5).unwrap().timer, Some(2));
    assert!(!client.timer_fired(POSTS, 5, 1));
    assert!(client.entry(POSTS, 5).is_some());
    assert!(client.timer_fired(POSTS, 5, 2));
    assert!(client.entry(POSTS, 5).is_none());
    assert!(!client.timer_fired(POSTS, 5, 2));
    assert!(!client.complete_fetch(
        FetchTicket { type_id: POSTS, key: 5, epoch: 1 },
        "gone".to_string(),
        11
    ));
    assert!(client.entry(POSTS, 5).is_none());
}

#[test]
fn observer_that_returns_in_time_keeps_the_entry() {
    let mut client: QueryClient<String> = QueryClient::new();
    let result = loaded(&mut client, 5, 0);
    assert_eq!(
        client.release(result.type_id, result.key),
        TimerAction::Arm { token: 2, after: 10 }
    );
    let before = client.entry(POSTS, 5).unwrap().status.clone();
    let (_, fx) = client.fetch_query(POSTS, 5, options(Some(50), Some(99)), 5);
    assert_eq!(fx.timer, TimerAction::Cancel { token: 2 });
    assert_eq!(fx.fetch, None);
    assert!(!client.timer_fired(POSTS, 5, 2));
    let entry = client.entry(POSTS, 5).unwrap();
    assert_eq!(entry.status, before);
    assert_eq!(entry.status, Status::Loaded { data: "v-5".to_string(), updated_at: 0 });
    assert_eq!(entry.observers, 1);
    assert_eq!(entry.timer, None);
    assert_eq!(entry.cache_time, Some(10));
    assert_eq!(entry.stale_time, Some(5));

    assert_eq!(client.release(POSTS, 5), TimerAction::Arm { token: 3, after: 10 });
    assert!(!client.timer_fired(POSTS, 5, 2));
    assert!(client.timer_fired(POSTS, 5, 3));
}

#[test]
fn entry_without_retention_window_is_never_armed() {
    let mut client: QueryClient<String> = QueryClient::new();
    let (result, _) = client.fetch_query(POSTS, 1, options(None, None), 0);
    let (_, _) = client.fetch_query(POSTS, 1, options(None, None), 0);
    assert_eq!(client.release(result.type_id, result.key), TimerAction::Keep);
    assert_eq!(client.entry(POSTS, 1).unwrap().observers, 1);
    assert_eq!(client.release(result.type_id, result.key), TimerAction::Keep);
    assert_eq!(client.entry(POSTS, 1).unwrap().observers, 0);
    assert_eq!(client.entry(POSTS, 1).unwrap().timer, None);
    assert_eq!(client.release(result.type_id, result.key), TimerAction::Keep);
    assert_eq!(client.entry(POSTS, 1).unwrap().observers, 0);
    assert!(!client.timer_fired(POSTS, 1, 1));
    assert_eq!(client.release(POSTS, 77), TimerAction::Keep);
    assert_eq!(client.release(USERS, 1), TimerAction::Keep);
    assert!(client.entry(USERS, 1).is_none());
}

#[test]
fn invalidate_queries_returns_the_keys_that_exist() {
    let mut client: QueryClient<String> = QueryClient::new();
    loaded(&mut client, 1, 0);
    loaded(&mut client, 3, 0);
    let matched = client.invalidate_queries(POSTS, &vec![1, 2, 3]);
    assert_eq!(matched, Some(vec![1, 3]));
    assert!(matches!(status_of(&client, POSTS, 1), Status::Invalid { .. }));
    assert!(matches!(status_of(&client, POSTS, 3), Status::Invalid { .. }));
    assert!(client.entry(POSTS, 2).is_none());
}

#[test]
fn invalidate_queries_keeps_order_and_repeats() {
    let mut client: QueryClient<String> = QueryClient::new();
    loaded(&mut client, 1, 0);
    loaded(&mut client, 3, 0);
    loaded(&mut client, 8, 0);
    assert_eq!(client.invalidate_queries(POSTS, &vec![3, 9, 1, 3]), Some(vec![3, 1, 3]));
    assert!(matches!(status_of(&client, POSTS, 8), Status::Loaded { .. }));
    assert_eq!(client.invalidate_queries(POSTS, &vec![]), Some(vec![]));
    assert_eq!(client.invalidate_queries(POSTS, &vec![100]), Some(vec![]));
    assert_eq!(client.invalidate_queries(USERS, &vec![1, 3]), None);
    assert!(client.entry(USERS, 1).is_none());
}

#[test]
fn prefetch_warms_the_cache_without_an_observer() {
    let mut client: QueryClient<String> = QueryClient::new();
    let fx = client.prefetch_query(POSTS, 6, options(None, Some(30)), 0);
    assert_eq!(fx.timer, TimerAction::Arm { token: 1, after: 30 });
    assert_eq!(fx.fetch, Some(FetchTicket { type_id: POSTS, key: 6, epoch: 1 }));
    assert_eq!(client.entry(POSTS, 6).unwrap().observers, 0);
    let again = client.prefetch_query(POSTS, 6, options(None, Some(30)), 0);
    assert_eq!(again, Effects { fetch: None, timer: TimerAction::Keep });
    assert!(client.complete_fetch(fx.fetch.unwrap(), fetcher(6), 1));

    let (result, seen) = client.fetch_query(POSTS, 6, options(None, None), 2);
    assert_eq!(seen, Effects { fetch: None, timer: TimerAction::Cancel { token: 1 } });
    assert_eq!(result.data(&client), Some(&"v-6".to_string()));
    assert!(!client.timer_fired(POSTS, 6, 1));
}

#[test]
fn observing_a_stale_value_starts_a_fetch_and_keeps_the_value() {
    let mut client: QueryClient<String> = QueryClient::new();
    let result = loaded(&mut client, 2, 0);
    assert_eq!(client.execute(POSTS, 2, 5), None);
    let ticket = client.execute(POSTS, 2, 6).unwrap();
    assert_eq!(ticket.epoch, 2);
    assert!(result.is_refetching(&client));
    assert!(result.is_stale(&client, 6));
    assert_eq!(result.data(&client), Some(&"v-2".to_string()));
    assert_eq!(client.execute(POSTS, 2, 7), None);
    assert_eq!(client.execute(POSTS, 99, 7), None);
    assert_eq!(client.refetch(POSTS, 99), None);
    assert_eq!(client.refetch(USERS, 2), None);
}

#[test]
fn key_types_do_not_share_entries() {
    let mut client: QueryClient<String> = QueryClient::new();
    let posts = loaded(&mut client, 1, 0);
    let (users, fx) = client.fetch_query(USERS, 1, options(None, None), 0);
    assert_eq!(fx.fetch, Some(FetchTicket { type_id: USERS, key: 1, epoch: 1 }));
    assert_eq!(posts.data(&client), Some(&"v-1".to_string()));
    assert_eq!(users.data(&client), None);
    assert!(users.is_loading(&client));
    assert!(!posts.is_loading(&client));
    let missing = QueryResult { type_id: 3, key: 1 };
    assert_eq!(missing.data(&client), None);
    assert!(!missing.is_loading(&client));
    assert!(!missing.is_refetching(&client));
    assert!(!missing.is_invalid(&client));
    assert!(!missing.is_stale(&client, 9));
    assert_eq!(missing.updated_at(&client), None);
    assert_eq!(missing.refetch(&mut client), None);
}

#[test]
fn store_creates_each_entry_once() {
    let mut store: TypedStore<String> = TypedStore::new();
    assert!(store.get(1).is_none());
    assert!(store.get_or_create(1, options(Some(2), None)));
    assert!(!store.get_or_create(1, options(Some(9), Some(9))));
    let entry = store.get(1).unwrap();
    assert_eq!(*entry, Query::new(1, options(Some(2), None)));
    assert_eq!(entry.status, Status::Created);
    assert_eq!(store.subscribe(1), TimerAction::Keep);
    assert_eq!(store.subscribe(2), TimerAction::Keep);
    assert!(store.get(2).is_none());
    assert_eq!(store.execute(1, 0), Some(1));
    assert_eq!(store.refetch(1), Some(2));
    assert!(!store.complete(1, 1, "old".to_string(), 1));
    assert!(store.complete(1, 2, "new".to_string(), 1));
    assert!(store.invalidate(1));
    assert_eq!(store.invalidate_many(&vec![2, 1]), vec![1]);
    assert!(!store.expire(1, 1));
    assert_eq!(store.unsubscribe(1), TimerAction::Keep);
    store.evict(1);
    assert!(store.get(1).is_none());
    assert_eq!(store.unsubscribe(1), TimerAction::Keep);
    assert_eq!(store.execute(1, 0), None);
}

#[test]
fn status_transitions_keep_the_value() {
    let loaded: Status<u8> = Status::Loaded { data: 1, updated_at: 2 };
    assert_eq!(Status::<u8>::Created.start(), Status::Loading);
    assert_eq!(Status::<u8>::Loading.start(), Status::Loading);
    assert_eq!(loaded.clone().start(), Status::Fetching { data: 1, updated_at: 2 });
    assert_eq!(loaded.clone().invalidate(), Status::Invalid { data: 1, updated_at: 2 });
    assert_eq!(
        loaded.clone().invalidate().start(),
        Status::Fetching { data: 1, updated_at: 2 }
    );
    assert_eq!(
        loaded.clone().start().invalidate(),
        Status::Invalid { data: 1, updated_at: 2 }
    );
    assert_eq!(Status::<u8>::Loading.invalidate(), Status::Loading);
    assert_eq!(loaded.data(), Some(&1));
    assert_eq!(loaded.updated_at(), Some(2));
    assert_eq!(Status::<u8>::Loading.data(), None);
    assert!(Status::<u8>::Created.is_created());
    assert!(Status::<u8>::Loading.is_in_flight());
    assert!(loaded.is_loaded() && !loaded.is_in_flight());
    assert!(loaded.clone().start().is_fetching());
    assert!(loaded.clone().invalidate().is_invalid());
}

#[test]
fn entry_counts_observers_and_renews_timer_tokens() {
    let q: Query<u8> = Query::new(3, options(None, Some(10)));
    assert_eq!(q.timer, Some(1));
    assert!(q.timer_due(1));
    let (q, action) = q.subscribe();
    assert_eq!(action, TimerAction::Cancel { token: 1 });
    assert!(!q.timer_due(1));
    let (q, action) = q.subscribe();
    assert_eq!(action, TimerAction::Keep);
    assert_eq!(q.observers, 2);
    let (q, action) = q.unsubscribe();
    assert_eq!(action, TimerAction::Keep);
    let (q, action) = q.unsubscribe();
    assert_eq!(action, TimerAction::Arm { token: 2, after: 10 });
    assert_eq!(q.observers, 0);
    assert!(q.timer_due(2) && !q.timer_due(1));
    let (q, started) = q.execute(0);
    assert_eq!(started, Some(1));
    let (q, started) = q.execute(0);
    assert_eq!(started, None);
    let (q, applied) = q.complete(2, 5, 1);
    assert!(!applied);
    let (q, applied) = q.complete(1, 5, 1);
    assert!(applied);
    assert_eq!(q.status, Status::Loaded { data: 5, updated_at: 1 });
    assert_eq!(q.invalidate().status, Status::Invalid { data: 5, updated_at: 1 });
}

#[test]
fn seed_value_is_shown_until_the_first_result() {
    let mut client: QueryClient<String> = QueryClient::new();
    let seeded = QueryOptions {
        default_value: Some("seed".to_string()),
        refetch_interval: None,
        stale_time: Some(5),
        cache_time: None,
    };
    let (result, fx) = client.fetch_query(POSTS, 1, seeded, 0);
    assert!(result.is_loading(&client));
    assert_eq!(result.data(&client), Some(&"seed".to_string()));
    assert_eq!(result.updated_at(&client), None);
    assert!(!result.is_stale(&client, 100));
    assert_eq!(client.entry(POSTS, 1).unwrap().status.data(), None);
    assert!(client.complete_fetch(fx.fetch.unwrap(), fetcher(1), 3));
    assert_eq!(result.data(&client), Some(&"v-1".to_string()));
    assert!(client.invalidate_query(POSTS, 1));
    assert_eq!(result.data(&client), Some(&"v-1".to_string()));
}

#[test]
fn period_refetches_only_observed_entries_with_a_period() {
    let mut client: QueryClient<String> = QueryClient::new();
    let periodic = QueryOptions {
        default_value: None,
        refetch_interval: Some(30),
        stale_time: None,
        cache_time: None,
    };
    let (result, fx) = client.fetch_query(POSTS, 1, periodic, 0);
    assert!(client.complete_fetch(fx.fetch.unwrap(), fetcher(1), 1));
    let ticket = client.interval_elapsed(POSTS, 1).expect("observed entry with a period");
    assert_eq!(ticket, FetchTicket { type_id: POSTS, key: 1, epoch: 2 });
    assert!(result.is_refetching(&client));
    assert!(client.complete_fetch(ticket, "again".to_string(), 31));
    assert_eq!(result.updated_at(&client), Some(31));

    assert_eq!(client.release(POSTS, 1), TimerAction::Keep);
    assert_eq!(client.interval_elapsed(POSTS, 1), None);
    assert!(!result.is_refetching(&client));

    let (_, fx) = client.fetch_query(POSTS, 2, options(None, None), 0);
    assert!(client.complete_fetch(fx.fetch.unwrap(), fetcher(2), 1));
    assert_eq!(client.interval_elapsed(POSTS, 2), None);
    assert_eq!(client.interval_elapsed(POSTS, 3), None);
    assert_eq!(client.interval_elapsed(USERS, 1), None);
}

#[test]
fn synchronize_moves_the_consumer_between_keys() {
    let mut client: QueryClient<String> = QueryClient::new();
    let first = client.synchronize(None, POSTS, 1, options(Some(5), Some(10)), 0);
    assert_eq!(
        first,
        Switch {
            result: QueryResult { type_id: POSTS, key: 1 },
            left: TimerAction::Keep,
            effects: Effects {
                fetch: Some(FetchTicket { type_id: POSTS, key: 1, epoch: 1 }),
                timer: TimerAction::Keep,
            },
        }
    );
    let same = client.synchronize(Some(first.result), POSTS, 1, options(None, None), 0);
    assert_eq!(same.result, first.result);
    assert_eq!(same.left, TimerAction::Keep);
    assert_eq!(same.effects, Effects { fetch: None, timer: TimerAction::Keep });
    assert_eq!(client.entry(POSTS, 1).unwrap().observers, 1);

    let moved = client.synchronize(Some(first.result), POSTS, 2, options(None, None), 1);
    assert_eq!(moved.result, QueryResult { type_id: POSTS, key: 2 });
    assert_eq!(moved.left, TimerAction::Arm { token: 2, after: 10 });
    assert_eq!(
        moved.effects,
        Effects {
            fetch: Some(FetchTicket { type_id: POSTS, key: 2, epoch: 1 }),
            timer: TimerAction::Keep,
        }
    );
    assert_eq!(client.entry(POSTS, 1).unwrap().observers, 0);
    assert_eq!(status_of(&client, POSTS, 1), Status::Loading);
    assert_eq!(client.entry(POSTS, 2).unwrap().observers, 1);

    assert!(client.complete_fetch(first.effects.fetch.unwrap(), fetcher(1), 2));
    assert_eq!(
        status_of(&client, POSTS, 1),
        Status::Loaded { data: "v-1".to_string(), updated_at: 2 }
    );
    assert_eq!(status_of(&client, POSTS, 2), Status::Loading);

    let back = client.synchronize(Some(moved.result), POSTS, 1, options(None, None), 3);
    assert_eq!(back.left, TimerAction::Keep);
    assert_eq!(back.effects, Effects { fetch: None, timer: TimerAction::Cancel { token: 2 } });
    let stale = client.synchronize(Some(back.result), POSTS, 1, options(None, None), 8);
    assert_eq!(stale.effects.fetch, Some(FetchTicket { type_id: POSTS, key: 1, epoch: 2 }));
    assert_eq!(
        status_of(&client, POSTS, 1),
        Status::Fetching { data: "v-1".to_string(), updated_at: 2 }
    );
}

#[test]
fn synchronize_registers_again_when_the_entry_is_gone() {
    let mut client: QueryClient<String> = QueryClient::new();
    let lost = QueryResult { type_id: POSTS, key: 1 };
    let switch = client.synchronize(Some(lost), POSTS, 1, options(None, None), 0);
    assert_eq!(switch.left, TimerAction::Keep);
    assert_eq!(switch.effects.fetch, Some(FetchTicket { type_id: POSTS, key: 1, epoch: 1 }));
    assert_eq!(client.entry(POSTS, 1).unwrap().observers, 1);
}

#[test]
fn observing_again_at_six_shows_the_stale_value_while_it_is_fetched() {
    let mut client: QueryClient<String> = QueryClient::new();
    let result = loaded(&mut client, 7, 0);
    let (again, fx) = client.fetch_query(POSTS, 7, options(Some(5), Some(10)), 6);
    assert_eq!(again, result);
    assert_eq!(fx.fetch, Some(FetchTicket { type_id: POSTS, key: 7, epoch: 2 }));
    assert!(again.is_stale(&client, 6));
    assert_eq!(again.data(&client), Some(&"v-7".to_string()));
    assert_eq!(again.updated_at(&client), Some(0));
}
