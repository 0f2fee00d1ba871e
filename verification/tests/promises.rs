use async_loader::{
    AsyncLoader, AsyncLoaderBuilder, BroadcastOrValue, CacheLoader, Duration, LoadError, Lookup,
    StaleDelay, Update, ValueForRender,
};
use axum::body::Body;
use axum::http::Response;
use axum::response::IntoResponse;
use std::time::Instant;
use tokio::sync::broadcast::Receiver;

struct Numbers;

impl CacheLoader for Numbers {
    type Key = u64;
    type Output = u32;

    fn into_response(output: &u32) -> Response<Body> {
        output.to_string().into_response()
    }
}

type Value = ValueForRender<Numbers>;

/// Values are due for a reload after 10 seconds and too old after 15.
fn loader_with(store_cache: bool, disable_loader: bool) -> AsyncLoader<Numbers> {
    AsyncLoaderBuilder {
        reload_delay: Some(Duration::from_secs(10)),
        stale_delay: StaleDelay::Duration(Duration::from_secs(5)),
        store_cache,
        disable_loader,
    }
    .build(Numbers)
}

fn loader() -> AsyncLoader<Numbers> {
    loader_with(true, false)
}

fn get(loader: &mut AsyncLoader<Numbers>, key: u64, age: u64) -> Lookup<Numbers> {
    loader.get_value_at(key, Duration::from_secs(age))
}

fn get_latest(loader: &mut AsyncLoader<Numbers>, key: u64, age: u64) -> Lookup<Numbers> {
    loader.get_latest_value_at(key, Duration::from_secs(age))
}

fn failure() -> Result<u32, LoadError> {
    Err(LoadError::Other("failed".to_owned()))
}

fn finish(loader: &mut AsyncLoader<Numbers>, update: Update<Numbers>, res: Result<u32, LoadError>) {
    let announcement = loader.do_update(update, res);
    let _ = announcement.sender.send(announcement.value);
}

/// Has `value` loaded under `key`.
fn fill(loader: &mut AsyncLoader<Numbers>, key: u64, value: u32) {
    let update = get(loader, key, 0).update.unwrap();
    finish(loader, update, Ok(value));
}

fn receiver(answer: BroadcastOrValue<Numbers>) -> Receiver<Value> {
    match answer {
        BroadcastOrValue::Broadcast { broadcast, .. } => broadcast.into_receiver(),
        BroadcastOrValue::Value(_) => panic!("the request should wait"),
    }
}

fn stale(answer: &BroadcastOrValue<Numbers>) -> Option<u32> {
    match answer {
        BroadcastOrValue::Broadcast { stale_cache, .. } => {
            stale_cache.as_ref().map(|latest| *latest.value)
        }
        BroadcastOrValue::Value(_) => panic!("the request should wait"),
    }
}

fn number(value: Value) -> Option<u32> {
    match value {
        ValueForRender::Success { value, .. } => Some(*value),
        ValueForRender::Error { .. } => None,
    }
}

fn at_once(answer: BroadcastOrValue<Numbers>) -> Option<u32> {
    match answer {
        BroadcastOrValue::Value(value) => number(value),
        BroadcastOrValue::Broadcast { .. } => panic!("the request should not wait"),
    }
}

#[test]
fn a_key_is_loaded_once_at_a_time() {
    let mut loader = loader();
    let first = get(&mut loader, 1, 0);
    assert!(first.update.is_some());
    for _ in 0..3 {
        assert!(get(&mut loader, 1, 0).update.is_none());
    }
    assert!(loader.get_latest_value(1).update.is_none());
    finish(&mut loader, first.update.unwrap(), failure());
    assert!(get(&mut loader, 1, 0).update.is_some());
}

#[test]
fn all_who_wait_are_told() {
    let mut loader = loader();
    let first = get(&mut loader, 1, 0);
    let second = get(&mut loader, 1, 0);
    let third = loader.get_latest_value(1);
    finish(&mut loader, first.update.unwrap(), Ok(7));
    for answer in [first.answer, second.answer, third.answer] {
        assert_eq!(number(receiver(answer).try_recv().unwrap()), Some(7));
    }
}

#[test]
fn loads_under_other_keys_are_not_told() {
    let mut loader = loader();
    let one = get(&mut loader, 1, 0);
    let two = get(&mut loader, 2, 0);
    finish(&mut loader, two.update.unwrap(), Ok(7));
    assert!(receiver(one.answer).try_recv().is_err());
    assert_eq!(number(receiver(two.answer).try_recv().unwrap()), Some(7));
    assert!(get(&mut loader, 1, 0).update.is_none());
    assert_eq!(at_once(get(&mut loader, 2, 0).answer), Some(7));
}

#[test]
fn fresh_value_is_returned_without_a_load() {
    let mut loader = loader();
    fill(&mut loader, 1, 7);
    for age in [0, 10] {
        let lookup = get(&mut loader, 1, age);
        assert!(lookup.update.is_none());
        assert_eq!(at_once(lookup.answer), Some(7));
    }
}

#[test]
fn value_due_for_a_reload_waits_for_it() {
    let mut loader = loader();
    fill(&mut loader, 1, 7);
    let lookup = get(&mut loader, 1, 12);
    assert_eq!(stale(&lookup.answer), Some(7));
    finish(&mut loader, lookup.update.unwrap(), Ok(8));
    assert_eq!(number(receiver(lookup.answer).try_recv().unwrap()), Some(8));
    assert_eq!(at_once(get(&mut loader, 1, 0).answer), Some(8));
}

#[test]
fn value_is_used_during_its_reload() {
    let mut loader = loader();
    fill(&mut loader, 1, 7);
    let reload = get(&mut loader, 1, 12).update;
    assert!(reload.is_some());
    let lookup = get(&mut loader, 1, 15);
    assert!(lookup.update.is_none());
    assert_eq!(at_once(lookup.answer), Some(7));
}

#[test]
fn too_old_value_is_refused() {
    let mut loader = loader();
    fill(&mut loader, 1, 7);
    let first = get(&mut loader, 1, 16);
    assert_eq!(stale(&first.answer), Some(7));
    let second = get(&mut loader, 1, 16);
    assert!(second.update.is_none());
    assert_eq!(stale(&second.answer), Some(7));
}

#[test]
fn failed_load_keeps_the_value() {
    let mut loader = loader();
    fill(&mut loader, 1, 7);
    let update = loader.get_latest_value(1).update.unwrap();
    finish(&mut loader, update, failure());
    assert_eq!(at_once(get(&mut loader, 1, 5).answer), Some(7));
}

#[test]
fn stale_value_answers_a_failed_load() {
    let mut loader = loader();
    fill(&mut loader, 1, 7);
    let first = get(&mut loader, 1, 16);
    let second = get(&mut loader, 1, 16);
    finish(&mut loader, first.update.unwrap(), failure());
    for answer in [first.answer, second.answer] {
        let reply = receiver(answer).try_recv().unwrap();
        assert_eq!(number(reply.clone()), None);
        assert_eq!(number(AsyncLoader::get_value_allow_stale(reply)), Some(7));
    }
}

#[test]
fn nothing_answers_a_first_load_that_fails() {
    let mut loader = loader();
    let lookup = get(&mut loader, 1, 0);
    finish(&mut loader, lookup.update.unwrap(), failure());
    let reply = receiver(lookup.answer).try_recv().unwrap();
    assert_eq!(number(AsyncLoader::get_value_allow_stale(reply)), None);
}

#[test]
fn forced_reload_falls_back_on_a_stale_value() {
    let mut loader = loader();
    fill(&mut loader, 1, 7);
    let forced = get_latest(&mut loader, 1, 16);
    assert_eq!(stale(&forced.answer), Some(7));
    let joined = get(&mut loader, 1, 16);
    let also_forced = get_latest(&mut loader, 1, 16);
    assert_eq!(stale(&also_forced.answer), Some(7));
    finish(&mut loader, forced.update.unwrap(), failure());
    for answer in [forced.answer, joined.answer, also_forced.answer] {
        let reply = receiver(answer).try_recv().unwrap();
        assert_eq!(number(reply.clone()), None);
        assert_eq!(number(AsyncLoader::get_value_allow_stale(reply)), Some(7));
    }
}

#[test]
fn forced_reload_leaves_a_usable_value_aside() {
    for age in [0, 10, 12, 15] {
        let mut loader = loader();
        fill(&mut loader, 1, 7);
        let forced = get_latest(&mut loader, 1, age);
        assert_eq!(stale(&forced.answer), None);
        finish(&mut loader, forced.update.unwrap(), failure());
        let reply = receiver(forced.answer).try_recv().unwrap();
        assert_eq!(number(AsyncLoader::get_value_allow_stale(reply)), None);
    }
}

#[test]
fn new_value_is_always_waited_for() {
    let mut loader = loader();
    fill(&mut loader, 1, 7);
    let first = get_latest(&mut loader, 1, 0);
    let second = get_latest(&mut loader, 1, 0);
    assert!(second.update.is_none());
    finish(&mut loader, first.update.unwrap(), Ok(8));
    for answer in [first.answer, second.answer] {
        assert_eq!(number(receiver(answer).try_recv().unwrap()), Some(8));
    }
}

#[test]
fn burst_shares_one_load() {
    for store_cache in [true, false] {
        let mut loader = loader_with(store_cache, false);
        let mut updates = Vec::new();
        let mut answers = Vec::new();
        for _ in 0..5 {
            let lookup = get(&mut loader, 1, 0);
            updates.extend(lookup.update);
            answers.push(lookup.answer);
        }
        assert_eq!(updates.len(), 1);
        finish(&mut loader, updates.remove(0), Ok(7));
        for answer in answers {
            assert_eq!(number(receiver(answer).try_recv().unwrap()), Some(7));
        }
    }
}

#[test]
fn outcome_is_taken_in_before_it_is_told() {
    let mut loader = loader();
    let lookup = get(&mut loader, 1, 0);
    let announcement = loader.do_update(lookup.update.unwrap(), Ok(7));
    // Nothing has been sent yet.
    assert_eq!(at_once(get(&mut loader, 1, 0).answer), Some(7));
    let late = get_latest(&mut loader, 1, 0);
    assert!(late.update.is_some());
    assert!(announcement.sender.send(announcement.value).is_ok());
    assert_eq!(number(receiver(lookup.answer).try_recv().unwrap()), Some(7));
    assert!(receiver(late.answer).try_recv().is_err());
}

#[test]
fn reading_does_not_renew() {
    let mut loader = loader();
    let update = get(&mut loader, 1, 0).update.unwrap();
    let stored_at = Instant::now();
    loader.do_update_at(update, Ok(7), stored_at, stored_at);
    for age in [0, 5, 10] {
        match get(&mut loader, 1, age).answer {
            BroadcastOrValue::Value(ValueForRender::Success { value, loaded }) => {
                assert_eq!(*value, 7);
                assert_eq!(loaded, stored_at);
            }
            _ => panic!("no reload is due"),
        }
    }
    assert!(get(&mut loader, 1, 11).update.is_some());
}

#[test]
fn hit_is_no_newer() {
    let mut loader = loader();
    let lookup = get(&mut loader, 1, 0);
    finish(&mut loader, lookup.update.unwrap(), Ok(7));
    let announced = match receiver(lookup.answer).try_recv().unwrap() {
        ValueForRender::Success { value, loaded } => (value, loaded),
        ValueForRender::Error { .. } => panic!("the load succeeded"),
    };
    for _ in 0..2 {
        match loader.get_value(1).answer {
            BroadcastOrValue::Value(ValueForRender::Success { value, loaded }) => {
                assert!(std::sync::Arc::ptr_eq(&value, &announced.0));
                assert!(loaded <= announced.1);
            }
            _ => panic!("no reload is due"),
        }
    }
}

#[test]
fn lost_update_is_forgotten() {
    let mut loader = loader();
    fill(&mut loader, 1, 7);
    fill(&mut loader, 2, 8);
    let first = get(&mut loader, 1, 16);
    let second = get(&mut loader, 1, 16);
    let other = get(&mut loader, 2, 16);
    let lost = first.update.unwrap();
    loader.lose_update(lost.key);
    drop(lost.sender);
    for answer in [first.answer, second.answer] {
        assert_eq!(
            receiver(answer).try_recv().err(),
            Some(tokio::sync::broadcast::error::TryRecvError::Closed)
        );
    }
    assert!(get(&mut loader, 2, 16).update.is_none());
    finish(&mut loader, other.update.unwrap(), Ok(9));
    assert_eq!(at_once(get(&mut loader, 1, 5).answer), Some(7));
    let next = get(&mut loader, 1, 16);
    assert_eq!(stale(&next.answer), Some(7));
    finish(&mut loader, next.update.unwrap(), Ok(10));
    assert_eq!(at_once(get(&mut loader, 1, 0).answer), Some(10));
}

#[test]
fn lost_update_leaves_its_slot_only_if_stored() {
    let mut loader = loader();
    loader.lose_update(1);
    assert_eq!(loader.inner.metrics().length(), 0);
    get(&mut loader, 1, 0);
    loader.lose_update(1);
    assert_eq!(loader.inner.metrics().length(), 1);
    assert!(get(&mut loader, 1, 0).update.is_some());

    let mut unstored = loader_with(false, false);
    get(&mut unstored, 1, 0);
    unstored.lose_update(1);
    assert_eq!(unstored.inner.metrics().length(), 0);
    assert!(get(&mut unstored, 1, 0).update.is_some());
}

#[test]
fn value_is_stored_as_of_its_time() {
    let mut loader = loader();
    let update = get(&mut loader, 1, 0).update.unwrap();
    let stored_at = Instant::now();
    let announced_at = stored_at + std::time::Duration::from_secs(1);
    match loader.do_update_at(update, Ok(7), stored_at, announced_at).value {
        ValueForRender::Success { loaded, .. } => assert_eq!(loaded, announced_at),
        ValueForRender::Error { .. } => panic!("the load succeeded"),
    }
    match get(&mut loader, 1, 0).answer {
        BroadcastOrValue::Value(ValueForRender::Success { loaded, .. }) => {
            assert_eq!(loaded, stored_at)
        }
        _ => panic!("the value was just loaded"),
    }
}

#[test]
fn nothing_is_kept_unless_stored() {
    let mut loader = loader_with(false, false);
    let lookup = get(&mut loader, 1, 0);
    assert!(get(&mut loader, 1, 0).update.is_none());
    assert_eq!(loader.inner.metrics().length(), 1);
    finish(&mut loader, lookup.update.unwrap(), Ok(7));
    assert_eq!(number(receiver(lookup.answer).try_recv().unwrap()), Some(7));
    assert_eq!(loader.inner.metrics().length(), 0);
    let lookup = get(&mut loader, 1, 0);
    assert!(lookup.update.is_some());
    assert_eq!(stale(&lookup.answer), None);
}

#[test]
fn slot_while_an_update_runs() {
    let mut loader = loader_with(false, false);
    let one = get(&mut loader, 1, 0);
    let two = get_latest(&mut loader, 2, 0);
    assert_eq!(loader.inner.metrics().length(), 2);
    finish(&mut loader, one.update.unwrap(), failure());
    assert_eq!(loader.inner.metrics().length(), 1);
    assert!(get(&mut loader, 2, 0).update.is_none());
    finish(&mut loader, two.update.unwrap(), Ok(7));
    assert_eq!(loader.inner.metrics().length(), 0);

    let mut off = loader_with(false, true);
    let lookup = get(&mut off, 1, 0);
    assert_eq!(off.inner.metrics().length(), 0);
    finish(&mut off, lookup.update.unwrap(), Ok(7));
    assert_eq!(off.inner.metrics().length(), 0);
}

#[test]
fn switched_off_cache_always_loads() {
    let mut loader = loader_with(true, true);
    let first = get(&mut loader, 1, 0);
    let second = loader.get_latest_value(1);
    assert_eq!(loader.inner.metrics().length(), 0);
    finish(&mut loader, second.update.unwrap(), Ok(2));
    finish(&mut loader, first.update.unwrap(), Ok(1));
    assert_eq!(number(receiver(first.answer).try_recv().unwrap()), Some(1));
    assert_eq!(number(receiver(second.answer).try_recv().unwrap()), Some(2));
    let third = get(&mut loader, 1, 0);
    assert_eq!(stale(&third.answer), None);
    finish(&mut loader, third.update.unwrap(), failure());
    let reply = receiver(third.answer).try_recv().unwrap();
    assert_eq!(number(AsyncLoader::get_value_allow_stale(reply)), None);
}

#[test]
fn one_slot_per_key() {
    let mut loader = loader();
    for key in [1, 2, 1, 3, 2] {
        get(&mut loader, key, 0);
    }
    assert_eq!(loader.inner.metrics().length(), 3);
    assert!(loader.inner.metrics().capacity() >= 3);
    for key in [2, 4, 4, 1] {
        get(&mut loader, key, 0);
    }
    assert_eq!(loader.inner.metrics().length(), 4);
    assert!(loader.inner.metrics().capacity() >= 4);
}

#[test]
fn lost_load_closes_its_own_channel() {
    let mut loader = loader_with(true, true);
    let lookup = get(&mut loader, 1, 0);
    drop(lookup.update);
    assert_eq!(
        receiver(lookup.answer).try_recv().err(),
        Some(tokio::sync::broadcast::error::TryRecvError::Closed)
    );
}

#[test]
fn loader_is_kept() {
    struct Marked(u8);
    impl CacheLoader for Marked {
        type Key = u64;
        type Output = u8;

        fn into_response(output: &u8) -> Response<Body> {
            output.to_string().into_response()
        }
    }
    let loader = AsyncLoaderBuilder {
        reload_delay: None,
        stale_delay: StaleDelay::AllowStale,
        store_cache: true,
        disable_loader: false,
    }
    .build(Marked(9));
    assert_eq!(loader.inner.loader().0, 9);
    assert_eq!(
        loader.get_cacher_config().reload_delay(),
        Duration::from_secs(60)
    );
}
