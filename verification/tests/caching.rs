use async_loader::{
    AsyncLoader, AsyncLoaderBuilder, BroadcastOrValue, CacheLoader, Duration, LoadError, Lookup,
    StaleDelay, ValueForRender,
};
use axum::body::Body;
use axum::http::Response;
use axum::response::IntoResponse;

struct TestLoader;

impl CacheLoader for TestLoader {
    type Key = ();
    type Output = u8;

    fn into_response(output: &u8) -> Response<Body> {
        output.to_string().into_response()
    }
}

struct MyData {
    num: u8,
    failures: u8,
}

/// A loader together with what it loads from.
struct Cacher {
    loader: AsyncLoader<TestLoader>,
    data: MyData,
}

fn build_with(
    reload_delay: u64,
    stale_delay: StaleDelay,
    store_cache: bool,
    disable_loader: bool,
) -> Cacher {
    let builder = AsyncLoaderBuilder {
        reload_delay: Some(Duration::from_secs(reload_delay)),
        stale_delay,
        store_cache,
        disable_loader,
    };
    assert!(builder.can_build());
    Cacher {
        loader: builder.build(TestLoader),
        data: MyData {
            num: 0,
            failures: 0,
        },
    }
}

fn build() -> Cacher {
    build_with(2, StaleDelay::Duration(Duration::from_secs(1)), true, false)
}

fn build_stale() -> Cacher {
    build_with(1, StaleDelay::AllowStale, true, false)
}

fn build_without_cache() -> Cacher {
    build_with(1, StaleDelay::AllowStale, false, false)
}

fn build_with_no_loader() -> Cacher {
    build_with(2, StaleDelay::Duration(Duration::from_secs(1)), true, true)
}

impl MyData {
    fn load(&mut self) -> Result<u8, LoadError> {
        if self.num == 0 || self.failures >= 1 {
            self.num += 1;
            Ok(self.num)
        } else {
            self.failures += 1;
            Err(LoadError::Other("Falied executing load".to_owned()))
        }
    }
}

impl Cacher {
    /// Runs the updates of some requests, then hands each request what it waited for.
    fn settle(&mut self, lookups: Vec<Lookup<TestLoader>>) -> Vec<ValueForRender<TestLoader>> {
        let mut updates = Vec::new();
        let mut answers = Vec::new();
        for lookup in lookups {
            updates.extend(lookup.update);
            answers.push(lookup.answer);
        }
        for update in updates {
            let res = self.data.load();
            let announcement = self.loader.do_update(update, res);
            let _ = announcement.sender.send(announcement.value);
        }
        answers
            .into_iter()
            .map(|answer| match answer {
                BroadcastOrValue::Value(value) => value,
                BroadcastOrValue::Broadcast {
                    broadcast,
                    stale_cache,
                } => {
                    let reply = broadcast.into_receiver().try_recv().ok();
                    ValueForRender::from_reply(reply, stale_cache)
                }
            })
            .collect()
    }

    fn get_value(&mut self) -> ValueForRender<TestLoader> {
        let lookup = self.loader.get_value(());
        self.settle(vec![lookup]).remove(0)
    }

    fn get_latest_value(&mut self) -> ValueForRender<TestLoader> {
        let lookup = self.loader.get_latest_value(());
        self.settle(vec![lookup]).remove(0)
    }

    fn get_value_allow_stale(&mut self) -> ValueForRender<TestLoader> {
        let result = self.get_value();
        AsyncLoader::get_value_allow_stale(result)
    }

    /// Sends in five requests before any load is run.
    fn burst(&mut self) -> Vec<String> {
        let mut lookups = Vec::new();
        for _ in 0..5 {
            lookups.push(self.loader.get_value(()));
        }
        self.settle(lookups)
            .into_iter()
            .map(|result| match result {
                ValueForRender::Success { value, .. } => value.to_string(),
                ValueForRender::Error { .. } => "error".to_owned(),
            })
            .collect()
    }
}

fn is_success(item: &ValueForRender<TestLoader>) -> bool {
    match item {
        ValueForRender::Success { .. } => true,
        ValueForRender::Error { .. } => false,
    }
}

fn get_success_value(item: &ValueForRender<TestLoader>) -> &u8 {
    match item {
        ValueForRender::Success { value, loaded: _ } => value,
        ValueForRender::Error { .. } => panic!("Cannot get a value from error"),
    }
}

fn sleep(secs: u64) {
    let runtime = tokio::runtime::Builder::new_current_thread()
        .enable_time()
        .build()
        .unwrap();
    let _context = runtime.enter();
    runtime.block_on(tokio::time::sleep(std::time::Duration::from_secs(secs)));
}

#[test]
fn test_reload_happens() {
    let mut cacher = build();
    let item = cacher.get_value();
    assert!(is_success(&item));

    // This tests the UseNoReload case
    sleep(1);
    let item = cacher.get_value();
    assert!(is_success(&item));

    // This tests the UseAndReload case, but the first attempt will be a failure
    sleep(1);
    let item = cacher.get_value();
    assert!(!is_success(&item));

    // Let 1 seconds pass to make the stale value invalid and this
    // time we will get fresh data
    sleep(1);
    let item = cacher.get_value();
    assert!(is_success(&item));
    match item {
        ValueForRender::Success { value, loaded: _ } => {
            assert_eq!(*value, 2, "Got new value in the reload");
        }
        ValueForRender::Error { .. } => panic!("Retry would have succedded"),
    }

    // Let 2 seconds pass so that a fresh value is tried now
    sleep(2);
    let item = cacher.get_value();
    assert!(is_success(&item));
    match item {
        ValueForRender::Success { value, loaded: _ } => {
            assert_eq!(*value, 3, "Got stale value in the reload");
        }
        ValueForRender::Error { .. } => panic!("Retry would have succedded"),
    }
}

#[test]
fn test_staleness() {
    let mut cacher = build_stale();
    let item = cacher.get_value_allow_stale();
    assert_eq!(get_success_value(&item), &1);

    sleep(2);
    let item = cacher.get_value_allow_stale();
    assert_eq!(*get_success_value(&item), 1);

    sleep(2);
    let item = cacher.get_value_allow_stale();
    assert_eq!(*get_success_value(&item), 2);

    sleep(2);
    let item = cacher.get_value_allow_stale();
    assert_eq!(*get_success_value(&item), 3);
}

#[test]
fn test_staleness_in_get_value() {
    let mut cacher = build_stale();
    let item = cacher.get_value();
    assert_eq!(get_success_value(&item), &1);

    sleep(2);
    let item = cacher.get_value();
    assert!(!is_success(&item));

    sleep(2);
    let item = cacher.get_value();
    assert_eq!(*get_success_value(&item), 2);
}

#[test]
fn test_force_reload() {
    let mut cacher = build();
    let item = cacher.get_value();
    assert_eq!(get_success_value(&item), &1);

    let item = cacher.get_latest_value();
    assert!(!is_success(&item));

    let item = cacher.get_latest_value();
    assert_eq!(*get_success_value(&item), 2);

    let item = cacher.get_latest_value();
    assert_eq!(*get_success_value(&item), 3);
}

#[test]
fn forced_reload_keeps_what_went_stale() {
    let mut cacher = build();
    let item = cacher.get_value();
    assert_eq!(get_success_value(&item), &1);

    sleep(4);
    match cacher.get_latest_value() {
        ValueForRender::Error { stale_cache, .. } => {
            assert_eq!(stale_cache.map(|latest| *latest.value), Some(1));
        }
        ValueForRender::Success { .. } => panic!("The load fails"),
    }
}

#[test]
fn test_without_store() {
    let mut cacher = build_without_cache();

    let item = cacher.get_value();
    assert_eq!(get_success_value(&item), &1);

    let item = cacher.get_value();
    assert!(!is_success(&item));

    // Checks that even with the burst of request we get the value
    // 2.  This confirms that all the five task didn't lead
    // to computation of new value.
    let mut index = 0;
    for res in cacher.burst() {
        assert_eq!(res, "2".to_owned());
        index += 1;
    }

    assert_eq!(index, 5, "5 tokio tasks executed");

    sleep(2);
    let item = cacher.get_value();
    assert_eq!(*get_success_value(&item), 3);
}

#[test]
fn test_with_store_disable_loader() {
    let mut cacher = build_with_no_loader();

    let item = cacher.get_value();
    assert_eq!(get_success_value(&item), &1);

    let item = cacher.get_value();
    assert!(!is_success(&item));

    let mut index = 0;
    let possible_result = vec![
        "2".to_owned(),
        "3".to_owned(),
        "4".to_owned(),
        "5".to_owned(),
        "6".to_owned(),
    ];
    let mut actual_result = vec![];
    for res in cacher.burst() {
        actual_result.push(res);
        index += 1;
    }
    actual_result.sort();
    assert_eq!(actual_result, possible_result, "All values were uncached");

    assert_eq!(index, 5, "5 tokio tasks executed");
}
