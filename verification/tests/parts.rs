use async_loader::response::with_cache_control;
use async_loader::text::decimal_text;
use async_loader::{
    AsyncLoader, AsyncLoaderBuilder, AsyncLoaderConfig, BroadcastOrValue, CacheLoader, Duration,
    ErrorResponse, Latest, LoadError, StaleDelay, Update, UseLatest, ValueForRender,
};
use axum::body::Body;
use axum::http::{HeaderMap, HeaderValue, Response};
use axum::response::IntoResponse;
use reqwest::StatusCode;
use std::sync::Arc;
use std::time::Instant;

struct Names;

impl CacheLoader for Names {
    type Key = u64;
    type Output = String;

    fn into_response(output: &String) -> Response<Body> {
        (StatusCode::CREATED, output.clone()).into_response()
    }
}

fn builder(reload_delay: Option<Duration>, stale_delay: StaleDelay) -> AsyncLoaderBuilder {
    AsyncLoaderBuilder {
        reload_delay,
        stale_delay,
        store_cache: true,
        disable_loader: false,
    }
}

fn config() -> AsyncLoaderConfig {
    AsyncLoaderConfig::from(&builder(
        Some(Duration::from_secs(10)),
        StaleDelay::Duration(Duration::from_secs(5)),
    ))
}

fn loader() -> AsyncLoader<Names> {
    builder(
        Some(Duration::from_secs(10)),
        StaleDelay::Duration(Duration::from_secs(5)),
    )
    .build(Names)
}

fn latest(name: &str) -> Latest<Names> {
    Latest {
        loaded: Instant::now(),
        value: Arc::new(name.to_owned()),
    }
}

fn body_text(res: Response<Body>) -> String {
    let runtime = tokio::runtime::Builder::new_current_thread()
        .build()
        .unwrap();
    let bytes = runtime
        .block_on(axum::body::to_bytes(res.into_body(), 1024))
        .unwrap();
    String::from_utf8(bytes.to_vec()).unwrap()
}

fn started(loader: &mut AsyncLoader<Names>, key: u64) -> Update<Names> {
    loader
        .get_value_at(key, Duration::from_secs(0))
        .update
        .unwrap()
}

#[test]
fn durations_carry_and_borrow() {
    let span = Duration::new(1, 1_500_000_000);
    assert_eq!((span.as_secs(), span.subsec_nanos()), (2, 500_000_000));
    let sum = span.checked_add(Duration::new(3, 600_000_000)).unwrap();
    assert_eq!((sum.as_secs(), sum.subsec_nanos()), (6, 100_000_000));
    let rest = sum.checked_sub(Duration::new(2, 200_000_000)).unwrap();
    assert_eq!((rest.as_secs(), rest.subsec_nanos()), (3, 900_000_000));
    assert_eq!(span.checked_sub(span), Some(Duration::from_secs(0)));
    assert_eq!(span.checked_sub(Duration::new(2, 500_000_001)), None);
    assert_eq!(span.checked_sub(Duration::from_secs(3)), None);
}

#[test]
fn durations_end_somewhere() {
    let longest = Duration::new(u64::MAX, 999_999_999);
    assert_eq!(longest.checked_add(Duration::new(0, 1)), None);
    assert_eq!(longest.checked_add(Duration::from_secs(1)), None);
    assert_eq!(longest.checked_add(Duration::from_secs(0)), Some(longest));
}

#[test]
fn durations_compare() {
    assert!(Duration::new(2, 1).exceeds(&Duration::from_secs(2)));
    assert!(Duration::from_secs(3).exceeds(&Duration::new(2, 999_999_999)));
    assert!(!Duration::from_secs(2).exceeds(&Duration::from_secs(2)));
    assert!(!Duration::from_secs(2).exceeds(&Duration::new(2, 1)));
}

#[test]
fn reload_delay_defaults_to_a_minute() {
    let config = AsyncLoaderConfig::from(&builder(None, StaleDelay::default()));
    assert_eq!(config.reload_delay(), Duration::from_secs(60));
    assert_eq!(
        config.reload_and_stale_delay(),
        Some(Duration::from_secs(120))
    );
    assert!(config.store_cache());
    assert!(!config.disable_loader());
}

#[test]
fn stale_delay_comes_on_top() {
    assert_eq!(config().reload_delay(), Duration::from_secs(10));
    assert_eq!(
        config().reload_and_stale_delay(),
        Some(Duration::from_secs(15))
    );
    let config = AsyncLoaderConfig::from(&builder(None, StaleDelay::AllowStale));
    assert_eq!(config.reload_and_stale_delay(), None);
}

#[test]
fn delays_that_overflow_are_found_out() {
    let long = Some(Duration::from_secs(u64::MAX));
    assert!(!builder(long, StaleDelay::Default).can_build());
    assert!(!builder(long, StaleDelay::Duration(Duration::from_secs(1))).can_build());
    assert!(builder(long, StaleDelay::Duration(Duration::new(0, 1))).can_build());
    assert!(builder(long, StaleDelay::AllowStale).can_build());
}

#[test]
fn numbers_in_decimal() {
    assert_eq!(decimal_text(0), "0");
    assert_eq!(decimal_text(10), "10");
    assert_eq!(decimal_text(9_876_543_210), "9876543210");
    assert_eq!(decimal_text(u64::MAX), u64::MAX.to_string());
}

#[test]
fn values_age() {
    let latest = latest("a");
    let label = |age: Duration| latest.can_use_at(&config(), age).label();
    assert_eq!(label(Duration::from_secs(0)), "UseNoReload");
    assert_eq!(label(Duration::from_secs(10)), "UseNoReload");
    assert_eq!(label(Duration::new(10, 1)), "UseAndReload");
    assert_eq!(label(Duration::from_secs(15)), "UseAndReload");
    assert_eq!(label(Duration::new(15, 1)), "StaleValue");
    assert_eq!(latest.can_use(&config()).label(), "UseNoReload");
    assert_eq!(UseLatest::<Names>::NoValue.label(), "NoValue");
}

#[test]
fn values_never_go_stale_if_allowed() {
    let config = AsyncLoaderConfig::from(&builder(None, StaleDelay::AllowStale));
    let used = latest("a").can_use_at(&config, Duration::from_secs(u64::MAX));
    assert_eq!(used.label(), "UseAndReload");
}

#[test]
fn usable_value_is_handed_out_whole() {
    let latest = latest("a");
    match latest.can_use_at(&config(), Duration::from_secs(12)) {
        UseLatest::UseAndReload(ValueForRender::Success { value, loaded }) => {
            assert!(Arc::ptr_eq(&value, &latest.value));
            assert_eq!(loaded, latest.loaded);
        }
        _ => panic!("the value is due for a reload"),
    }
}

#[test]
fn clients_may_keep_a_fresh_response() {
    let res = with_cache_control(
        Names::into_response(&"a".to_owned()),
        &config(),
        Duration::new(2, 500_000_000),
    );
    assert_eq!(res.headers()["cache-control"], "public, max-age=7");
    assert_eq!(res.status(), StatusCode::CREATED);
    assert_eq!(res.headers()["content-type"], "text/plain; charset=utf-8");
    assert_eq!(body_text(res), "a");
}

#[test]
fn clients_may_keep_a_response_until_a_reload_is_due() {
    let respond = |age: Duration| {
        with_cache_control(Names::into_response(&"a".to_owned()), &config(), age)
    };
    let res = respond(Duration::from_secs(0));
    assert_eq!(res.headers()["cache-control"], "public, max-age=10");
    let res = respond(Duration::from_secs(10));
    assert_eq!(res.headers()["cache-control"], "public, max-age=0");
    let res = respond(Duration::new(10, 1));
    assert!(res.headers().get("cache-control").is_none());
}

#[test]
fn cache_header_replaces_what_was_there() {
    let mut headers = HeaderMap::new();
    headers.append("cache-control", HeaderValue::from_static("no-store"));
    headers.append("cache-control", HeaderValue::from_static("private"));
    headers.append("x-name", HeaderValue::from_static("kept"));
    let mut res = "a".into_response();
    *res.headers_mut() = headers;
    let res = with_cache_control(res, &config(), Duration::from_secs(1));
    let values: Vec<&HeaderValue> = res.headers().get_all("cache-control").iter().collect();
    assert_eq!(values, vec!["public, max-age=9"]);
    assert_eq!(res.headers()["x-name"], "kept");
}

#[test]
fn success_is_rendered_by_the_loader() {
    let loader = loader();
    let Latest { value, loaded } = latest("a");
    let res = loader.get_response(ValueForRender::Success { value, loaded });
    assert_eq!(res.status(), StatusCode::CREATED);
    let kept = res.headers()["cache-control"].to_str().unwrap().to_owned();
    assert!(kept == "public, max-age=9" || kept == "public, max-age=10");
    assert_eq!(body_text(res), "a");
}

fn not_found(stale_cache: Option<Latest<Names>>) -> ValueForRender<Names> {
    ValueForRender::Error {
        message: "no such name".into(),
        status: StatusCode::NOT_FOUND,
        stale_cache,
    }
}

#[test]
fn error_is_rendered_as_text() {
    let res = loader().get_response(not_found(Some(latest("a"))));
    assert_eq!(res.status(), StatusCode::NOT_FOUND);
    assert_eq!(res.headers().len(), 1);
    assert_eq!(res.headers()["content-type"], "text/plain; charset=utf-8");
    assert_eq!(body_text(res), "no such name");
}

#[test]
fn stale_value_stands_in_for_an_error() {
    let stale = latest("a");
    match AsyncLoader::get_value_allow_stale(not_found(Some(stale.clone()))) {
        ValueForRender::Success { value, loaded } => {
            assert!(Arc::ptr_eq(&value, &stale.value));
            assert_eq!(loaded, stale.loaded);
        }
        ValueForRender::Error { .. } => panic!("a stale value is at hand"),
    }
    let res = loader().get_response_allow_stale(not_found(Some(stale)));
    assert_eq!(res.status(), StatusCode::CREATED);
    assert_eq!(body_text(res), "a");
    let res = loader().get_response_allow_stale(not_found(None));
    assert_eq!(res.status(), StatusCode::NOT_FOUND);
}

#[test]
fn value_or_error() {
    let fresh = latest("a");
    let success = ValueForRender::<Names>::Success {
        value: fresh.value,
        loaded: fresh.loaded,
    };
    assert_eq!(AsyncLoader::get_value_or_error(success), Ok(Arc::new("a".to_owned())));
    let stale = AsyncLoader::get_value_or_error(not_found(Some(latest("b"))));
    assert_eq!(stale, Ok(Arc::new("b".to_owned())));
    let error = AsyncLoader::get_value_or_error(not_found(None));
    assert_eq!(error, Err("no such name".into()));
}

#[test]
fn clones_are_equal() {
    let latest = latest("a");
    match not_found(Some(latest.clone())).clone() {
        ValueForRender::Error {
            message,
            status,
            stale_cache,
        } => {
            assert_eq!(&*message, "no such name");
            assert_eq!(status, StatusCode::NOT_FOUND);
            assert!(Arc::ptr_eq(&stale_cache.unwrap().value, &latest.value));
        }
        ValueForRender::Success { .. } => panic!("an error was cloned"),
    }
    let error = ErrorResponse {
        status: StatusCode::GONE,
        message: "gone".to_owned(),
    };
    assert_eq!(error.clone().status, StatusCode::GONE);
    assert_eq!(error.clone().to_string(), "gone");
}

fn announced(res: Result<String, LoadError>) -> ValueForRender<Names> {
    let mut loader = loader();
    let update = started(&mut loader, 1);
    loader.do_update(update, res).value
}

#[test]
fn error_response_keeps_its_status() {
    let error = ErrorResponse {
        status: StatusCode::IM_A_TEAPOT,
        message: "short and stout".to_owned(),
    };
    match announced(Err(LoadError::Response(error))) {
        ValueForRender::Error {
            message,
            status,
            stale_cache,
        } => {
            assert_eq!(&*message, "short and stout");
            assert_eq!(status, StatusCode::IM_A_TEAPOT);
            assert!(stale_cache.is_none());
        }
        ValueForRender::Success { .. } => panic!("the load failed"),
    }
}

#[test]
fn other_errors_are_internal() {
    match announced(Err(LoadError::Other("out of names".to_owned()))) {
        ValueForRender::Error {
            message, status, ..
        } => {
            assert_eq!(&*message, "out of names");
            assert_eq!(status, StatusCode::INTERNAL_SERVER_ERROR);
        }
        ValueForRender::Success { .. } => panic!("the load failed"),
    }
}

#[test]
fn missing_reply_is_an_internal_error() {
    match ValueForRender::from_reply(None, Some(latest("a"))) {
        ValueForRender::Error {
            message,
            status,
            stale_cache,
        } => {
            assert_eq!(
                &*message,
                "Internal error detected: broadcast channel is gone"
            );
            assert_eq!(status, StatusCode::INTERNAL_SERVER_ERROR);
            assert_eq!(*stale_cache.unwrap().value, "a");
        }
        ValueForRender::Success { .. } => panic!("no reply came"),
    }
}

#[test]
fn reply_is_passed_on() {
    match ValueForRender::from_reply(Some(not_found(None)), Some(latest("a"))) {
        ValueForRender::Error {
            status,
            stale_cache,
            ..
        } => {
            assert_eq!(status, StatusCode::NOT_FOUND);
            assert!(stale_cache.is_none());
        }
        ValueForRender::Success { .. } => panic!("the reply is an error"),
    }
}

#[test]
fn metrics_count_keys() {
    let mut loader = loader();
    assert_eq!(loader.inner.metrics().length(), 0);
    started(&mut loader, 1);
    started(&mut loader, 2);
    loader.get_value(1);
    let metric = loader.inner.metrics();
    assert_eq!(metric.length(), 2);
    assert!(metric.capacity() >= 2);
    assert_eq!(loader.inner.metrics_at(7).capacity(), 7);
}

#[test]
fn answers_have_labels() {
    let mut loader = loader();
    let lookup = loader.get_value(1);
    assert_eq!(lookup.answer.label(), "Broadcast");
    loader.do_update(lookup.update.unwrap(), Ok("a".to_owned()));
    let lookup = loader.get_value(1);
    assert_eq!(lookup.answer.label(), "value");
    match lookup.answer {
        BroadcastOrValue::Value(ValueForRender::Success { value, .. }) => assert_eq!(*value, "a"),
        _ => panic!("the value was just loaded"),
    }
}
