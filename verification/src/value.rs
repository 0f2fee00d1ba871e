//! Loaded values, and what is handed out of them.
use crate::clock::{elapsed, may_be_age};
use crate::config::AsyncLoaderConfig;
use crate::duration::Duration;
use crate::response::{
    header_values, internal_server_error, into_text_response, is_cached_response,
    response_headers, response_status, status_number, text_response, with_cache_control,
};
use crate::text::{share, shared_text};
use axum::body::Body;
use axum::http::Response;
use reqwest::StatusCode;
use std::sync::Arc;
use std::time::Instant;
use vstd::prelude::*;
use vstd::utf8::encode_utf8;

verus! {

/// What is loaded, and under which keys.
///
/// The load itself is left to whoever drives the loader: it is handed an
/// [`Update`](crate::Update) to run, and hands back the outcome.
pub trait CacheLoader: Send + Sync + 'static {
    type Key: std::hash::Hash + Eq + Clone + Send + Sync + 'static;

    type Output: Send + Sync + 'static;

    /// Convert the [Self::Output] value into a [Response].
    fn into_response(output: &Self::Output) -> Response<Body>;
}

/// A value that was loaded.
pub struct Latest<Loader: CacheLoader> {
    /// When was this value loaded? Used for cache calculations
    pub loaded: Instant,
    pub value: Arc<Loader::Output>,
}

impl<Loader: CacheLoader> Clone for Latest<Loader> {
    fn clone(&self) -> (res: Self)
        ensures
            res == *self,
    {
        Latest { loaded: self.loaded, value: share(&self.value) }
    }
}

/// Can we use the latest value?
pub enum UseLatest<Loader: CacheLoader> {
    /// No value found, or the value found was too old
    NoValue,
    /// Value found, but it's stale and shouldn't be used unless explicitly looking for stale values
    StaleValue(Latest<Loader>),
    /// We can use a value, but we should start reloading for a fresher cache
    UseAndReload(ValueForRender<Loader>),
    /// Value is recent enough, no reloading required
    UseNoReload(ValueForRender<Loader>),
}

/// What a request for a value is answered.
pub enum ValueForRender<Loader: CacheLoader> {
    /// Value was loaded successfully
    Success { value: Arc<Loader::Output>, loaded: Instant },
    /// Error while loading the value
    Error {
        message: Arc<str>,
        status: StatusCode,
        /// If there's a cached value available that's considered stale, provide it here.
        stale_cache: Option<Latest<Loader>>,
    },
}

/// An error that says with what response to answer.
#[derive(Debug)]
pub struct ErrorResponse {
    pub status: StatusCode,
    pub message: String,
}

impl Clone for ErrorResponse {
    fn clone(&self) -> (res: Self)
        ensures
            res == *self,
    {
        ErrorResponse { status: self.status, message: self.message.clone() }
    }
}

impl ErrorResponse {
    /// The text of the error: its message.
    pub fn to_string(&self) -> (text: String)
        ensures
            text@ == self.message@,
    {
        self.message.clone()
    }
}

/// Why a load failed.
pub enum LoadError {
    /// The loader says with what response to answer.
    Response(ErrorResponse),
    /// Any other error, by its text.
    Other(String),
}

impl<Loader: CacheLoader> UseLatest<Loader> {
    /// The name of the case.
    pub fn label(&self) -> (label: &'static str)
        ensures
            label@ == match self {
                UseLatest::NoValue => "NoValue"@,
                UseLatest::StaleValue(_) => "StaleValue"@,
                UseLatest::UseAndReload(_) => "UseAndReload"@,
                UseLatest::UseNoReload(_) => "UseNoReload"@,
            },
    {
        match self {
            UseLatest::NoValue => "NoValue",
            UseLatest::StaleValue(_) => "StaleValue",
            UseLatest::UseAndReload(_) => "UseAndReload",
            UseLatest::UseNoReload(_) => "UseNoReload",
        }
    }
}

impl<Loader: CacheLoader> Latest<Loader> {
    /// The value, as it is handed out.
    pub open spec fn rendered(self) -> ValueForRender<Loader> {
        ValueForRender::Success { value: self.value, loaded: self.loaded }
    }

    /// What a value of age `age` nanoseconds is good for.
    pub open spec fn usability(self, config: AsyncLoaderConfig, age: nat) -> UseLatest<Loader> {
        if config.limit_nanos() matches Some(limit) && age > limit {
            UseLatest::StaleValue(self)
        } else if age > config.reload_nanos() {
            UseLatest::UseAndReload(self.rendered())
        } else {
            UseLatest::UseNoReload(self.rendered())
        }
    }

    /// Check whether we're allowed to use this value given how much time has passed.
    ///
    /// How much that is, the clock says, from the time when the value was loaded.
    pub fn can_use(&self, config: &AsyncLoaderConfig) -> (use_latest: UseLatest<Loader>)
        ensures
            exists|age: nat|
                may_be_age(self.loaded, age) && use_latest == #[trigger] self.usability(
                    *config,
                    age,
                ),
    {
        let age = elapsed(&self.loaded);
        self.can_use_at(config, age)
    }

    /// Check whether we're allowed to use this value, given that `age` has passed since it was
    /// loaded.
    pub fn can_use_at(&self, config: &AsyncLoaderConfig, age: Duration) -> (use_latest: UseLatest<
        Loader,
    >)
        ensures
            use_latest == self.usability(*config, age@),
    {
        if let Some(delay) = config.reload_and_stale_delay() {
            if age.exceeds(&delay) {
                // Too old, return no value or the stale value
                return UseLatest::StaleValue(self.clone());
            }
        }
        // We can use the value, but determine whether we need to refresh the cache
        if age.exceeds(&config.reload_delay()) {
            UseLatest::UseAndReload(
                ValueForRender::Success { value: share(&self.value), loaded: self.loaded },
            )
        } else {
            UseLatest::UseNoReload(
                ValueForRender::Success { value: share(&self.value), loaded: self.loaded },
            )
        }
    }
}

impl<Loader: CacheLoader> Clone for ValueForRender<Loader> {
    fn clone(&self) -> (res: Self)
        ensures
            res == *self,
    {
        match self {
            ValueForRender::Success { value, loaded } => ValueForRender::Success {
                value: share(value),
                loaded: *loaded,
            },
            ValueForRender::Error { message, status, stale_cache } => ValueForRender::Error {
                message: share(message),
                status: *status,
                stale_cache: stale_cache.clone(),
            },
        }
    }
}

impl<Loader: CacheLoader> ValueForRender<Loader> {
    /// Whether this is an error with a given message and status, and a given value to fall back on.
    pub open spec fn is_error(
        self,
        message: Seq<char>,
        status: StatusCode,
        stale_cache: Option<Latest<Loader>>,
    ) -> bool {
        self matches ValueForRender::Error { message: m, status: s, stale_cache: c } && (*m)@
            == message && s == status && c == stale_cache
    }

    /// Whether this is an internal error of the server, with a given message and a given value to
    /// fall back on.
    pub open spec fn is_internal_error(
        self,
        message: Seq<char>,
        stale_cache: Option<Latest<Loader>>,
    ) -> bool {
        self matches ValueForRender::Error { message: m, status: s, stale_cache: c } && (*m)@
            == message && status_number(s) == 500 && c == stale_cache
    }

    /// The value that is handed out: the one that was loaded, or else the one to fall back on.
    pub open spec fn latest(self) -> Option<Latest<Loader>> {
        match self {
            ValueForRender::Success { value, loaded } => Some(Latest { loaded, value }),
            ValueForRender::Error { message: _, status: _, stale_cache } => stale_cache,
        }
    }

    /// What is handed out when a stale value will do.
    pub open spec fn allow_stale(self) -> Self {
        match self.latest() {
            Some(latest) => latest.rendered(),
            None => self,
        }
    }

    /// The value that is handed out: the one that was loaded, or else the one to fall back on.
    pub(crate) fn as_latest(&self) -> (latest: Option<Latest<Loader>>)
        ensures
            latest == self.latest(),
    {
        match self {
            ValueForRender::Success { value, loaded } => Some(
                Latest { value: share(value), loaded: *loaded },
            ),
            ValueForRender::Error { message: _, status: _, stale_cache } => stale_cache.clone(),
        }
    }

    /// Whether this is what the outcome `res` of a load, read at `loaded`, is announced as:
    /// the value, or an error with `stale_cache` to fall back on. An error that says with what
    /// response to answer keeps its status; any other is an internal error of the server.
    pub open spec fn renders(
        self,
        res: Result<Loader::Output, LoadError>,
        stale_cache: Option<Latest<Loader>>,
        loaded: Instant,
    ) -> bool {
        match res {
            Ok(value) => self matches ValueForRender::Success { value: v, loaded: l } && *v == value
                && l == loaded,
            Err(LoadError::Response(err)) => self.is_error(err.message@, err.status, stale_cache),
            Err(LoadError::Other(text)) => self.is_internal_error(text@, stale_cache),
        }
    }

    /// What the outcome `res` of a load, read at `loaded`, is announced as.
    pub(crate) fn from_load(
        res: Result<Arc<Loader::Output>, LoadError>,
        stale_cache: Option<Latest<Loader>>,
        loaded: Instant,
    ) -> (value: Self)
        ensures
            value.renders(
                match res {
                    Ok(value) => Ok(*value),
                    Err(err) => Err(err),
                },
                stale_cache,
                loaded,
            ),
    {
        match res {
            Ok(value) => ValueForRender::Success { value, loaded },
            Err(err) => {
                let (message, status) = match err {
                    LoadError::Response(ErrorResponse { status, message }) => (message, status),
                    LoadError::Other(text) => (text, internal_server_error()),
                };
                ValueForRender::Error { message: shared_text(message), status, stale_cache }
            },
        }
    }

    /// What a request that waited gets: the reply, or an error if the channel closed without one.
    ///
    /// This should never happen, it indicates a bug in the code. It may occur if the loader itself
    /// panics.
    pub fn from_reply(reply: Option<Self>, stale_cache: Option<Latest<Loader>>) -> (value: Self)
        ensures
            match reply {
                Some(reply) => value == reply,
                None => value.is_internal_error(
                    "Internal error detected: broadcast channel is gone"@,
                    stale_cache,
                ),
            },
    {
        match reply {
            // Success!
            Some(value) => value,
            None => ValueForRender::Error {
                message: shared_text(
                    "Internal error detected: broadcast channel is gone".to_owned(),
                ),
                status: internal_server_error(),
                stale_cache,
            },
        }
    }

    /// Whether `res` is a response to a request that came to this.
    ///
    /// A value is answered with the response that the loader makes of it, which clients may keep
    /// until a reload is due; how old the value is by then, the clock says, from the time when it
    /// was loaded. An error is answered with its status and its message.
    pub open spec fn answered_by(self, config: AsyncLoaderConfig, res: Response<Body>) -> bool {
        match self {
            ValueForRender::Success { value, loaded } => exists|base: Response<Body>, age: nat|
                may_be_age(loaded, age) && call_ensures(Loader::into_response, (&*value,), base)
                    && #[trigger] is_cached_response(base, config.reload_nanos(), age, res),
            ValueForRender::Error { message, status, stale_cache: _ } => {
                &&& res == text_response(status, (*message)@)
                &&& response_status(res) == status
                &&& header_values(response_headers(res)) == map![
                    "content-type"@ => seq![encode_utf8("text/plain; charset=utf-8"@)]
                ]
            },
        }
    }

    /// Convert into a response
    ///
    /// Handles all the details of cache headers, status codes, and content-type.
    pub fn into_response(self, config: &AsyncLoaderConfig) -> (res: Response<Body>)
        ensures
            self.answered_by(*config, res),
    {
        match self {
            ValueForRender::Success { value, loaded } => {
                let res = Loader::into_response(&*value);
                with_cache_control(res, config, elapsed(&loaded))
            },
            ValueForRender::Error { message, status, stale_cache: _ } => into_text_response(
                status,
                (*message).to_owned(),
            ),
        }
    }
}

} // verus!
