//! The cache, and the decisions on when to load, when to wait and what to answer.
use crate::channel::{channel, clone_sender, subscribe, Subscription};
use crate::clock::{elapsed, may_be_age, may_be_readings, place_of, readings};
use crate::config::{AsyncLoaderBuilder, AsyncLoaderConfig};
use crate::duration::Duration;
use crate::text::share;
use crate::value::{CacheLoader, Latest, LoadError, UseLatest, ValueForRender};
use axum::body::Body;
use axum::http::Response;
use std::collections::HashMap;
use std::sync::Arc;
use std::time::Instant;
use tokio::sync::broadcast::Sender;
use vstd::prelude::*;
use vstd::std_specs::hash::obeys_key_model;

verus! {

/// We're only ever going to broadcast a single message, so 1 is fine.
pub const BROADCAST_CAPACITY: usize = 1;

/// What is known under one key.
#[verifier::reject_recursive_types(Loader)]
pub struct InnerMut<Loader: CacheLoader> {
    /// The latest value loaded, if available.
    pub latest: Option<Latest<Loader>>,
    /// The channel on which the newest update will be announced.
    ///
    /// Only set if there is currently an update occurring.
    pub broadcast: Option<Sender<ValueForRender<Loader>>>,
}

/// What a request gets at once: an answer, or a channel to wait on.
#[verifier::reject_recursive_types(Loader)]
pub enum BroadcastOrValue<Loader: CacheLoader> {
    Broadcast {
        broadcast: Subscription<ValueForRender<Loader>>,
        stale_cache: Option<Latest<Loader>>,
    },
    Value(ValueForRender<Loader>),
}

/// A load to run, for all who wait on one channel.
#[verifier::reject_recursive_types(Loader)]
pub struct Update<Loader: CacheLoader> {
    /// What to load.
    pub key: Loader::Key,
    /// Where to announce the outcome.
    pub sender: Sender<ValueForRender<Loader>>,
    /// What to fall back on if the load fails.
    pub stale_cache: Option<Latest<Loader>>,
}

/// What a request comes to: what it gets at once, and the update to run, if it starts one.
#[verifier::reject_recursive_types(Loader)]
pub struct Lookup<Loader: CacheLoader> {
    pub answer: BroadcastOrValue<Loader>,
    pub update: Option<Update<Loader>>,
}

/// The outcome of an update, to be sent to all who wait for it.
#[verifier::reject_recursive_types(Loader)]
pub struct Announcement<Loader: CacheLoader> {
    pub sender: Sender<ValueForRender<Loader>>,
    pub value: ValueForRender<Loader>,
}

/// Sizes of a loader's storage.
#[derive(Clone, Copy, Debug)]
pub struct LoaderMetric {
    length: usize,
    capacity: usize,
}

/// The storage of a loader.
#[verifier::reject_recursive_types(Loader)]
pub struct Inner<Loader: CacheLoader> {
    /// Mutable pieces of the inner storage, per key
    per_key: HashMap<Loader::Key, InnerMut<Loader>>,
    pub config: AsyncLoaderConfig,
    /// Actual value used for loading new values
    loader: Loader,
}

/// Provides access to a cached value with automatic reload.
#[verifier::reject_recursive_types(Loader)]
pub struct AsyncLoader<Loader: CacheLoader> {
    pub inner: Inner<Loader>,
}

/// Whether a value of age `age` is too old to be handed out.
pub open spec fn too_old(config: AsyncLoaderConfig, age: nat) -> bool {
    config.limit_nanos() matches Some(limit) && age > limit
}

impl<Loader: CacheLoader> InnerMut<Loader> {
    /// Nothing is known.
    pub open spec fn empty() -> Self {
        InnerMut { latest: None, broadcast: None }
    }

    /// Whether `age` is what the clock may say of the value's age; zero stands for no value.
    pub open spec fn may_have_age(self, age: nat) -> bool {
        match self.latest {
            Some(latest) => may_be_age(latest.loaded, age),
            None => age == 0,
        }
    }

    /// What a request has to fall back on: the value that it finds, except that a forced reload
    /// falls back only on one that is stale.
    pub open spec fn fallback(
        self,
        config: AsyncLoaderConfig,
        force_reload: bool,
        age: nat,
    ) -> Option<Latest<Loader>> {
        if force_reload && !too_old(config, age) {
            None
        } else {
            self.latest
        }
    }

    /// Whether a request finds a value that it may be answered with: one that is not too old, if
    /// no reload is forced.
    pub open spec fn usable(self, config: AsyncLoaderConfig, force_reload: bool, age: nat) -> bool {
        !force_reload && self.latest is Some && !too_old(config, age)
    }

    /// Whether a request finds a value that is not even due for a reload.
    pub open spec fn fresh(self, config: AsyncLoaderConfig, force_reload: bool, age: nat) -> bool {
        self.usable(config, force_reload, age) && age <= config.reload_nanos()
    }

    /// Whether a request that finds `self`, with a value of age `age`, leaves `after` behind, gets
    /// `answer`, and starts the update `started`.
    ///
    /// An update starts when the value is not fresh and none is under way. A fresh value is the
    /// answer, and so is a usable one while an update is under way; all else waits for the update.
    pub open spec fn looked_up(
        self,
        config: AsyncLoaderConfig,
        force_reload: bool,
        age: nat,
        after: Self,
        answer: BroadcastOrValue<Loader>,
        started: Option<(Sender<ValueForRender<Loader>>, Option<Latest<Loader>>)>,
    ) -> bool {
        let fallback = self.fallback(config, force_reload, age);
        let usable = self.usable(config, force_reload, age);
        let fresh = self.fresh(config, force_reload, age);
        &&& after.latest == self.latest
        &&& match started {
            Some((sender, stale_cache)) => !fresh && self.broadcast is None && after.broadcast
                == Some(sender) && stale_cache == fallback,
            None => (fresh || self.broadcast is Some) && after.broadcast == self.broadcast,
        }
        &&& if fresh || (usable && self.broadcast is Some) {
            answer == BroadcastOrValue::Value(self.latest->0.rendered())
        } else {
            answer matches BroadcastOrValue::Broadcast { broadcast, stale_cache }
                && after.broadcast == Some(broadcast.channel()) && stale_cache == fallback && (
            started is Some ==> broadcast.room() == BROADCAST_CAPACITY)
        }
    }

    /// Answers a request that finds `self`, with a value of age `age`, if there is one.
    fn get_broadcast_or_value(
        &mut self,
        config: &AsyncLoaderConfig,
        force_reload: bool,
        age: Duration,
    ) -> (res: (
        BroadcastOrValue<Loader>,
        Option<(Sender<ValueForRender<Loader>>, Option<Latest<Loader>>)>,
    ))
        ensures
            old(self).looked_up(*config, force_reload, age@, *final(self), res.0, res.1),
    {
        // Check if the latest value can be used or not
        let use_latest = match &self.latest {
            None => UseLatest::NoValue,
            Some(latest) => latest.can_use_at(config, age),
        };
        let use_latest = if force_reload {
            match use_latest {
                // Still at hand if loading fails
                UseLatest::StaleValue(value) => UseLatest::StaleValue(value),
                _ => UseLatest::NoValue,
            }
        } else {
            use_latest
        };

        let (value, stale_cache) = match use_latest {
            // Need to start a new loader task, _and_ need to wait for it
            UseLatest::NoValue => (None, None),
            // Need to start a new loader task, and can only provide a stale value if loading fails
            UseLatest::StaleValue(value) => (None, Some(value)),
            // Need a loader task, but use this value
            UseLatest::UseAndReload(value) => {
                // Future updates might fail, so it is essential that
                // we propagate the proper stale_cache value here
                let stale_cache = value.as_latest();
                (Some(value), stale_cache)
            },
            // Recent enough, just return the value
            UseLatest::UseNoReload(value) => return (BroadcastOrValue::Value(value), None),
        };

        // Since we got this far, we need a loader task. Check if one is already running.
        match &self.broadcast {
            // Already have a task running, either return the value or subscribe
            // for an update.
            Some(broadcast) => match value {
                Some(value) => (BroadcastOrValue::Value(value), None),
                None => {
                    let broadcast = subscribe(broadcast);
                    (BroadcastOrValue::Broadcast { broadcast, stale_cache }, None)
                },
            },
            // No task running, so have one started and track it.
            None => {
                let (sender, broadcast) = channel(BROADCAST_CAPACITY);
                self.broadcast = Some(clone_sender(&sender));
                let started = (sender, stale_cache.clone());
                (BroadcastOrValue::Broadcast { broadcast, stale_cache }, Some(started))
            },
        }
    }
}

impl LoaderMetric {
    /// How many keys are stored.
    pub closed spec fn length_of(&self) -> usize {
        self.length
    }

    /// How many keys there is room for.
    pub closed spec fn capacity_of(&self) -> usize {
        self.capacity
    }

    /// How many keys are stored.
    pub fn length(&self) -> (length: usize)
        ensures
            length == self.length_of(),
    {
        self.length
    }

    /// How many keys there is room for.
    pub fn capacity(&self) -> (capacity: usize)
        ensures
            capacity == self.capacity_of(),
    {
        self.capacity
    }
}

/// Calls `HashMap::capacity`: how many keys the map can hold, which is no less than it does hold.
/// How much room an allocation gave beyond that is open.
#[verifier::external_body]
fn capacity<Key, Value>(map: &HashMap<Key, Value>) -> (room: usize)
    ensures
        map.len() <= room,
{
    map.capacity()
}

impl<Loader: CacheLoader> BroadcastOrValue<Loader> {
    /// The name of the case.
    pub fn label(&self) -> (label: &'static str)
        ensures
            label@ == match self {
                BroadcastOrValue::Broadcast { .. } => "Broadcast"@,
                BroadcastOrValue::Value(_) => "value"@,
            },
    {
        match self {
            BroadcastOrValue::Broadcast { broadcast: _, stale_cache: _ } => "Broadcast",
            BroadcastOrValue::Value(_) => "value",
        }
    }
}

/// Whether keys can be told apart in a hash map: hashing and `==` agree with equality, and a clone
/// equals what it was made from.
pub open spec fn keys_behave<Key: Clone>() -> bool {
    &&& obeys_key_model::<Key>()
    &&& forall|a: Key, b: Key| #[trigger] cloned(a, b) ==> a == b
}

/// What is known under `key`.
pub open spec fn slot_of<Loader: CacheLoader>(
    slots: Map<Loader::Key, InnerMut<Loader>>,
    key: Loader::Key,
) -> InnerMut<Loader> {
    if slots.contains_key(key) {
        slots[key]
    } else {
        InnerMut::empty()
    }
}

impl<Loader: CacheLoader> Inner<Loader> {
    /// What is known under each key.
    pub closed spec fn slots(&self) -> Map<Loader::Key, InnerMut<Loader>> {
        self.per_key@
    }

    /// The settings.
    pub closed spec fn settings(&self) -> AsyncLoaderConfig {
        self.config
    }

    /// The value used for loading.
    pub closed spec fn source(&self) -> Loader {
        self.loader
    }

    /// How many keys the storage holds, by `HashMap::len`.
    pub closed spec fn key_count(&self) -> usize {
        self.per_key.len()
    }

    /// Whether `room` is a number of keys for which `HashMap::capacity` may say there is room.
    pub closed spec fn may_have_room(&self, room: usize) -> bool {
        call_ensures(capacity::<Loader::Key, InnerMut<Loader>>, (&self.per_key,), room)
    }

    /// How much room there may be is what `HashMap::capacity` gives, and no less than is in use.
    proof fn law_room_is_what_capacity_gives(&self, room: usize)
        ensures
            self.may_have_room(room) <==> call_ensures(
                capacity::<Loader::Key, InnerMut<Loader>>,
                (&self.per_key,),
                room,
            ),
            self.may_have_room(room) ==> self.per_key.len() <= room,
    {
    }

    /// Sizes of the storage: how many keys it holds, and how many it has room for.
    ///
    /// How much room there is, is up to the allocator.
    pub fn metrics(&self) -> (metric: LoaderMetric)
        ensures
            metric.length_of() == self.key_count(),
            keys_behave::<Loader::Key>() ==> metric.length_of() == self.slots().len(),
            self.may_have_room(metric.capacity_of()),
            metric.length_of() <= metric.capacity_of(),
    {
        let room: usize = capacity(&self.per_key);
        proof {
            self.law_room_is_what_capacity_gives(room);
        }
        self.metrics_at(room)
    }

    /// Sizes of the storage, given that it has room for `capacity` keys.
    pub fn metrics_at(&self, capacity: usize) -> (metric: LoaderMetric)
        ensures
            metric.length_of() == self.key_count(),
            keys_behave::<Loader::Key>() ==> metric.length_of() == self.slots().len(),
            metric.capacity_of() == capacity,
    {
        let length: usize = self.per_key.len();
        LoaderMetric { length, capacity }
    }

    /// The value used for loading.
    pub fn loader(&self) -> (loader: &Loader)
        ensures
            *loader == self.source(),
    {
        &self.loader
    }

    /// What is known under `key`, as a place to change; a new key starts with nothing known.
    fn get_slot_by_key(&mut self, key: Loader::Key) -> (slot: &mut InnerMut<Loader>)
        ensures
            keys_behave::<Loader::Key>() ==> {
                &&& *slot == slot_of(old(self).slots(), key)
                &&& final(self).slots() == old(self).slots().insert(key, *final(slot))
            },
            final(self).settings() == old(self).settings(),
            final(self).source() == old(self).source(),
    {
        self.per_key.entry(key).or_insert(InnerMut { latest: None, broadcast: None })
    }
}

/// The channel and the value to fall back on of an update, if there is one.
pub open spec fn started<Loader: CacheLoader>(update: Option<Update<Loader>>) -> Option<
    (Sender<ValueForRender<Loader>>, Option<Latest<Loader>>),
> {
    match update {
        Some(update) => Some((update.sender, update.stale_cache)),
        None => None,
    }
}

/// Whether a request under `key`, where a value there has the age `age`, turns what is known from
/// `before` into `after` and comes to `lookup`. Nothing changes under any other key.
pub open spec fn is_lookup<Loader: CacheLoader>(
    before: Map<Loader::Key, InnerMut<Loader>>,
    config: AsyncLoaderConfig,
    key: Loader::Key,
    force_reload: bool,
    age: nat,
    after: Map<Loader::Key, InnerMut<Loader>>,
    lookup: Lookup<Loader>,
) -> bool {
    &&& after == before.insert(key, slot_of(after, key))
    &&& slot_of(before, key).looked_up(
        config,
        force_reload,
        age,
        slot_of(after, key),
        lookup.answer,
        started(lookup.update),
    )
    &&& lookup.update matches Some(update) ==> update.key == key
}

impl<Loader: CacheLoader> Lookup<Loader> {
    /// Whether the update, if the request under `key` starts one, is for that key, and is the one
    /// that the request waits for, with the same value to fall back on.
    pub open spec fn waits_for_its_update(self, key: Loader::Key) -> bool {
        self.update matches Some(update) ==> {
            &&& update.key == key
            &&& self.answer matches BroadcastOrValue::Broadcast { broadcast, stale_cache }
            &&& broadcast.channel() == update.sender
            &&& broadcast.room() == BROADCAST_CAPACITY
            &&& stale_cache == update.stale_cache
        }
    }
}

/// Whether `lookup` is a load for one request alone, with nothing to fall back on.
pub open spec fn is_new_broadcast<Loader: CacheLoader>(
    key: Loader::Key,
    lookup: Lookup<Loader>,
) -> bool {
    &&& lookup.update matches Some(update)
    &&& update.key == key
    &&& update.stale_cache is None
    &&& lookup.answer matches BroadcastOrValue::Broadcast { broadcast, stale_cache }
    &&& broadcast.channel() == update.sender
    &&& broadcast.room() == BROADCAST_CAPACITY
    &&& stale_cache is None
}

/// Whether a request for a value under `key`, where a value there has the age `age`, turns what is
/// known from `before` into `after` and comes to `lookup`.
pub open spec fn is_request<Loader: CacheLoader>(
    before: Map<Loader::Key, InnerMut<Loader>>,
    config: AsyncLoaderConfig,
    key: Loader::Key,
    force_reload: bool,
    age: nat,
    after: Map<Loader::Key, InnerMut<Loader>>,
    lookup: Lookup<Loader>,
) -> bool {
    if config.loads_always() {
        after == before && is_new_broadcast(key, lookup)
    } else {
        is_lookup(before, config, key, force_reload, age, after, lookup)
    }
}

/// Whether the outcome `res` of a load, taken in at `stored_at`, turns what is known under its key
/// from `before` into `after`: no update is under way any more, and a loaded value replaces the
/// one before.
pub open spec fn is_stored<Loader: CacheLoader>(
    before: InnerMut<Loader>,
    res: Result<Loader::Output, LoadError>,
    stored_at: Instant,
    after: InnerMut<Loader>,
) -> bool {
    &&& after.broadcast is None
    &&& match res {
        Ok(value) => after.latest matches Some(latest) && *latest.value == value && latest.loaded
            == stored_at,
        Err(_) => after.latest == before.latest,
    }
}

/// Whether the outcome `res` of an update turns what is known from `before` into `after` and is
/// announced by `announcement`. Nothing changes under any other key.
pub open spec fn is_update<Loader: CacheLoader>(
    before: Map<Loader::Key, InnerMut<Loader>>,
    config: AsyncLoaderConfig,
    update: Update<Loader>,
    res: Result<Loader::Output, LoadError>,
    stored_at: Instant,
    announced_at: Instant,
    after: Map<Loader::Key, InnerMut<Loader>>,
    announcement: Announcement<Loader>,
) -> bool {
    &&& if config.stores() {
        &&& after == before.insert(update.key, slot_of(after, update.key))
        &&& is_stored(slot_of(before, update.key), res, stored_at, slot_of(after, update.key))
    } else {
        after == before.remove(update.key)
    }
    &&& announcement.sender == update.sender
    &&& announcement.value.renders(res, update.stale_cache, announced_at)
}

/// Whether the loss of the update under `key` turns what is known from `before` into `after`: no
/// update is under way any more, the value stays, and a loader that does not store drops a key with
/// nothing known. Nothing changes under any other key.
pub open spec fn is_lost<Loader: CacheLoader>(
    before: Map<Loader::Key, InnerMut<Loader>>,
    config: AsyncLoaderConfig,
    key: Loader::Key,
    after: Map<Loader::Key, InnerMut<Loader>>,
) -> bool {
    if before.contains_key(key) && (config.stores() || before[key].latest is Some) {
        after == before.insert(key, InnerMut { latest: before[key].latest, broadcast: None })
    } else {
        after == before.remove(key)
    }
}

impl AsyncLoaderBuilder {
    /// A loader with these settings, which knows nothing yet.
    pub fn build<Loader: CacheLoader>(&self, loader: Loader) -> (res: AsyncLoader<Loader>)
        requires
            self.delays_fit(),
        ensures
            res.inner.settings().follows(self),
            res.inner.source() == loader,
            res.inner.slots() == Map::<Loader::Key, InnerMut<Loader>>::empty(),
    {
        AsyncLoader {
            inner: Inner {
                per_key: HashMap::new(),
                config: AsyncLoaderConfig::from(self),
                loader,
            },
        }
    }
}

impl<Loader: CacheLoader> AsyncLoader<Loader> {
    /// The settings of the loader, and the value used for loading, stay as they are.
    pub open spec fn same_settings(&self, other: &Self) -> bool {
        &&& self.inner.settings() == other.inner.settings()
        &&& self.inner.source() == other.inner.source()
    }

    /// Whether a request under `key` leaves what is known alone and loads for itself, if every
    /// request does.
    pub open spec fn loads_if_always(
        before: &Self,
        key: Loader::Key,
        after: &Self,
        lookup: Lookup<Loader>,
    ) -> bool {
        before.inner.settings().loads_always() ==> after.inner.slots() == before.inner.slots()
            && is_new_broadcast(key, lookup)
    }

    /// Get the underlying value and how old it is.
    ///
    /// This is the part before the wait, if there is one: see [`ValueForRender::from_reply`] for
    /// the part after it. How old the value is, the clock says, from the time when it was loaded.
    pub fn get_value(&mut self, key: Loader::Key) -> (lookup: Lookup<Loader>)
        ensures
            keys_behave::<Loader::Key>() ==> exists|age: nat|
                slot_of(old(self).inner.slots(), key).may_have_age(age) && #[trigger] is_request(
                    old(self).inner.slots(),
                    old(self).inner.settings(),
                    key,
                    false,
                    age,
                    final(self).inner.slots(),
                    lookup,
                ),
            Self::loads_if_always(old(self), key, final(self), lookup),
            lookup.waits_for_its_update(key),
            final(self).same_settings(old(self)),
    {
        let age = self.age_of(&key);
        self.get_value_at(key, age)
    }

    /// Get the underlying value, given that `age` has passed since it was loaded.
    pub fn get_value_at(&mut self, key: Loader::Key, age: Duration) -> (lookup: Lookup<Loader>)
        ensures
            keys_behave::<Loader::Key>() ==> is_request(
                old(self).inner.slots(),
                old(self).inner.settings(),
                key,
                false,
                age@,
                final(self).inner.slots(),
                lookup,
            ),
            Self::loads_if_always(old(self), key, final(self), lookup),
            lookup.waits_for_its_update(key),
            final(self).same_settings(old(self)),
    {
        // Get either the current value or a channel to wait for values on.
        if self.get_cacher_config().disable_loader() {
            self.new_broadcast(key)
        } else {
            self.get_broadcast_or_value(key, false, age)
        }
    }

    /// Get the underlying value, but fetch it newly this time
    ///
    /// This is the part before the wait: see [`ValueForRender::from_reply`] for the part after it.
    /// How old the value before it is, the clock says, from the time when it was loaded.
    pub fn get_latest_value(&mut self, key: Loader::Key) -> (lookup: Lookup<Loader>)
        ensures
            keys_behave::<Loader::Key>() ==> exists|age: nat|
                slot_of(old(self).inner.slots(), key).may_have_age(age) && #[trigger] is_request(
                    old(self).inner.slots(),
                    old(self).inner.settings(),
                    key,
                    true,
                    age,
                    final(self).inner.slots(),
                    lookup,
                ),
            Self::loads_if_always(old(self), key, final(self), lookup),
            lookup.waits_for_its_update(key),
            lookup.answer is Broadcast,
            final(self).same_settings(old(self)),
    {
        let age = self.age_of(&key);
        self.get_latest_value_at(key, age)
    }

    /// Get the underlying value, but fetch it newly this time, given that `age` has passed since
    /// the one before it was loaded.
    pub fn get_latest_value_at(&mut self, key: Loader::Key, age: Duration) -> (lookup: Lookup<
        Loader,
    >)
        ensures
            keys_behave::<Loader::Key>() ==> is_request(
                old(self).inner.slots(),
                old(self).inner.settings(),
                key,
                true,
                age@,
                final(self).inner.slots(),
                lookup,
            ),
            Self::loads_if_always(old(self), key, final(self), lookup),
            lookup.waits_for_its_update(key),
            lookup.answer is Broadcast,
            final(self).same_settings(old(self)),
    {
        // Get either the current value or a channel to wait for values on.
        if self.get_cacher_config().disable_loader() {
            self.new_broadcast(key)
        } else {
            self.get_broadcast_or_value(key, true, age)
        }
    }

    /// Get a value without paying attention to whether it's stale
    ///
    /// Takes what [`Self::get_value`] came to. Returns an error if there is no cached value and
    /// loading fails.
    pub fn get_value_allow_stale(result: ValueForRender<Loader>) -> (value: ValueForRender<Loader>)
        ensures
            value == result.allow_stale(),
    {
        match result {
            ValueForRender::Success { .. } => result,
            ValueForRender::Error { stale_cache: Some(stale_cache), .. } => {
                ValueForRender::Success { value: stale_cache.value, loaded: stale_cache.loaded }
            },
            ValueForRender::Error { .. } => result,
        }
    }

    /// Builds on [Self::get_value_allow_stale] by returning a Result.
    ///
    /// Takes what [`Self::get_value`] came to.
    pub fn get_value_or_error(result: ValueForRender<Loader>) -> (value: Result<
        Arc<Loader::Output>,
        Arc<str>,
    >)
        ensures
            match result.latest() {
                Some(latest) => value == Ok::<_, Arc<str>>(latest.value),
                None => value matches Err(text) && result matches ValueForRender::Error {
                    message,
                    ..
                } && text == message,
            },
    {
        match Self::get_value_allow_stale(result) {
            ValueForRender::Success { value, loaded: _ } => Ok(value),
            ValueForRender::Error { message, status: _, stale_cache } => match stale_cache {
                Some(latest) => Ok(latest.value),
                None => Err(message),
            },
        }
    }

    /// Get a new response from this cacher.
    ///
    /// Takes what [`Self::get_value`] came to. Response may be an error response.
    pub fn get_response(&self, value: ValueForRender<Loader>) -> (res: Response<Body>)
        ensures
            value.answered_by(self.inner.settings(), res),
    {
        value.into_response(&self.inner.config)
    }

    /// Get a new response from this cacher, but allows stale value.
    ///
    /// Takes what [`Self::get_value`] came to. Response may be an error response.
    pub fn get_response_allow_stale(&self, result: ValueForRender<Loader>) -> (res: Response<Body>)
        ensures
            result.allow_stale().answered_by(self.inner.settings(), res),
    {
        Self::get_value_allow_stale(result).into_response(&self.inner.config)
    }

    /// Get cacher config
    pub fn get_cacher_config(&self) -> (config: &AsyncLoaderConfig)
        ensures
            *config == self.inner.settings(),
    {
        &self.inner.config
    }

    /// How long ago the value under `key` was loaded; if there is none, no time at all.
    fn age_of(&self, key: &Loader::Key) -> (age: Duration)
        ensures
            keys_behave::<Loader::Key>() ==> slot_of(self.inner.slots(), *key).may_have_age(age@),
    {
        match self.inner.per_key.get(key) {
            Some(slot) => match &slot.latest {
                Some(latest) => elapsed(&latest.loaded),
                None => Duration::from_secs(0),
            },
            None => Duration::from_secs(0),
        }
    }

    /// Loads for one request alone.
    fn new_broadcast(&self, key: Loader::Key) -> (lookup: Lookup<Loader>)
        ensures
            is_new_broadcast(key, lookup),
    {
        let (sender, broadcast) = channel(BROADCAST_CAPACITY);
        Lookup {
            answer: BroadcastOrValue::Broadcast { broadcast, stale_cache: None },
            update: Some(Update { key, sender, stale_cache: None }),
        }
    }

    /// Answers a request under `key`, where a value there has the age `age`.
    fn get_broadcast_or_value(
        &mut self,
        key: Loader::Key,
        force_reload: bool,
        age: Duration,
    ) -> (lookup: Lookup<Loader>)
        ensures
            keys_behave::<Loader::Key>() ==> is_lookup(
                old(self).inner.slots(),
                old(self).inner.settings(),
                key,
                force_reload,
                age@,
                final(self).inner.slots(),
                lookup,
            ),
            lookup.waits_for_its_update(key),
            force_reload ==> lookup.answer is Broadcast,
            final(self).same_settings(old(self)),
    {
        let config = self.inner.config;
        let slot_key = key.clone();
        assert(cloned(key, slot_key));
        let slot = self.inner.get_slot_by_key(slot_key);
        let (answer, started) = slot.get_broadcast_or_value(&config, force_reload, age);
        let update = match started {
            Some((sender, stale_cache)) => Some(Update { key, sender, stale_cache }),
            None => None,
        };
        Lookup { answer, update }
    }

    /// Background update
    ///
    /// This is the part after the load, which came to `res`. The clock says when it is stored and,
    /// not before that, when it is announced.
    pub fn do_update(
        &mut self,
        update: Update<Loader>,
        res: Result<Loader::Output, LoadError>,
    ) -> (announcement: Announcement<Loader>)
        ensures
            exists|stored_at: Instant, announced_at: Instant|
                #[trigger] may_be_readings(stored_at, announced_at) && place_of(stored_at)
                    <= place_of(announced_at) && announcement.value.renders(
                    res,
                    update.stale_cache,
                    announced_at,
                ) && (keys_behave::<Loader::Key>() ==> is_update(
                    old(self).inner.slots(),
                    old(self).inner.settings(),
                    update,
                    res,
                    stored_at,
                    announced_at,
                    final(self).inner.slots(),
                    announcement,
                )),
            announcement.sender == update.sender,
            final(self).same_settings(old(self)),
    {
        let (stored_at, announced_at) = readings();
        self.do_update_at(update, res, stored_at, announced_at)
    }

    /// Takes in the outcome `res` of an update, as loaded at `stored_at`, and announces it, as
    /// loaded at `announced_at`.
    pub fn do_update_at(
        &mut self,
        update: Update<Loader>,
        res: Result<Loader::Output, LoadError>,
        stored_at: Instant,
        announced_at: Instant,
    ) -> (announcement: Announcement<Loader>)
        ensures
            keys_behave::<Loader::Key>() ==> is_update(
                old(self).inner.slots(),
                old(self).inner.settings(),
                update,
                res,
                stored_at,
                announced_at,
                final(self).inner.slots(),
                announcement,
            ),
            announcement.sender == update.sender,
            announcement.value.renders(res, update.stale_cache, announced_at),
            final(self).same_settings(old(self)),
    {
        let Update { key, sender, stale_cache } = update;
        let res = match res {
            Ok(value) => Ok(Arc::new(value)),
            Err(err) => Err(err),
        };
        let store_cache = self.get_cacher_config().store_cache();

        let slot_key = key.clone();
        assert(cloned(key, slot_key));
        let slot = self.inner.get_slot_by_key(slot_key);
        // First we wipe out the old broadcast. We do this before broadcasting the updates to
        // ensure that whoever subscribes is guaranteed to receive the message.
        slot.broadcast = None;
        // And if the load was successful, update the cache.
        if let Ok(value) = &res {
            slot.latest = Some(Latest { loaded: stored_at, value: share(value) });
        }
        if !store_cache {
            // If we are not storing the cache, then remove the cached item
            self.inner.per_key.remove(&key);
            assert(keys_behave::<Loader::Key>() ==> self.inner.slots() =~= old(
                self,
            ).inner.slots().remove(key));
        }
        let value = ValueForRender::from_load(res, stale_cache, announced_at);
        Announcement { sender, value }
    }

    /// Takes in that the update under `key` was lost: its load ended without an outcome, as when
    /// the loader panics.
    ///
    /// Once the update itself is gone too, its channel closes, and all who wait on it get the error
    /// of [`ValueForRender::from_reply`]. The next request under the key starts anew.
    pub fn lose_update(&mut self, key: Loader::Key)
        ensures
            keys_behave::<Loader::Key>() ==> is_lost(
                old(self).inner.slots(),
                old(self).inner.settings(),
                key,
                final(self).inner.slots(),
            ),
            final(self).same_settings(old(self)),
    {
        if let Some(slot) = self.inner.per_key.remove(&key) {
            if self.get_cacher_config().store_cache() || slot.latest.is_some() {
                self.inner.per_key.insert(key, InnerMut { latest: slot.latest, broadcast: None });
                assert(keys_behave::<Loader::Key>() ==> self.inner.slots() =~= old(
                    self,
                ).inner.slots().insert(key, InnerMut { latest: slot.latest, broadcast: None }));
            }
        } else {
            assert(keys_behave::<Loader::Key>() ==> self.inner.slots() =~= old(
                self,
            ).inner.slots().remove(key));
        }
    }
}

} // verus!
