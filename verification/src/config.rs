//! How long values stay usable, and whether they are kept at all.
use crate::duration::Duration;
use vstd::prelude::*;

verus! {

/// The reload delay of a loader that was given none: one minute.
pub const DEFAULT_RELOAD_SECS: u64 = 60;

/// The settings of a loader, from which [`AsyncLoaderBuilder::build`] makes one.
pub struct AsyncLoaderBuilder {
    /// How long after we load a value should we trigger a reload?
    ///
    /// Default: 1 minute
    pub reload_delay: Option<Duration>,
    /// How long after the reload delay should we consider a value too old and refuse to return it?
    ///
    /// Default: same as reload_delay
    pub stale_delay: StaleDelay,
    /// Should we store cache ?
    ///
    /// Default: true
    pub store_cache: bool,
    /// Should we disable cache loader ?
    ///
    /// Default: false
    pub disable_loader: bool,
}

/// How long a value is still returned once its reload delay has passed.
pub enum StaleDelay {
    /// Default will be twice the [AsyncLoaderBuilder::reload_delay]
    Default,
    Duration(Duration),
    /// Allows last computed stale value in case of an error during
    /// the load step.
    AllowStale,
}

impl Default for StaleDelay {
    fn default() -> (delay: Self)
        ensures
            delay is Default,
    {
        StaleDelay::Default
    }
}

/// The settings of a loader, with all defaults filled in.
#[derive(Clone, Copy, Debug)]
pub struct AsyncLoaderConfig {
    reload_delay: Duration,
    /// None if we never go stale
    reload_and_stale_delay: Option<Duration>,
    /// Store cache
    store_cache: bool,
    /// Disable cache
    disable_loader: bool,
}

impl AsyncLoaderBuilder {
    /// The reload delay in nanoseconds, with the default filled in.
    pub open spec fn reload_nanos(&self) -> nat {
        match self.reload_delay {
            Some(delay) => delay@,
            None => (DEFAULT_RELOAD_SECS * crate::duration::NANOS_PER_SEC) as nat,
        }
    }

    /// The age in nanoseconds past which a value is too old; `None` if no value ever is.
    pub open spec fn limit_nanos(&self) -> Option<nat> {
        match self.stale_delay {
            StaleDelay::Default => Some(self.reload_nanos() + self.reload_nanos()),
            StaleDelay::Duration(delay) => Some(self.reload_nanos() + delay@),
            StaleDelay::AllowStale => None,
        }
    }

    /// Whether the two delays together are still a span of time.
    pub open spec fn delays_fit(&self) -> bool {
        self.limit_nanos() matches Some(limit) ==> limit <= Duration::max_nanos()
    }

    /// The reload delay, with the default filled in.
    fn reload_delay_or_default(&self) -> (delay: Duration)
        ensures
            delay@ == self.reload_nanos(),
    {
        match self.reload_delay {
            Some(delay) => delay,
            None => Duration::from_secs(DEFAULT_RELOAD_SECS),
        }
    }

    /// Whether a loader can be built: the two delays together must not overflow.
    pub fn can_build(&self) -> (fit: bool)
        ensures
            fit == self.delays_fit(),
    {
        let reload_delay = self.reload_delay_or_default();
        match self.stale_delay {
            StaleDelay::Default => reload_delay.checked_add(reload_delay).is_some(),
            StaleDelay::Duration(delay) => reload_delay.checked_add(delay).is_some(),
            StaleDelay::AllowStale => true,
        }
    }
}

impl AsyncLoaderConfig {
    /// A value is never too old before it is due for a reload.
    #[verifier::type_invariant]
    pub closed spec fn inv(self) -> bool {
        self.reload_and_stale_delay matches Some(limit) ==> self.reload_delay@ <= limit@
    }

    /// The age in nanoseconds past which a value is due for a reload.
    pub closed spec fn reload_nanos(&self) -> nat {
        self.reload_delay@
    }

    /// The age in nanoseconds past which a value is too old; `None` if no value ever is.
    pub closed spec fn limit_nanos(&self) -> Option<nat> {
        match self.reload_and_stale_delay {
            Some(limit) => Some(limit@),
            None => None,
        }
    }

    /// Whether loaded values are kept.
    pub closed spec fn stores(&self) -> bool {
        self.store_cache
    }

    /// Whether every request loads for itself.
    pub closed spec fn loads_always(&self) -> bool {
        self.disable_loader
    }

    /// Whether these are the settings of `builder` with all defaults filled in.
    pub open spec fn follows(&self, builder: &AsyncLoaderBuilder) -> bool {
        &&& self.reload_nanos() == builder.reload_nanos()
        &&& self.limit_nanos() == builder.limit_nanos()
        &&& self.stores() == builder.store_cache
        &&& self.loads_always() == builder.disable_loader
    }

    /// The settings of `value` with all defaults filled in.
    pub fn from(value: &AsyncLoaderBuilder) -> (config: Self)
        requires
            value.delays_fit(),
        ensures
            config.follows(value),
    {
        let reload_delay = value.reload_delay_or_default();
        AsyncLoaderConfig {
            reload_delay,
            reload_and_stale_delay: match value.stale_delay {
                StaleDelay::Default => reload_delay.checked_add(reload_delay),
                StaleDelay::Duration(stale_delay) => reload_delay.checked_add(stale_delay),
                StaleDelay::AllowStale => None,
            },
            store_cache: value.store_cache,
            disable_loader: value.disable_loader,
        }
    }

    /// A value is never too old before it is due for a reload.
    pub proof fn lemma_reload_within_limit(self)
        requires
            self.inv(),
        ensures
            self.limit_nanos() matches Some(limit) ==> self.reload_nanos() <= limit,
    {
    }

    /// The age past which a value is due for a reload.
    pub fn reload_delay(&self) -> (delay: Duration)
        ensures
            delay@ == self.reload_nanos(),
    {
        self.reload_delay
    }

    /// The age past which a value is too old; `None` if no value ever is.
    pub fn reload_and_stale_delay(&self) -> (delay: Option<Duration>)
        ensures
            match delay {
                Some(limit) => self.limit_nanos() == Some(limit@) && self.reload_nanos() <= limit@,
                None => self.limit_nanos() is None,
            },
    {
        proof {
            use_type_invariant(self);
        }
        self.reload_and_stale_delay
    }

    /// Whether loaded values are kept.
    pub fn store_cache(&self) -> (store: bool)
        ensures
            store == self.stores(),
    {
        self.store_cache
    }

    /// Whether every request loads for itself.
    pub fn disable_loader(&self) -> (disable: bool)
        ensures
            disable == self.loads_always(),
    {
        self.disable_loader
    }
}

} // verus!
