//! A cache of values that are loaded on demand and reloaded as they age.
//!
//! An [`AsyncLoader`] decides, for each request, whether to answer with a value that it holds, to
//! have one loaded, or to let the request wait for a load that is under way. It performs no load
//! itself: a request comes to a [`Lookup`], with an [`Update`] to run where one is due, and
//! [`AsyncLoader::do_update`] takes in how that went.
pub mod channel;
pub mod clock;
pub mod config;
pub mod duration;
pub mod laws;
pub mod loader;
pub mod operations;
pub mod response;
pub mod text;
pub mod value;

pub use channel::Subscription;
pub use config::{AsyncLoaderBuilder, AsyncLoaderConfig, StaleDelay};
pub use duration::Duration;
pub use loader::{
    Announcement, AsyncLoader, BroadcastOrValue, Inner, InnerMut, LoaderMetric, Lookup, Update,
};
pub use value::{CacheLoader, ErrorResponse, Latest, LoadError, UseLatest, ValueForRender};
