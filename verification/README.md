# async_loader

A cache of values that are loaded on demand and reloaded as they age. The decisions (when to
load, when to wait, what to answer, what to store) are verified with Verus.

- `src/loader.rs`: the cache, requests and updates
- `src/value.rs`: loaded values, errors, and what is made of them
- `src/config.rs`, `src/duration.rs`: settings and spans of time
- `src/response.rs`: HTTP responses and the `Cache-Control` header
- `src/channel.rs`, `src/clock.rs`, `src/text.rs`: channels, the clock and strings
- `src/laws.rs`: what holds of every loader, whatever requests and updates it has seen
- `app/`: the same loader for asynchronous code, with tasks, waiting and a lock

The library performs no load and waits for nothing. A request comes to a `Lookup`: an answer or a
channel to wait on, and an `Update` to run where one is due. `AsyncLoader::do_update` takes in how
the load went and says what to send to those who wait; `AsyncLoader::lose_update` takes in that a
load ended without an outcome, as when it panics.
