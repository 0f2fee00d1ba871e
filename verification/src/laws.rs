//! What holds of every loader, whatever requests and updates it has seen.
use crate::clock::place_of;
use crate::config::AsyncLoaderConfig;
use crate::duration::NANOS_PER_SEC;
use crate::loader::{
    is_lost, is_new_broadcast, is_request, is_update, slot_of, Announcement,
    BroadcastOrValue, InnerMut, Lookup, Update,
};
use crate::response::{
    cache_control, header_values, is_cached_response, response_headers, response_status,
    status_number, HEADER_NAMES_ROOM,
};
use crate::value::{CacheLoader, Latest, LoadError, UseLatest, ValueForRender};
use axum::body::Body;
use axum::http::Response;
use std::time::Instant;
use tokio::sync::broadcast::Sender;
use vstd::prelude::*;
use vstd::utf8::encode_utf8;

verus! {

/// What happens to a loader: a request, the end of an update, or its loss.
#[verifier::reject_recursive_types(Loader)]
pub enum Event<Loader: CacheLoader> {
    Request { key: Loader::Key, force_reload: bool, age: nat, lookup: Lookup<Loader> },
    Finished {
        update: Update<Loader>,
        res: Result<Loader::Output, LoadError>,
        stored_at: Instant,
        announced_at: Instant,
        announcement: Announcement<Loader>,
    },
    Lost { key: Loader::Key },
}

impl<Loader: CacheLoader> Event<Loader> {
    /// The key that the event is about.
    pub open spec fn key(self) -> Loader::Key {
        match self {
            Event::Request { key, .. } => key,
            Event::Finished { update, .. } => update.key,
            Event::Lost { key } => key,
        }
    }

    /// Whether the event turns what is known from `before` into `after`.
    pub open spec fn happens(
        self,
        before: Map<Loader::Key, InnerMut<Loader>>,
        config: AsyncLoaderConfig,
        after: Map<Loader::Key, InnerMut<Loader>>,
    ) -> bool {
        match self {
            Event::Request { key, force_reload, age, lookup } => is_request(
                before,
                config,
                key,
                force_reload,
                age,
                after,
                lookup,
            ),
            Event::Finished { update, res, stored_at, announced_at, announcement } => is_update(
                before,
                config,
                update,
                res,
                stored_at,
                announced_at,
                after,
                announcement,
            ),
            Event::Lost { key } => is_lost(before, config, key, after),
        }
    }
}

/// A loader from its start: its settings, the events that it has seen, and what it knew before the
/// first of them and after each.
#[verifier::reject_recursive_types(Loader)]
pub struct History<Loader: CacheLoader> {
    pub config: AsyncLoaderConfig,
    pub events: Seq<Event<Loader>>,
    pub states: Seq<Map<Loader::Key, InnerMut<Loader>>>,
}

impl<Loader: CacheLoader> History<Loader> {
    /// Whether the event at `i` leads from what was known before it to what is known after it.
    pub open spec fn happened(self, i: int) -> bool {
        self.events[i].happens(self.states[i], self.config, self.states[i + 1])
    }

    /// A new loader knows nothing, and then one event follows the other.
    pub open spec fn valid(self) -> bool {
        &&& self.config.inv()
        &&& self.states.len() == self.events.len() + 1
        &&& self.states[0] == Map::<Loader::Key, InnerMut<Loader>>::empty()
        &&& forall|i: int| 0 <= i < self.events.len() ==> #[trigger] self.happened(i)
    }

    /// What is known under `key` once `n` events have passed.
    pub open spec fn slot(self, n: int, key: Loader::Key) -> InnerMut<Loader> {
        slot_of(self.states[n], key)
    }

    /// The update that the event at `i` starts.
    pub open spec fn starts(self, i: int) -> Option<Update<Loader>> {
        match self.events[i] {
            Event::Request { lookup, .. } => lookup.update,
            Event::Finished { .. } => None,
            Event::Lost { .. } => None,
        }
    }

    /// Whether the event at `i` ends an update under `key`, with an outcome or without.
    pub open spec fn ends(self, i: int, key: Loader::Key) -> bool {
        !(self.events[i] is Request) && self.events[i].key() == key
    }

    /// Whether the event at `i` makes a storing loader keep a slot for its key: an update that ends
    /// with an outcome does, and so does a request, unless the cache is switched off.
    pub open spec fn fills(self, i: int) -> bool {
        match self.events[i] {
            Event::Request { .. } => !self.config.loads_always(),
            Event::Finished { .. } => true,
            Event::Lost { .. } => false,
        }
    }

    /// The keys for which the events from `m` up to `n` make a storing loader keep a slot.
    pub open spec fn filled(self, m: int, n: int) -> Set<Loader::Key>
        decreases n - m,
    {
        if n <= m {
            Set::empty()
        } else if self.fills(n - 1) {
            self.filled(m, n - 1).insert(self.events[n - 1].key())
        } else {
            self.filled(m, n - 1)
        }
    }

    /// The channel of the update under `key` that has started within the first `n` events and has
    /// not ended within them.
    pub open spec fn running(self, n: int, key: Loader::Key) -> Option<
        Sender<ValueForRender<Loader>>,
    >
        decreases n,
    {
        if n <= 0 {
            None
        } else {
            match self.starts(n - 1) {
                Some(update) if update.key == key => Some(update.sender),
                _ => if self.ends(n - 1, key) {
                    None
                } else {
                    self.running(n - 1, key)
                },
            }
        }
    }

    /// The value that was loaded last under `key` within the first `n` events, and when.
    pub open spec fn loaded(self, n: int, key: Loader::Key) -> Option<(Loader::Output, Instant)>
        decreases n,
    {
        if n <= 0 {
            None
        } else {
            match self.events[n - 1] {
                Event::Finished { update, res: Ok(value), stored_at, .. } if update.key
                    == key => Some((value, stored_at)),
                _ => self.loaded(n - 1, key),
            }
        }
    }
}

/// Whether `latest` is the value `loaded`.
pub open spec fn is_loaded<Loader: CacheLoader>(
    latest: Option<Latest<Loader>>,
    loaded: Option<(Loader::Output, Instant)>,
) -> bool {
    match loaded {
        Some((value, at)) => latest matches Some(latest) && *latest.value == value && latest.loaded
            == at,
        None => latest is None,
    }
}

/// Whatever a loader has seen, it tracks under each key exactly the update that is running there.
pub proof fn law_tracks_the_running_update<Loader: CacheLoader>(
    history: History<Loader>,
    n: int,
    key: Loader::Key,
)
    requires
        history.valid(),
        !history.config.loads_always(),
        0 <= n <= history.events.len(),
    ensures
        history.slot(n, key).broadcast == history.running(n, key),
    decreases n,
{
    if n > 0 {
        law_tracks_the_running_update(history, n - 1, key);
        assert(history.happened(n - 1));
    }
}

/// Whatever a loader that stores has seen, it holds under each key the value loaded last there.
pub proof fn law_holds_the_value_loaded_last<Loader: CacheLoader>(
    history: History<Loader>,
    n: int,
    key: Loader::Key,
)
    requires
        history.valid(),
        history.config.stores(),
        0 <= n <= history.events.len(),
    ensures
        is_loaded(history.slot(n, key).latest, history.loaded(n, key)),
    decreases n,
{
    if n > 0 {
        law_holds_the_value_loaded_last(history, n - 1, key);
        assert(history.happened(n - 1));
    }
}

/// A loader that does not store holds no value, whatever it has seen.
pub proof fn law_holds_nothing_unless_it_stores<Loader: CacheLoader>(
    history: History<Loader>,
    n: int,
    key: Loader::Key,
)
    requires
        history.valid(),
        !history.config.stores(),
        0 <= n <= history.events.len(),
    ensures
        history.slot(n, key).latest is None,
        n > 0 && history.ends(n - 1, key) ==> !history.states[n].contains_key(key),
    decreases n,
{
    if n > 0 {
        law_holds_nothing_unless_it_stores(history, n - 1, key);
        assert(history.happened(n - 1));
    }
}

/// An event about one key leaves what is known under all others as it is.
pub proof fn law_other_keys_are_left_alone<Loader: CacheLoader>(
    history: History<Loader>,
    i: int,
    key: Loader::Key,
)
    requires
        history.valid(),
        0 <= i < history.events.len(),
        history.events[i].key() != key,
    ensures
        history.slot(i + 1, key) == history.slot(i, key),
        history.states[i + 1].contains_key(key) == history.states[i].contains_key(key),
{
    assert(history.happened(i));
}

/// However many events pass, a slot is its key's own: as long as none of them is about the key, the
/// next one that is finds what the last one left.
pub proof fn law_slot_is_its_keys_own<Loader: CacheLoader>(
    history: History<Loader>,
    m: int,
    n: int,
    key: Loader::Key,
)
    requires
        history.valid(),
        0 <= m <= n <= history.events.len(),
        forall|k: int| m <= k < n ==> (#[trigger] history.events[k]).key() != key,
    ensures
        history.slot(n, key) == history.slot(m, key),
        history.states[n].contains_key(key) == history.states[m].contains_key(key),
    decreases n - m,
{
    if m < n {
        law_slot_is_its_keys_own(history, m, n - 1, key);
        law_other_keys_are_left_alone(history, n - 1, key);
    }
}

/// However many events pass, equal keys share a slot and different keys have their own: unless a
/// key is dropped, the slots grow by exactly one for each different key among them that had none.
pub proof fn law_slots_grow_by_the_absent_keys<Loader: CacheLoader>(
    history: History<Loader>,
    m: int,
    n: int,
)
    requires
        history.valid(),
        0 <= m <= n <= history.events.len(),
        forall|k: int|
            m <= k < n ==> (#[trigger] history.events[k]) is Request || history.config.stores(),
    ensures
        history.states[n].dom() == history.states[m].dom().union(history.filled(m, n)),
        history.states[n].len() == history.states[m].len() + history.filled(m, n).difference(
            history.states[m].dom(),
        ).len(),
    decreases n - m,
{
    let before = history.states[m].dom();
    lemma_finitely_many_slots(history, m);
    lemma_filled_is_finite(history, m, n);
    if m < n {
        law_slots_grow_by_the_absent_keys(history, m, n - 1);
        assert(history.events[n - 1] is Request || history.config.stores());
        assert(history.happened(n - 1));
        assert(history.states[n].dom() =~= if history.fills(n - 1) {
            history.states[n - 1].dom().insert(history.events[n - 1].key())
        } else {
            history.states[n - 1].dom()
        });
    }
    let added = history.filled(m, n).difference(before);
    assert(history.states[n].dom() =~= before.union(history.filled(m, n)));
    assert(before.union(history.filled(m, n)) =~= before.union(added));
    vstd::set_lib::lemma_set_disjoint_lens(before, added);
}

/// A loader only ever has finitely many slots.
proof fn lemma_finitely_many_slots<Loader: CacheLoader>(history: History<Loader>, n: int)
    requires
        history.valid(),
        0 <= n <= history.events.len(),
    ensures
        history.states[n].dom().finite(),
    decreases n,
{
    if n > 0 {
        lemma_finitely_many_slots(history, n - 1);
        assert(history.happened(n - 1));
    }
}

/// Events keep a slot for finitely many keys.
proof fn lemma_filled_is_finite<Loader: CacheLoader>(history: History<Loader>, m: int, n: int)
    ensures
        history.filled(m, n).finite(),
    decreases n - m,
{
    if m < n {
        lemma_filled_is_finite(history, m, n - 1);
    }
}

/// A loader that stores has one slot for each key that it was asked for, and no others. With the
/// cache switched off, that is one for each key that was loaded.
pub proof fn law_one_slot_per_key<Loader: CacheLoader>(
    history: History<Loader>,
    n: int,
    key: Loader::Key,
)
    requires
        history.valid(),
        history.config.stores(),
        0 <= n <= history.events.len(),
    ensures
        history.states[n].contains_key(key) <==> exists|i: int|
            0 <= i < n && history.events[i].key() == key && #[trigger] history.fills(i),
    decreases n,
{
    if n > 0 {
        law_one_slot_per_key(history, n - 1, key);
        assert(history.happened(n - 1));
        if history.events[n - 1].key() == key && history.fills(n - 1) {
            assert(history.states[n].contains_key(key));
        } else {
            assert(history.states[n].contains_key(key) == history.states[n - 1].contains_key(key));
            if exists|i: int|
                0 <= i < n && history.events[i].key() == key && #[trigger] history.fills(i) {
                let i = choose|i: int|
                    0 <= i < n && history.events[i].key() == key && #[trigger] history.fills(i);
                assert(i < n - 1);
            }
        }
    }
}

/// A request adds a slot for its own key, if there is none yet, and for no other; with the cache
/// switched off it adds none.
pub proof fn law_request_adds_only_its_key<Loader: CacheLoader>(history: History<Loader>, i: int)
    requires
        history.valid(),
        0 <= i < history.events.len(),
        history.events[i] is Request,
    ensures
        history.states[i + 1].dom() == if history.config.loads_always() {
            history.states[i].dom()
        } else {
            history.states[i].dom().insert(history.events[i].key())
        },
{
    assert(history.happened(i));
    if !history.config.loads_always() {
        assert(history.states[i + 1].dom() =~= history.states[i].dom().insert(
            history.events[i].key(),
        ));
    }
}

/// A loader that does not store has a slot for a key exactly while an update is running there; with
/// the cache switched off it never has one.
pub proof fn law_slot_while_an_update_runs<Loader: CacheLoader>(
    history: History<Loader>,
    n: int,
    key: Loader::Key,
)
    requires
        history.valid(),
        !history.config.stores(),
        0 <= n <= history.events.len(),
    ensures
        history.states[n].contains_key(key) <==> !history.config.loads_always() && history.running(
            n,
            key,
        ) is Some,
    decreases n,
{
    if n > 0 {
        law_slot_while_an_update_runs(history, n - 1, key);
        law_holds_nothing_unless_it_stores(history, n - 1, key);
        assert(history.happened(n - 1));
        if !history.config.loads_always() {
            law_tracks_the_running_update(history, n - 1, key);
            law_tracks_the_running_update(history, n, key);
        }
    }
}

/// A loader that does not store lets every request wait, with nothing to fall back on; the request
/// starts an update unless one is running.
pub proof fn law_everyone_waits_unless_it_stores<Loader: CacheLoader>(
    history: History<Loader>,
    i: int,
)
    requires
        history.valid(),
        !history.config.stores(),
        0 <= i < history.events.len(),
        history.events[i] is Request,
    ensures
        history.events[i]->lookup.answer matches BroadcastOrValue::Broadcast { stale_cache, .. }
            && stale_cache is None,
        !history.config.loads_always() ==> (history.starts(i) is Some) == (history.running(
            i,
            history.events[i].key(),
        ) is None),
        history.config.loads_always() ==> history.starts(i) is Some,
{
    let key = history.events[i].key();
    law_holds_nothing_unless_it_stores(history, i, key);
    if !history.config.loads_always() {
        law_tracks_the_running_update(history, i, key);
    }
    assert(history.happened(i));
}

/// While no update under `key` ends, one that is running keeps running.
proof fn lemma_keeps_running<Loader: CacheLoader>(
    history: History<Loader>,
    m: int,
    n: int,
    key: Loader::Key,
)
    requires
        history.valid(),
        !history.config.loads_always(),
        0 <= m <= n <= history.events.len(),
        history.running(m, key) is Some,
        forall|k: int| m <= k < n ==> !#[trigger] history.ends(k, key),
    ensures
        history.running(n, key) == history.running(m, key),
    decreases n - m,
{
    if m < n {
        lemma_keeps_running(history, m, n - 1, key);
        law_tracks_the_running_update(history, n - 1, key);
        assert(history.happened(n - 1));
        assert(!history.ends(n - 1, key));
    }
}

/// Between the starts of two updates under one key, one ends: a key is never loaded twice at a
/// time, however many requests come in.
pub proof fn law_one_update_at_a_time<Loader: CacheLoader>(history: History<Loader>, i: int, j: int)
    requires
        history.valid(),
        !history.config.loads_always(),
        0 <= i < j < history.events.len(),
        history.starts(i) is Some,
        history.starts(j) is Some,
        history.starts(i)->0.key == history.starts(j)->0.key,
    ensures
        exists|k: int| i < k < j && #[trigger] history.ends(k, history.starts(i)->0.key),
{
    let key = history.starts(i)->0.key;
    if forall|k: int| i < k < j ==> !#[trigger] history.ends(k, key) {
        lemma_keeps_running(history, i + 1, j, key);
        law_tracks_the_running_update(history, j, key);
        assert(history.happened(j));
    }
}

/// While no update under `key` ends, the value known there stays.
proof fn lemma_keeps_value<Loader: CacheLoader>(
    history: History<Loader>,
    m: int,
    n: int,
    key: Loader::Key,
)
    requires
        history.valid(),
        0 <= m <= n <= history.events.len(),
        forall|k: int| m <= k < n ==> !#[trigger] history.ends(k, key),
    ensures
        history.slot(n, key).latest == history.slot(m, key).latest,
    decreases n - m,
{
    if m < n {
        lemma_keeps_value(history, m, n - 1, key);
        assert(history.happened(n - 1));
        assert(!history.ends(n - 1, key));
    }
}

/// A burst of requests under a key with nothing cached and nothing running shares one load, whether
/// or not they ask for a new value: the first of them starts it, nothing else is started under the
/// key until it ends, and all of them wait on the one channel where its outcome is announced.
pub proof fn law_burst_shares_one_load<Loader: CacheLoader>(
    history: History<Loader>,
    first: int,
    end: int,
)
    requires
        history.valid(),
        !history.config.loads_always(),
        0 <= first < end < history.events.len(),
        history.events[first] is Request,
        history.slot(first, history.events[first].key()).latest is None,
        history.running(first, history.events[first].key()) is None,
        forall|i: int|
            first <= i < end ==> !#[trigger] history.ends(i, history.events[first].key()),
        history.events[end] is Finished,
        history.starts(first) matches Some(update) ==> history.events[end]->update == update,
    ensures
        history.starts(first) is Some,
        forall|k: int|
            first < k < end ==> (#[trigger] history.starts(k) matches Some(update) ==> update.key
                != history.events[first].key()),
        forall|k: int|
            first <= k < end && (#[trigger] history.events[k]) is Request
                && history.events[k].key() == history.events[first].key() ==> (
            history.events[k]->lookup.answer matches BroadcastOrValue::Broadcast { broadcast, .. }
                && broadcast.channel() == history.events[end]->announcement.sender),
        history.events[end]->announcement.value.renders(
            history.events[end]->res,
            None,
            history.events[end]->announced_at,
        ),
{
    let key = history.events[first].key();
    law_tracks_the_running_update(history, first, key);
    law_waits_for_the_running_update(history, first);
    assert(history.happened(first));
    assert(history.happened(end));
    assert forall|k: int| first < k < end implies (#[trigger] history.starts(k) matches Some(update)
        ==> update.key != key) by {
        lemma_joins_the_burst(history, first, k);
    }
    assert forall|k: int|
        first <= k < end && (#[trigger] history.events[k]) is Request && history.events[k].key()
            == key implies (history.events[k]->lookup.answer matches BroadcastOrValue::Broadcast {
        broadcast,
        ..
    } && broadcast.channel() == history.events[end]->announcement.sender) by {
        if first < k {
            lemma_joins_the_burst(history, first, k);
        }
    }
}

/// While the first load under a key runs, a request there starts nothing and waits for it.
proof fn lemma_joins_the_burst<Loader: CacheLoader>(history: History<Loader>, first: int, k: int)
    requires
        history.valid(),
        !history.config.loads_always(),
        0 <= first < k < history.events.len(),
        history.starts(first) is Some,
        history.slot(first, history.starts(first)->0.key).latest is None,
        forall|i: int|
            first <= i < k ==> !#[trigger] history.ends(i, history.starts(first)->0.key),
    ensures
        history.starts(k) matches Some(update) ==> update.key != history.starts(first)->0.key,
        history.events[k] is Request && history.events[k].key() == history.starts(first)->0.key
            ==> (history.events[k]->lookup.answer matches BroadcastOrValue::Broadcast {
            broadcast,
            ..
        } && broadcast.channel() == history.starts(first)->0.sender),
{
    let key = history.starts(first)->0.key;
    lemma_keeps_value(history, first, k, key);
    lemma_keeps_running(history, first + 1, k, key);
    law_tracks_the_running_update(history, k, key);
    assert(history.happened(k));
}

/// Whoever has to wait, waits on the channel of the update that is running.
pub proof fn law_waits_for_the_running_update<Loader: CacheLoader>(history: History<Loader>, i: int)
    requires
        history.valid(),
        !history.config.loads_always(),
        0 <= i < history.events.len(),
    ensures
        history.events[i] matches Event::Request { key, lookup, .. } ==> (lookup.answer matches
            BroadcastOrValue::Broadcast { broadcast, .. } ==> history.running(i + 1, key) == Some(
            broadcast.channel(),
        )),
{
    if let Event::Request { key, .. } = history.events[i] {
        law_tracks_the_running_update(history, i + 1, key);
        assert(history.happened(i));
    }
}

/// Whoever has to wait is told the outcome: when the update that is running under the key ends with
/// one, it announces it on the channel that is waited on.
pub proof fn law_whoever_waits_is_told<Loader: CacheLoader>(
    history: History<Loader>,
    i: int,
    j: int,
)
    requires
        history.valid(),
        !history.config.loads_always(),
        0 <= i < j < history.events.len(),
        history.events[i] is Request,
        history.events[i]->lookup.answer is Broadcast,
        history.events[j] is Finished,
        history.events[j].key() == history.events[i].key(),
        forall|k: int| i < k < j ==> !#[trigger] history.ends(k, history.events[i].key()),
        history.running(j, history.events[i].key()) == Some(history.events[j]->update.sender),
    ensures
        history.events[j]->announcement.sender
            == history.events[i]->lookup.answer->broadcast.channel(),
        history.events[j]->announcement.value.renders(
            history.events[j]->res,
            history.events[j]->update.stale_cache,
            history.events[j]->announced_at,
        ),
{
    let key = history.events[i].key();
    law_waits_for_the_running_update(history, i);
    lemma_keeps_running(history, i + 1, j, key);
    assert(history.happened(j));
}

/// By the time an outcome can be announced, it has been taken in: no update is tracked under the
/// key any more, so nobody can come to wait on the channel too late, and a loaded value is stored,
/// or the key is gone if nothing is stored.
pub proof fn law_outcome_is_taken_in_before_it_is_told<Loader: CacheLoader>(
    history: History<Loader>,
    i: int,
)
    requires
        history.valid(),
        0 <= i < history.events.len(),
        history.events[i] is Finished,
    ensures
        history.slot(i + 1, history.events[i].key()).broadcast is None,
        history.config.stores() ==> (history.events[i]->res matches Ok(value) ==> is_loaded(
            history.slot(i + 1, history.events[i].key()).latest,
            Some((value, history.events[i]->stored_at)),
        )),
        !history.config.stores() ==> !history.states[i + 1].contains_key(history.events[i].key()),
        history.events[i]->announcement.sender == history.events[i]->update.sender,
{
    assert(history.happened(i));
}

/// An outcome is announced as it is: a value as that value, and an error with its own message and
/// the status that it says, or else that of an internal error of the server, whatever there is to
/// fall back on; and what there is, is handed on with every error.
pub proof fn law_outcome_is_announced_as_it_is<Loader: CacheLoader>(
    history: History<Loader>,
    i: int,
)
    requires
        history.valid(),
        0 <= i < history.events.len(),
        history.events[i] is Finished,
    ensures
        history.events[i]->res matches Ok(value) ==> (history.events[i]->announcement.value matches
            ValueForRender::Success { value: v, loaded } && *v == value && loaded
            == history.events[i]->announced_at),
        history.events[i]->res matches Err(LoadError::Response(error)) ==> (
        history.events[i]->announcement.value matches ValueForRender::Error { message, status, .. }
            && status == error.status && (*message)@ == error.message@),
        history.events[i]->res matches Err(LoadError::Other(text)) ==> (
        history.events[i]->announcement.value matches ValueForRender::Error { message, status, .. }
            && status_number(status) == 500 && (*message)@ == text@),
        history.events[i]->res is Err ==> (history.events[i]->announcement.value matches
            ValueForRender::Error { stale_cache, .. } && stale_cache
            == history.events[i]->update.stale_cache),
{
    assert(history.happened(i));
}

/// A lost update is not waited for again: nothing is tracked under its key, the value known there
/// stays, and the next request that has to wait starts a new update.
pub proof fn law_lost_update_is_forgotten<Loader: CacheLoader>(
    history: History<Loader>,
    i: int,
    j: int,
)
    requires
        history.valid(),
        0 <= i < j < history.events.len(),
        history.events[i] is Lost,
        history.events[j] is Request,
        history.events[j].key() == history.events[i].key(),
        forall|k: int|
            i < k < j ==> (#[trigger] history.starts(k) matches Some(update) ==> update.key
                != history.events[i].key()),
    ensures
        history.slot(i + 1, history.events[i].key()).broadcast is None,
        history.slot(i + 1, history.events[i].key()).latest == history.slot(
            i,
            history.events[i].key(),
        ).latest,
        history.events[j]->lookup.answer is Broadcast ==> history.starts(j) is Some,
{
    let key = history.events[i].key();
    assert(history.happened(i));
    assert(history.happened(j));
    if !history.config.loads_always() {
        lemma_stays_idle(history, i + 1, j, key);
        law_tracks_the_running_update(history, j, key);
    }
}

/// While no update under `key` starts, none runs there if none did.
proof fn lemma_stays_idle<Loader: CacheLoader>(
    history: History<Loader>,
    m: int,
    n: int,
    key: Loader::Key,
)
    requires
        0 <= m <= n,
        history.running(m, key) is None,
        forall|k: int|
            m <= k < n ==> (#[trigger] history.starts(k) matches Some(update) ==> update.key
                != key),
    ensures
        history.running(n, key) is None,
    decreases n - m,
{
    if m < n {
        lemma_stays_idle(history, m, n - 1, key);
    }
}

/// Whoever starts an update waits for it, and is told its outcome when it ends, cache or no cache.
pub proof fn law_whoever_starts_an_update_is_told<Loader: CacheLoader>(
    history: History<Loader>,
    i: int,
    j: int,
)
    requires
        history.valid(),
        0 <= i < j < history.events.len(),
        history.events[i] is Request,
        history.events[j] is Finished,
        history.starts(i) == Some(history.events[j]->update),
    ensures
        history.events[i]->lookup.answer matches BroadcastOrValue::Broadcast {
            broadcast,
            stale_cache,
        } && history.events[j]->announcement.sender == broadcast.channel()
            && history.events[j]->announcement.value.renders(
            history.events[j]->res,
            stale_cache,
            history.events[j]->announced_at,
        ),
{
    assert(history.happened(i));
    assert(history.happened(j));
}

/// A value that is answered at once is the one loaded last under the key, is not too old, and was
/// not asked to be loaded anew.
pub proof fn law_answers_with_the_value_loaded_last<Loader: CacheLoader>(
    history: History<Loader>,
    i: int,
    latest: Latest<Loader>,
)
    requires
        history.valid(),
        0 <= i < history.events.len(),
        history.events[i] is Request,
        history.events[i]->lookup.answer == BroadcastOrValue::Value(latest.rendered()),
    ensures
        history.config.stores(),
        !history.config.loads_always(),
        !history.events[i]->force_reload,
        is_loaded(Some(latest), history.loaded(i, history.events[i].key())),
        history.config.limit_nanos() matches Some(limit) ==> history.events[i]->age <= limit,
{
    let key = history.events[i].key();
    assert(history.happened(i));
    if history.config.stores() {
        law_holds_the_value_loaded_last(history, i, key);
    } else {
        law_holds_nothing_unless_it_stores(history, i, key);
    }
}

/// What is answered at once is always a value, never an error.
pub proof fn law_answers_at_once_only_with_a_value<Loader: CacheLoader>(
    history: History<Loader>,
    i: int,
)
    requires
        history.valid(),
        0 <= i < history.events.len(),
        history.events[i] is Request,
    ensures
        history.events[i]->lookup.answer matches BroadcastOrValue::Value(value)
            ==> value is Success,
{
    assert(history.happened(i));
}

/// A value that was loaded is the answer until a reload is due, and nothing is loaded until then.
pub proof fn law_fresh_value_is_the_answer<Loader: CacheLoader>(history: History<Loader>, i: int)
    requires
        history.valid(),
        history.config.stores(),
        !history.config.loads_always(),
        0 <= i < history.events.len(),
        history.events[i] is Request,
        !history.events[i]->force_reload,
        history.loaded(i, history.events[i].key()) is Some,
        history.events[i]->age <= history.config.reload_nanos(),
    ensures
        history.starts(i) is None,
        history.slot(i + 1, history.events[i].key()) == history.slot(i, history.events[i].key()),
        history.events[i]->lookup.answer matches BroadcastOrValue::Value(
            ValueForRender::Success { value, loaded },
        ) && history.loaded(i, history.events[i].key()) == Some((*value, loaded)),
{
    law_holds_the_value_loaded_last(history, i, history.events[i].key());
    history.config.lemma_reload_within_limit();
    assert(history.happened(i));
}

/// What was loaded is what is read: until another update ends under the key, and while no reload is
/// due, each request gets the loaded value, as of the time when it was stored.
pub proof fn law_read_gives_back_what_was_loaded<Loader: CacheLoader>(
    history: History<Loader>,
    i: int,
    j: int,
)
    requires
        history.valid(),
        history.config.stores(),
        !history.config.loads_always(),
        0 <= i < j < history.events.len(),
        history.events[i] is Finished,
        history.events[i]->res is Ok,
        history.events[j] is Request,
        history.events[j].key() == history.events[i].key(),
        !history.events[j]->force_reload,
        history.events[j]->age <= history.config.reload_nanos(),
        forall|k: int| i < k < j ==> !#[trigger] history.ends(k, history.events[i].key()),
    ensures
        history.starts(j) is None,
        history.events[j]->lookup.answer matches BroadcastOrValue::Value(
            ValueForRender::Success { value, loaded },
        ) && Ok::<_, LoadError>(*value) == history.events[i]->res && loaded
            == history.events[i]->stored_at,
        history.events[i]->announcement.value matches ValueForRender::Success { value, .. }
            && Ok::<_, LoadError>(*value) == history.events[i]->res,
{
    let key = history.events[i].key();
    assert(history.happened(i));
    assert(history.happened(j));
    lemma_keeps_value(history, i + 1, j, key);
    history.config.lemma_reload_within_limit();
}

/// A value that was the answer once is the answer again, with the same time, until another update
/// ends under the key or a reload is due: being read does not renew a value.
pub proof fn law_reading_does_not_renew<Loader: CacheLoader>(
    history: History<Loader>,
    i: int,
    j: int,
)
    requires
        history.valid(),
        0 <= i < j < history.events.len(),
        history.events[i] is Request,
        history.events[i]->lookup.answer is Value,
        history.events[j] is Request,
        history.events[j].key() == history.events[i].key(),
        !history.events[j]->force_reload,
        history.events[j]->age <= history.config.reload_nanos(),
        forall|k: int| i < k < j ==> !#[trigger] history.ends(k, history.events[i].key()),
    ensures
        history.starts(j) is None,
        history.events[j]->lookup.answer == history.events[i]->lookup.answer,
{
    let key = history.events[i].key();
    assert(history.happened(i));
    assert(history.happened(j));
    assert(!history.ends(i, key));
    lemma_keeps_value(history, i, j, key);
    history.config.lemma_reload_within_limit();
}

/// A hit is no newer than what came before it: once a request has got a value, at once or by
/// waiting for its load, each later one gets the same value without waiting or loading, as of the
/// same time or one before, until another update ends under the key or a reload is due. For a load,
/// this is so where the time of storing is not after the time of announcing.
pub proof fn law_hit_is_no_newer<Loader: CacheLoader>(
    history: History<Loader>,
    i: int,
    j: int,
    first: ValueForRender<Loader>,
)
    requires
        history.valid(),
        history.config.stores(),
        !history.config.loads_always(),
        0 <= i < j < history.events.len(),
        first is Success,
        match history.events[i] {
            Event::Request { lookup, .. } => lookup.answer == BroadcastOrValue::Value(first),
            Event::Finished { stored_at, announced_at, announcement, .. } => announcement.value
                == first && place_of(stored_at) <= place_of(announced_at),
            Event::Lost { .. } => false,
        },
        history.events[j] is Request,
        history.events[j].key() == history.events[i].key(),
        !history.events[j]->force_reload,
        history.events[j]->age <= history.config.reload_nanos(),
        forall|k: int| i < k < j ==> !#[trigger] history.ends(k, history.events[i].key()),
    ensures
        history.starts(j) is None,
        history.events[j]->lookup.answer matches BroadcastOrValue::Value(
            ValueForRender::Success { value, loaded },
        ) && value == first->value && place_of(loaded) <= place_of(first->loaded),
{
    assert(history.happened(i));
    if history.events[i] is Finished {
        law_read_gives_back_what_was_loaded(history, i, j);
    } else {
        law_reading_does_not_renew(history, i, j);
    }
}

/// Whoever asks for a new value always waits, is never answered with a value from the cache, and
/// starts an update unless one is running, which it then waits for.
pub proof fn law_new_value_is_always_waited_for<Loader: CacheLoader>(
    history: History<Loader>,
    i: int,
)
    requires
        history.valid(),
        0 <= i < history.events.len(),
        history.events[i] is Request,
        history.events[i]->force_reload,
    ensures
        history.events[i]->lookup.answer is Broadcast,
        history.config.loads_always() ==> history.starts(i) is Some,
        !history.config.loads_always() ==> {
            &&& (history.starts(i) is Some) == (history.running(i, history.events[i].key()) is None)
            &&& history.running(i + 1, history.events[i].key()) == Some(
                history.events[i]->lookup.answer->broadcast.channel(),
            )
        },
{
    assert(history.happened(i));
    if !history.config.loads_always() {
        law_tracks_the_running_update(history, i, history.events[i].key());
        law_waits_for_the_running_update(history, i);
    }
}

/// What a request for a new value gets is the outcome of a load that ends after it: of the update
/// that is running once the request is in, or of its own with the cache switched off.
pub proof fn law_new_value_comes_from_a_later_load<Loader: CacheLoader>(
    history: History<Loader>,
    i: int,
    j: int,
)
    requires
        history.valid(),
        0 <= i < j < history.events.len(),
        history.events[i] is Request,
        history.events[i]->force_reload,
        history.events[j] is Finished,
        if history.config.loads_always() {
            history.starts(i) == Some(history.events[j]->update)
        } else {
            &&& history.events[j].key() == history.events[i].key()
            &&& forall|k: int| i < k < j ==> !#[trigger] history.ends(k, history.events[i].key())
            &&& history.running(j, history.events[i].key()) == Some(
                history.events[j]->update.sender,
            )
        },
    ensures
        history.events[i]->lookup.answer matches BroadcastOrValue::Broadcast { broadcast, .. }
            && history.events[j]->announcement.sender == broadcast.channel(),
        match history.events[j]->res {
            Ok(value) => history.events[j]->announcement.value matches ValueForRender::Success {
                value: v,
                ..
            } && *v == value,
            Err(_) => history.events[j]->announcement.value is Error,
        },
{
    law_new_value_is_always_waited_for(history, i);
    assert(history.happened(j));
    if history.config.loads_always() {
        law_whoever_starts_an_update_is_told(history, i, j);
    } else {
        law_whoever_waits_is_told(history, i, j);
    }
}

/// Past its reload delay a value is still the answer while it is being reloaded, until it is too
/// old.
pub proof fn law_usable_value_is_the_answer_during_a_reload<Loader: CacheLoader>(
    history: History<Loader>,
    i: int,
)
    requires
        history.valid(),
        history.config.stores(),
        !history.config.loads_always(),
        0 <= i < history.events.len(),
        history.events[i] is Request,
        !history.events[i]->force_reload,
        history.loaded(i, history.events[i].key()) is Some,
        history.config.limit_nanos() matches Some(limit) ==> history.events[i]->age <= limit,
        history.running(i, history.events[i].key()) is Some,
    ensures
        history.starts(i) is None,
        history.events[i]->lookup.answer matches BroadcastOrValue::Value(
            ValueForRender::Success { value, loaded },
        ) && history.loaded(i, history.events[i].key()) == Some((*value, loaded)),
{
    law_holds_the_value_loaded_last(history, i, history.events[i].key());
    law_tracks_the_running_update(history, i, history.events[i].key());
    assert(history.happened(i));
}

/// Where no value is ever too old, a value that was loaded is the answer to every request that does
/// not ask for a new one, at any age, while an update is running under the key.
pub proof fn law_without_a_limit_reloads_are_not_waited_for<Loader: CacheLoader>(
    history: History<Loader>,
    i: int,
)
    requires
        history.valid(),
        history.config.stores(),
        !history.config.loads_always(),
        history.config.limit_nanos() is None,
        0 <= i < history.events.len(),
        history.events[i] is Request,
        !history.events[i]->force_reload,
        history.loaded(i, history.events[i].key()) is Some,
        history.running(i, history.events[i].key()) is Some,
    ensures
        history.starts(i) is None,
        history.events[i]->lookup.answer matches BroadcastOrValue::Value(
            ValueForRender::Success { value, loaded },
        ) && history.loaded(i, history.events[i].key()) == Some((*value, loaded)),
{
    law_usable_value_is_the_answer_during_a_reload(history, i);
}

/// A request that finds nothing loaded, or a value that is too old, or that asks for a new one,
/// waits for an update; one that finds a value due for a reload with no update running waits too,
/// for the update that it starts. The value that it found is at hand in case no reply comes; only a
/// request for a new value leaves one aside that is not too old.
pub proof fn law_everyone_else_waits<Loader: CacheLoader>(history: History<Loader>, i: int)
    requires
        history.valid(),
        history.config.stores(),
        !history.config.loads_always(),
        0 <= i < history.events.len(),
        history.events[i] is Request,
        ({
            let key = history.events[i].key();
            ||| history.events[i]->force_reload
            ||| history.loaded(i, key) is None
            ||| history.config.limit_nanos() matches Some(limit) && history.events[i]->age > limit
            ||| history.events[i]->age > history.config.reload_nanos() && history.running(
                i,
                key,
            ) is None
        }),
    ensures
        (history.starts(i) is Some) == (history.running(i, history.events[i].key()) is None),
        history.events[i]->lookup.answer matches BroadcastOrValue::Broadcast { stale_cache, .. }
            && if history.events[i]->force_reload && !(
        history.config.limit_nanos() matches Some(limit) && history.events[i]->age > limit) {
            stale_cache is None
        } else {
            is_loaded(stale_cache, history.loaded(i, history.events[i].key()))
        },
{
    law_holds_the_value_loaded_last(history, i, history.events[i].key());
    law_tracks_the_running_update(history, i, history.events[i].key());
    assert(history.happened(i));
}

/// A load that fails takes nothing away: the value loaded before it stays.
pub proof fn law_failed_load_keeps_the_value<Loader: CacheLoader>(history: History<Loader>, i: int)
    requires
        history.valid(),
        history.config.stores(),
        0 <= i < history.events.len(),
        history.events[i] is Finished,
        history.events[i]->res is Err,
    ensures
        history.slot(i + 1, history.events[i].key()).latest == history.slot(
            i,
            history.events[i].key(),
        ).latest,
        history.loaded(i + 1, history.events[i].key()) == history.loaded(
            i,
            history.events[i].key(),
        ),
{
    assert(history.happened(i));
}

/// Where a stale value will do, an update comes to an error only if no value was loaded before it
/// and the load fails: if a value was loaded before, that is the answer to a failed load, for all
/// who waited for the update. Only an update that was started to replace a value that is not too
/// old does not fall back on it.
pub proof fn law_stale_value_answers_a_failed_load<Loader: CacheLoader>(
    history: History<Loader>,
    i: int,
    j: int,
)
    requires
        history.valid(),
        history.config.stores(),
        !history.config.loads_always(),
        0 <= i < j < history.events.len(),
        history.events[i] is Request,
        history.events[i]->force_reload ==> (history.config.limit_nanos() matches Some(limit)
            && history.events[i]->age > limit),
        history.events[j] is Finished,
        history.starts(i) == Some(history.events[j]->update),
    ensures
        ({
            let answer = history.events[j]->announcement.value.allow_stale();
            match history.events[j]->res {
                Ok(value) => answer matches ValueForRender::Success { value: v, .. } && *v == value,
                Err(_) => match history.loaded(i, history.events[i].key()) {
                    Some(loaded) => answer matches ValueForRender::Success { value, loaded: at }
                        && loaded == (*value, at),
                    None => answer is Error,
                },
            }
        }),
{
    law_holds_the_value_loaded_last(history, i, history.events[i].key());
    assert(history.happened(i));
    assert(history.happened(j));
}

/// With the cache switched off, every request loads for itself: it starts an update of its own,
/// waits for that one, has nothing to fall back on, and changes nothing. No update is tracked.
pub proof fn law_switched_off_cache_always_loads<Loader: CacheLoader>(
    history: History<Loader>,
    n: int,
    key: Loader::Key,
)
    requires
        history.valid(),
        history.config.loads_always(),
        0 <= n <= history.events.len(),
    ensures
        history.slot(n, key).broadcast is None,
        n < history.events.len() ==> (history.events[n] matches Event::Request { key, lookup, .. }
            ==> is_new_broadcast(key, lookup) && history.states[n + 1] == history.states[n]),
    decreases n,
{
    if n > 0 {
        law_switched_off_cache_always_loads(history, n - 1, key);
        assert(history.happened(n - 1));
    }
    if n < history.events.len() {
        assert(history.happened(n));
    }
}

/// With the cache switched off, what a request gets is the outcome of its own load: the value if it
/// succeeds, and else an error that has nothing to fall back on, even if a value is stored.
pub proof fn law_switched_off_cache_gives_its_own_load<Loader: CacheLoader>(
    history: History<Loader>,
    i: int,
    j: int,
)
    requires
        history.valid(),
        history.config.loads_always(),
        0 <= i < j < history.events.len(),
        history.events[i] is Request,
        history.events[j] is Finished,
        history.starts(i) matches Some(update) ==> history.events[j]->update == update,
    ensures
        history.starts(i) is Some,
        history.events[i]->lookup.answer matches BroadcastOrValue::Broadcast { broadcast, .. }
            && history.events[j]->announcement.sender == broadcast.channel(),
        match history.events[j]->res {
            Ok(value) => history.events[j]->announcement.value matches ValueForRender::Success {
                value: v,
                ..
            } && *v == value,
            Err(_) => history.events[j]->announcement.value matches ValueForRender::Error {
                stale_cache,
                ..
            } && stale_cache is None,
        },
{
    assert(history.happened(i));
    assert(history.happened(j));
    law_whoever_starts_an_update_is_told(history, i, j);
}

/// Whether one use of a value is no better than another.
pub open spec fn no_better<Loader: CacheLoader>(
    one: UseLatest<Loader>,
    other: UseLatest<Loader>,
) -> bool {
    match other {
        UseLatest::UseNoReload(_) => true,
        UseLatest::UseAndReload(_) => !(one is UseNoReload),
        UseLatest::StaleValue(_) => one is StaleValue,
        UseLatest::NoValue => one is NoValue,
    }
}

/// A value only ever gets less useful as it ages: first it needs no reload, then it needs one, then
/// it is stale. It is never stale before it needs a reload.
pub proof fn law_values_only_get_older<Loader: CacheLoader>(
    latest: Latest<Loader>,
    config: AsyncLoaderConfig,
    young: nat,
    old_age: nat,
)
    requires
        config.inv(),
        young <= old_age,
    ensures
        no_better(latest.usability(config, old_age), latest.usability(config, young)),
        latest.usability(config, 0) is UseNoReload,
        young <= config.reload_nanos() ==> latest.usability(config, young) is UseNoReload,
{
    config.lemma_reload_within_limit();
}

/// Clients are let keep a response for as many whole seconds as are left until a reload is due, and
/// never past that.
pub proof fn law_clients_keep_until_a_reload_is_due(
    base: Response<Body>,
    reload: nat,
    age: nat,
    res: Response<Body>,
)
    requires
        is_cached_response(base, reload, age, res),
        age <= reload,
        header_values(response_headers(base)).dom().len() < HEADER_NAMES_ROOM,
    ensures
        response_status(res) == response_status(base),
        exists|secs: nat|
            header_values(response_headers(res))["cache-control"@] == seq![
                encode_utf8(#[trigger] cache_control(secs)),
            ] && age + secs * NANOS_PER_SEC <= reload < age + (secs + 1) * NANOS_PER_SEC,
{
    let secs = ((reload - age) as nat) / (NANOS_PER_SEC as nat);
    assert(header_values(response_headers(res))["cache-control"@] == seq![
        encode_utf8(cache_control(secs)),
    ]);
}

/// An error is answered with its own status, and no client is let keep the answer.
pub proof fn law_errors_are_not_kept<Loader: CacheLoader>(
    value: ValueForRender<Loader>,
    config: AsyncLoaderConfig,
    res: Response<Body>,
)
    requires
        value is Error,
        value.answered_by(config, res),
    ensures
        response_status(res) == value->status,
        !header_values(response_headers(res)).contains_key("cache-control"@),
{
    reveal_strlit("cache-control");
    reveal_strlit("content-type");
    assert("cache-control"@.len() != "content-type"@.len());
}

} // verus!
