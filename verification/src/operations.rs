//! What each operation comes to, said of its inputs and its results alone.
use crate::clock::{may_be_age, may_be_readings, place_of};
use crate::config::{AsyncLoaderBuilder, AsyncLoaderConfig, StaleDelay};
use crate::duration::Duration;
use crate::laws::Event;
use crate::loader::{
    Announcement, AsyncLoader, BroadcastOrValue, Inner, InnerMut, LoaderMetric, Lookup, Update,
};
use crate::response::{
    header_values, response_headers, response_status, status_number, text_response,
    with_cache_control, with_headers,
};
use crate::text::decimal_text;
use crate::value::{CacheLoader, ErrorResponse, Latest, LoadError, UseLatest, ValueForRender};
use axum::body::Body;
use axum::http::Response;
use std::sync::Arc;
use std::time::Instant;
use vstd::prelude::*;
use vstd::std_specs::hash::obeys_key_model;
use vstd::utf8::encode_utf8;

verus! {

/// A span is as many nanoseconds as it was made of, and gives back whole seconds and a rest below
/// one second that make it up. Every span up to the longest can be made.
pub proof fn law_span_is_made_of_its_parts(
    secs: u64,
    nanos: u32,
    span: Duration,
    whole: u64,
    rest: u32,
)
    requires
        call_ensures(Duration::new, (secs, nanos), span),
        call_ensures(Duration::as_secs, (&span,), whole),
        call_ensures(Duration::subsec_nanos, (&span,), rest),
    ensures
        span@ == secs * 1_000_000_000 + nanos,
        whole * 1_000_000_000 + rest == secs * 1_000_000_000 + nanos,
        rest < 1_000_000_000,
{
}

/// A span can be made of any number of seconds and any rest below one second.
pub proof fn law_every_span_can_be_made(secs: u64, nanos: u32)
    requires
        secs * 1_000_000_000 + nanos <= u64::MAX * 1_000_000_000 + 999_999_999,
    ensures
        call_requires(Duration::new, (secs, nanos)),
{
}

/// A span of whole seconds has no rest.
pub proof fn law_span_of_whole_seconds(secs: u64, span: Duration, whole: u64, rest: u32)
    requires
        call_ensures(Duration::from_secs, (secs,), span),
        call_ensures(Duration::as_secs, (&span,), whole),
        call_ensures(Duration::subsec_nanos, (&span,), rest),
    ensures
        span@ == secs * 1_000_000_000,
        whole == secs,
        rest == 0,
{
}

/// Two spans add up, unless they are too long together; taking one away again gives the other.
pub proof fn law_spans_add_up(
    one: Duration,
    other: Duration,
    sum: Option<Duration>,
    rest: Option<Duration>,
)
    requires
        call_ensures(Duration::checked_add, (one, other), sum),
        sum matches Some(sum) ==> call_ensures(Duration::checked_sub, (sum, other), rest),
    ensures
        sum is Some <==> one@ + other@ <= u64::MAX * 1_000_000_000 + 999_999_999,
        sum matches Some(sum) ==> sum@ == one@ + other@ && (rest matches Some(rest) && rest@
            == one@),
{
}

/// A span can be taken from one that is at least as long, and what is left is the difference; one
/// span exceeds another exactly if there is something left and not nothing.
pub proof fn law_spans_are_compared_by_length(
    one: Duration,
    other: Duration,
    rest: Option<Duration>,
    exceeds: bool,
)
    requires
        call_ensures(Duration::checked_sub, (one, other), rest),
        call_ensures(Duration::exceeds, (&one, &other), exceeds),
    ensures
        rest is Some <==> other@ <= one@,
        rest matches Some(rest) ==> rest@ + other@ == one@,
        exceeds <==> one@ > other@,
        exceeds <==> (rest matches Some(rest) && rest@ > 0),
{
}

/// The built settings' reload delay is the given one, or a minute.
pub proof fn law_reload_delay_is_given_or_a_minute(
    builder: AsyncLoaderBuilder,
    config: AsyncLoaderConfig,
)
    requires
        call_ensures(AsyncLoaderConfig::from, (&builder,), config),
    ensures
        builder.reload_delay matches Some(delay) ==> config.reload_nanos() == delay@,
        builder.reload_delay is None ==> config.reload_nanos() == 60 * 1_000_000_000,
{
}

/// By default, a value is too old past twice the age at which it is due for a reload.
pub proof fn law_default_limit_is_twice_the_reload_delay(
    builder: AsyncLoaderBuilder,
    config: AsyncLoaderConfig,
)
    requires
        call_ensures(AsyncLoaderConfig::from, (&builder,), config),
        builder.stale_delay is Default,
    ensures
        config.limit_nanos() == Some((2 * config.reload_nanos()) as nat),
{
}

/// A stale delay that is given comes on top of the reload delay: a value is too old exactly that
/// long after it was due for a reload.
pub proof fn law_stale_delay_comes_on_top(
    builder: AsyncLoaderBuilder,
    config: AsyncLoaderConfig,
    delay: Duration,
)
    requires
        call_ensures(AsyncLoaderConfig::from, (&builder,), config),
        builder.stale_delay == StaleDelay::Duration(delay),
    ensures
        config.limit_nanos() matches Some(limit) && limit - config.reload_nanos() == delay@,
{
}

/// There is a limit past which values are too old, unless stale values are allowed.
pub proof fn law_only_allow_stale_has_no_limit(
    builder: AsyncLoaderBuilder,
    config: AsyncLoaderConfig,
)
    requires
        call_ensures(AsyncLoaderConfig::from, (&builder,), config),
    ensures
        config.limit_nanos() is None <==> builder.stale_delay is AllowStale,
{
}

/// The switches are taken over as they are, each for itself.
pub proof fn law_switches_are_taken_over(
    builder: AsyncLoaderBuilder,
    config: AsyncLoaderConfig,
    store: bool,
    disable: bool,
)
    requires
        call_ensures(AsyncLoaderConfig::from, (&builder,), config),
        call_ensures(AsyncLoaderConfig::store_cache, (&config,), store),
        call_ensures(AsyncLoaderConfig::disable_loader, (&config,), disable),
    ensures
        store == builder.store_cache,
        config.stores() == builder.store_cache,
        disable == builder.disable_loader,
        config.loads_always() == builder.disable_loader,
{
}

/// Settings tell the two ages by which values are judged.
pub proof fn law_settings_tell_their_delays(
    config: AsyncLoaderConfig,
    reload: Duration,
    limit: Option<Duration>,
)
    requires
        call_ensures(AsyncLoaderConfig::reload_delay, (&config,), reload),
        call_ensures(AsyncLoaderConfig::reload_and_stale_delay, (&config,), limit),
    ensures
        reload@ == config.reload_nanos(),
        limit is Some <==> config.limit_nanos() is Some,
        limit matches Some(limit) ==> config.limit_nanos() == Some(limit@) && reload@ <= limit@,
{
}

/// Unless it is given, the stale delay is the default one.
pub proof fn law_stale_delay_is_default(delay: StaleDelay)
    requires
        call_ensures(<StaleDelay as Default>::default, (), delay),
    ensures
        delay is Default,
{
}

/// A loader can be built exactly if its delays do not overflow when added up.
pub proof fn law_built_unless_delays_overflow<Loader: CacheLoader>(
    builder: AsyncLoaderBuilder,
    loader: Loader,
    fit: bool,
)
    requires
        call_ensures(AsyncLoaderBuilder::can_build, (&builder,), fit),
    ensures
        ({
            let reload: nat = match builder.reload_delay {
                Some(delay) => delay@,
                None => 60_000_000_000,
            };
            let more: nat = match builder.stale_delay {
                StaleDelay::Default => reload,
                StaleDelay::Duration(delay) => delay@,
                StaleDelay::AllowStale => 0,
            };
            fit <==> builder.stale_delay is AllowStale || reload + more <= u64::MAX * 1_000_000_000
                + 999_999_999
        }),
        fit ==> call_requires(AsyncLoaderConfig::from, (&builder,)),
        fit ==> call_requires(AsyncLoaderBuilder::build::<Loader>, (&builder, loader)),
{
}

/// A loader is built with the settings of its builder and the source that it is given, and knows
/// nothing yet. What it tells of its settings and its source is that.
pub proof fn law_built_as_told<Loader: CacheLoader>(
    builder: AsyncLoaderBuilder,
    source: Loader,
    loader: AsyncLoader<Loader>,
    config: AsyncLoaderConfig,
    told: &AsyncLoaderConfig,
    told_source: &Loader,
)
    requires
        call_ensures(AsyncLoaderBuilder::build::<Loader>, (&builder, source), loader),
        call_ensures(AsyncLoaderConfig::from, (&builder,), config),
        call_ensures(AsyncLoader::<Loader>::get_cacher_config, (&loader,), told),
        call_ensures(Inner::<Loader>::loader, (&loader.inner,), told_source),
    ensures
        loader.inner.slots() == Map::<Loader::Key, InnerMut<Loader>>::empty(),
        *told == loader.inner.settings(),
        told.reload_nanos() == config.reload_nanos(),
        told.limit_nanos() == config.limit_nanos(),
        told.stores() == builder.store_cache,
        told.loads_always() == builder.disable_loader,
        *told_source == source,
        loader.inner.source() == source,
{
}

/// How old a value may be found to be is the whole time from when it was loaded to some reading of
/// the clock, to the nanosecond; a reading that is not later makes it no age at all.
pub proof fn law_age_is_the_whole_time(start: Instant, age: nat)
    requires
        may_be_age(start, age),
    ensures
        exists|now: Instant|
            age == if #[trigger] place_of(now) > place_of(start) {
                place_of(now) - place_of(start)
            } else {
                0
            },
        age <= u64::MAX * 1_000_000_000 + 999_999_999,
{
    crate::clock::lemma_age_is_a_time_that_passed(start, age);
}

/// A value is judged by its age alone: past the limit, where there is one, it is stale, else past
/// the reload delay it is used and reloaded, else it is used. Either way it is the value itself, as
/// of the time when it was loaded.
pub proof fn law_value_is_judged_by_its_age<Loader: CacheLoader>(
    latest: Latest<Loader>,
    config: AsyncLoaderConfig,
    age: Duration,
    used: UseLatest<Loader>,
)
    requires
        call_ensures(Latest::<Loader>::can_use_at, (&latest, &config, age), used),
    ensures
        used is StaleValue <==> (config.limit_nanos() matches Some(limit) && age@ > limit),
        used is UseAndReload <==> age@ > config.reload_nanos() && (
        config.limit_nanos() matches Some(limit) ==> age@ <= limit),
        used is UseNoReload <==> age@ <= config.reload_nanos() && (
        config.limit_nanos() matches Some(limit) ==> age@ <= limit),
        used matches UseLatest::StaleValue(stale) ==> stale.value == latest.value && stale.loaded
            == latest.loaded,
        used matches UseLatest::UseAndReload(value) ==> (value matches ValueForRender::Success {
            value: v,
            loaded,
        } && v == latest.value && loaded == latest.loaded),
        used matches UseLatest::UseNoReload(value) ==> (value matches ValueForRender::Success {
            value: v,
            loaded,
        } && v == latest.value && loaded == latest.loaded),
{
}

/// Judged now, a value is judged by an age that the clock may find it to have.
pub proof fn law_value_is_judged_by_the_clock<Loader: CacheLoader>(
    latest: Latest<Loader>,
    config: AsyncLoaderConfig,
    used: UseLatest<Loader>,
)
    requires
        call_ensures(Latest::<Loader>::can_use, (&latest, &config), used),
    ensures
        exists|age: nat|
            {
                &&& #[trigger] may_be_age(latest.loaded, age)
                &&& used is StaleValue <==> (config.limit_nanos() matches Some(limit) && age
                    > limit)
                &&& used is UseAndReload <==> age > config.reload_nanos() && (
                config.limit_nanos() matches Some(limit) ==> age <= limit)
                &&& used is UseNoReload <==> age <= config.reload_nanos() && (
                config.limit_nanos() matches Some(limit) ==> age <= limit)
            },
        used matches UseLatest::StaleValue(stale) ==> stale.value == latest.value && stale.loaded
            == latest.loaded,
        used matches UseLatest::UseAndReload(value) ==> (value matches ValueForRender::Success {
            value: v,
            loaded,
        } && v == latest.value && loaded == latest.loaded),
        used matches UseLatest::UseNoReload(value) ==> (value matches ValueForRender::Success {
            value: v,
            loaded,
        } && v == latest.value && loaded == latest.loaded),
{
    let age = choose|age: nat|
        may_be_age(latest.loaded, age) && used == #[trigger] latest.usability(config, age);
    assert(may_be_age(latest.loaded, age));
}

/// Copies are equal to what they were made from.
pub proof fn law_copies_are_equal<Loader: CacheLoader>(
    latest: Latest<Loader>,
    latest_copy: Latest<Loader>,
    value: ValueForRender<Loader>,
    value_copy: ValueForRender<Loader>,
    error: ErrorResponse,
    error_copy: ErrorResponse,
)
    requires
        cloned(latest, latest_copy),
        cloned(value, value_copy),
        cloned(error, error_copy),
    ensures
        latest_copy == latest,
        value_copy == value,
        error_copy == error,
{
}

/// The text of an error that says with what response to answer is its message.
pub proof fn law_error_reads_as_its_message(error: ErrorResponse, text: String)
    requires
        call_ensures(ErrorResponse::to_string, (&error,), text),
    ensures
        text@ == error.message@,
{
}

/// Each case is called by its name.
pub proof fn law_cases_have_names<Loader: CacheLoader>(
    used: UseLatest<Loader>,
    used_label: &'static str,
    answer: BroadcastOrValue<Loader>,
    answer_label: &'static str,
)
    requires
        call_ensures(UseLatest::<Loader>::label, (&used,), used_label),
        call_ensures(BroadcastOrValue::<Loader>::label, (&answer,), answer_label),
    ensures
        used is NoValue ==> used_label@ == "NoValue"@,
        used is StaleValue ==> used_label@ == "StaleValue"@,
        used is UseAndReload ==> used_label@ == "UseAndReload"@,
        used is UseNoReload ==> used_label@ == "UseNoReload"@,
        answer is Broadcast ==> answer_label@ == "Broadcast"@,
        answer is Value ==> answer_label@ == "value"@,
{
}

/// Whoever waited gets the reply, whatever it is; if none came, an internal error of the server,
/// with what the request had to fall back on.
pub proof fn law_reply_is_passed_on<Loader: CacheLoader>(
    reply: Option<ValueForRender<Loader>>,
    stale_cache: Option<Latest<Loader>>,
    value: ValueForRender<Loader>,
)
    requires
        call_ensures(ValueForRender::<Loader>::from_reply, (reply, stale_cache), value),
    ensures
        reply matches Some(reply) ==> value == reply,
        reply is None ==> (value matches ValueForRender::Error {
            message,
            status,
            stale_cache: kept,
        } && (*message)@ == "Internal error detected: broadcast channel is gone"@
            && status_number(status) == 500 && kept == stale_cache),
{
}

/// Where a stale value will do, one that is at hand stands in for an error, as of the time when it
/// was loaded. All else stays as it is.
pub proof fn law_stale_value_stands_in<Loader: CacheLoader>(
    result: ValueForRender<Loader>,
    value: ValueForRender<Loader>,
    value_or_error: Result<Arc<Loader::Output>, Arc<str>>,
)
    requires
        call_ensures(AsyncLoader::<Loader>::get_value_allow_stale, (result,), value),
        call_ensures(AsyncLoader::<Loader>::get_value_or_error, (result,), value_or_error),
    ensures
        match result {
            ValueForRender::Success { value: loaded_value, loaded } => {
                &&& value == result
                &&& value_or_error == Ok::<_, Arc<str>>(loaded_value)
            },
            ValueForRender::Error { message, status, stale_cache: Some(stale) } => {
                &&& value matches ValueForRender::Success { value: v, loaded: at }
                &&& v == stale.value
                &&& at == stale.loaded
                &&& value_or_error == Ok::<_, Arc<str>>(stale.value)
            },
            ValueForRender::Error { message, status, stale_cache: None } => {
                &&& value == result
                &&& value_or_error == Err::<Arc<Loader::Output>, _>(message)
            },
        },
{
}

/// The number that a text reads as in base ten, from left to right.
pub open spec fn read_decimal(text: Seq<char>) -> int
    decreases text.len(),
{
    if text.len() == 0 {
        0
    } else {
        10 * read_decimal(text.drop_last()) + (text.last() as int - '0' as int)
    }
}

/// Whether a text is a number as it is written: digits, at least one, and no zero before others.
pub open spec fn is_written_number(text: Seq<char>) -> bool {
    &&& text.len() > 0
    &&& forall|i: int| 0 <= i < text.len() ==> '0' <= #[trigger] text[i] <= '9'
    &&& text.len() > 1 ==> text[0] != '0'
}

/// A number in decimal reads as that number.
proof fn lemma_decimal_reads_back(n: nat)
    ensures
        is_written_number(crate::text::decimal(n)),
        read_decimal(crate::text::decimal(n)) == n,
        n > 0 ==> crate::text::decimal(n)[0] != '0',
    decreases n,
{
    let text = crate::text::decimal(n);
    if n < 10 {
        assert(text.drop_last() =~= Seq::<char>::empty());
        assert(read_decimal(text.drop_last()) == 0);
    } else {
        lemma_decimal_reads_back(n / 10);
        assert(text.drop_last() =~= crate::text::decimal(n / 10));
        assert(text[0] == crate::text::decimal(n / 10)[0]);
        assert forall|i: int| 0 <= i < text.len() implies '0' <= #[trigger] text[i] <= '9' by {
            if i < text.len() - 1 {
                assert(text[i] == crate::text::decimal(n / 10)[i]);
            }
        }
    }
}

/// A number is written so that it reads as that number.
pub proof fn law_number_reads_back(n: u64, text: String)
    requires
        call_ensures(decimal_text, (n,), text),
    ensures
        is_written_number(text@),
        read_decimal(text@) == n,
{
    lemma_decimal_reads_back(n as nat);
}

/// A number is written digit by digit: the text for its tens, if there are any, followed by the
/// digit for its ones.
pub proof fn law_number_is_written_digit_by_digit(n: u64, text: String, tens: String)
    requires
        call_ensures(decimal_text, (n,), text),
        call_ensures(decimal_text, ((n / 10) as u64,), tens),
    ensures
        text@.len() > 0,
        text@.last() as int == '0' as int + n % 10,
        n < 10 ==> text@.len() == 1,
        n >= 10 ==> text@.drop_last() == tens@,
{
    if n >= 10 {
        assert(text@.drop_last() =~= tens@);
    }
}

/// What the header says is what the response was made with, and how long that is.
proof fn lemma_header_says_how_long(
    base: Response<Body>,
    reload: nat,
    age: nat,
    res: Response<Body>,
)
    requires
        crate::response::is_cached_response(base, reload, age, res),
        age <= reload,
        header_values(response_headers(res)) != header_values(response_headers(base))
            || header_values(response_headers(base)).dom().len() < 6554,
    ensures
        exists|digits: Seq<char>|
            {
                &&& #[trigger] is_written_number(digits)
                &&& header_values(response_headers(res))["cache-control"@] == seq![
                    encode_utf8("public, max-age="@ + digits),
                ]
                &&& age + read_decimal(digits) * 1_000_000_000 <= reload
                &&& reload < age + (read_decimal(digits) + 1) * 1_000_000_000
            },
{
    let secs = ((reload - age) as nat) / 1_000_000_000;
    let digits = crate::text::decimal(secs);
    lemma_decimal_reads_back(secs);
    assert(is_written_number(digits));
    assert(header_values(response_headers(res))["cache-control"@] == seq![
        encode_utf8("public, max-age="@ + digits),
    ]);
}

/// Until a reload is due, clients are let keep a response for the whole seconds that are left, as
/// can be read off the header in base ten; past that, the response is as it was. The status and all
/// other headers stay. Only a response with very many headers may be left without this one.
pub proof fn law_clients_read_how_long_to_keep(
    base: Response<Body>,
    config: AsyncLoaderConfig,
    age: Duration,
    res: Response<Body>,
)
    requires
        call_ensures(with_cache_control, (base, &config, age), res),
    ensures
        age@ > config.reload_nanos() ==> res == base,
        age@ <= config.reload_nanos() ==> res == with_headers(base, response_headers(res))
            && response_status(res) == response_status(base),
        forall|name: Seq<char>|
            name != "cache-control"@ ==> {
                &&& #[trigger] header_values(response_headers(res)).contains_key(name)
                    == header_values(response_headers(base)).contains_key(name)
                &&& header_values(response_headers(base)).contains_key(name) ==> header_values(
                    response_headers(res),
                )[name] == header_values(response_headers(base))[name]
            },
        age@ <= config.reload_nanos() && header_values(response_headers(base)).dom().len() < 6554
            ==> {
            &&& header_values(response_headers(res)).contains_key("cache-control"@)
            &&& exists|digits: Seq<char>|
                {
                    &&& #[trigger] is_written_number(digits)
                    &&& header_values(response_headers(res))["cache-control"@] == seq![
                        encode_utf8("public, max-age="@ + digits),
                    ]
                    &&& age@ + read_decimal(digits) * 1_000_000_000 <= config.reload_nanos()
                    &&& config.reload_nanos() < age@ + (read_decimal(digits) + 1) * 1_000_000_000
                }
        },
{
    if age@ <= config.reload_nanos() && header_values(response_headers(base)).dom().len() < 6554 {
        lemma_header_says_how_long(base, config.reload_nanos(), age@, res);
    }
}

/// The header names the whole seconds as the decimal text of that number.
pub proof fn law_header_holds_the_seconds_in_decimal(
    base: Response<Body>,
    config: AsyncLoaderConfig,
    age: Duration,
    res: Response<Body>,
    secs: u64,
    text: String,
)
    requires
        call_ensures(with_cache_control, (base, &config, age), res),
        call_ensures(decimal_text, (secs,), text),
        age@ + secs * 1_000_000_000 <= config.reload_nanos(),
        config.reload_nanos() < age@ + (secs + 1) * 1_000_000_000,
        header_values(response_headers(base)).dom().len() < 6554,
    ensures
        header_values(response_headers(res))["cache-control"@] == seq![
            encode_utf8("public, max-age="@ + text@),
        ],
{
    let left = (config.reload_nanos() - age@) as nat;
    assert(left / 1_000_000_000 == secs) by (nonlinear_arith)
        requires
            secs * 1_000_000_000 <= left < (secs + 1) * 1_000_000_000,
    ;
}

/// What a request came to is answered as it is: a value with the response that the loader makes of
/// it, which clients are let keep until a reload is due, by an age that the clock may find it to
/// have; an error with its status, and its message as plain text. Where a stale value will do, one
/// that is at hand is answered in the place of an error.
pub proof fn law_response_answers_the_value<Loader: CacheLoader>(
    loader: AsyncLoader<Loader>,
    config: AsyncLoaderConfig,
    came_to: ValueForRender<Loader>,
    answered: ValueForRender<Loader>,
    res: Response<Body>,
)
    requires
        ({
            ||| answered == came_to && call_ensures(
                ValueForRender::<Loader>::into_response,
                (came_to, &config),
                res,
            )
            ||| answered == came_to && config == loader.inner.settings() && call_ensures(
                AsyncLoader::<Loader>::get_response,
                (&loader, came_to),
                res,
            )
            ||| config == loader.inner.settings() && call_ensures(
                AsyncLoader::<Loader>::get_response_allow_stale,
                (&loader, came_to),
                res,
            ) && answered == match came_to {
                ValueForRender::Error { message: _, status: _, stale_cache: Some(stale) } => (
                ValueForRender::Success { value: stale.value, loaded: stale.loaded }),
                _ => came_to,
            }
        }),
    ensures
        answered matches ValueForRender::Error { message, status, .. } ==> {
            &&& res == text_response(status, (*message)@)
            &&& response_status(res) == status
            &&& header_values(response_headers(res)) == map![
                "content-type"@ => seq![encode_utf8("text/plain; charset=utf-8"@)]
            ]
        },
        answered matches ValueForRender::Success { value, loaded } ==> exists|
            base: Response<Body>,
            age: nat,
        |
            {
                &&& #[trigger] call_ensures(Loader::into_response, (&*value,), base)
                &&& #[trigger] may_be_age(loaded, age)
                &&& age > config.reload_nanos() ==> res == base
                &&& age <= config.reload_nanos() ==> res == with_headers(
                    base,
                    response_headers(res),
                ) && response_status(res) == response_status(base)
                &&& forall|name: Seq<char>|
                    name != "cache-control"@ ==> {
                        &&& #[trigger] header_values(response_headers(res)).contains_key(name)
                            == header_values(response_headers(base)).contains_key(name)
                        &&& header_values(response_headers(base)).contains_key(name)
                            ==> header_values(response_headers(res))[name] == header_values(
                            response_headers(base),
                        )[name]
                    }
                &&& age <= config.reload_nanos() && header_values(
                    response_headers(base),
                ).dom().len() < 6554 ==> {
                    &&& header_values(response_headers(res)).contains_key("cache-control"@)
                    &&& exists|digits: Seq<char>|
                        {
                            &&& #[trigger] is_written_number(digits)
                            &&& header_values(response_headers(res))["cache-control"@] == seq![
                                encode_utf8("public, max-age="@ + digits),
                            ]
                            &&& age + read_decimal(digits) * 1_000_000_000 <= config.reload_nanos()
                            &&& config.reload_nanos() < age + (read_decimal(digits) + 1)
                                * 1_000_000_000
                        }
                }
            },
{
    assert(answered.answered_by(config, res));
    if let ValueForRender::Success { value, loaded } = answered {
        let (base, age) = choose|base: Response<Body>, age: nat|
            may_be_age(loaded, age) && call_ensures(Loader::into_response, (&*value,), base)
                && #[trigger] crate::response::is_cached_response(
                base,
                config.reload_nanos(),
                age,
                res,
            );
        assert(call_ensures(Loader::into_response, (&*value,), base));
        assert(may_be_age(loaded, age));
        if age <= config.reload_nanos() && header_values(response_headers(base)).dom().len()
            < 6554 {
            lemma_header_says_how_long(base, config.reload_nanos(), age, res);
        }
    }
}

/// The settings and the source of a loader stay through every operation.
pub proof fn law_settings_stay<Loader: CacheLoader>(
    loader: &mut AsyncLoader<Loader>,
    key: Loader::Key,
    age: Duration,
    update: Update<Loader>,
    res: Result<Loader::Output, LoadError>,
    stored_at: Instant,
    announced_at: Instant,
    lookup: Lookup<Loader>,
    announcement: Announcement<Loader>,
)
    requires
        ({
            ||| call_ensures(AsyncLoader::<Loader>::get_value, (loader, key), lookup)
            ||| call_ensures(AsyncLoader::<Loader>::get_value_at, (loader, key, age), lookup)
            ||| call_ensures(AsyncLoader::<Loader>::get_latest_value, (loader, key), lookup)
            ||| call_ensures(AsyncLoader::<Loader>::get_latest_value_at, (loader, key, age), lookup)
            ||| call_ensures(AsyncLoader::<Loader>::do_update, (loader, update, res), announcement)
            ||| call_ensures(
                AsyncLoader::<Loader>::do_update_at,
                (loader, update, res, stored_at, announced_at),
                announcement,
            )
            ||| call_ensures(AsyncLoader::<Loader>::lose_update, (loader, key), ())
        }),
    ensures
        final(loader).inner.settings() == old(loader).inner.settings(),
        final(loader).inner.source() == old(loader).inner.source(),
{
}

/// A request changes nothing but which update is tracked under its own key, and makes room for that
/// key. With the cache switched off it changes nothing at all.
pub proof fn law_request_leaves_the_rest_alone<Loader: CacheLoader>(
    loader: &mut AsyncLoader<Loader>,
    key: Loader::Key,
    force_reload: bool,
    age: Duration,
    lookup: Lookup<Loader>,
)
    requires
        obeys_key_model::<Loader::Key>(),
        forall|a: Loader::Key, b: Loader::Key| #[trigger] cloned(a, b) ==> a == b,
        ({
            ||| !force_reload && call_ensures(
                AsyncLoader::<Loader>::get_value,
                (loader, key),
                lookup,
            )
            ||| !force_reload && call_ensures(
                AsyncLoader::<Loader>::get_value_at,
                (loader, key, age),
                lookup,
            )
            ||| force_reload && call_ensures(
                AsyncLoader::<Loader>::get_latest_value,
                (loader, key),
                lookup,
            )
            ||| force_reload && call_ensures(
                AsyncLoader::<Loader>::get_latest_value_at,
                (loader, key, age),
                lookup,
            )
        }),
    ensures
        ({
            let before = old(loader).inner.slots();
            let after = final(loader).inner.slots();
            let config = old(loader).inner.settings();
            &&& forall|other: Loader::Key|
                other != key ==> {
                    &&& #[trigger] after.contains_key(other) == before.contains_key(other)
                    &&& before.contains_key(other) ==> after[other] == before[other]
                }
            &&& if config.loads_always() {
                after == before
            } else {
                &&& after.contains_key(key)
                &&& before.contains_key(key) ==> after[key].latest == before[key].latest
                &&& !before.contains_key(key) ==> after[key].latest is None
            }
        }),
{
}

/// A request is answered at once exactly if it does not ask for a new value and finds one that is
/// not past the limit, where there is one, and is not past the reload delay or is being reloaded.
/// The answer is that value, as of the time when it was loaded.
pub proof fn law_request_is_answered_at_once<Loader: CacheLoader>(
    loader: &mut AsyncLoader<Loader>,
    key: Loader::Key,
    force_reload: bool,
    age: Duration,
    lookup: Lookup<Loader>,
)
    requires
        obeys_key_model::<Loader::Key>(),
        forall|a: Loader::Key, b: Loader::Key| #[trigger] cloned(a, b) ==> a == b,
        if force_reload {
            call_ensures(AsyncLoader::<Loader>::get_latest_value_at, (loader, key, age), lookup)
        } else {
            call_ensures(AsyncLoader::<Loader>::get_value_at, (loader, key, age), lookup)
        },
    ensures
        ({
            let before = old(loader).inner.slots();
            let config = old(loader).inner.settings();
            &&& lookup.answer is Value <==> {
                &&& !force_reload
                &&& !config.loads_always()
                &&& before.contains_key(key)
                &&& before[key].latest is Some
                &&& config.limit_nanos() matches Some(limit) ==> age@ <= limit
                &&& age@ <= config.reload_nanos() || before[key].broadcast is Some
            }
            &&& lookup.answer matches BroadcastOrValue::Value(answer) ==> {
                &&& answer matches ValueForRender::Success { value, loaded }
                &&& value == before[key].latest->0.value
                &&& loaded == before[key].latest->0.loaded
            }
        }),
{
}

/// By the clock, a request is answered at once exactly if it does so at an age that the clock may
/// find the value to have.
pub proof fn law_request_is_answered_at_once_by_the_clock<Loader: CacheLoader>(
    loader: &mut AsyncLoader<Loader>,
    key: Loader::Key,
    lookup: Lookup<Loader>,
)
    requires
        obeys_key_model::<Loader::Key>(),
        forall|a: Loader::Key, b: Loader::Key| #[trigger] cloned(a, b) ==> a == b,
        call_ensures(AsyncLoader::<Loader>::get_value, (loader, key), lookup),
    ensures
        ({
            let before = old(loader).inner.slots();
            let config = old(loader).inner.settings();
            &&& if config.loads_always() || !before.contains_key(key)
                || before[key].latest is None {
                lookup.answer is Broadcast
            } else {
                exists|age: nat|
                    {
                        &&& #[trigger] may_be_age(before[key].latest->0.loaded, age)
                        &&& lookup.answer is Value <==> {
                            &&& config.limit_nanos() matches Some(limit) ==> age <= limit
                            &&& age <= config.reload_nanos() || before[key].broadcast is Some
                        }
                    }
            }
            &&& lookup.answer matches BroadcastOrValue::Value(answer) ==> {
                &&& answer matches ValueForRender::Success { value, loaded }
                &&& value == before[key].latest->0.value
                &&& loaded == before[key].latest->0.loaded
            }
        }),
{
    let age = choose|age: nat|
        crate::loader::slot_of(old(loader).inner.slots(), key).may_have_age(age)
            && #[trigger] crate::loader::is_request(
            old(loader).inner.slots(),
            old(loader).inner.settings(),
            key,
            false,
            age,
            final(loader).inner.slots(),
            lookup,
        );
    let before = old(loader).inner.slots();
    if before.contains_key(key) && before[key].latest is Some {
        assert(may_be_age(before[key].latest->0.loaded, age));
    }
}

/// A request starts an update exactly if it has to wait and none is running, or if the cache is
/// switched off. One that has to wait waits on the channel of the update that is then tracked: the
/// one that was running, or its own.
pub proof fn law_request_starts_an_update_or_joins_one<Loader: CacheLoader>(
    loader: &mut AsyncLoader<Loader>,
    key: Loader::Key,
    force_reload: bool,
    age: Duration,
    lookup: Lookup<Loader>,
)
    requires
        obeys_key_model::<Loader::Key>(),
        forall|a: Loader::Key, b: Loader::Key| #[trigger] cloned(a, b) ==> a == b,
        ({
            ||| !force_reload && call_ensures(
                AsyncLoader::<Loader>::get_value,
                (loader, key),
                lookup,
            )
            ||| !force_reload && call_ensures(
                AsyncLoader::<Loader>::get_value_at,
                (loader, key, age),
                lookup,
            )
            ||| force_reload && call_ensures(
                AsyncLoader::<Loader>::get_latest_value,
                (loader, key),
                lookup,
            )
            ||| force_reload && call_ensures(
                AsyncLoader::<Loader>::get_latest_value_at,
                (loader, key, age),
                lookup,
            )
        }),
    ensures
        ({
            let before = old(loader).inner.slots();
            let after = final(loader).inner.slots();
            let config = old(loader).inner.settings();
            let running = if before.contains_key(key) {
                before[key].broadcast
            } else {
                None
            };
            &&& lookup.update is Some <==> lookup.answer is Broadcast && (running is None
                || config.loads_always())
            &&& !config.loads_always() ==> {
                &&& running is Some ==> after[key].broadcast == running
                &&& running is None && lookup.update is None ==> after[key].broadcast is None
                &&& lookup.answer matches BroadcastOrValue::Broadcast { broadcast, .. }
                    ==> after[key].broadcast == Some(broadcast.channel())
            }
        }),
{
}

/// A request that has to wait has the value that it found at hand, if any; but one that asks for a
/// new value leaves aside a value that is not past the limit, and with the cache switched off there
/// is nothing.
pub proof fn law_request_has_what_it_found_at_hand<Loader: CacheLoader>(
    loader: &mut AsyncLoader<Loader>,
    key: Loader::Key,
    force_reload: bool,
    age: Duration,
    lookup: Lookup<Loader>,
)
    requires
        obeys_key_model::<Loader::Key>(),
        forall|a: Loader::Key, b: Loader::Key| #[trigger] cloned(a, b) ==> a == b,
        if force_reload {
            call_ensures(AsyncLoader::<Loader>::get_latest_value_at, (loader, key, age), lookup)
        } else {
            call_ensures(AsyncLoader::<Loader>::get_value_at, (loader, key, age), lookup)
        },
    ensures
        ({
            let before = old(loader).inner.slots();
            let config = old(loader).inner.settings();
            lookup.answer matches BroadcastOrValue::Broadcast { stale_cache, .. } ==> stale_cache
                == if config.loads_always() || !before.contains_key(key) || (force_reload && (
            config.limit_nanos() matches Some(limit) ==> age@ <= limit)) {
                None
            } else {
                before[key].latest
            }
        }),
{
}

/// By the clock, a request for a value has what it found at hand, and one for a new value has it at
/// hand if an age that the clock may find it to have is past the limit.
pub proof fn law_request_has_what_it_found_at_hand_by_the_clock<Loader: CacheLoader>(
    loader: &mut AsyncLoader<Loader>,
    key: Loader::Key,
    force_reload: bool,
    lookup: Lookup<Loader>,
)
    requires
        obeys_key_model::<Loader::Key>(),
        forall|a: Loader::Key, b: Loader::Key| #[trigger] cloned(a, b) ==> a == b,
        if force_reload {
            call_ensures(AsyncLoader::<Loader>::get_latest_value, (loader, key), lookup)
        } else {
            call_ensures(AsyncLoader::<Loader>::get_value, (loader, key), lookup)
        },
    ensures
        ({
            let before = old(loader).inner.slots();
            let config = old(loader).inner.settings();
            lookup.answer matches BroadcastOrValue::Broadcast { stale_cache, .. } ==> {
                if config.loads_always() || !before.contains_key(key)
                    || before[key].latest is None {
                    stale_cache is None
                } else {
                    exists|age: nat|
                        {
                            &&& #[trigger] may_be_age(before[key].latest->0.loaded, age)
                            &&& stale_cache == if force_reload && (
                            config.limit_nanos() matches Some(limit) ==> age <= limit) {
                                None
                            } else {
                                before[key].latest
                            }
                        }
                }
            }
        }),
{
    let age = choose|age: nat|
        crate::loader::slot_of(old(loader).inner.slots(), key).may_have_age(age)
            && #[trigger] crate::loader::is_request(
            old(loader).inner.slots(),
            old(loader).inner.settings(),
            key,
            force_reload,
            age,
            final(loader).inner.slots(),
            lookup,
        );
    let before = old(loader).inner.slots();
    if before.contains_key(key) && before[key].latest is Some {
        assert(may_be_age(before[key].latest->0.loaded, age));
    }
}

/// Whatever its key, a request that starts an update waits for that one, which is for its key and
/// has the same value to fall back on, on a channel for one message. One for a new value always
/// waits. With the cache switched off, each request loads for itself and changes nothing.
pub proof fn law_requests_under_any_key<Loader: CacheLoader>(
    loader: &mut AsyncLoader<Loader>,
    key: Loader::Key,
    force_reload: bool,
    age: Duration,
    lookup: Lookup<Loader>,
)
    requires
        ({
            ||| !force_reload && call_ensures(
                AsyncLoader::<Loader>::get_value,
                (loader, key),
                lookup,
            )
            ||| !force_reload && call_ensures(
                AsyncLoader::<Loader>::get_value_at,
                (loader, key, age),
                lookup,
            )
            ||| force_reload && call_ensures(
                AsyncLoader::<Loader>::get_latest_value,
                (loader, key),
                lookup,
            )
            ||| force_reload && call_ensures(
                AsyncLoader::<Loader>::get_latest_value_at,
                (loader, key, age),
                lookup,
            )
        }),
    ensures
        lookup.update matches Some(update) ==> {
            &&& update.key == key
            &&& lookup.answer matches BroadcastOrValue::Broadcast { broadcast, stale_cache }
            &&& broadcast.channel() == update.sender
            &&& broadcast.room() == 1
            &&& stale_cache == update.stale_cache
        },
        force_reload ==> lookup.answer is Broadcast,
        old(loader).inner.settings().loads_always() ==> {
            &&& final(loader).inner.slots() == old(loader).inner.slots()
            &&& lookup.update matches Some(update)
            &&& update.stale_cache is None
        },
{
}

/// A value that is not being reloaded is reloaded by the next request exactly if the time since it
/// was loaded is past the reload delay: the request then starts an update and waits for it, and is
/// answered with the value at once before that. The time is one that the clock may find to have
/// passed; if it can only find more than the reload delay, an update starts.
pub proof fn law_overdue_value_is_reloaded<Loader: CacheLoader>(
    loader: &mut AsyncLoader<Loader>,
    key: Loader::Key,
    lookup: Lookup<Loader>,
)
    requires
        obeys_key_model::<Loader::Key>(),
        forall|a: Loader::Key, b: Loader::Key| #[trigger] cloned(a, b) ==> a == b,
        call_ensures(AsyncLoader::<Loader>::get_value, (loader, key), lookup),
        !old(loader).inner.settings().loads_always(),
        old(loader).inner.settings().inv(),
        old(loader).inner.slots().contains_key(key),
        old(loader).inner.slots()[key].latest is Some,
        old(loader).inner.slots()[key].broadcast is None,
    ensures
        ({
            let before = old(loader).inner.slots();
            let config = old(loader).inner.settings();
            &&& exists|age: nat|
                {
                    &&& #[trigger] may_be_age(before[key].latest->0.loaded, age)
                    &&& age > config.reload_nanos() <==> lookup.update is Some
                    &&& age > config.reload_nanos() <==> lookup.answer is Broadcast
                }
            &&& (forall|age: nat| #[trigger]
                may_be_age(before[key].latest->0.loaded, age) ==> age > config.reload_nanos())
                ==> lookup.update is Some
        }),
{
    law_request_is_answered_at_once_by_the_clock(loader, key, lookup);
    old(loader).inner.settings().lemma_reload_within_limit();
}

/// As long as a value is not past the limit, a request that does not ask for a new one is answered
/// with it while it is being reloaded; without a limit, that is at any age.
pub proof fn law_value_is_used_while_it_is_reloaded<Loader: CacheLoader>(
    loader: &mut AsyncLoader<Loader>,
    key: Loader::Key,
    age: Duration,
    lookup: Lookup<Loader>,
)
    requires
        obeys_key_model::<Loader::Key>(),
        forall|a: Loader::Key, b: Loader::Key| #[trigger] cloned(a, b) ==> a == b,
        call_ensures(AsyncLoader::<Loader>::get_value_at, (loader, key, age), lookup),
        !old(loader).inner.settings().loads_always(),
        old(loader).inner.slots().contains_key(key),
        old(loader).inner.slots()[key].latest is Some,
        old(loader).inner.slots()[key].broadcast is Some,
    ensures
        lookup.update is None,
        lookup.answer is Value <==> (old(loader).inner.settings().limit_nanos() matches Some(limit)
            ==> age@ <= limit),
        old(loader).inner.settings().limit_nanos() is None ==> lookup.answer is Value,
{
}

/// The outcome of an update is taken in as it is, whatever the two times: a loader that stores
/// keeps a loaded value as of the time of storing, or else what it had, and tracks no update under
/// the key any more; one that does not store drops the key.
pub proof fn law_outcome_is_taken_in<Loader: CacheLoader>(
    loader: &mut AsyncLoader<Loader>,
    update: Update<Loader>,
    res: Result<Loader::Output, LoadError>,
    stored_at: Instant,
    announced_at: Instant,
    announcement: Announcement<Loader>,
)
    requires
        obeys_key_model::<Loader::Key>(),
        forall|a: Loader::Key, b: Loader::Key| #[trigger] cloned(a, b) ==> a == b,
        call_ensures(
            AsyncLoader::<Loader>::do_update_at,
            (loader, update, res, stored_at, announced_at),
            announcement,
        ),
    ensures
        ({
            let before = old(loader).inner.slots();
            let after = final(loader).inner.slots();
            let config = old(loader).inner.settings();
            &&& forall|other: Loader::Key|
                other != update.key ==> {
                    &&& #[trigger] after.contains_key(other) == before.contains_key(other)
                    &&& before.contains_key(other) ==> after[other] == before[other]
                }
            &&& after.contains_key(update.key) <==> config.stores()
            &&& config.stores() ==> {
                &&& after[update.key].broadcast is None
                &&& res matches Ok(value) ==> {
                    &&& after[update.key].latest matches Some(latest)
                    &&& *latest.value == value
                    &&& latest.loaded == stored_at
                }
                &&& res is Err && before.contains_key(update.key) ==> after[update.key].latest
                    == before[update.key].latest
                &&& res is Err && !before.contains_key(update.key)
                    ==> after[update.key].latest is None
            }
        }),
{
}

/// The outcome of an update is announced as it is on the update's own channel, whatever the key: a
/// value as of the time of announcing, an error with its own message and the status that it says,
/// or else that of an internal error of the server, whatever there is to fall back on; and what
/// there is, is handed on with every error.
pub proof fn law_outcome_is_announced<Loader: CacheLoader>(
    loader: &mut AsyncLoader<Loader>,
    update: Update<Loader>,
    res: Result<Loader::Output, LoadError>,
    stored_at: Instant,
    announced_at: Instant,
    announcement: Announcement<Loader>,
)
    requires
        ({
            ||| call_ensures(AsyncLoader::<Loader>::do_update, (loader, update, res), announcement)
            ||| call_ensures(
                AsyncLoader::<Loader>::do_update_at,
                (loader, update, res, stored_at, announced_at),
                announcement,
            )
        }),
    ensures
        announcement.sender == update.sender,
        res matches Ok(value) ==> (announcement.value matches ValueForRender::Success {
            value: v,
            ..
        } && *v == value),
        res matches Err(LoadError::Response(error)) ==> (announcement.value matches
            ValueForRender::Error { message, status, stale_cache } && status == error.status && (
        *message)@ == error.message@ && stale_cache == update.stale_cache),
        res matches Err(LoadError::Other(text)) ==> (announcement.value matches
            ValueForRender::Error { message, status, stale_cache } && status_number(status) == 500
            && (*message)@ == text@ && stale_cache == update.stale_cache),
        call_ensures(
            AsyncLoader::<Loader>::do_update_at,
            (loader, update, res, stored_at, announced_at),
            announcement,
        ) ==> (announcement.value matches ValueForRender::Success { loaded, .. } ==> loaded
            == announced_at),
{
}

/// By the clock, a value is stored as of a reading and announced as of a later one, and all else is
/// as at any two times.
pub proof fn law_outcome_is_taken_in_by_the_clock<Loader: CacheLoader>(
    loader: &mut AsyncLoader<Loader>,
    update: Update<Loader>,
    res: Result<Loader::Output, LoadError>,
    announcement: Announcement<Loader>,
)
    requires
        obeys_key_model::<Loader::Key>(),
        forall|a: Loader::Key, b: Loader::Key| #[trigger] cloned(a, b) ==> a == b,
        call_ensures(AsyncLoader::<Loader>::do_update, (loader, update, res), announcement),
    ensures
        ({
            let before = old(loader).inner.slots();
            let after = final(loader).inner.slots();
            let config = old(loader).inner.settings();
            &&& forall|other: Loader::Key|
                other != update.key ==> {
                    &&& #[trigger] after.contains_key(other) == before.contains_key(other)
                    &&& before.contains_key(other) ==> after[other] == before[other]
                }
            &&& after.contains_key(update.key) <==> config.stores()
            &&& config.stores() ==> {
                &&& after[update.key].broadcast is None
                &&& res matches Ok(value) ==> {
                    &&& after[update.key].latest matches Some(latest)
                    &&& *latest.value == value
                }
                &&& res is Err && before.contains_key(update.key) ==> after[update.key].latest
                    == before[update.key].latest
                &&& res is Err && !before.contains_key(update.key)
                    ==> after[update.key].latest is None
            }
            &&& res is Ok ==> exists|stored_at: Instant, announced_at: Instant|
                {
                    &&& #[trigger] may_be_readings(stored_at, announced_at)
                    &&& place_of(stored_at) <= place_of(announced_at)
                    &&& announcement.value matches ValueForRender::Success { loaded, .. }
                    &&& loaded == announced_at
                    &&& config.stores() ==> after[update.key].latest->0.loaded == stored_at
                }
        }),
{
}

/// A lost update is tracked no more. The value under its key stays, and the key with it, unless
/// there is no value and the loader does not store.
pub proof fn law_update_is_lost<Loader: CacheLoader>(
    loader: &mut AsyncLoader<Loader>,
    key: Loader::Key,
)
    requires
        obeys_key_model::<Loader::Key>(),
        forall|a: Loader::Key, b: Loader::Key| #[trigger] cloned(a, b) ==> a == b,
        call_ensures(AsyncLoader::<Loader>::lose_update, (loader, key), ()),
    ensures
        ({
            let before = old(loader).inner.slots();
            let after = final(loader).inner.slots();
            let config = old(loader).inner.settings();
            &&& forall|other: Loader::Key|
                other != key ==> {
                    &&& #[trigger] after.contains_key(other) == before.contains_key(other)
                    &&& before.contains_key(other) ==> after[other] == before[other]
                }
            &&& after.contains_key(key) <==> before.contains_key(key) && (config.stores()
                || before[key].latest is Some)
            &&& after.contains_key(key) ==> after[key].broadcast is None && after[key].latest
                == before[key].latest
        }),
{
}

/// The sizes of a loader's storage are how many keys it holds, and a room that is no less.
pub proof fn law_sizes_are_told<Loader: CacheLoader>(
    inner: Inner<Loader>,
    metric: LoaderMetric,
    length: usize,
    capacity: usize,
)
    requires
        call_ensures(Inner::<Loader>::metrics, (&inner,), metric),
        call_ensures(LoaderMetric::length, (&metric,), length),
        call_ensures(LoaderMetric::capacity, (&metric,), capacity),
    ensures
        obeys_key_model::<Loader::Key>() && (forall|a: Loader::Key, b: Loader::Key| #[trigger]
            cloned(a, b) ==> a == b) ==> length == inner.slots().len(),
        length <= capacity,
        inner.may_have_room(capacity),
{
}

/// Given how much room there is, that is what is told.
pub proof fn law_given_room_is_told<Loader: CacheLoader>(
    inner: Inner<Loader>,
    room: usize,
    metric: LoaderMetric,
    length: usize,
    capacity: usize,
)
    requires
        call_ensures(Inner::<Loader>::metrics_at, (&inner, room), metric),
        call_ensures(LoaderMetric::length, (&metric,), length),
        call_ensures(LoaderMetric::capacity, (&metric,), capacity),
    ensures
        obeys_key_model::<Loader::Key>() && (forall|a: Loader::Key, b: Loader::Key| #[trigger]
            cloned(a, b) ==> a == b) ==> length == inner.slots().len(),
        capacity == room,
{
}

/// Every call is an event: what holds of all events holds of all calls.
pub proof fn law_calls_are_events<Loader: CacheLoader>(
    loader: &mut AsyncLoader<Loader>,
    key: Loader::Key,
    age: Duration,
    update: Update<Loader>,
    res: Result<Loader::Output, LoadError>,
    stored_at: Instant,
    announced_at: Instant,
    lookup: Lookup<Loader>,
    announcement: Announcement<Loader>,
)
    requires
        obeys_key_model::<Loader::Key>(),
        forall|a: Loader::Key, b: Loader::Key| #[trigger] cloned(a, b) ==> a == b,
    ensures
        ({
            let before = old(loader).inner.slots();
            let config = old(loader).inner.settings();
            let after = final(loader).inner.slots();
            &&& call_ensures(AsyncLoader::<Loader>::get_value_at, (loader, key, age), lookup) ==> (
            Event::Request { key, force_reload: false, age: age@, lookup }).happens(
                before,
                config,
                after,
            )
            &&& call_ensures(AsyncLoader::<Loader>::get_latest_value_at, (loader, key, age), lookup)
                ==> (Event::Request { key, force_reload: true, age: age@, lookup }).happens(
                before,
                config,
                after,
            )
            &&& call_ensures(
                AsyncLoader::<Loader>::do_update_at,
                (loader, update, res, stored_at, announced_at),
                announcement,
            ) ==> (Event::Finished { update, res, stored_at, announced_at, announcement }).happens(
                before,
                config,
                after,
            )
            &&& call_ensures(AsyncLoader::<Loader>::lose_update, (loader, key), ()) ==> (
            Event::<Loader>::Lost { key }).happens(before, config, after)
        }),
{
}

} // verus!
