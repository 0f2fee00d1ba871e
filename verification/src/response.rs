//! HTTP responses, and the header that tells clients how long to keep one.
use crate::config::AsyncLoaderConfig;
use crate::duration::{Duration, NANOS_PER_SEC};
use crate::text::{decimal, decimal_text, is_digit, lemma_decimal_digits};
use axum::body::Body;
use axum::http::{HeaderMap, HeaderValue, Response};
use axum::response::IntoResponse;
use reqwest::header::CACHE_CONTROL;
use reqwest::StatusCode;
use vstd::prelude::*;
use vstd::utf8::{encode_utf8, is_ascii_chars, is_ascii_chars_encode_utf8};

verus! {

/// The body of a response.
#[verifier::external_type_specification]
#[verifier::external_body]
pub struct ExBody(axum::body::Body);

/// The status of a response.
#[verifier::external_type_specification]
#[verifier::external_body]
pub struct ExStatusCode(reqwest::StatusCode);

/// The value of a header.
#[verifier::external_type_specification]
#[verifier::external_body]
pub struct ExHeaderValue(axum::http::HeaderValue);

/// The headers of a response.
#[verifier::external_type_specification]
#[verifier::external_body]
#[verifier::reject_recursive_types(T)]
pub struct ExHeaderMap<T>(axum::http::HeaderMap<T>);

/// A response.
#[verifier::external_type_specification]
#[verifier::external_body]
#[verifier::reject_recursive_types(T)]
pub struct ExResponse<T>(axum::http::Response<T>);

/// The number of a status, as `StatusCode::as_u16` gives it.
pub uninterp spec fn status_number(status: StatusCode) -> u16;

/// The bytes of a header's value.
pub uninterp spec fn header_bytes(value: HeaderValue) -> Seq<u8>;

/// What a header map holds: for each name, in lower case, its values in order.
pub uninterp spec fn header_values(headers: HeaderMap<HeaderValue>) -> Map<Seq<char>, Seq<Seq<u8>>>;

/// The headers of a response.
pub uninterp spec fn response_headers(res: Response<Body>) -> HeaderMap<HeaderValue>;

/// The status of a response.
pub uninterp spec fn response_status(res: Response<Body>) -> StatusCode;

/// A response with other headers, and all else as it was.
pub uninterp spec fn with_headers(
    res: Response<Body>,
    headers: HeaderMap<HeaderValue>,
) -> Response<Body>;

/// The response with a given status and a given plain text.
pub uninterp spec fn text_response(status: StatusCode, message: Seq<char>) -> Response<Body>;

/// Whether a header's value may hold a byte: any but the control characters, and a tab.
pub open spec fn is_header_byte(b: u8) -> bool {
    (b >= 32 && b != 127) || b == 9
}

/// The fewest header names at which a header map may refuse one more.
pub const HEADER_NAMES_ROOM: usize = 6554;

/// Gives `StatusCode::INTERNAL_SERVER_ERROR`, whose number is 500.
#[verifier::external_body]
pub(crate) fn internal_server_error() -> (status: StatusCode)
    ensures
        status_number(status) == 500,
{
    StatusCode::INTERNAL_SERVER_ERROR
}

/// Calls `IntoResponse::into_response` on a status and a string. The response depends on the two
/// alone; it has that status, and one header, which says that the body is plain text.
#[verifier::external_body]
pub(crate) fn into_text_response(status: StatusCode, message: String) -> (res: Response<Body>)
    ensures
        res == text_response(status, message@),
        response_status(res) == status,
        header_values(response_headers(res)) == map![
            "content-type"@ => seq![encode_utf8("text/plain; charset=utf-8"@)]
        ],
{
    (status, message).into_response()
}

/// Calls `Response::headers_mut`, through which the headers of a response can be changed. The
/// rest of the response stays as it is.
#[verifier::external_body]
fn headers_mut(res: &mut Response<Body>) -> (headers: &mut HeaderMap<HeaderValue>)
    ensures
        *headers == response_headers(*old(res)),
        *final(res) == with_headers(*old(res), *final(headers)),
        response_headers(*final(res)) == *final(headers),
        response_status(*final(res)) == response_status(*old(res)),
{
    res.headers_mut()
}

/// Calls `HeaderValue::from_str`, which takes a text as a header's value if no byte of it is a
/// control character other than a tab.
#[verifier::external_body]
fn header_value(text: &str) -> (value: Option<HeaderValue>)
    ensures
        value is Some <==> (forall|i: int|
            0 <= i < encode_utf8(text@).len() ==> is_header_byte(
                #[trigger] encode_utf8(text@)[i],
            )),
        value matches Some(v) ==> header_bytes(v) == encode_utf8(text@),
{
    HeaderValue::from_str(text).ok()
}

/// Calls `HeaderMap::try_insert` with the name `CACHE_CONTROL`, which puts the value in the place
/// of all values under that name, or finds the map full and leaves it as it is. A map with few
/// names is not full.
#[verifier::external_body]
fn insert_cache_control(headers: &mut HeaderMap<HeaderValue>, value: HeaderValue) -> (inserted:
    bool)
    ensures
        inserted ==> header_values(*final(headers)) == header_values(*old(headers)).insert(
            "cache-control"@,
            seq![header_bytes(value)],
        ),
        !inserted ==> {
            &&& header_values(*final(headers)) == header_values(*old(headers))
            &&& header_values(*old(headers)).dom().len() >= HEADER_NAMES_ROOM
        },
{
    headers.try_insert(CACHE_CONTROL, value).is_ok()
}

/// The `Cache-Control` header's value that lets anyone keep a response for `secs` seconds.
pub open spec fn cache_control(secs: nat) -> Seq<char> {
    "public, max-age="@ + decimal(secs)
}

/// Whether `res` is the response `base` for a value of age `age`, of values that are due for a
/// reload past the age `reload`: up to that age, a header lets clients keep the response for the
/// whole seconds that are left; past it, the response is left alone.
pub open spec fn is_cached_response(
    base: Response<Body>,
    reload: nat,
    age: nat,
    res: Response<Body>,
) -> bool {
    if age <= reload {
        let before = header_values(response_headers(base));
        let after = header_values(response_headers(res));
        let value = cache_control(((reload - age) as nat) / (NANOS_PER_SEC as nat));
        &&& res == with_headers(base, response_headers(res))
        &&& response_status(res) == response_status(base)
        &&& after == before.insert("cache-control"@, seq![encode_utf8(value)]) || (after == before
            && before.dom().len() >= HEADER_NAMES_ROOM)
    } else {
        res == base
    }
}

/// The header's value consists of bytes that it may hold.
proof fn lemma_cache_control_bytes(secs: nat)
    ensures
        forall|i: int|
            0 <= i < encode_utf8(cache_control(secs)).len() ==> is_header_byte(
                #[trigger] encode_utf8(cache_control(secs))[i],
            ),
{
    let text = cache_control(secs);
    reveal_strlit("public, max-age=");
    lemma_decimal_digits(secs);
    assert forall|i: int| 0 <= i < text.len() implies ' ' <= #[trigger] text[i] <= '~' by {
        if i >= "public, max-age="@.len() {
            assert(text[i] == decimal(secs)[i - "public, max-age="@.len()]);
            assert(is_digit(text[i]));
        }
    }
    assert(is_ascii_chars(text));
    is_ascii_chars_encode_utf8(text);
    assert forall|i: int| 0 <= i < encode_utf8(text).len() implies is_header_byte(
        #[trigger] encode_utf8(text)[i],
    ) by {
        assert(text[i] as u8 == encode_utf8(text)[i]);
    }
}

/// The response `res` for a value of age `age`: while the value is not due for a reload, a header
/// lets clients keep the response for the whole seconds until it is.
pub fn with_cache_control(
    res: Response<Body>,
    config: &AsyncLoaderConfig,
    age: Duration,
) -> (cached: Response<Body>)
    ensures
        is_cached_response(res, config.reload_nanos(), age@, cached),
{
    let mut res = res;
    if let Some(cache_time) = config.reload_delay().checked_sub(age) {
        let secs: u64 = cache_time.as_secs();
        let mut text: String = "public, max-age=".to_owned();
        text.append(decimal_text(secs).as_str());
        assert(text@ == cache_control(secs as nat));
        proof {
            lemma_cache_control_bytes(secs as nat);
        }
        if let Some(value) = header_value(text.as_str()) {
            let headers = headers_mut(&mut res);
            insert_cache_control(headers, value);
        }
    }
    res
}

} // verus!
