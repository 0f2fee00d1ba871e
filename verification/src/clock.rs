//! The clock that cached values are aged by.
use crate::duration::{Duration, NANOS_PER_SEC};
use std::time::Instant;
use vstd::prelude::*;

verus! {

/// A reading of the clock.
#[verifier::external_type_specification]
#[verifier::external_body]
pub struct ExInstant(std::time::Instant);

/// Where a reading stands among the readings of the clock, in nanoseconds: two `Instant`s are
/// ordered as these numbers are, and as much time lies between them as these numbers differ by.
pub uninterp spec fn place_of(at: Instant) -> int;

/// Calls `Instant::now`, and then once more. The second reading is not before the first, since the
/// clock never goes back. What it reads is open.
#[verifier::external_body]
fn now_twice() -> (readings: (Instant, Instant))
    ensures
        place_of(readings.0) <= place_of(readings.1),
{
    let first = Instant::now();
    let second = Instant::now();
    (first, second)
}

/// Whether `first` and `second` are readings that the clock may give one after the other.
pub closed spec fn may_be_readings(first: Instant, second: Instant) -> bool {
    call_ensures(now_twice, (), (first, second))
}

/// What the clock reads, and what it reads after that.
pub(crate) fn readings() -> (readings: (Instant, Instant))
    ensures
        may_be_readings(readings.0, readings.1),
        place_of(readings.0) <= place_of(readings.1),
{
    let (first, second) = now_twice();
    proof {
        law_readings_are_what_now_gives(first, second);
    }
    (first, second)
}

/// Calls `Instant::elapsed`, and gives the time since `start` as whole seconds and the
/// nanoseconds beside them, which are always fewer than a second holds. That is the whole time from
/// `start` to what the clock reads now, or none if `start` is later. What it reads is open.
#[verifier::external_body]
fn elapsed_parts(start: &Instant) -> (parts: (u64, u32))
    ensures
        parts.1 < NANOS_PER_SEC,
        exists|now: Instant|
            parts.0 * 1_000_000_000 + parts.1 == if #[trigger] place_of(now) > place_of(*start) {
                place_of(now) - place_of(*start)
            } else {
                0
            },
{
    let elapsed = start.elapsed();
    (elapsed.as_secs(), elapsed.subsec_nanos())
}

/// Whether `age` is a length, in nanoseconds, that `Instant::elapsed` may give for `start`.
pub closed spec fn may_be_age(start: Instant, age: nat) -> bool {
    exists|parts: (u64, u32)|
        #[trigger] call_ensures(elapsed_parts, (&start,), parts) && age == parts.0 * NANOS_PER_SEC
            + parts.1
}

/// An age that `Instant::elapsed` may give is all the seconds and nanoseconds that it gives, and
/// each time that it gives makes such an age.
proof fn law_age_is_what_elapsed_gives(start: Instant)
    ensures
        forall|age: nat| #[trigger]
            may_be_age(start, age) ==> exists|parts: (u64, u32)| #[trigger]
                call_ensures(elapsed_parts, (&start,), parts) && age == parts.0 * 1_000_000_000
                    + parts.1,
        forall|parts: (u64, u32)| #[trigger]
            call_ensures(elapsed_parts, (&start,), parts) ==> may_be_age(
                start,
                (parts.0 * 1_000_000_000 + parts.1) as nat,
            ),
{
}

/// An age is the whole time from `start` to some reading of the clock.
pub(crate) proof fn lemma_age_is_a_time_that_passed(start: Instant, age: nat)
    requires
        may_be_age(start, age),
    ensures
        exists|now: Instant|
            age == if #[trigger] place_of(now) > place_of(start) {
                place_of(now) - place_of(start)
            } else {
                0
            },
        age <= u64::MAX * 1_000_000_000 + 999_999_999,
{
    law_age_is_what_elapsed_gives(start);
}

/// Two readings that the clock may give one after the other are what two calls of `Instant::now`
/// give.
proof fn law_readings_are_what_now_gives(first: Instant, second: Instant)
    ensures
        may_be_readings(first, second) <==> call_ensures(now_twice, (), (first, second)),
        may_be_readings(first, second) ==> place_of(first) <= place_of(second),
{
}

/// The time since `start`: what `Instant::elapsed` gives for it. How much that is depends on the
/// clock.
pub(crate) fn elapsed(start: &Instant) -> (age: Duration)
    ensures
        may_be_age(*start, age@),
{
    let (secs, nanos) = elapsed_parts(start);
    Duration::new(secs, nanos)
}

} // verus!
