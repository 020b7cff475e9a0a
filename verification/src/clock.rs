//! Monotonic time as plain numbers, and the one freshness rule that every
//! tier applies.
//!
//! A moment is the number of nanoseconds since a [`Clock`] was started.
//! Whatever was stored at one moment is fresh at a later one while fewer
//! than [`EXPIRY_NANOS`] nanoseconds lie between them.

use std::time::Duration;
use std::time::Instant;
use vstd::prelude::*;

verus! {

/// `std::time::Instant`, taken as it is. Nothing inside it is visible to
/// proofs.
#[verifier::external_type_specification]
#[verifier::external_body]
pub struct ExInstant(std::time::Instant);

/// How long a cached answer, good or bad, stays usable: fifteen minutes.
pub const EXPIRY_NANOS: u128 = 900_000_000_000;

/// Time that has passed at `now` since `then`; none if `then` is later.
pub open spec fn age(then: u128, now: u128) -> nat {
    if now >= then {
        (now - then) as nat
    } else {
        0
    }
}

/// Whether what was stored at `then` is still usable at `now`.
pub open spec fn is_fresh(then: u128, now: u128) -> bool {
    age(then, now) < EXPIRY_NANOS
}

/// Whether something of the given age is still usable.
pub open spec fn is_fresh_age(age: u128) -> bool {
    age < EXPIRY_NANOS
}

/// Whether what was stored at `then` is still usable at `now`.
pub fn fresh(then: u128, now: u128) -> (b: bool)
    ensures
        b == is_fresh(then, now),
{
    if now >= then {
        now - then < EXPIRY_NANOS
    } else {
        true
    }
}

/// `Instant::now`. Nothing is claimed about the reading.
#[verifier::external_body]
fn instant_now() -> Instant {
    Instant::now()
}

/// `Instant::elapsed`. Nothing is claimed about the reading.
#[verifier::external_body]
fn instant_elapsed(since: &Instant) -> Duration {
    since.elapsed()
}

/// `Duration::as_nanos`. Nothing is claimed about the number.
#[verifier::external_body]
fn duration_as_nanos(d: &Duration) -> u128 {
    d.as_nanos()
}

/// A monotonic clock that counts nanoseconds from the moment it was started.
pub struct Clock {
    origin: Instant,
}

impl Clock {
    /// Starts a clock at the present moment.
    pub fn start() -> Clock {
        Clock { origin: instant_now() }
    }

    /// The present moment: nanoseconds since the clock was started.
    pub fn now(&self) -> u128 {
        let d = instant_elapsed(&self.origin);
        duration_as_nanos(&d)
    }
}

/// Staleness is final: what is stale at one moment is stale at every later
/// one.
pub proof fn law_stale_stays_stale(then: u128, earlier: u128, later: u128)
    requires
        !is_fresh(then, earlier),
        earlier <= later,
    ensures
        !is_fresh(then, later),
{
}

/// Freshness lasts exactly one expiry window: what was stored at `then` is
/// fresh at `now` if and only if `now` is less than [`EXPIRY_NANOS`] past
/// `then`.
pub proof fn law_fresh_within_window(then: u128, now: u128)
    ensures
        is_fresh(then, now) <==> now < then + EXPIRY_NANOS,
{
}

} // verus!
