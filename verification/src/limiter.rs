//! The keyed rate limiter of `governor`, as the library uses it.

use governor::clock::{Clock, DefaultClock};
use governor::middleware::StateInformationMiddleware;
use governor::{DefaultKeyedRateLimiter, Quota, RateLimiter};
use std::num::NonZeroU32;
use vstd::prelude::*;

verus! {

/// What one rate-limiting check of a key came to.
#[derive(Clone, Copy, Debug, PartialEq, Eq, Structural)]
pub enum LimitCheck {
    /// The request conforms; `remaining` more requests would conform right now.
    Allowed { remaining: u32 },
    /// The request does not conform; one would again in `wait_nanos`
    /// nanoseconds.
    Denied { wait_nanos: u64 },
}

/// The largest span, in nanoseconds, that a limiter's burst may take: 2^62
/// nanoseconds, about 146 years. The limiter adds the burst's span to the
/// clock's reading, and to the span since it was built, in 64-bit nanoseconds;
/// this leaves room for clock readings below 2^62 nanoseconds.
pub const MAX_BURST_SPAN_NANOS: u64 = 0x4000_0000_0000_0000;

/// A rate limiter that keeps one state per key, with one quota for all keys.
///
/// It holds `governor`'s keyed rate limiter, whose state Verus does not see:
/// the library reads it only through [`KeyedLimiter::check_key`].
#[verifier::external_body]
pub struct KeyedLimiter {
    inner: DefaultKeyedRateLimiter<String, StateInformationMiddleware>,
}

/// The burst size of the quota that a limiter was made with.
pub uninterp spec fn limiter_burst(limiter: KeyedLimiter) -> u32;

/// The replenishment period, in nanoseconds, of the quota that a limiter was
/// made with.
pub uninterp spec fn limiter_period_nanos(limiter: KeyedLimiter) -> nat;

/// Whether `outcome` is an answer that `limiter` gave to a check of a request
/// keyed by `key`. (Which answer it gives rests on the time and on the earlier
/// checks of that key, so this relates a check to its key and limiter without
/// fixing the answer.)
pub uninterp spec fn limiter_answered(limiter: KeyedLimiter, key: Seq<char>, outcome: LimitCheck) -> bool;

impl KeyedLimiter {
    /// Builds `governor`'s keyed rate limiter (`RateLimiter::keyed`, turned to
    /// report its state with `with_middleware`) on the quota that replenishes one
    /// cell every `secs` seconds and `nanos` nanoseconds and allows bursts of
    /// `burst` cells (`Quota::with_period`, `Quota::allow_burst`).
    ///
    /// Claimed: the limiter keeps the burst size and period it was given, as
    /// `governor`'s source stores them. Left out: the zero period and the zero
    /// burst, on which the quota's constructors give no value, and quotas whose
    /// burst spans more than [`MAX_BURST_SPAN_NANOS`], on which the limiter's
    /// 64-bit nanosecond sums (the span added to the clock's reading) may
    /// overflow.
    #[verifier::external_body]
    pub(crate) fn new(secs: u64, nanos: u32, burst: u32) -> (limiter: KeyedLimiter)
        requires
            nanos < 1_000_000_000,
            secs > 0 || nanos > 0,
            burst > 0,
            (secs * 1_000_000_000 + nanos) * burst <= MAX_BURST_SPAN_NANOS,
        ensures
            limiter_burst(limiter) == burst,
            limiter_period_nanos(limiter) == secs * 1_000_000_000 + nanos,
    {
        let quota = Quota::with_period(std::time::Duration::new(secs, nanos)).unwrap();
        let quota = quota.allow_burst(NonZeroU32::new(burst).unwrap());
        KeyedLimiter { inner: RateLimiter::keyed(quota).with_middleware::<StateInformationMiddleware>() }
    }

    /// Checks one request of `key` against the limiter and records it when it
    /// conforms (`RateLimiter::check_key`). A conforming check reports the
    /// remaining burst capacity (`StateSnapshot::remaining_burst_capacity`); a
    /// refused one reports the nanoseconds until the key conforms again, from
    /// the current time of the default clock (`NotUntil::wait_time_from`; the
    /// span it gives is made from 64-bit nanoseconds, so the conversion to
    /// `u64` keeps it whole).
    ///
    /// Claimed: the outcome is this limiter's answer to a check of `key`; after a
    /// conforming request fewer cells than the burst size remain, as
    /// `governor`'s cell arithmetic gives (the capacity counts the cells beside
    /// the one just let through). Which outcome comes rests on the time and on
    /// earlier checks, so nothing more is stated of it. Left out: clock readings
    /// of 2^62 nanoseconds or more, past which the limiter's sums may overflow.
    #[verifier::external_body]
    pub(crate) fn check_key(&self, key: &String) -> (outcome: LimitCheck)
        ensures
            limiter_answered(*self, key@, outcome),
            outcome matches LimitCheck::Allowed { remaining } ==> remaining < limiter_burst(*self),
    {
        match self.inner.check_key(key) {
            Ok(snapshot) => LimitCheck::Allowed { remaining: snapshot.remaining_burst_capacity() },
            Err(negative) => LimitCheck::Denied {
                wait_nanos: negative.wait_time_from(DefaultClock::default().now()).as_nanos() as u64,
            },
        }
    }
}

} // verus!
