//! A span of time, held as whole seconds and the nanoseconds below a second.

use vstd::prelude::*;

verus! {

/// Nanoseconds in one second.
pub const NANOS_PER_SEC: u32 = 1_000_000_000;

/// Nanoseconds in one millisecond.
pub const NANOS_PER_MILLI: u32 = 1_000_000;

/// Milliseconds in one second.
pub const MILLIS_PER_SEC: u64 = 1_000;

/// A span of time with nanosecond precision.
///
/// A value always holds fewer than a second's worth of nanoseconds beside its
/// whole seconds, so two values are equal exactly when they span the same time.
#[derive(Clone, Copy, Debug, PartialEq, Eq, Hash)]
pub struct Duration {
    secs: u64,
    nanos: u32,
}

impl View for Duration {
    type V = nat;

    /// The span in nanoseconds.
    open spec fn view(&self) -> nat {
        (self.secs_spec() * NANOS_PER_SEC + self.nanos_spec()) as nat
    }
}

impl Duration {
    #[verifier::type_invariant]
    spec fn inv(self) -> bool {
        self.nanos < NANOS_PER_SEC
    }

    /// The whole seconds of the span.
    pub closed spec fn secs_spec(self) -> u64 {
        self.secs
    }

    /// The nanoseconds of the span below a whole second.
    pub closed spec fn nanos_spec(self) -> u32 {
        self.nanos
    }
}

impl Duration {
    /// The span of `secs` whole seconds and `nanos` more nanoseconds.
    pub closed spec fn from_parts(secs: u64, nanos: u32) -> Duration {
        Duration { secs, nanos }
    }

    /// The span of `secs` whole seconds and `nanos` more nanoseconds; whole
    /// seconds among the nanoseconds are carried into the seconds. The seconds,
    /// carry included, must fit in 64 bits.
    pub fn new(secs: u64, nanos: u32) -> (d: Duration)
        requires
            secs + nanos / 1_000_000_000 <= u64::MAX,
        ensures
            d == Duration::from_parts((secs + nanos / 1_000_000_000) as u64, nanos % 1_000_000_000),
            d.secs_spec() == secs + nanos / 1_000_000_000,
            d.nanos_spec() == nanos % 1_000_000_000,
            d@ == secs * NANOS_PER_SEC + nanos,
    {
        let d = Duration { secs: secs + (nanos / NANOS_PER_SEC) as u64, nanos: nanos % NANOS_PER_SEC };
        assert(d@ == secs * NANOS_PER_SEC + nanos) by (nonlinear_arith)
            requires
                d.secs == secs + nanos / 1_000_000_000,
                d.nanos == nanos % 1_000_000_000,
        ;
        d
    }

    /// The span of `secs` whole seconds.
    pub fn from_secs(secs: u64) -> (d: Duration)
        ensures
            d == Duration::from_parts(secs, 0),
            d.secs_spec() == secs,
            d.nanos_spec() == 0,
            d@ == secs * NANOS_PER_SEC,
    {
        Duration { secs, nanos: 0 }
    }

    /// The span of `millis` milliseconds.
    pub fn from_millis(millis: u64) -> (d: Duration)
        ensures
            d == Duration::from_parts(millis / 1000, ((millis % 1000) * 1_000_000) as u32),
            d.secs_spec() == millis / 1000,
            d.nanos_spec() == (millis % 1000) * 1_000_000,
            d@ == millis * NANOS_PER_MILLI,
    {
        let d = Duration {
            secs: millis / MILLIS_PER_SEC,
            nanos: ((millis % MILLIS_PER_SEC) as u32) * NANOS_PER_MILLI,
        };
        assert(d@ == millis * NANOS_PER_MILLI) by (nonlinear_arith)
            requires
                d.secs == millis / 1000,
                d.nanos == (millis % 1000) * 1_000_000,
        ;
        d
    }

    /// The span of `nanos` nanoseconds.
    pub fn from_nanos(nanos: u64) -> (d: Duration)
        ensures
            d == Duration::from_parts(nanos / 1_000_000_000, (nanos % 1_000_000_000) as u32),
            d.secs_spec() == nanos / 1_000_000_000,
            d.nanos_spec() == nanos % 1_000_000_000,
            d@ == nanos,
    {
        let d = Duration {
            secs: nanos / (NANOS_PER_SEC as u64),
            nanos: (nanos % (NANOS_PER_SEC as u64)) as u32,
        };
        assert(d@ == nanos) by (nonlinear_arith)
            requires
                d.secs == nanos / 1_000_000_000,
                d.nanos == nanos % 1_000_000_000,
        ;
        d
    }

    /// The whole seconds of the span.
    pub fn as_secs(&self) -> (s: u64)
        ensures
            s == self.secs_spec(),
    {
        self.secs
    }

    /// The nanoseconds of the span below a whole second.
    pub fn subsec_nanos(&self) -> (n: u32)
        ensures
            n == self.nanos_spec(),
            n < NANOS_PER_SEC,
    {
        proof {
            use_type_invariant(self);
        }
        self.nanos
    }

    /// The whole span in nanoseconds.
    pub fn as_nanos(&self) -> (n: u128)
        ensures
            n == self@,
    {
        assert(self.secs * 1_000_000_000 <= 0xffff_ffff_ffff_ffff * 1_000_000_000) by (nonlinear_arith)
            requires
                self.secs <= 0xffff_ffff_ffff_ffff,
        ;
        self.secs as u128 * (NANOS_PER_SEC as u128) + self.nanos as u128
    }

    /// Whether the span is empty.
    pub fn is_zero(&self) -> (b: bool)
        ensures
            b == (self@ == 0),
    {
        self.secs == 0 && self.nanos == 0
    }
}

/// The default replenishment period of a quota: half a second.
pub fn default_period() -> (d: Duration)
    ensures
        d == Duration::from_parts(0, 500_000_000),
        d@ == 500 * NANOS_PER_MILLI,
{
    Duration::from_millis(500)
}

/// Two spans, each holding fewer than a second's worth of nanoseconds beside
/// its whole seconds (as every span that this module builds does), are equal
/// exactly when they last the same number of nanoseconds.
pub proof fn lemma_duration_eq_iff_same_nanos(a: Duration, b: Duration)
    requires
        a.nanos_spec() < NANOS_PER_SEC,
        b.nanos_spec() < NANOS_PER_SEC,
    ensures
        (a == b) <==> (a@ == b@),
{
    if a@ == b@ {
        assert(a.secs == b.secs && a.nanos == b.nanos) by (nonlinear_arith)
            requires
                a.secs * 1_000_000_000 + a.nanos == b.secs * 1_000_000_000 + b.nanos,
                a.nanos < 1_000_000_000,
                b.nanos < 1_000_000_000,
        ;
    }
}

/// The parts of a span built from parts are those parts.
pub proof fn lemma_from_parts(secs: u64, nanos: u32)
    ensures
        Duration::from_parts(secs, nanos).secs_spec() == secs,
        Duration::from_parts(secs, nanos).nanos_spec() == nanos,
{
}

/// A whole number of seconds given in milliseconds is the same span as given in
/// seconds.
pub proof fn lemma_millis_of_whole_secs(secs: u64)
    requires
        secs * 1000 <= u64::MAX,
    ensures
        Duration::from_parts(((secs * 1000) as u64 / 1000) as u64, (((secs * 1000) as u64 % 1000) * 1_000_000) as u32)
            == Duration::from_parts(secs, 0),
{
    assert((secs * 1000) / 1000 == secs && (secs * 1000) % 1000 == 0) by (nonlinear_arith);
}

/// A whole number of seconds given in nanoseconds is the same span as given in
/// seconds.
pub proof fn lemma_nanos_of_whole_secs(secs: u64)
    requires
        secs * 1_000_000_000 <= u64::MAX,
    ensures
        Duration::from_parts(((secs * 1_000_000_000) as u64 / 1_000_000_000) as u64,
            ((secs * 1_000_000_000) as u64 % 1_000_000_000) as u32) == Duration::from_parts(secs, 0),
{
    assert((secs * 1_000_000_000) / 1_000_000_000 == secs
        && (secs * 1_000_000_000) % 1_000_000_000 == 0) by (nonlinear_arith);
}

} // verus!
