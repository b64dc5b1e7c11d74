//! Building the configuration of the rate-limiting middleware.

use crate::duration::{default_period, Duration};
use crate::limiter::{
    limiter_answered, limiter_burst, limiter_period_nanos, KeyedLimiter, LimitCheck, MAX_BURST_SPAN_NANOS,
};
use std::sync::Arc;
use vstd::prelude::*;

verus! {

/// An HTTP request method.
#[derive(Clone, Copy, Debug, PartialEq, Eq, Hash, Structural)]
pub enum Method {
    GET,
    HEAD,
    POST,
    PUT,
    DELETE,
    CONNECT,
    OPTIONS,
    TRACE,
    PATCH,
}

/// The default burst size of a quota: eight requests.
pub const DEFAULT_BURST_SIZE: u32 = 8;

/// What a configuration builder holds.
pub struct BuilderView {
    /// The time after which one element of the quota is replenished.
    pub period: Duration,
    /// How many requests may come in one burst.
    pub burst_size: u32,
    /// The methods that are rate limited; `None` limits every method.
    pub methods: Option<Seq<Method>>,
    /// Whether responses carry the rate-limit headers.
    pub use_headers: bool,
    /// Whether requests over the limit still go through, with the outcome
    /// handed to the service.
    pub permissive: bool,
}

impl BuilderView {
    /// The same settings with another period.
    pub open spec fn with_period(self, period: Duration) -> BuilderView {
        BuilderView { period, ..self }
    }

    /// The same settings with another burst size.
    pub open spec fn with_burst_size(self, burst_size: u32) -> BuilderView {
        BuilderView { burst_size, ..self }
    }

    /// The same settings with another list of limited methods.
    pub open spec fn with_methods(self, methods: Seq<Method>) -> BuilderView {
        BuilderView { methods: Some(methods), ..self }
    }

    /// The same settings, with the rate-limit headers on.
    pub open spec fn with_headers(self) -> BuilderView {
        BuilderView { use_headers: true, ..self }
    }

    /// The same settings with another permissive flag.
    pub open spec fn with_permissive(self, permissive: bool) -> BuilderView {
        BuilderView { permissive, ..self }
    }

    /// The settings of a new builder.
    pub open spec fn initial() -> BuilderView {
        BuilderView {
            period: Duration::from_parts(0, 500_000_000),
            burst_size: DEFAULT_BURST_SIZE,
            methods: None,
            use_headers: false,
            permissive: false,
        }
    }

    /// Whether a configuration can be built from these settings: neither the
    /// burst size nor the period is zero.
    pub open spec fn is_valid(self) -> bool {
        self.burst_size != 0 && self.period@ != 0
    }

    /// Whether the rate limiter of these settings stays within its 64-bit
    /// nanosecond arithmetic: the period times the burst size is at most
    /// [`MAX_BURST_SPAN_NANOS`] (2^62 nanoseconds), which leaves room for the
    /// clock's reading beside it. (The limiter panics when its period does not
    /// fit in 64 bits, and its sums overflow when the burst's span and the
    /// clock's reading together do not.)
    pub open spec fn fits_limiter(self) -> bool {
        self.period@ * self.burst_size <= MAX_BURST_SPAN_NANOS
    }
}

/// Builds the configuration of the rate-limiting middleware.
///
/// A new builder replenishes one element every half second and allows bursts of
/// eight requests, limits every method, adds no headers and refuses requests
/// over the limit.
#[derive(Debug, PartialEq, Eq)]
pub struct GovernorConfigBuilder {
    period: Duration,
    burst_size: u32,
    methods: Option<Vec<Method>>,
    use_headers: bool,
    permissive: bool,
}

impl View for GovernorConfigBuilder {
    type V = BuilderView;

    closed spec fn view(&self) -> BuilderView {
        BuilderView {
            period: self.period,
            burst_size: self.burst_size,
            methods: match self.methods {
                Some(v) => Some(v@),
                None => None,
            },
            use_headers: self.use_headers,
            permissive: self.permissive,
        }
    }
}

impl Default for GovernorConfigBuilder {
    fn default() -> (b: GovernorConfigBuilder)
        ensures
            b@ == BuilderView::initial(),
    {
        GovernorConfigBuilder {
            period: default_period(),
            burst_size: DEFAULT_BURST_SIZE,
            methods: None,
            use_headers: false,
            permissive: false,
        }
    }
}

impl GovernorConfigBuilder {
    /// Sets the time after which one element of the quota is replenished. It
    /// must not be zero for the configuration to be built.
    pub fn period(&mut self, duration: Duration) -> (r: &mut GovernorConfigBuilder)
        ensures
            r@ == old(self)@.with_period(duration),
            *final(self) == *final(r),
    {
        self.period = duration;
        self
    }

    /// Sets the replenishment period to `seconds` whole seconds. It must not be
    /// zero for the configuration to be built.
    pub fn per_second(&mut self, seconds: u64) -> (r: &mut GovernorConfigBuilder)
        ensures
            r@ == old(self)@.with_period(Duration::from_parts(seconds, 0)),
            *final(self) == *final(r),
    {
        self.period = Duration::from_secs(seconds);
        self
    }

    /// Sets the replenishment period to `milliseconds` milliseconds. It must not
    /// be zero for the configuration to be built.
    pub fn per_millisecond(&mut self, milliseconds: u64) -> (r: &mut GovernorConfigBuilder)
        ensures
            r@ == old(self)@.with_period(
                Duration::from_parts(milliseconds / 1000, ((milliseconds % 1000) * 1_000_000) as u32),
            ),
            *final(self) == *final(r),
    {
        self.period = Duration::from_millis(milliseconds);
        self
    }

    /// Sets the replenishment period to `nanoseconds` nanoseconds. It must not be
    /// zero for the configuration to be built.
    pub fn per_nanosecond(&mut self, nanoseconds: u64) -> (r: &mut GovernorConfigBuilder)
        ensures
            r@ == old(self)@.with_period(
                Duration::from_parts(nanoseconds / 1_000_000_000, (nanoseconds % 1_000_000_000) as u32),
            ),
            *final(self) == *final(r),
    {
        self.period = Duration::from_nanos(nanoseconds);
        self
    }

    /// Sets how many requests may come in one burst before the middleware starts
    /// to refuse them. It must not be zero for the configuration to be built.
    pub fn burst_size(&mut self, burst_size: u32) -> (r: &mut GovernorConfigBuilder)
        ensures
            r@ == old(self)@.with_burst_size(burst_size),
            *final(self) == *final(r),
    {
        self.burst_size = burst_size;
        self
    }

    /// Limits only requests of the given methods; requests of other methods go
    /// through untouched.
    pub fn methods(&mut self, methods: Vec<Method>) -> (r: &mut GovernorConfigBuilder)
        ensures
            r@ == old(self)@.with_methods(methods@),
            *final(self) == *final(r),
    {
        self.methods = Some(methods);
        self
    }

    /// Lets requests over the limit through, with the outcome of the check handed
    /// to the service, when `permissive` holds; refuses them otherwise.
    pub fn permissive(&mut self, permissive: bool) -> (r: &mut GovernorConfigBuilder)
        ensures
            r@ == old(self)@.with_permissive(permissive),
            *final(self) == *final(r),
    {
        self.permissive = permissive;
        self
    }

    /// A builder with the same settings whose middleware adds the rate-limit
    /// headers (`x-ratelimit-limit`, `x-ratelimit-remaining`,
    /// `x-ratelimit-after`, `x-ratelimit-whitelisted`) to the responses.
    pub fn use_headers(&mut self) -> (b: GovernorConfigBuilder)
        ensures
            b@ == old(self)@.with_headers(),
            *final(self) == *old(self),
    {
        GovernorConfigBuilder {
            period: self.period,
            burst_size: self.burst_size,
            methods: copy_methods(&self.methods),
            use_headers: true,
            permissive: self.permissive,
        }
    }
}

impl GovernorConfigBuilder {
    /// Whether a configuration can be built from these settings: neither the
    /// burst size nor the period is zero.
    pub fn is_valid(&self) -> (b: bool)
        ensures
            b == self@.is_valid(),
    {
        self.burst_size != 0 && !self.period.is_zero()
    }

    /// Whether the rate limiter of these settings stays within its arithmetic:
    /// the period times the burst size is at most [`MAX_BURST_SPAN_NANOS`].
    pub fn fits_limiter(&self) -> (b: bool)
        ensures
            b == self@.fits_limiter(),
    {
        let nanos: u128 = self.period.as_nanos();
        let secs = self.period.as_secs();
        let sub = self.period.subsec_nanos();
        assert(nanos <= 0x8000_0000_0000_0000_0000_0000) by (nonlinear_arith)
            requires
                nanos == secs * 1_000_000_000 + sub,
                secs <= 0xffff_ffff_ffff_ffff,
                sub < 1_000_000_000,
        ;
        let burst: u128 = self.burst_size as u128;
        assert(nanos * burst <= 0x8000_0000_0000_0000_0000_0000_0000_0000) by (nonlinear_arith)
            requires
                nanos <= 0x8000_0000_0000_0000_0000_0000,
                burst <= 0x1_0000_0000,
                0 <= nanos,
                0 <= burst,
        ;
        nanos * burst <= (MAX_BURST_SPAN_NANOS as u128)
    }

    /// Finishes building and returns the configuration of the middleware, with a
    /// new rate limiter; `None` when the burst size or the period is zero.
    pub fn finish(&mut self) -> (r: Option<GovernorConfig>)
        requires
            old(self)@.is_valid() ==> old(self)@.fits_limiter(),
        ensures
            *final(self) == *old(self),
            r is Some <==> old(self)@.is_valid(),
            r matches Some(c) ==> c@ == old(self)@,
    {
        if self.burst_size != 0 && !self.period.is_zero() {
            Some(
                GovernorConfig::build(
                    self.period,
                    self.burst_size,
                    copy_methods(&self.methods),
                    self.use_headers,
                    self.permissive,
                ),
            )
        } else {
            None
        }
    }
}

impl Clone for GovernorConfigBuilder {
    /// A builder with the same settings.
    fn clone(&self) -> (b: GovernorConfigBuilder)
        ensures
            b@ == self@,
    {
        GovernorConfigBuilder {
            period: self.period,
            burst_size: self.burst_size,
            methods: copy_methods(&self.methods),
            use_headers: self.use_headers,
            permissive: self.permissive,
        }
    }
}

impl Clone for GovernorConfig {
    /// A copy of the configuration that shares its rate limiter.
    fn clone(&self) -> (c: GovernorConfig)
        ensures
            c@ == self@,
            c.limiter_spec() == self.limiter_spec(),
    {
        proof {
            use_type_invariant(self);
        }
        GovernorConfig {
            limiter: share_limiter(&self.limiter),
            period: self.period,
            burst_size: self.burst_size,
            methods: copy_methods(&self.methods),
            use_headers: self.use_headers,
            permissive: self.permissive,
        }
    }
}

/// Another pointer to the same rate limiter (`Arc::clone`).
///
/// Claimed: the new pointer points to the same limiter, as `Arc::clone`'s
/// documentation says.
#[verifier::external_body]
fn share_limiter(limiter: &Arc<KeyedLimiter>) -> (r: Arc<KeyedLimiter>)
    ensures
        *r == **limiter,
{
    Arc::clone(limiter)
}

/// A copy of a list of methods.
fn copy_methods(methods: &Option<Vec<Method>>) -> (r: Option<Vec<Method>>)
    ensures
        match (methods, r) {
            (Some(a), Some(b)) => a@ == b@,
            (None, None) => true,
            _ => false,
        },
{
    match methods {
        None => None,
        Some(v) => {
            let mut out: Vec<Method> = Vec::new();
            let mut i: usize = 0;
            while i < v.len()
                invariant
                    i <= v.len(),
                    out@ == v@.subrange(0, i as int),
                decreases v.len() - i,
            {
                out.push(v[i]);
                i = i + 1;
            }
            assert(out@ =~= v@);
            Some(out)
        },
    }
}

/// The configuration of the rate-limiting middleware: its settings and the
/// keyed rate limiter built on them, which every copy of the configuration
/// shares.
pub struct GovernorConfig {
    limiter: Arc<KeyedLimiter>,
    period: Duration,
    burst_size: u32,
    methods: Option<Vec<Method>>,
    use_headers: bool,
    permissive: bool,
}

impl View for GovernorConfig {
    type V = BuilderView;

    closed spec fn view(&self) -> BuilderView {
        BuilderView {
            period: self.period,
            burst_size: self.burst_size,
            methods: match self.methods {
                Some(v) => Some(v@),
                None => None,
            },
            use_headers: self.use_headers,
            permissive: self.permissive,
        }
    }
}

impl GovernorConfig {
    #[verifier::type_invariant]
    spec fn inv(self) -> bool {
        &&& self.burst_size > 0
        &&& self.period@ > 0
        &&& self.period@ * self.burst_size <= MAX_BURST_SPAN_NANOS
        &&& limiter_burst(*self.limiter) == self.burst_size
        &&& limiter_period_nanos(*self.limiter) == self.period@
    }

    /// The keyed rate limiter of the configuration.
    pub closed spec fn limiter_spec(self) -> KeyedLimiter {
        *self.limiter
    }

    /// Builds a configuration from valid settings that fit the limiter.
    fn build(
        period: Duration,
        burst_size: u32,
        methods: Option<Vec<Method>>,
        use_headers: bool,
        permissive: bool,
    ) -> (c: GovernorConfig)
        requires
            burst_size > 0,
            period@ > 0,
            period@ * burst_size <= MAX_BURST_SPAN_NANOS,
        ensures
            c@ == (BuilderView {
                period,
                burst_size,
                methods: match methods {
                    Some(v) => Some(v@),
                    None => None,
                },
                use_headers,
                permissive,
            }),
    {
        let secs = period.as_secs();
        let nanos = period.subsec_nanos();
        let limiter = KeyedLimiter::new(secs, nanos, burst_size);
        GovernorConfig { limiter: Arc::new(limiter), period, burst_size, methods, use_headers, permissive }
    }
}

impl Default for GovernorConfig {
    /// The configuration of a new builder: one element replenished every half
    /// second, bursts of eight requests, every method limited.
    fn default() -> (c: GovernorConfig)
        ensures
            c@ == BuilderView::initial(),
    {
        let mut b = GovernorConfigBuilder::default();
        proof {
            crate::duration::lemma_from_parts(0, 500_000_000);
        }
        b.finish().unwrap()
    }
}

impl GovernorConfig {
    /// A configuration for security-related services: bursts of two requests,
    /// one element replenished every four seconds.
    pub fn secure() -> (c: GovernorConfig)
        ensures
            c@ == BuilderView::initial().with_period(Duration::from_parts(4, 0)).with_burst_size(2),
    {
        let mut b = GovernorConfigBuilder::default();
        b.per_second(4).burst_size(2);
        proof {
            crate::duration::lemma_from_parts(4, 0);
        }
        b.finish().unwrap()
    }

    /// How many requests may come in one burst.
    pub fn burst_size(&self) -> (b: u32)
        ensures
            b == self@.burst_size,
            b > 0,
    {
        proof {
            use_type_invariant(self);
        }
        self.burst_size
    }

    /// The time after which one element of the quota is replenished.
    pub fn period(&self) -> (p: Duration)
        ensures
            p == self@.period,
            p@ > 0,
    {
        proof {
            use_type_invariant(self);
        }
        self.period
    }

    /// Whether responses carry the rate-limit headers.
    pub fn use_headers(&self) -> (b: bool)
        ensures
            b == self@.use_headers,
    {
        self.use_headers
    }

    /// Whether requests over the limit still go through.
    pub fn permissive(&self) -> (b: bool)
        ensures
            b == self@.permissive,
    {
        self.permissive
    }

    /// Checks one request of `key` against the configuration's rate limiter, which
    /// counts it when it conforms. Whether it conforms rests on the time and on
    /// the earlier requests of that key; the outcome is the answer of this
    /// configuration's limiter to `key`, and a conforming one leaves fewer than a
    /// burst of requests to come.
    pub fn check_key(&self, key: &String) -> (c: LimitCheck)
        ensures
            limiter_answered(self.limiter_spec(), key@, c),
            c matches LimitCheck::Allowed { remaining } ==> remaining < self@.burst_size,
    {
        proof {
            use_type_invariant(self);
        }
        self.limiter.check_key(key)
    }

    /// Whether every request method is rate limited, those outside [`Method`]
    /// included: no list of methods was given.
    pub fn limits_every_method(&self) -> (b: bool)
        ensures
            b == (self@.methods is None),
    {
        self.methods.is_none()
    }

    /// Whether requests of `method` are rate limited: every method is when no
    /// list was given, else the methods in the list.
    pub fn limits_method(&self, method: Method) -> (b: bool)
        ensures
            b == method_is_limited(self@.methods, method),
    {
        match &self.methods {
            None => true,
            Some(v) => {
                let mut i: usize = 0;
                while i < v.len()
                    invariant
                        i <= v.len(),
                        self@.methods == Some(v@),
                        forall|j: int| 0 <= j < i ==> v@[j] != method,
                    decreases v.len() - i,
                {
                    if v[i] == method {
                        assert(v@[i as int] == method);
                        return true;
                    }
                    i = i + 1;
                }
                false
            },
        }
    }
}

/// Whether requests of `method` are rate limited under a list of limited
/// methods; with no list, every method is.
pub open spec fn method_is_limited(methods: Option<Seq<Method>>, method: Method) -> bool {
    match methods {
        None => true,
        Some(s) => s.contains(method),
    }
}

/// Under a list of methods, a method is rate limited exactly when it stands
/// somewhere in the list, at any position; with no list, every method is.
pub proof fn lemma_listed_methods_are_limited(methods: Seq<Method>, method: Method)
    ensures
        method_is_limited(Some(methods), method) <==> (exists|i: int|
            0 <= i < methods.len() && #[trigger] methods[i] == method),
        method_is_limited(None, method),
{
}

/// A new builder holds the default period and burst size: setting them again
/// leaves its settings as they were.
pub proof fn lemma_defaults_are_initial()
    ensures
        BuilderView::initial().with_period(Duration::from_parts(0, 500_000_000)).with_burst_size(
            DEFAULT_BURST_SIZE,
        ) == BuilderView::initial(),
{
}

/// Setting the period to a whole number of seconds, given in milliseconds, in
/// nanoseconds or in seconds, leaves the same settings.
pub proof fn lemma_whole_seconds_in_any_unit(b: BuilderView, secs: u64)
    requires
        secs * 1000 <= u64::MAX,
    ensures
        b.with_period(
            Duration::from_parts(
                ((secs * 1000) as u64 / 1000) as u64,
                (((secs * 1000) as u64 % 1000) * 1_000_000) as u32,
            ),
        ) == b.with_period(Duration::from_parts(secs, 0)),
        secs * 1_000_000_000 <= u64::MAX ==> b.with_period(
            Duration::from_parts(
                ((secs * 1_000_000_000) as u64 / 1_000_000_000) as u64,
                ((secs * 1_000_000_000) as u64 % 1_000_000_000) as u32,
            ),
        ) == b.with_period(Duration::from_parts(secs, 0)),
{
    crate::duration::lemma_millis_of_whole_secs(secs);
    if secs * 1_000_000_000 <= u64::MAX {
        crate::duration::lemma_nanos_of_whole_secs(secs);
    }
}

} // verus!
