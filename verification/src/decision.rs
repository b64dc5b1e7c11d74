//! What the rate-limiting middleware does with each request.
//!
//! For every request the middleware first asks whether its method is rate
//! limited. A request of another method is whitelisted. A limited request is
//! keyed by the configured key extractor; when no key can be extracted the
//! extraction error answers the request. Otherwise the key is checked against
//! the keyed rate limiter, and the outcome decides between passing the request
//! on and answering `429 Too Many Requests`.

use crate::config::{method_is_limited, GovernorConfig, Method};
use crate::decimal::{decimal, decimal_value, is_digit, push_decimal};
use crate::limiter::{limiter_answered, LimitCheck};
use vstd::prelude::*;

verus! {

/// The status code of a request refused for going over the limit.
pub const TOO_MANY_REQUESTS: u16 = 429;

/// The rate-limit headers that a response carries; each is left out when
/// `None` (or `false`).
#[derive(Clone, Copy, Debug, PartialEq, Eq, Structural)]
pub struct RateLimitHeaders {
    /// `x-ratelimit-limit`: the burst size of the quota.
    pub limit: Option<u32>,
    /// `x-ratelimit-remaining`: how many more requests would conform now.
    pub remaining: Option<u32>,
    /// `x-ratelimit-after`: whole seconds until a request conforms again.
    pub after: Option<u64>,
    /// `x-ratelimit-whitelisted: true`: the request's method is not limited.
    pub whitelisted: bool,
}

/// The outcome of the rate-limit check that a permissive middleware hands to
/// the service with the request.
#[derive(Clone, Copy, Debug, PartialEq, Eq, Structural)]
pub enum GovernorResult {
    /// The request conforms; with the headers on, the burst size and the
    /// remaining burst capacity.
    Allowed { burst_size: Option<u32>, remaining: Option<u32> },
    /// The request is over the limit; it would conform in `wait` whole seconds.
    /// With the headers on, the burst size.
    Wait { wait: u64, burst_size: Option<u32> },
    /// The request's method is not rate limited.
    Whitelisted,
    /// No key could be extracted from the request.
    KeyExtractionFailed,
}

/// What the middleware does with a request.
#[derive(Clone, Copy, Debug, PartialEq, Eq, Structural)]
pub enum Verdict {
    /// Pass the request on to the service, hand it `result` when there is one,
    /// and add `headers` to the service's response.
    Forward { headers: RateLimitHeaders, result: Option<GovernorResult> },
    /// Answer `429 Too Many Requests` with `headers`; a request conforms again in
    /// `wait` whole seconds.
    TooManyRequests { headers: RateLimitHeaders, wait: u64 },
    /// Answer with the error of the key extraction.
    KeyExtractionFailed,
}

/// No rate-limit header.
pub open spec fn no_headers() -> RateLimitHeaders {
    RateLimitHeaders { limit: None, remaining: None, after: None, whitelisted: false }
}

/// `value` when `on` holds, else nothing.
pub open spec fn when<T>(on: bool, value: T) -> Option<T> {
    if on {
        Some(value)
    } else {
        None
    }
}

/// The verdict on a request whose method is not rate limited.
pub open spec fn whitelisted_verdict(use_headers: bool, permissive: bool) -> Verdict {
    Verdict::Forward {
        headers: RateLimitHeaders { whitelisted: use_headers, ..no_headers() },
        result: when(permissive, GovernorResult::Whitelisted),
    }
}

/// The verdict on a limited request from which no key could be extracted.
pub open spec fn key_failure_verdict(permissive: bool) -> Verdict {
    if permissive {
        Verdict::Forward { headers: no_headers(), result: Some(GovernorResult::KeyExtractionFailed) }
    } else {
        Verdict::KeyExtractionFailed
    }
}

/// The whole seconds in `nanos` nanoseconds, the part below a second dropped.
pub open spec fn whole_secs(nanos: u64) -> u64 {
    (nanos / 1_000_000_000) as u64
}

/// The verdict on a limited request, given the outcome of its key's check
/// against a limiter whose bursts hold `burst` requests; the time to wait is
/// told in whole seconds.
pub open spec fn checked_verdict(
    check: LimitCheck,
    burst: u32,
    use_headers: bool,
    permissive: bool,
) -> Verdict {
    match check {
        LimitCheck::Allowed { remaining } => Verdict::Forward {
            headers: RateLimitHeaders {
                limit: when(use_headers, burst),
                remaining: when(use_headers, remaining),
                ..no_headers()
            },
            result: when(
                permissive,
                GovernorResult::Allowed {
                    burst_size: when(use_headers, burst),
                    remaining: when(use_headers, remaining),
                },
            ),
        },
        LimitCheck::Denied { wait_nanos } => if permissive {
            Verdict::Forward {
                headers: RateLimitHeaders {
                    limit: when(use_headers, burst),
                    remaining: when(use_headers, 0u32),
                    after: when(use_headers, whole_secs(wait_nanos)),
                    whitelisted: false,
                },
                result: Some(
                    GovernorResult::Wait { wait: whole_secs(wait_nanos), burst_size: when(use_headers, burst) },
                ),
            }
        } else {
            Verdict::TooManyRequests {
                headers: RateLimitHeaders {
                    limit: when(use_headers, burst),
                    remaining: when(use_headers, 0u32),
                    after: Some(whole_secs(wait_nanos)),
                    whitelisted: false,
                },
                wait: whole_secs(wait_nanos),
            }
        },
    }
}

/// `value` when `on` holds, else nothing.
fn when_u32(on: bool, value: u32) -> (r: Option<u32>)
    ensures
        r == when(on, value),
{
    if on {
        Some(value)
    } else {
        None
    }
}

/// The verdict on a request whose method is not rate limited.
pub fn whitelisted(use_headers: bool, permissive: bool) -> (v: Verdict)
    ensures
        v == whitelisted_verdict(use_headers, permissive),
{
    Verdict::Forward {
        headers: RateLimitHeaders { limit: None, remaining: None, after: None, whitelisted: use_headers },
        result: if permissive {
            Some(GovernorResult::Whitelisted)
        } else {
            None
        },
    }
}

/// The verdict on a limited request from which no key could be extracted.
pub fn key_failure(permissive: bool) -> (v: Verdict)
    ensures
        v == key_failure_verdict(permissive),
{
    if permissive {
        Verdict::Forward {
            headers: RateLimitHeaders { limit: None, remaining: None, after: None, whitelisted: false },
            result: Some(GovernorResult::KeyExtractionFailed),
        }
    } else {
        Verdict::KeyExtractionFailed
    }
}

/// The verdict on a limited request, given the outcome of its key's check
/// against a limiter whose bursts hold `burst` requests; the time to wait is
/// told in whole seconds.
pub fn checked(check: LimitCheck, burst: u32, use_headers: bool, permissive: bool) -> (v: Verdict)
    ensures
        v == checked_verdict(check, burst, use_headers, permissive),
{
    match check {
        LimitCheck::Allowed { remaining } => Verdict::Forward {
            headers: RateLimitHeaders {
                limit: when_u32(use_headers, burst),
                remaining: when_u32(use_headers, remaining),
                after: None,
                whitelisted: false,
            },
            result: if permissive {
                Some(
                    GovernorResult::Allowed {
                        burst_size: when_u32(use_headers, burst),
                        remaining: when_u32(use_headers, remaining),
                    },
                )
            } else {
                None
            },
        },
        LimitCheck::Denied { wait_nanos } => {
            let wait_secs = wait_nanos / 1_000_000_000;
            if permissive {
                Verdict::Forward {
                    headers: RateLimitHeaders {
                        limit: when_u32(use_headers, burst),
                        remaining: when_u32(use_headers, 0),
                        after: if use_headers {
                            Some(wait_secs)
                        } else {
                            None
                        },
                        whitelisted: false,
                    },
                    result: Some(
                        GovernorResult::Wait {
                            wait: wait_secs,
                            burst_size: when_u32(use_headers, burst),
                        },
                    ),
                }
            } else {
                Verdict::TooManyRequests {
                    headers: RateLimitHeaders {
                        limit: when_u32(use_headers, burst),
                        remaining: when_u32(use_headers, 0),
                        after: Some(wait_secs),
                        whitelisted: false,
                    },
                    wait: wait_secs,
                }
            }
        },
    }
}

/// The header named `name` with `value`, as a one-line list.
pub open spec fn header_line(name: Seq<char>, value: Seq<char>) -> Seq<(Seq<char>, Seq<char>)> {
    seq![(name, value)]
}

/// The name and the value of each rate-limit header, in the order limit,
/// remaining, after, whitelisted; numbers are written in decimal.
pub open spec fn header_lines(h: RateLimitHeaders) -> Seq<(Seq<char>, Seq<char>)> {
    (match h.limit {
        Some(l) => header_line("x-ratelimit-limit"@, decimal(l as nat)),
        None => Seq::empty(),
    }) + (match h.remaining {
        Some(r) => header_line("x-ratelimit-remaining"@, decimal(r as nat)),
        None => Seq::empty(),
    }) + (match h.after {
        Some(a) => header_line("x-ratelimit-after"@, decimal(a as nat)),
        None => Seq::empty(),
    }) + (if h.whitelisted {
        header_line("x-ratelimit-whitelisted"@, "true"@)
    } else {
        Seq::empty()
    })
}

/// The body of the default answer to a request over the limit.
pub open spec fn exceeded_message_spec(wait: u64) -> Seq<char> {
    "Too many requests, retry in "@ + decimal(wait as nat) + "s"@
}

/// The body of the default answer to a request over the limit, that conforms
/// again in `wait` whole seconds: `Too many requests, retry in {wait}s`.
pub fn exceeded_message(wait: u64) -> (s: String)
    ensures
        s@ == exceeded_message_spec(wait),
{
    let mut s = String::from_str("Too many requests, retry in ");
    push_decimal(&mut s, wait);
    s.append("s");
    s
}

/// The text of an optional number: `Some(n)` with `n` in decimal, or `None`.
pub open spec fn option_text(o: Option<u32>) -> Seq<char> {
    match o {
        Some(n) => "Some("@ + decimal(n as nat) + ")"@,
        None => "None"@,
    }
}

/// The text that tells a handler's client the outcome of the rate-limit check
/// that a permissive middleware recorded; `error` is the text of a failed key
/// extraction.
pub open spec fn permissive_text_spec(result: GovernorResult, error: Seq<char>) -> Seq<char> {
    match result {
        GovernorResult::Allowed { burst_size, remaining } => "Ok: "@ + option_text(burst_size) + " "@
            + option_text(remaining),
        GovernorResult::Wait { wait, burst_size } => "Wait: "@ + decimal(wait as nat) + " "@
            + option_text(burst_size),
        GovernorResult::Whitelisted => "Whitelisted"@,
        GovernorResult::KeyExtractionFailed => "Err: "@ + error,
    }
}

/// Appends the text of an optional number to `s`.
fn push_option(s: &mut String, o: Option<u32>)
    ensures
        final(s)@ == old(s)@ + option_text(o),
{
    match o {
        Some(n) => {
            s.append("Some(");
            push_decimal(s, n as u64);
            s.append(")");
        },
        None => {
            s.append("None");
        },
    }
}

/// The text of the outcome of the rate-limit check that a permissive
/// middleware recorded: `Ok: {burst_size:?} {remaining:?}`,
/// `Wait: {wait} {burst_size:?}`, `Whitelisted`, or `Err: {error}`.
pub fn permissive_text(result: GovernorResult, error: &str) -> (s: String)
    ensures
        s@ == permissive_text_spec(result, error@),
{
    match result {
        GovernorResult::Allowed { burst_size, remaining } => {
            let mut s = String::from_str("Ok: ");
            push_option(&mut s, burst_size);
            s.append(" ");
            push_option(&mut s, remaining);
            s
        },
        GovernorResult::Wait { wait, burst_size } => {
            let mut s = String::from_str("Wait: ");
            push_decimal(&mut s, wait);
            s.append(" ");
            push_option(&mut s, burst_size);
            s
        },
        GovernorResult::Whitelisted => String::from_str("Whitelisted"),
        GovernorResult::KeyExtractionFailed => {
            let mut s = String::from_str("Err: ");
            s.append(error);
            s
        },
    }
}

/// Appends the header `name` with the decimal rendering of `value` to `lines`.
fn push_number_line(lines: &mut Vec<(String, String)>, name: &str, value: u64)
    ensures
        final(lines)@.len() == old(lines)@.len() + 1,
        forall|i: int| 0 <= i < old(lines)@.len() ==> #[trigger] final(lines)@[i] == old(lines)@[i],
        final(lines)@.last().0@ == name@,
        final(lines)@.last().1@ == decimal(value as nat),
{
    let mut v = String::new();
    push_decimal(&mut v, value);
    assert(v@ =~= decimal(value as nat));
    lines.push((String::from_str(name), v));
}

impl RateLimitHeaders {
    /// The name and the value of each header to set, as [`header_lines`] lists
    /// them.
    pub fn lines(&self) -> (r: Vec<(String, String)>)
        ensures
            r@.len() == header_lines(*self).len(),
            forall|i: int|
                0 <= i < r@.len() ==> (#[trigger] r@[i]).0@ == header_lines(*self)[i].0 && r@[i].1@
                    == header_lines(*self)[i].1,
    {
        let mut r: Vec<(String, String)> = Vec::new();
        let ghost mut expected: Seq<(Seq<char>, Seq<char>)> = Seq::empty();
        if let Some(l) = self.limit {
            push_number_line(&mut r, "x-ratelimit-limit", l as u64);
            proof {
                expected = expected + header_line("x-ratelimit-limit"@, decimal(l as nat));
            }
        }
        assert(r@.len() == expected.len());
        assert(forall|i: int| 0 <= i < r@.len() ==> (#[trigger] r@[i]).0@ == expected[i].0 && r@[i].1@ == expected[i].1);
        if let Some(m) = self.remaining {
            push_number_line(&mut r, "x-ratelimit-remaining", m as u64);
            proof {
                expected = expected + header_line("x-ratelimit-remaining"@, decimal(m as nat));
            }
        }
        assert(forall|i: int| 0 <= i < r@.len() ==> (#[trigger] r@[i]).0@ == expected[i].0 && r@[i].1@ == expected[i].1);
        if let Some(a) = self.after {
            push_number_line(&mut r, "x-ratelimit-after", a);
            proof {
                expected = expected + header_line("x-ratelimit-after"@, decimal(a as nat));
            }
        }
        assert(forall|i: int| 0 <= i < r@.len() ==> (#[trigger] r@[i]).0@ == expected[i].0 && r@[i].1@ == expected[i].1);
        if self.whitelisted {
            r.push((String::from_str("x-ratelimit-whitelisted"), String::from_str("true")));
            proof {
                expected = expected + header_line("x-ratelimit-whitelisted"@, "true"@);
            }
        }
        assert(expected =~= header_lines(*self));
        r
    }
}

impl GovernorConfig {
    /// The verdict on a request whose method this configuration does not limit.
    pub fn whitelisted_verdict(&self) -> (v: Verdict)
        ensures
            v == whitelisted_verdict(self@.use_headers, self@.permissive),
    {
        whitelisted(self.use_headers(), self.permissive())
    }

    /// The verdict on a request of a limited method, keyed by `key`, or without a
    /// key when none could be extracted. With a key, the verdict follows from
    /// the answer of the configuration's limiter to that very key, and that
    /// check counts the request.
    pub fn check_request(&self, key: Option<&String>) -> (v: Verdict)
        ensures
            key is None ==> v == key_failure_verdict(self@.permissive),
            key matches Some(k) ==> exists|c: LimitCheck|
                {
                    &&& limiter_answered(self.limiter_spec(), k@, c)
                    &&& (c matches LimitCheck::Allowed { remaining } ==> remaining < self@.burst_size)
                    &&& v == #[trigger] checked_verdict(c, self@.burst_size, self@.use_headers, self@.permissive)
                },
    {
        match key {
            None => key_failure(self.permissive()),
            Some(k) => {
                let c = self.check_key(k);
                checked(c, self.burst_size(), self.use_headers(), self.permissive())
            },
        }
    }

    /// The verdict on a request of `method`, keyed by `key` (or without a key when
    /// none could be extracted). A request of a method that is not limited is
    /// whitelisted without a check; its key is not looked at.
    pub fn decide(&self, method: Method, key: Option<&String>) -> (v: Verdict)
        ensures
            !method_is_limited(self@.methods, method) ==> v == whitelisted_verdict(
                self@.use_headers,
                self@.permissive,
            ),
            method_is_limited(self@.methods, method) && key is None ==> v == key_failure_verdict(
                self@.permissive,
            ),
            method_is_limited(self@.methods, method) ==> (key matches Some(k) ==> exists|c: LimitCheck|
                {
                    &&& limiter_answered(self.limiter_spec(), k@, c)
                    &&& (c matches LimitCheck::Allowed { remaining } ==> remaining < self@.burst_size)
                    &&& v == #[trigger] checked_verdict(c, self@.burst_size, self@.use_headers, self@.permissive)
                }),
    {
        if self.limits_method(method) {
            self.check_request(key)
        } else {
            self.whitelisted_verdict()
        }
    }
}

/// The headers of a verdict, or none for an extraction error.
pub open spec fn verdict_headers(v: Verdict) -> RateLimitHeaders {
    match v {
        Verdict::Forward { headers, .. } => headers,
        Verdict::TooManyRequests { headers, .. } => headers,
        Verdict::KeyExtractionFailed => no_headers(),
    }
}

/// A permissive middleware lets every request through: whitelisted, without a
/// key, or over the limit.
pub proof fn lemma_permissive_lets_every_request_through(
    check: LimitCheck,
    burst: u32,
    use_headers: bool,
)
    ensures
        checked_verdict(check, burst, use_headers, true) is Forward,
        key_failure_verdict(true) is Forward,
        whitelisted_verdict(use_headers, true) is Forward,
{
}

/// A middleware that is not permissive answers `429 Too Many Requests` exactly to
/// the requests that the limiter refuses, and tells in `x-ratelimit-after`, with
/// or without the other headers, when to come back.
pub proof fn lemma_refused_exactly_when_denied(check: LimitCheck, burst: u32, use_headers: bool)
    ensures
        (checked_verdict(check, burst, use_headers, false) is TooManyRequests) <==> (check is Denied),
        check matches LimitCheck::Denied { wait_nanos } ==> {
            let wait_secs = whole_secs(wait_nanos);
            &&& checked_verdict(check, burst, use_headers, false)->wait == wait_secs
            &&& verdict_headers(checked_verdict(check, burst, use_headers, false)).after == Some(wait_secs)
            &&& header_lines(verdict_headers(checked_verdict(check, burst, use_headers, false))).contains(
                ("x-ratelimit-after"@, decimal(wait_secs as nat)),
            )
        },
{
    if let LimitCheck::Denied { wait_nanos } = check {
        let wait_secs = whole_secs(wait_nanos);
        let h = verdict_headers(checked_verdict(check, burst, use_headers, false));
        let lines = header_lines(h);
        let i: int = if use_headers { 2 } else { 0 };
        assert(lines[i] == ("x-ratelimit-after"@, decimal(wait_secs as nat)));
    }
}

/// Without the headers setting, no verdict carries the limit, the remaining
/// capacity or the whitelisted mark, and only a refusal carries the time to
/// wait.
pub proof fn lemma_headers_off(check: LimitCheck, burst: u32, permissive: bool)
    ensures
        ({
            let h = verdict_headers(checked_verdict(check, burst, false, permissive));
            &&& h.limit is None
            &&& h.remaining is None
            &&& !h.whitelisted
            &&& (h.after is Some ==> checked_verdict(check, burst, false, permissive) is TooManyRequests)
        }),
        verdict_headers(whitelisted_verdict(false, permissive)) == no_headers(),
        verdict_headers(key_failure_verdict(permissive)) == no_headers(),
{
}

/// With the headers setting, every checked request is told the burst size and
/// the remaining capacity, and the remaining capacity is below the burst size
/// when the limiter leaves fewer than a burst (as a conforming check does).
pub proof fn lemma_headers_on(check: LimitCheck, burst: u32, permissive: bool)
    requires
        burst > 0,
        check matches LimitCheck::Allowed { remaining } ==> remaining < burst,
    ensures
        ({
            let h = verdict_headers(checked_verdict(check, burst, true, permissive));
            &&& h.limit == Some(burst)
            &&& h.remaining is Some
            &&& h.remaining->0 < burst
            &&& !h.whitelisted
        }),
        verdict_headers(whitelisted_verdict(true, permissive)).whitelisted,
{
}

/// A request whose method is not limited is never refused and never told about
/// the limit.
pub proof fn lemma_whitelisted_untouched(use_headers: bool, permissive: bool)
    ensures
        whitelisted_verdict(use_headers, permissive) is Forward,
        verdict_headers(whitelisted_verdict(use_headers, permissive)).limit is None,
        verdict_headers(whitelisted_verdict(use_headers, permissive)).remaining is None,
        verdict_headers(whitelisted_verdict(use_headers, permissive)).after is None,
{
}

/// The service is handed the outcome of the check exactly when the middleware is
/// permissive.
pub proof fn lemma_result_only_when_permissive(
    check: LimitCheck,
    burst: u32,
    use_headers: bool,
    permissive: bool,
)
    ensures
        checked_verdict(check, burst, use_headers, permissive) matches Verdict::Forward { result, .. }
            ==> (result is Some <==> permissive),
        whitelisted_verdict(use_headers, permissive)->result is Some <==> permissive,
        key_failure_verdict(permissive) matches Verdict::Forward { result, .. } ==> result is Some
            && permissive,
{
}

/// A refused request is told to wait the whole seconds of the limiter's wait,
/// the part below a second dropped, and a permissive middleware hands the
/// service that same number of seconds, with or without the headers.
pub proof fn lemma_wait_is_whole_seconds(wait_nanos: u64, burst: u32, use_headers: bool)
    ensures
        checked_verdict(LimitCheck::Denied { wait_nanos }, burst, use_headers, false) matches
            Verdict::TooManyRequests { wait, .. } && wait * 1_000_000_000 <= wait_nanos < (wait + 1)
            * 1_000_000_000,
        checked_verdict(LimitCheck::Denied { wait_nanos }, burst, use_headers, true) matches
            Verdict::Forward { result: Some(GovernorResult::Wait { wait, .. }), .. } && wait
            * 1_000_000_000 <= wait_nanos < (wait + 1) * 1_000_000_000,
{
    let w = whole_secs(wait_nanos);
    assert(w * 1_000_000_000 <= wait_nanos < (w + 1) * 1_000_000_000) by (nonlinear_arith)
        requires
            w == wait_nanos / 1_000_000_000,
    ;
}

/// With the headers on, a checked request is told the burst size and exactly
/// the capacity that the limiter left (none after a refusal); and the outcome
/// that a permissive middleware hands the service tells the same numbers as
/// the headers.
pub proof fn lemma_headers_report_the_check(check: LimitCheck, burst: u32, permissive: bool)
    ensures
        verdict_headers(checked_verdict(check, burst, true, permissive)).limit == Some(burst),
        verdict_headers(checked_verdict(check, burst, true, permissive)).remaining == Some(
            match check {
                LimitCheck::Allowed { remaining } => remaining,
                LimitCheck::Denied { .. } => 0u32,
            },
        ),
        forall|use_headers: bool|
            #![trigger checked_verdict(check, burst, use_headers, true)]
            match checked_verdict(check, burst, use_headers, true) {
                Verdict::Forward { headers, result: Some(GovernorResult::Allowed { burst_size, remaining }) } =>
                    burst_size == headers.limit && remaining == headers.remaining,
                Verdict::Forward { headers, result: Some(GovernorResult::Wait { burst_size, .. }) } =>
                    burst_size == headers.limit,
                _ => false,
            },
{
}

/// Every number among the rate-limit headers is written, under its header's
/// name, as digits that read back as that number; the whitelisted mark is
/// written as `true`.
pub proof fn lemma_header_lines_carry_values(h: RateLimitHeaders)
    ensures
        h.limit matches Some(l) ==> exists|i: int|
            0 <= i < header_lines(h).len() && (#[trigger] header_lines(h)[i]).0 == "x-ratelimit-limit"@
                && decimal_value(header_lines(h)[i].1) == l,
        h.remaining matches Some(r) ==> exists|i: int|
            0 <= i < header_lines(h).len() && (#[trigger] header_lines(h)[i]).0
                == "x-ratelimit-remaining"@ && decimal_value(header_lines(h)[i].1) == r,
        h.after matches Some(a) ==> exists|i: int|
            0 <= i < header_lines(h).len() && (#[trigger] header_lines(h)[i]).0 == "x-ratelimit-after"@
                && decimal_value(header_lines(h)[i].1) == a,
        h.whitelisted ==> header_lines(h).contains(("x-ratelimit-whitelisted"@, "true"@)),
{
    let lines = header_lines(h);
    let a: Seq<(Seq<char>, Seq<char>)> = match h.limit {
        Some(l) => header_line("x-ratelimit-limit"@, decimal(l as nat)),
        None => Seq::empty(),
    };
    let b: Seq<(Seq<char>, Seq<char>)> = match h.remaining {
        Some(r) => header_line("x-ratelimit-remaining"@, decimal(r as nat)),
        None => Seq::empty(),
    };
    let c: Seq<(Seq<char>, Seq<char>)> = match h.after {
        Some(x) => header_line("x-ratelimit-after"@, decimal(x as nat)),
        None => Seq::empty(),
    };
    let d: Seq<(Seq<char>, Seq<char>)> = if h.whitelisted {
        header_line("x-ratelimit-whitelisted"@, "true"@)
    } else {
        Seq::empty()
    };
    assert(lines == a + b + c + d);
    if let Some(l) = h.limit {
        crate::decimal::lemma_decimal_roundtrip(l as nat);
        assert(lines[0] == a[0]);
    }
    if let Some(r) = h.remaining {
        crate::decimal::lemma_decimal_roundtrip(r as nat);
        assert(lines[a.len() as int] == b[0]);
    }
    if let Some(x) = h.after {
        crate::decimal::lemma_decimal_roundtrip(x as nat);
        assert(lines[(a.len() + b.len()) as int] == c[0]);
    }
    if h.whitelisted {
        assert(lines[(a.len() + b.len() + c.len()) as int] == d[0]);
    }
}

/// Whether every character of `s` is a decimal digit.
pub open spec fn all_digits(s: Seq<char>) -> bool {
    forall|i: int| 0 <= i < s.len() ==> is_digit(#[trigger] s[i])
}

/// Whether no character of `s` is a space.
pub open spec fn has_no_space(s: Seq<char>) -> bool {
    forall|i: int| 0 <= i < s.len() ==> #[trigger] s[i] != ' '
}

/// An optional number, widened.
pub open spec fn as_int_option(o: Option<u32>) -> Option<int> {
    match o {
        Some(n) => Some(n as int),
        None => None,
    }
}

/// What the text of an optional number reads back as: `Some(None)` for `None`,
/// `Some(Some(n))` for `Some(` followed by digits reading `n` and `)`, and
/// `None` for any other text.
pub open spec fn read_option(t: Seq<char>) -> Option<Option<int>> {
    if t == "None"@ {
        Some(None)
    } else if t.len() >= 7 && t.subrange(0, 5) == "Some("@ && t.last() == ')' && all_digits(
        t.subrange(5, t.len() - 1),
    ) {
        Some(Some(decimal_value(t.subrange(5, t.len() - 1))))
    } else {
        None
    }
}

/// The text of an optional number has no space and reads back as that number,
/// `Some(0)` included.
pub proof fn lemma_option_text_reads_back(o: Option<u32>)
    ensures
        has_no_space(option_text(o)),
        read_option(option_text(o)) == Some(as_int_option(o)),
{
    reveal_strlit("None");
    reveal_strlit("Some(");
    reveal_strlit(")");
    match o {
        None => {},
        Some(n) => {
            crate::decimal::lemma_decimal_roundtrip(n as nat);
            let d = decimal(n as nat);
            let t = "Some("@ + d + ")"@;
            assert(t == option_text(o));
            assert(t.len() >= 7);
            assert(t != "None"@) by {
                assert(t.len() != "None"@.len());
            }
            assert(t.subrange(0, 5) =~= "Some("@);
            assert(t.subrange(5, t.len() - 1) =~= d);
            assert(t.last() == ')');
            assert forall|i: int| 0 <= i < t.len() implies #[trigger] t[i] != ' ' by {
                if 5 <= i < t.len() - 1 {
                    assert(t[i] == d[i - 5]);
                    assert(is_digit(d[i - 5]));
                }
            }
        },
    }
}

/// The text of a permissive outcome reads back as that outcome: `Ok: `, then
/// the burst size and the remaining capacity (each `None` or `Some(n)`, zero
/// included), apart by one space; `Wait: `, then digits reading the wait in
/// seconds, a space and the burst size; `Whitelisted`; or `Err: ` and the error.
pub proof fn lemma_permissive_text_reads_back(result: GovernorResult, error: Seq<char>)
    ensures
        result matches GovernorResult::Allowed { burst_size, remaining } ==> exists|
            x: Seq<char>,
            y: Seq<char>,
        |
            #![trigger read_option(x), read_option(y)]
            {
                &&& permissive_text_spec(result, error) == "Ok: "@ + x + " "@ + y
                &&& has_no_space(x)
                &&& has_no_space(y)
                &&& read_option(x) == Some(as_int_option(burst_size))
                &&& read_option(y) == Some(as_int_option(remaining))
            },
        result matches GovernorResult::Wait { wait, burst_size } ==> exists|d: Seq<char>, y: Seq<char>|
            #![trigger decimal_value(d), read_option(y)]
            {
                &&& permissive_text_spec(result, error) == "Wait: "@ + d + " "@ + y
                &&& d.len() >= 1
                &&& all_digits(d)
                &&& decimal_value(d) == wait
                &&& has_no_space(y)
                &&& read_option(y) == Some(as_int_option(burst_size))
            },
        result is Whitelisted ==> permissive_text_spec(result, error) == "Whitelisted"@,
        result is KeyExtractionFailed ==> permissive_text_spec(result, error) == "Err: "@ + error,
{
    match result {
        GovernorResult::Allowed { burst_size, remaining } => {
            lemma_option_text_reads_back(burst_size);
            lemma_option_text_reads_back(remaining);
            let x = option_text(burst_size);
            let y = option_text(remaining);
            assert(read_option(x) == Some(as_int_option(burst_size)));
            assert(read_option(y) == Some(as_int_option(remaining)));
        },
        GovernorResult::Wait { wait, burst_size } => {
            lemma_option_text_reads_back(burst_size);
            crate::decimal::lemma_decimal_roundtrip(wait as nat);
            let d = decimal(wait as nat);
            let y = option_text(burst_size);
            assert(decimal_value(d) == wait);
            assert(read_option(y) == Some(as_int_option(burst_size)));
        },
        _ => {},
    }
}

/// The default answer to a refused request tells, between `retry in ` and `s`,
/// a non-empty run of digits that reads back as the wait in seconds.
pub proof fn lemma_exceeded_message_tells_wait(wait: u64)
    ensures
        exists|d: Seq<char>|
            {
                &&& exceeded_message_spec(wait) == "Too many requests, retry in "@ + d + "s"@
                &&& d.len() >= 1
                &&& all_digits(d)
                &&& #[trigger] decimal_value(d) == wait
            },
{
    crate::decimal::lemma_decimal_roundtrip(wait as nat);
    let d = decimal(wait as nat);
    assert(decimal_value(d) == wait);
}

} // verus!
