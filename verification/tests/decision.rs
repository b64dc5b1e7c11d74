use actix_governor::decimal::to_decimal;
use actix_governor::decision::{checked, key_failure, whitelisted};
use actix_governor::{
    exceeded_message, permissive_text, GovernorConfigBuilder, GovernorResult, LimitCheck, Method, RateLimitHeaders, Verdict,
    TOO_MANY_REQUESTS,
};
use std::time::{Duration, Instant};

fn lines(h: &RateLimitHeaders) -> Vec<(String, String)> {
    h.lines()
}

fn pair(a: &str, b: &str) -> (String, String) {
    (a.to_string(), b.to_string())
}

fn wait_past(ms: u64) {
    let start = Instant::now();
    while start.elapsed() < Duration::from_millis(ms) {}
}

fn key() -> String {
    String::from("127.0.0.1")
}

#[test]
fn test_server() {
    let config = GovernorConfigBuilder::default().per_millisecond(90).burst_size(2).finish().unwrap();
    let k = key();
    assert!(matches!(config.decide(Method::GET, Some(&k)), Verdict::Forward { result: None, .. }));
    assert!(matches!(config.decide(Method::GET, Some(&k)), Verdict::Forward { result: None, .. }));
    match config.decide(Method::GET, Some(&k)) {
        Verdict::TooManyRequests { headers, wait } => {
            assert_eq!(TOO_MANY_REQUESTS, 429);
            assert_eq!(wait, 0);
            assert_eq!(lines(&headers), vec![pair("x-ratelimit-after", "0")]);
        }
        v => panic!("unexpected {:?}", v),
    }
    wait_past(100);
    assert!(matches!(config.decide(Method::GET, Some(&k)), Verdict::Forward { .. }));
    match config.decide(Method::GET, Some(&k)) {
        Verdict::TooManyRequests { headers, wait } => {
            assert_eq!(lines(&headers), vec![pair("x-ratelimit-after", "0")]);
            assert_eq!(exceeded_message(wait), "Too many requests, retry in 0s");
        }
        v => panic!("unexpected {:?}", v),
    }
}

#[test]
fn test_method_filter() {
    let config = GovernorConfigBuilder::default()
        .per_millisecond(90)
        .burst_size(2)
        .methods(vec![Method::GET])
        .finish()
        .unwrap();
    let k = key();
    assert!(matches!(config.decide(Method::GET, Some(&k)), Verdict::Forward { .. }));
    assert!(matches!(config.decide(Method::GET, Some(&k)), Verdict::Forward { .. }));
    match config.decide(Method::GET, Some(&k)) {
        Verdict::TooManyRequests { headers, .. } => {
            assert_eq!(lines(&headers), vec![pair("x-ratelimit-after", "0")]);
        }
        v => panic!("unexpected {:?}", v),
    }
    match config.decide(Method::POST, Some(&k)) {
        Verdict::Forward { headers, result } => {
            assert!(lines(&headers).is_empty());
            assert_eq!(result, None);
        }
        v => panic!("unexpected {:?}", v),
    }
}

#[test]
fn test_server_use_headers() {
    let config = GovernorConfigBuilder::default()
        .per_millisecond(90)
        .burst_size(2)
        .use_headers()
        .finish()
        .unwrap();
    let k = key();
    match config.decide(Method::GET, Some(&k)) {
        Verdict::Forward { headers, .. } => assert_eq!(
            lines(&headers),
            vec![pair("x-ratelimit-limit", "2"), pair("x-ratelimit-remaining", "1")]
        ),
        v => panic!("unexpected {:?}", v),
    }
    match config.decide(Method::GET, Some(&k)) {
        Verdict::Forward { headers, .. } => assert_eq!(
            lines(&headers),
            vec![pair("x-ratelimit-limit", "2"), pair("x-ratelimit-remaining", "0")]
        ),
        v => panic!("unexpected {:?}", v),
    }
    match config.decide(Method::GET, Some(&k)) {
        Verdict::TooManyRequests { headers, wait } => {
            assert_eq!(
                lines(&headers),
                vec![
                    pair("x-ratelimit-limit", "2"),
                    pair("x-ratelimit-remaining", "0"),
                    pair("x-ratelimit-after", "0")
                ]
            );
            assert_eq!(exceeded_message(wait), "Too many requests, retry in 0s");
        }
        v => panic!("unexpected {:?}", v),
    }
    wait_past(100);
    match config.decide(Method::GET, Some(&k)) {
        Verdict::Forward { headers, .. } => assert_eq!(
            lines(&headers),
            vec![pair("x-ratelimit-limit", "2"), pair("x-ratelimit-remaining", "0")]
        ),
        v => panic!("unexpected {:?}", v),
    }
    match config.decide(Method::GET, Some(&k)) {
        Verdict::TooManyRequests { headers, wait } => {
            assert_eq!(headers.after, Some(0));
            assert_eq!(headers.limit, Some(2));
            assert_eq!(headers.remaining, Some(0));
            assert!(!headers.whitelisted);
            assert_eq!(exceeded_message(wait), "Too many requests, retry in 0s");
        }
        v => panic!("unexpected {:?}", v),
    }
}

#[test]
fn test_method_filter_use_headers() {
    let config = GovernorConfigBuilder::default()
        .per_millisecond(90)
        .burst_size(2)
        .methods(vec![Method::GET])
        .use_headers()
        .finish()
        .unwrap();
    let k = key();
    assert!(matches!(config.decide(Method::GET, Some(&k)), Verdict::Forward { .. }));
    assert!(matches!(config.decide(Method::GET, Some(&k)), Verdict::Forward { .. }));
    assert!(matches!(config.decide(Method::GET, Some(&k)), Verdict::TooManyRequests { .. }));
    match config.decide(Method::POST, Some(&k)) {
        Verdict::Forward { headers, .. } => {
            assert_eq!(lines(&headers), vec![pair("x-ratelimit-whitelisted", "true")]);
            assert_eq!(headers.limit, None);
            assert_eq!(headers.remaining, None);
            assert_eq!(headers.after, None);
        }
        v => panic!("unexpected {:?}", v),
    }
}

#[test]
fn test_server_permissive() {
    let config = GovernorConfigBuilder::default()
        .per_millisecond(90)
        .burst_size(2)
        .permissive(true)
        .finish()
        .unwrap();
    let k = key();
    let ok = Some(GovernorResult::Allowed { burst_size: None, remaining: None });
    let wait = Some(GovernorResult::Wait { wait: 0, burst_size: None });
    assert_eq!(permissive_text(ok.unwrap(), ""), "Ok: None None");
    assert_eq!(permissive_text(wait.unwrap(), ""), "Wait: 0 None");
    assert!(matches!(config.decide(Method::GET, Some(&k)), Verdict::Forward { result, .. } if result == ok));
    assert!(matches!(config.decide(Method::GET, Some(&k)), Verdict::Forward { result, .. } if result == ok));
    assert!(matches!(config.decide(Method::GET, Some(&k)), Verdict::Forward { result, .. } if result == wait));
    wait_past(100);
    assert!(matches!(config.decide(Method::GET, Some(&k)), Verdict::Forward { result, .. } if result == ok));
    assert!(matches!(config.decide(Method::GET, Some(&k)), Verdict::Forward { result, .. } if result == wait));
}

#[test]
fn one_key_does_not_spend_another() {
    let config = GovernorConfigBuilder::default().per_second(3).burst_size(2).finish().unwrap();
    let a = String::from("test");
    let b = String::from("other");
    assert!(matches!(config.decide(Method::GET, Some(&a)), Verdict::Forward { .. }));
    assert!(matches!(config.decide(Method::GET, Some(&a)), Verdict::Forward { .. }));
    assert!(matches!(config.decide(Method::GET, Some(&a)), Verdict::TooManyRequests { .. }));
    assert!(matches!(config.decide(Method::GET, Some(&b)), Verdict::Forward { .. }));
}

#[test]
fn missing_key_is_an_error() {
    let config = GovernorConfigBuilder::default().per_second(3).burst_size(2).finish().unwrap();
    assert_eq!(config.decide(Method::GET, None), Verdict::KeyExtractionFailed);
    assert_eq!(key_failure(false), Verdict::KeyExtractionFailed);
    let permissive = GovernorConfigBuilder::default().permissive(true).finish().unwrap();
    assert!(matches!(
        permissive.decide(Method::GET, None),
        Verdict::Forward { result: Some(GovernorResult::KeyExtractionFailed), .. }
    ));
}

#[test]
fn missing_key_of_unlimited_method_is_whitelisted() {
    let config = GovernorConfigBuilder::default().methods(vec![Method::PUT]).permissive(true).finish().unwrap();
    assert!(matches!(
        config.decide(Method::GET, None),
        Verdict::Forward { result: Some(GovernorResult::Whitelisted), .. }
    ));
}

#[test]
fn checked_verdicts() {
    assert_eq!(
        checked(LimitCheck::Denied { wait_nanos: 7_999_999_999 }, 4, false, false),
        Verdict::TooManyRequests {
            headers: RateLimitHeaders { limit: None, remaining: None, after: Some(7), whitelisted: false },
            wait: 7,
        }
    );
    assert_eq!(
        checked(LimitCheck::Denied { wait_nanos: 7_000_000_000 }, 4, true, true),
        Verdict::Forward {
            headers: RateLimitHeaders { limit: Some(4), remaining: Some(0), after: Some(7), whitelisted: false },
            result: Some(GovernorResult::Wait { wait: 7, burst_size: Some(4) }),
        }
    );
    assert_eq!(
        checked(LimitCheck::Allowed { remaining: 3 }, 4, true, true),
        Verdict::Forward {
            headers: RateLimitHeaders { limit: Some(4), remaining: Some(3), after: None, whitelisted: false },
            result: Some(GovernorResult::Allowed { burst_size: Some(4), remaining: Some(3) }),
        }
    );
    assert_eq!(
        whitelisted(true, false),
        Verdict::Forward {
            headers: RateLimitHeaders { limit: None, remaining: None, after: None, whitelisted: true },
            result: None,
        }
    );
}

#[test]
fn decimal_rendering() {
    assert_eq!(to_decimal(0), "0");
    assert_eq!(to_decimal(7), "7");
    assert_eq!(to_decimal(10), "10");
    assert_eq!(to_decimal(1234567890), "1234567890");
    assert_eq!(to_decimal(u64::MAX), "18446744073709551615");
    assert_eq!(exceeded_message(42), "Too many requests, retry in 42s");
}

#[test]
fn permissive_texts() {
    assert_eq!(
        permissive_text(GovernorResult::Allowed { burst_size: Some(2), remaining: Some(1) }, ""),
        "Ok: Some(2) Some(1)"
    );
    assert_eq!(permissive_text(GovernorResult::Wait { wait: 12, burst_size: Some(2) }, ""), "Wait: 12 Some(2)");
    assert_eq!(permissive_text(GovernorResult::Whitelisted, "x"), "Whitelisted");
    assert_eq!(permissive_text(GovernorResult::KeyExtractionFailed, "no key"), "Err: no key");
}

#[test]
fn permissive_with_headers_reports_state() {
    let config = GovernorConfigBuilder::default()
        .per_second(60)
        .burst_size(2)
        .use_headers()
        .permissive(true)
        .finish()
        .unwrap();
    let k = key();
    match config.decide(Method::GET, Some(&k)) {
        Verdict::Forward { result: Some(r), .. } => assert_eq!(permissive_text(r, ""), "Ok: Some(2) Some(1)"),
        v => panic!("unexpected {:?}", v),
    }
}
