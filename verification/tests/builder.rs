use actix_governor::{default_period, Duration, GovernorConfig, GovernorConfigBuilder, Method, DEFAULT_BURST_SIZE};

#[test]
fn builder_test() {
    let mut builder = GovernorConfigBuilder::default();
    builder.period(default_period()).burst_size(DEFAULT_BURST_SIZE);

    assert_eq!(GovernorConfigBuilder::default(), builder);

    let mut builder1 = builder.clone();
    builder1.per_millisecond(5000);
    let builder2 = builder.per_second(5);

    assert_eq!(&builder1, builder2);
}

#[test]
fn per_nanosecond_matches_per_second() {
    let mut a = GovernorConfigBuilder::default();
    a.per_nanosecond(3_000_000_000);
    let mut b = GovernorConfigBuilder::default();
    b.per_second(3);
    assert_eq!(a, b);
    let mut c = GovernorConfigBuilder::default();
    c.period(Duration::from_secs(3));
    assert_eq!(b, c);
}

#[test]
fn finish_refuses_zero_burst() {
    let mut b = GovernorConfigBuilder::default();
    b.burst_size(0);
    assert!(b.finish().is_none());
}

#[test]
fn finish_refuses_zero_period() {
    let mut b = GovernorConfigBuilder::default();
    b.per_second(0);
    assert!(b.finish().is_none());
    let mut b = GovernorConfigBuilder::default();
    b.per_millisecond(0);
    assert!(b.finish().is_none());
}

#[test]
fn finish_keeps_settings() {
    let config = GovernorConfigBuilder::default()
        .per_millisecond(90)
        .burst_size(2)
        .finish()
        .unwrap();
    assert_eq!(config.burst_size(), 2);
    assert_eq!(config.period(), Duration::from_millis(90));
    assert_eq!(config.period().as_nanos(), 90_000_000);
    assert!(!config.use_headers());
    assert!(!config.permissive());
    assert!(config.limits_method(Method::POST));
}

#[test]
fn finish_leaves_builder_unchanged() {
    let mut b = GovernorConfigBuilder::default();
    b.per_second(7).burst_size(3);
    let before = b.clone();
    let _ = b.finish();
    assert_eq!(before, b);
}

#[test]
fn use_headers_and_methods_are_kept() {
    let config = GovernorConfigBuilder::default()
        .methods(vec![Method::GET])
        .use_headers()
        .permissive(true)
        .finish()
        .unwrap();
    assert!(config.use_headers());
    assert!(config.permissive());
    assert!(config.limits_method(Method::GET));
    assert!(!config.limits_method(Method::POST));
}

#[test]
fn default_config_values() {
    let config = GovernorConfig::default();
    assert_eq!(config.burst_size(), 8);
    assert_eq!(config.period(), Duration::from_millis(500));
    let secure = GovernorConfig::secure();
    assert_eq!(secure.burst_size(), 2);
    assert_eq!(secure.period(), Duration::from_secs(4));
}

#[test]
fn fits_limiter_bound() {
    let mut b = GovernorConfigBuilder::default();
    b.per_second(u64::MAX);
    assert!(!b.fits_limiter());
    b.per_second(1);
    assert!(b.fits_limiter());
    b.per_nanosecond(u64::MAX).burst_size(1);
    assert!(!b.fits_limiter());
    b.per_nanosecond(1 << 62).burst_size(1);
    assert!(b.fits_limiter());
    b.per_nanosecond(1 << 61).burst_size(3);
    assert!(!b.fits_limiter());
}

#[test]
fn cloned_config_shares_limiter() {
    let config = GovernorConfigBuilder::default().per_second(60).burst_size(1).finish().unwrap();
    let copy = config.clone();
    let key = String::from("k");
    assert!(matches!(config.check_key(&key), actix_governor::LimitCheck::Allowed { remaining: 0 }));
    assert!(matches!(copy.check_key(&key), actix_governor::LimitCheck::Denied { .. }));
}

#[test]
fn duration_parts() {
    let d = Duration::from_millis(1_500);
    assert_eq!(d.as_secs(), 1);
    assert_eq!(d.subsec_nanos(), 500_000_000);
    assert_eq!(d.as_nanos(), 1_500_000_000);
    assert_eq!(Duration::from_nanos(1_500_000_000), d);
    assert_eq!(Duration::new(1, 500_000_000), d);
    assert_eq!(Duration::new(0, 1_500_000_000), d);
    assert_eq!(Duration::new(2, 3_999_999_999), Duration::new(5, 999_999_999));
    assert!(Duration::from_secs(0).is_zero());
    assert_eq!(default_period().as_nanos(), 500_000_000);
}
