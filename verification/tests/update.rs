use panoptic::update::{
    calculate_delay, calculate_delay_at, is_newer, rate_limit_at, update_check_step,
    CheckOutcome, GitHubRelease, RateLimit,
};

#[test]
fn test_calculate_delay() {
    // Normal limit reset with plenty of requests remaining (60 requests remaining, 3600 seconds to reset)
    let rate_limit = RateLimit {
        remaining: 60,
        reset: std::time::SystemTime::now()
            .duration_since(std::time::UNIX_EPOCH)
            .unwrap_or_default()
            .as_secs()
            + 3600,
    };
    let delay = calculate_delay(rate_limit);
    assert!(
        (60..=62).contains(&delay),
        "Delay should be around 60-62 seconds, got {}",
        delay
    );

    // Rate limit exhausted (remaining = 0, 1800 seconds to reset)
    let rate_limit_exhausted = RateLimit {
        remaining: 0,
        reset: std::time::SystemTime::now()
            .duration_since(std::time::UNIX_EPOCH)
            .unwrap_or_default()
            .as_secs()
            + 1800,
    };
    let delay_exhausted = calculate_delay(rate_limit_exhausted);
    assert!(
        (1800..=1810).contains(&delay_exhausted),
        "Delay should be reset time + buffer, got {}",
        delay_exhausted
    );

    // Only 1 request remaining (which is our safety buffer)
    let rate_limit_one = RateLimit {
        remaining: 1,
        reset: std::time::SystemTime::now()
            .duration_since(std::time::UNIX_EPOCH)
            .unwrap_or_default()
            .as_secs()
            + 1800,
    };
    let delay_one = calculate_delay(rate_limit_one);
    assert!(
        (1800..=1810).contains(&delay_one),
        "With 1 request left, delay should wait until reset, got {}",
        delay_one
    );
}

#[test]
fn delay_at_fixed_time() {
    assert_eq!(calculate_delay_at(RateLimit { remaining: 60, reset: 4600 }, 1000), 61);
    assert_eq!(calculate_delay_at(RateLimit { remaining: 0, reset: 2800 }, 1000), 1805);
    assert_eq!(calculate_delay_at(RateLimit { remaining: 1, reset: 500 }, 1000), 5);
    assert_eq!(calculate_delay_at(RateLimit { remaining: 5000, reset: 4600 }, 1000), 60);
}

#[test]
fn newer_versions() {
    assert!(is_newer("0.1.0", "v0.2.0"));
    assert!(is_newer("v1.2", "1.2.1"));
    assert!(!is_newer("1.2.1", "1.2"));
    assert!(!is_newer("1.0.0", "v1.0.0"));
    assert!(is_newer("1.9.0", "1.10.0"));
    assert!(!is_newer("1.x.0", "1.0.0"));
    assert!(is_newer("1.0.0-beta", "1.0.1"));
}

#[test]
fn version_never_newer_than_itself() {
    for v in ["1.2.3", "v0.0.1", "", "vvv2", "abc"] {
        assert!(!is_newer(v, v));
    }
}

#[test]
fn rate_limit_headers() {
    let rl = rate_limit_at(Some("42".to_string()), Some("123456".to_string()), 10);
    assert_eq!((rl.remaining, rl.reset), (42, 123456));
    let rl = rate_limit_at(None, Some("junk".to_string()), 10);
    assert_eq!((rl.remaining, rl.reset), (60, 3610));
    let rl = rate_limit_at(Some("+7".to_string()), None, 0);
    assert_eq!((rl.remaining, rl.reset), (7, 3600));
}

#[test]
fn update_round_decisions() {
    let release = GitHubRelease { tag_name: "v9.0.0".to_string(), html_url: "u".to_string() };
    let d = update_check_step(
        "1.0.0",
        None,
        CheckOutcome::Found { release, rate_limit: RateLimit { remaining: 60, reset: 4600 } },
        1000,
    );
    assert!(d.announce);
    assert_eq!(d.available.unwrap().tag_name, "v9.0.0");
    assert_eq!(d.delay_secs, 61);

    let release = GitHubRelease { tag_name: "v9.0.0".to_string(), html_url: "u".to_string() };
    let d = update_check_step(
        "1.0.0",
        Some("v9.0.0".to_string()),
        CheckOutcome::Found { release, rate_limit: RateLimit { remaining: 60, reset: 4600 } },
        1000,
    );
    assert!(!d.announce);
    assert!(d.available.is_some());

    let d = update_check_step("1.0.0", None, CheckOutcome::Failed { limit: None }, 0);
    assert_eq!(d.delay_secs, 300);
    assert!(d.available.is_none());
}

#[test]
fn update_round_at_the_clock() {
    let found = |reset: u64| CheckOutcome::Found {
        release: GitHubRelease { tag_name: "v9.0.0".into(), html_url: "u".into() },
        rate_limit: RateLimit { remaining: 0, reset },
    };
    let d = panoptic::update::update_check_round("0.1.0", None, found(0)).unwrap();
    assert_eq!(d.delay_secs, 5);
    assert!(d.announce);
    // a reset at the top of the range still fits once the clock is past 5
    let d = panoptic::update::update_check_round("0.1.0", None, found(u64::MAX)).unwrap();
    assert!(d.delay_secs > u64::MAX - 1_000_000_000_000);
    let failed = CheckOutcome::Failed { limit: None };
    assert_eq!(panoptic::update::update_check_round("0.1.0", None, failed).unwrap().delay_secs, 300);
}
