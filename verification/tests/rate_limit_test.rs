use feishu_mcp::middleware::rate_limit::{RateLimitError, RateLimiter};

#[test]
fn test_rate_limit_error_handling() {
    let mut limiter = RateLimiter::new(60, 2);

    assert!(limiter.check("user").is_ok());
    assert!(limiter.check("user").is_ok());

    let result = limiter.check("user");
    assert!(result.is_err());

    match result.unwrap_err() {
        RateLimitError { retry_after_secs } => {
            assert!(retry_after_secs > 0, "Retry-after should be positive");
        }
    }
}

#[test]
fn test_rate_limiter_sliding_window() {
    let mut limiter = RateLimiter::new(1, 2);

    assert!(limiter.check("user").is_ok());
    assert!(limiter.check("user").is_ok());
    assert!(limiter.check("user").is_err());
}

#[test]
fn test_rate_limiter_allows_requests_under_limit() {
    let mut limiter = RateLimiter::new(60, 5);

    for i in 0..5 {
        let result = limiter.check(&format!("user_{}", i % 3));
        assert!(result.is_ok(), "Request {} should be allowed", i + 1);
    }
}

#[test]
fn test_rate_limiter_blocks_over_limit() {
    let mut limiter = RateLimiter::new(60, 3);

    for _ in 0..3 {
        assert!(limiter.check("user_a").is_ok());
    }

    let result = limiter.check("user_a");
    assert!(result.is_err());
    let err = result.unwrap_err();
    assert_eq!(err.retry_after_secs, 60);
}

#[test]
fn test_rate_limiter_per_user_isolation() {
    let mut limiter = RateLimiter::new(60, 2);

    assert!(limiter.check("user_a").is_ok());
    assert!(limiter.check("user_a").is_ok());
    assert!(limiter.check("user_a").is_err());

    assert!(limiter.check("user_b").is_ok());
    assert!(limiter.check("user_b").is_ok());
    assert!(limiter.check("user_b").is_err());
}

#[test]
fn test_empty_queue_for_unknown_user() {
    let mut limiter = RateLimiter::new(60, 5);

    let count = limiter.current_count("unknown_user");
    assert_eq!(count, 0);

    assert!(limiter.check("unknown_user").is_ok());
}

#[test]
fn test_rate_limiter_basic() {
    let mut limiter = RateLimiter::new(60, 2);
    assert!(limiter.check("tool").is_ok());
    assert!(limiter.check("tool").is_ok());
    let err = limiter.check("tool").unwrap_err();
    assert!(err.retry_after_secs > 0, "retry_after_secs should be positive");
}

#[test]
fn test_rate_limiter_per_tool_isolation() {
    let mut limiter = RateLimiter::new(60, 1);

    assert!(limiter.check("tool-a").is_ok());
    assert!(limiter.check("tool-a").is_err(), "Second call to same tool should be rate limited");
    assert!(limiter.check("tool-b").is_ok(), "Different tool has independent counter");
}

#[test]
fn window_slides_at_given_instants() {
    let mut limiter = RateLimiter::new(1, 2);
    assert!(limiter.check_at("user", 1000).is_ok());
    assert!(limiter.check_at("user", 1000).is_ok());
    assert_eq!(limiter.check_at("user", 1000), Err(RateLimitError { retry_after_secs: 1 }));
    assert!(limiter.check_at("user", 1001).is_ok());
    assert!(limiter.check_at("user", 1001).is_ok());
    assert!(limiter.check_at("user", 1001).is_err());
}

#[test]
fn retry_after_counts_from_oldest_live_request() {
    let mut limiter = RateLimiter::new(60, 2);
    assert!(limiter.check_at("u", 100).is_ok());
    assert!(limiter.check_at("u", 130).is_ok());
    // the oldest live request (100) leaves the window at 160
    assert_eq!(limiter.check_at("u", 150), Err(RateLimitError { retry_after_secs: 10 }));
    // waiting exactly that long is enough
    assert!(limiter.check_at("u", 160).is_ok());
    assert_eq!(limiter.check_at("u", 161), Err(RateLimitError { retry_after_secs: 29 }));
}

#[test]
fn burst_admits_exactly_max_requests() {
    let mut limiter = RateLimiter::new(10, 4);
    let admitted = (0..10).filter(|_| limiter.check_at("burst", 5000).is_ok()).count();
    assert_eq!(admitted, 4);
}

#[test]
fn zero_limit_refuses_with_whole_window() {
    let mut limiter = RateLimiter::new(30, 0);
    assert_eq!(limiter.check_at("x", 10), Err(RateLimitError { retry_after_secs: 30 }));
}

#[test]
fn count_at_counts_requests_inside_window() {
    let mut limiter = RateLimiter::new(10, 5);
    assert!(limiter.check_at("c", 100).is_ok());
    assert!(limiter.check_at("c", 105).is_ok());
    assert!(limiter.check_at("c", 109).is_ok());
    assert_eq!(limiter.count_at("c", 109), 3);
    assert_eq!(limiter.count_at("c", 111), 2);
    assert_eq!(limiter.count_at("c", 200), 0);
    assert_eq!(limiter.count_at("other", 109), 0);
    assert_eq!(limiter.window_secs(), 10);
    assert_eq!(limiter.max_requests(), 5);
}

#[test]
fn rate_limit_error_text() {
    let e = RateLimitError { retry_after_secs: 42 };
    assert_eq!(e.to_string(), "Rate limit exceeded, retry after 42s");
}

#[test]
fn test_window_sliding_effect() {
    let mut limiter = RateLimiter::new(1, 2);

    assert!(limiter.check("user").is_ok());
    assert!(limiter.check("user").is_ok());
    assert!(limiter.check("user").is_err());

    // let 1.1 seconds pass
    let start = std::time::Instant::now();
    while start.elapsed() < std::time::Duration::from_millis(1100) {
        std::hint::spin_loop();
    }

    assert!(limiter.check("user").is_ok());
    assert!(limiter.check("user").is_ok());
    assert!(limiter.check("user").is_err());
}

#[test]
fn whole_range_window_admits_up_to_limit() {
    let mut limiter = RateLimiter::new(u64::MAX, 5);
    for _ in 0..5 {
        assert!(limiter.check("user").is_ok());
    }
    let err = limiter.check("user").unwrap_err();
    assert!(err.retry_after_secs >= u64::MAX - 5);
}

#[test]
fn latest_instant_is_recorded() {
    let mut limiter = RateLimiter::new(60, 1);
    assert!(limiter.check_at("user", u64::MAX).is_ok());
    assert_eq!(limiter.check_at("user", u64::MAX).unwrap_err().retry_after_secs, 60);
}

#[test]
fn wait_is_capped_when_clock_goes_back() {
    let mut limiter = RateLimiter::new(u64::MAX, 1);
    assert!(limiter.check_at("user", 10).is_ok());
    assert_eq!(limiter.check_at("user", 5).unwrap_err().retry_after_secs, u64::MAX);
    let mut limiter = RateLimiter::new(60, 1);
    assert!(limiter.check_at("user", 100).is_ok());
    assert_eq!(limiter.check_at("user", 90).unwrap_err().retry_after_secs, 70);
}

#[test]
fn no_window_holds_more_than_limit() {
    let mut limiter = RateLimiter::new(60, 3);
    let times = [10u64, 20, 30, 40, 69, 70, 71, 89, 90, 131];
    let mut admitted = Vec::new();
    for &t in times.iter() {
        if limiter.check_at("user", t).is_ok() {
            admitted.push(t);
        }
    }
    assert_eq!(admitted, vec![10, 20, 30, 70, 89, 90, 131]);
    for end in 0..200u64 {
        let start = end.saturating_sub(60);
        let inside = admitted.iter().filter(|&&t| t > start && t <= end).count();
        assert!(inside <= 3);
    }
}

#[test]
fn refused_exactly_when_count_reaches_limit() {
    let mut limiter = RateLimiter::new(60, 2);
    assert!(limiter.check_at("user", 100).is_ok());
    assert!(limiter.check_at("user", 130).is_ok());
    assert_eq!(limiter.count_at("user", 150), 2);
    assert!(limiter.check_at("user", 150).is_err());
    assert_eq!(limiter.count_at("user", 161), 1);
    assert!(limiter.check_at("user", 161).is_ok());
}

#[test]
fn interleaved_users_each_keep_their_window() {
    let mut limiter = RateLimiter::new(60, 2);
    let checks = [("a", 10u64), ("b", 10), ("a", 20), ("b", 25), ("a", 30), ("b", 30), ("a", 71), ("b", 86)];
    let mut admitted: Vec<(&str, u64)> = Vec::new();
    for &(u, t) in checks.iter() {
        if limiter.check_at(u, t).is_ok() {
            admitted.push((u, t));
        }
    }
    assert_eq!(admitted, vec![("a", 10), ("b", 10), ("a", 20), ("b", 25), ("a", 71), ("b", 86)]);
    for user in ["a", "b"] {
        for end in 0..150u64 {
            let start = end.saturating_sub(60);
            let inside = admitted.iter().filter(|&&(u, t)| u == user && t > start && t <= end).count();
            assert!(inside <= 2);
        }
    }
}
