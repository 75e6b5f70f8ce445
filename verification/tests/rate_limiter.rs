use manti::quota::rate_limiter::RateLimiter;
use uuid::Uuid;

#[test]
fn test_rate_limiter_allows_within_limit() {
    let mut limiter = RateLimiter::new();
    let user_id = Uuid::new_v4().as_u128();

    // Should allow up to limit
    for _ in 0..10 {
        assert!(limiter.check_and_record(user_id, 10).is_ok());
    }
}

#[test]
fn test_rate_limiter_blocks_over_limit() {
    let mut limiter = RateLimiter::new();
    let user_id = Uuid::new_v4().as_u128();

    // Fill up the limit
    for _ in 0..5 {
        assert!(limiter.check_and_record(user_id, 5).is_ok());
    }

    // Should block the next request
    assert!(limiter.check_and_record(user_id, 5).is_err());
}

#[test]
fn test_different_users_have_separate_limits() {
    let mut limiter = RateLimiter::new();
    let user1 = Uuid::new_v4().as_u128();
    let user2 = Uuid::new_v4().as_u128();

    // Fill up user1's limit
    for _ in 0..5 {
        assert!(limiter.check_and_record(user1, 5).is_ok());
    }

    // user2 should still be allowed
    assert!(limiter.check_and_record(user2, 5).is_ok());
}

#[test]
fn window_counts_follow_check_record_and_refusal() {
    let mut limiter = RateLimiter::new();
    let t0: u64 = 1_000_000_000_000;
    assert_eq!(limiter.get_current_count_at(7, t0), 0);
    assert!(limiter.check_and_record_at(7, 2, t0).is_ok());
    assert_eq!(limiter.get_current_count_at(7, t0), 1);
    assert!(limiter.check_only_at(7, 2, t0).is_ok());
    assert_eq!(limiter.get_current_count_at(7, t0), 1);
    assert!(limiter.check_and_record_at(7, 2, t0 + 1).is_ok());
    assert_eq!(limiter.get_current_count_at(7, t0 + 1), 2);
    match limiter.check_and_record_at(7, 2, t0 + 1) {
        Err(secs) => assert!(1 <= secs && secs <= 60),
        Ok(()) => panic!(),
    }
    assert_eq!(limiter.get_current_count_at(7, t0 + 1), 2);
    limiter.record_at(7, t0 + 2);
    assert_eq!(limiter.get_current_count_at(7, t0 + 2), 3);
    assert_eq!(limiter.get_current_count_at(8, t0 + 2), 0);
    // a minute later the old requests have left the window
    assert_eq!(limiter.get_current_count_at(7, t0 + 60_000_000_000), 2);
    assert_eq!(limiter.get_current_count_at(7, t0 + 60_000_000_002), 0);
}
