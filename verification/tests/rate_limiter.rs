use std::time::Duration;

use pumpkin_net::clock::{MAX_ELAPSED, NANOS_PER_SEC};
use pumpkin_net::ip::{contains_ip, IpAddr};
use pumpkin_net::rate_limiter::RateLimiter;

fn random_ip() -> IpAddr {
    IpAddr::from_octets(rand::random(), rand::random(), rand::random(), rand::random())
}

fn sleep(secs: u64) {
    let runtime = tokio::runtime::Builder::new_current_thread().enable_time().build().unwrap();
    runtime.block_on(async { tokio::time::sleep(Duration::from_secs(secs)).await });
}

fn secs(count: u128) -> u128 {
    count * NANOS_PER_SEC
}

#[test]
fn test_basic_rate_limiting() {
    let mut limiter = RateLimiter::new(3, 60, 300);
    let ip = IpAddr::from_octets(192, 168, 1, 1);

    // First 3 requests should be allowed
    assert!(limiter.check(&ip));
    limiter.record(&ip);
    assert!(limiter.check(&ip));
    limiter.record(&ip);
    assert!(limiter.check(&ip));
    limiter.record(&ip);

    // 4th request should be blocked
    assert!(!limiter.check(&ip));
}

#[test]
fn test_different_ips_independent() {
    let mut limiter = RateLimiter::new(2, 60, 300);
    let ip1 = IpAddr::from_octets(192, 168, 1, 1);
    let ip2 = IpAddr::from_octets(192, 168, 1, 2);

    // Exhaust ip1's limit
    limiter.record(&ip1);
    limiter.record(&ip1);

    // ip2 should still be allowed
    assert!(limiter.check(&ip2));
}

#[test]
fn test_blocking() {
    let mut limiter = RateLimiter::new(1, 60, 1); // 1 second block
    let ip = IpAddr::from_octets(10, 0, 0, 1);

    // Exceed limit
    limiter.record(&ip);

    // Should be blocked
    assert!(limiter.is_blocked(&ip));
    assert!(!limiter.check(&ip));

    // Wait for block to expire
    sleep(2);

    // Should be unblocked
    assert!(!limiter.is_blocked(&ip));
}

#[test]
fn test_cleanup() {
    let mut limiter = RateLimiter::new(10, 1, 1); // 1 second window
    let ip = IpAddr::from_octets(172, 16, 0, 1);

    limiter.record(&ip);
    assert_eq!(limiter.get_count(&ip), 1);

    // Wait for window to expire
    sleep(3);
    limiter.cleanup();

    // Entry should be cleaned up
    assert_eq!(limiter.get_count(&ip), 0);
}

#[test]
fn test_property_exceeding_limit_blocks_ip() {
    // Test with various max_requests values
    for max_requests in [1u32, 3, 5, 10] {
        let mut limiter = RateLimiter::new(max_requests, 60, 300);

        // Generate random IP
        let ip = random_ip();

        // Make exactly max_requests
        for _ in 0..max_requests {
            limiter.record(&ip);
        }

        // IP should now be blocked
        assert!(
            limiter.is_blocked(&ip),
            "IP should be blocked after {max_requests} requests",
        );
        assert!(
            !limiter.check(&ip),
            "check() should return false for blocked IP"
        );
    }
}

#[test]
fn test_property_ip_independence() {
    let mut limiter = RateLimiter::new(5, 60, 300);

    // Generate 10 random IPs, the others different from the first
    let mut ips: Vec<IpAddr> = vec![random_ip()];
    while ips.len() < 10 {
        let ip = random_ip();
        if ip != ips[0] {
            ips.push(ip);
        }
    }

    // Exhaust first IP's limit
    for _ in 0..5 {
        limiter.record(&ips[0]);
    }

    // All other IPs should still be allowed
    for ip in &ips[1..] {
        assert!(
            limiter.check(ip),
            "Other IPs should not be affected by first IP's rate limit"
        );
    }
}

#[test]
fn test_property_under_limit_allowed() {
    let max_requests = 10u32;
    let mut limiter = RateLimiter::new(max_requests, 60, 300);
    let ip = IpAddr::from_octets(1, 2, 3, 4);

    // Make requests up to but not exceeding limit
    for i in 0..(max_requests - 1) {
        assert!(
            limiter.check(&ip),
            "Request {i} should be allowed (under limit)",
        );
        limiter.record(&ip);
    }

    // Last request before limit should still be allowed
    assert!(
        limiter.check(&ip),
        "Request at limit-1 should still be allowed"
    );
}

#[test]
fn test_property_connection_rate_limit() {
    let max_connections_per_second = 10u32;
    let window_secs = 1u64;
    let block_secs = 60u64;

    // Test with 100 random IPs
    for _ in 0..100 {
        let mut limiter = RateLimiter::new(max_connections_per_second, window_secs, block_secs);

        // Generate random IP
        let ip = random_ip();

        // First 10 connections should be allowed
        for i in 0..max_connections_per_second {
            assert!(
                limiter.check(&ip),
                "Connection {i} should be allowed (under limit)",
            );
            limiter.record(&ip);
        }

        // 11th connection should be blocked
        assert!(
            !limiter.check(&ip),
            "Connection after limit should be rejected"
        );

        // IP should be blocked
        assert!(
            limiter.is_blocked(&ip),
            "IP should be blocked after exceeding connection rate limit"
        );
    }
}

#[test]
fn test_property_connection_under_limit_allowed() {
    let max_connections_per_second = 10u32;
    let mut limiter = RateLimiter::new(max_connections_per_second, 1, 60);

    // Test with 50 random IPs, each making fewer than max connections
    let mut seen: Vec<IpAddr> = Vec::new();
    while seen.len() < 50 {
        let ip = random_ip();
        if contains_ip(&seen, ip) {
            continue;
        }
        seen.push(ip);

        // Random number of connections under the limit
        let num_connections = rand::random::<u32>() % max_connections_per_second;

        for _ in 0..num_connections {
            assert!(
                limiter.check(&ip),
                "Connection should be allowed when under limit"
            );
            limiter.record(&ip);
        }

        // Should still be allowed (not blocked)
        assert!(
            !limiter.is_blocked(&ip),
            "IP should not be blocked when under connection rate limit"
        );
    }
}

#[test]
fn test_property_connection_block_duration() {
    // Use a short block duration for testing
    let block_secs = 1u64;
    let mut limiter = RateLimiter::new(1, 1, block_secs);

    let ip = random_ip();

    // Exceed the limit to trigger blocking
    limiter.record(&ip);

    // Should be blocked immediately
    assert!(
        limiter.is_blocked(&ip),
        "IP should be blocked after exceeding limit"
    );
    assert!(!limiter.check(&ip), "Blocked IP should fail check");

    // Wait for block to expire
    sleep(block_secs + 1);

    // Should be unblocked after duration
    assert!(
        !limiter.is_blocked(&ip),
        "IP should be unblocked after block duration expires"
    );
}

#[test]
fn block_ends_to_the_nanosecond() {
    let mut limiter = RateLimiter::new(5, 60, 300);
    let ip = IpAddr::from_octets(10, 0, 0, 2);
    limiter.block_at(&ip, 17);
    assert!(limiter.is_blocked_at(&ip, 0));
    assert!(limiter.is_blocked_at(&ip, secs(300) + 16));
    assert!(!limiter.is_blocked_at(&ip, secs(300) + 17));
    assert_eq!(limiter.get_count(&ip), 0);
}

#[test]
fn longest_block_can_be_told() {
    let mut limiter = RateLimiter::new(1, 1, u64::MAX);
    let ip = IpAddr::V6(1);
    limiter.block_at(&ip, MAX_ELAPSED);
    let end = MAX_ELAPSED + u64::MAX as u128 * NANOS_PER_SEC;
    assert!(limiter.is_blocked_at(&ip, end - 1));
    assert!(!limiter.is_blocked_at(&ip, end));
}

#[test]
fn window_opens_anew_after_its_end() {
    let mut limiter = RateLimiter::new(3, 60, 300);
    let ip = IpAddr::from_octets(10, 0, 0, 3);
    limiter.record_at(&ip, secs(1), secs(1));
    limiter.record_at(&ip, secs(61) - 1, secs(61));
    assert_eq!(limiter.get_count(&ip), 2);
    assert!(limiter.check_at(&ip, secs(61), secs(61)));
    limiter.record_at(&ip, secs(61), secs(61));
    assert_eq!(limiter.get_count(&ip), 1);
    assert!(!limiter.is_blocked_at(&ip, secs(61)));
}

#[test]
fn request_at_the_limit_blocks_from_the_second_reading() {
    let mut limiter = RateLimiter::new(2, 60, 10);
    let ip = IpAddr::from_octets(10, 0, 0, 4);
    limiter.record_at(&ip, 5, 6);
    assert!(!limiter.is_blocked_at(&ip, 7));
    limiter.record_at(&ip, 8, 9);
    assert!(limiter.is_blocked_at(&ip, secs(10) + 8));
    assert!(!limiter.is_blocked_at(&ip, secs(10) + 9));
    // The block is over, but the window is still used up.
    assert!(!limiter.check_at(&ip, secs(20), secs(20)));
    assert!(limiter.check_at(&ip, secs(20), secs(60) + 5));
}

#[test]
fn reading_before_the_window_counts_as_inside_it() {
    let mut limiter = RateLimiter::new(1, 60, 0);
    let ip = IpAddr::from_octets(10, 0, 0, 5);
    limiter.record_at(&ip, secs(100), secs(100));
    assert!(!limiter.check_at(&ip, secs(100), secs(1)));
}

#[test]
fn empty_window_holds_one_request() {
    let mut limiter = RateLimiter::new(2, 0, 300);
    let ip = IpAddr::from_octets(10, 0, 0, 6);
    for now in 0..5 {
        limiter.record_at(&ip, now, now);
        assert_eq!(limiter.get_count(&ip), 1);
        assert!(limiter.check_at(&ip, now, now));
    }
}

#[test]
fn limit_of_zero_allows_nothing() {
    let mut limiter = RateLimiter::new(0, 60, 300);
    let ip = IpAddr::from_octets(10, 0, 0, 1);
    assert!(!limiter.check(&ip));
    assert!(!limiter.check_at(&ip, 0, 0));
    assert!(!limiter.is_blocked(&ip));
    limiter.record_at(&ip, 0, 0);
    assert!(limiter.is_blocked_at(&ip, 1));
    assert!(!limiter.check_at(&ip, 1, 1));
    // Neither the end of the block nor a reset makes a difference.
    assert!(!limiter.check_at(&ip, secs(300), secs(300)));
    limiter.reset(&ip);
    assert!(!limiter.check_at(&ip, secs(300), secs(300)));
}

#[test]
fn limiter_tells_whether_it_has_requests() {
    let mut limiter = RateLimiter::new(5, 60, 300);
    assert!(!limiter.has_requests());
    limiter.block_at(&IpAddr::V4(1), 0);
    assert!(!limiter.has_requests());
    for ip in [IpAddr::V4(1), IpAddr::V6(1)] {
        limiter.record_at(&ip, 0, 0);
        assert!(limiter.has_requests());
        limiter.reset(&ip);
        assert!(!limiter.has_requests());
    }
}

#[test]
fn cleanup_keeps_what_is_not_stale() {
    let mut limiter = RateLimiter::new(10, 60, 300);
    let stale = IpAddr::V4(1);
    let recent = IpAddr::V4(2);
    let blocked = IpAddr::V6(1);
    limiter.record_at(&stale, 0, 0);
    limiter.record_at(&recent, 1, 1);
    limiter.block_at(&blocked, 0);
    limiter.cleanup_at(secs(120));
    assert_eq!(limiter.get_count(&stale), 0);
    assert_eq!(limiter.get_count(&recent), 1);
    assert!(limiter.is_blocked_at(&blocked, secs(120)));
    assert!(limiter.check_at(&stale, secs(120), secs(120)));
    assert!(limiter.check_at(&recent, secs(120), secs(120)));
    limiter.cleanup_at(secs(300));
    assert!(!limiter.is_blocked_at(&blocked, secs(120)));
}

#[test]
fn reset_forgets_one_address() {
    let mut limiter = RateLimiter::new(1, 60, 300);
    let ip = IpAddr::V4(7);
    let other = IpAddr::V6(7);
    limiter.record_at(&ip, 0, 0);
    limiter.record_at(&other, 0, 0);
    limiter.reset(&ip);
    assert!(limiter.check_at(&ip, 1, 1));
    assert_eq!(limiter.get_count(&ip), 0);
    assert!(!limiter.check_at(&other, 1, 1));
    assert_eq!(limiter.get_count(&other), 1);
}

#[test]
fn versions_of_the_protocol_do_not_mix() {
    let mut limiter = RateLimiter::new(1, 60, 300);
    limiter.record_at(&IpAddr::V4(9), 0, 0);
    assert!(limiter.check_at(&IpAddr::V6(9), 1, 1));
}

#[test]
fn octets_make_an_address() {
    assert_eq!(IpAddr::from_octets(192, 168, 1, 2), IpAddr::V4(0xC0A8_0102));
}

#[test]
fn requests_of_different_addresses_change_places() {
    let (ip, other) = (IpAddr::V4(1), IpAddr::V6(1));
    let mut one_way = RateLimiter::new(2, 60, 300);
    let mut other_way = RateLimiter::new(2, 60, 300);
    for now in [0, 5] {
        one_way.record_at(&ip, now, now);
        one_way.record_at(&other, now + 1, now + 1);
        other_way.record_at(&other, now + 1, now + 1);
        other_way.record_at(&ip, now, now);
    }
    for limiter in [&one_way, &other_way] {
        assert_eq!((limiter.get_count(&ip), limiter.get_count(&other)), (2, 2));
        assert!(limiter.is_blocked_at(&ip, secs(300) + 4));
        assert!(!limiter.is_blocked_at(&ip, secs(300) + 5));
        assert!(limiter.is_blocked_at(&other, secs(300) + 5));
        assert!(!limiter.is_blocked_at(&other, secs(300) + 6));
    }
}
