use namada_faucet::state::faucet::RateLimiter;

/// Two requests inside the interval: the second is refused; at or past
/// the interval, both are granted.
#[test]
fn second_request_within_interval_is_refused() {
    let mut limiter = RateLimiter::new();
    let id = "player-one".to_string();
    assert!(limiter.allow(&id, 100, 10));
    assert!(!limiter.allow(&id, 105, 10), "elapsed 5 < 10");
    assert!(limiter.allow(&id, 110, 10), "elapsed 10 >= 10");
}

#[test]
fn refused_request_does_not_reset_the_clock() {
    let mut limiter = RateLimiter::new();
    let id = "player-one".to_string();
    assert!(limiter.allow(&id, 100, 10));
    assert!(!limiter.allow(&id, 109, 10));
    assert!(limiter.allow(&id, 110, 10), "still measured from the granted request");
}

#[test]
fn identities_never_block_each_other() {
    let mut limiter = RateLimiter::new();
    assert!(limiter.allow(&"alpha".to_string(), 100, 60));
    assert!(limiter.allow(&"beta".to_string(), 101, 60));
    assert!(!limiter.allow(&"alpha".to_string(), 130, 60));
    assert!(!limiter.allow(&"beta".to_string(), 130, 60));
}

#[test]
fn first_request_always_passes() {
    let mut limiter = RateLimiter::new();
    assert!(limiter.allow(&"anyone".to_string(), 0, u64::MAX));
}

#[test]
fn clock_running_backwards_is_refused() {
    let mut limiter = RateLimiter::new();
    let id = "player-one".to_string();
    assert!(limiter.allow(&id, 100, 0));
    assert!(!limiter.allow(&id, 99, 0), "now before the last grant never passes");
    assert!(limiter.allow(&id, 100, 0));
}
