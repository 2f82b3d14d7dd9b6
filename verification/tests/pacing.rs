use dalle2::client::Dalle2;
use dalle2::limiter::RateLimiterState;
use dalle2::retry::{RetryDecision, RetryPolicy, MAX_ELAPSED_MS};

#[test]
fn first_permit_is_granted_at_once() {
    let mut limiter = RateLimiterState::new();
    assert_eq!(limiter.acquire(0), 0);
    assert_eq!(limiter.next_free_ms, 1000);
}

#[test]
fn eager_callers_wait_out_the_second() {
    let mut limiter = RateLimiterState::new();
    assert_eq!(limiter.acquire(100), 0);
    assert_eq!(limiter.acquire(100), 1000);
    assert_eq!(limiter.acquire(400), 1700);
}

#[test]
fn a_late_caller_waits_nothing() {
    let mut limiter = RateLimiterState::new();
    assert_eq!(limiter.acquire(0), 0);
    assert_eq!(limiter.acquire(2500), 0);
    assert_eq!(limiter.next_free_ms, 3500);
}

#[test]
fn consecutive_grants_lie_a_second_apart() {
    let mut limiter = RateLimiterState::new();
    let mut now: u64 = 0;
    let mut last_grant: Option<u64> = None;
    for step in 0..20u64 {
        let wait = limiter.acquire(now);
        let grant = now + wait;
        if let Some(prev) = last_grant {
            assert!(grant >= prev + 1000);
        }
        last_grant = Some(grant);
        // The caller dispatches at the grant and comes back quickly.
        now = grant + step % 3;
    }
}

#[test]
fn permits_through_the_client_facade() {
    let mut client = Dalle2::new(String::from("tok"));
    assert_eq!(client.acquire_permit(50), 0);
    assert_eq!(client.acquire_permit(50), 1000);
    assert_eq!(client.access_token, "tok");
}

#[test]
fn first_retry_waits_half_a_second() {
    let mut policy = RetryPolicy::new();
    assert_eq!(policy.on_failure(0), RetryDecision::RetryAfter(500));
    assert_eq!(policy.on_failure(500), RetryDecision::RetryAfter(750));
    assert_eq!(policy.on_failure(1250), RetryDecision::RetryAfter(1125));
}

#[test]
fn a_failure_past_the_budget_is_terminal() {
    let mut policy = RetryPolicy::new();
    assert_eq!(policy.on_failure(MAX_ELAPSED_MS), RetryDecision::GiveUp);
    let mut other = RetryPolicy::new();
    assert_eq!(other.on_failure(59501), RetryDecision::GiveUp);
    assert_eq!(other.on_failure(59500), RetryDecision::RetryAfter(500));
}

#[test]
fn an_always_failing_service_stays_within_the_budget() {
    // Model a service that answers with a server error at once, every time.
    let mut policy = RetryPolicy::new();
    let mut elapsed: u64 = 0;
    let mut attempts: u64 = 1;
    loop {
        match policy.on_failure(elapsed) {
            RetryDecision::RetryAfter(wait) => {
                elapsed += wait;
                attempts += 1;
                assert!(elapsed <= MAX_ELAPSED_MS);
            }
            RetryDecision::GiveUp => break,
        }
        assert!(attempts < 1000, "the retry loop must give up eventually");
    }
    assert!(attempts >= 1);
    assert!(elapsed <= MAX_ELAPSED_MS);
}

#[test]
fn the_delay_never_passes_the_cap() {
    let mut policy = RetryPolicy::new();
    for _ in 0..200 {
        match policy.on_failure(0) {
            RetryDecision::RetryAfter(wait) => assert!(wait <= 60000),
            RetryDecision::GiveUp => panic!("a failure at the start must be retried"),
        }
    }
    assert_eq!(policy.next_interval_ms, 60000);
}
