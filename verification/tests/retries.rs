use gas_donator::retry::{pause_between_attempts, Delay, RetryPolicy, RetryStep};
use gas_donator::wallet::WalletStatus;

fn nanos(d: &Delay) -> u128 {
    d.secs() as u128 * 1_000_000_000 + d.subsec_nanos() as u128
}

#[test]
fn delay_from_millis() {
    let d = Delay::from_millis(2_500);
    assert_eq!(d.secs(), 2);
    assert_eq!(d.subsec_nanos(), 500_000_000);
    assert_eq!(nanos(&pause_between_attempts()), 150_000_000);
}

#[test]
fn checked_times_matches_duration() {
    let d = Delay::new(1, 600_000_000);
    let t = d.checked_times(3).unwrap();
    let std_product = std::time::Duration::new(1, 600_000_000) * 3;
    assert_eq!(t.secs(), std_product.as_secs());
    assert_eq!(t.subsec_nanos(), std_product.subsec_nanos());
    assert!(Delay::new(u64::MAX, 0).checked_times(2).is_none());
    assert!(Delay::new(u64::MAX, 999_999_999).checked_times(1).is_some());
    assert_eq!(nanos(&d.checked_times(0).unwrap()), 0);
}

#[test]
fn a_backoff_beyond_duration_is_refused_only_when_reached() {
    let p = RetryPolicy::new(2, Delay::new(u64::MAX / 2 + 1, 0));
    // The first retry's backoff still fits; the second would overflow.
    assert!(matches!(p.next_step(0, false), Some(RetryStep::RetryAfter { retries: 1, .. })));
    assert!(p.next_step(1, false).is_none());
    assert!(matches!(p.next_step(1, true), Some(RetryStep::Done)));
    assert!(matches!(p.next_step(2, false), Some(RetryStep::ReleaseWallet { .. })));
}

#[test]
fn success_is_done() {
    let p = RetryPolicy::new(3, Delay::from_millis(500));
    assert!(matches!(p.next_step(0, true), Some(RetryStep::Done)));
    assert!(matches!(p.next_step(3, true), Some(RetryStep::Done)));
}

#[test]
fn failures_back_off_linearly() {
    let p = RetryPolicy::new(3, Delay::from_millis(500));
    for (retries, expected_ms) in [(0u32, 500u128), (1, 1_000), (2, 1_500)] {
        match p.next_step(retries, false).unwrap() {
            RetryStep::RetryAfter { retries: n, backoff, pause } => {
                assert_eq!(n, retries + 1);
                assert_eq!(nanos(&backoff), expected_ms * 1_000_000);
                assert_eq!(nanos(&pause), 150_000_000);
            }
            other => panic!("expected a retry, got {:?}", other),
        }
    }
}

#[test]
fn failure_after_last_retry_releases_the_wallet() {
    let p = RetryPolicy::new(3, Delay::from_millis(500));
    assert!(matches!(
        p.next_step(3, false),
        Some(RetryStep::ReleaseWallet { status: WalletStatus::Free })
    ));
    let none = RetryPolicy::new(0, Delay::from_millis(500));
    assert!(matches!(
        none.next_step(0, false),
        Some(RetryStep::ReleaseWallet { status: WalletStatus::Free })
    ));
}

#[test]
fn a_wallet_is_attempted_at_most_max_plus_one_times() {
    let p = RetryPolicy::new(4, Delay::from_millis(10));
    let mut retries = 0u32;
    let mut attempts = 0u32;
    loop {
        attempts += 1;
        match p.next_step(retries, false).unwrap() {
            RetryStep::RetryAfter { retries: n, .. } => retries = n,
            RetryStep::ReleaseWallet { .. } => break,
            RetryStep::Done => panic!("no attempt succeeded"),
        }
    }
    assert_eq!(attempts, p.max_retries() + 1);
}

#[test]
fn a_later_success_keeps_the_wallet() {
    let p = RetryPolicy::new(4, Delay::from_millis(10));
    let outcomes = [false, false, true];
    let mut retries = 0u32;
    let mut attempts = 0usize;
    let mut released = false;
    for ok in outcomes {
        attempts += 1;
        match p.next_step(retries, ok).unwrap() {
            RetryStep::RetryAfter { retries: n, .. } => retries = n,
            RetryStep::ReleaseWallet { .. } => {
                released = true;
                break;
            }
            RetryStep::Done => break,
        }
    }
    assert_eq!(attempts, 3);
    assert_eq!(retries, 2);
    assert!(!released);
}
