use nostd_rpc::acquire::{DeviceAcquirer, BACKOFF_MILLIS, MAX_ATTEMPTS};
use nostd_rpc::session::HttpError;

/// Runs attempts whose outcomes are given in order; returns the index of
/// the attempt that opened the device and the waits taken before it.
fn simulate(outcomes: &[bool]) -> (Result<usize, HttpError>, Vec<u64>) {
    let mut acquirer = DeviceAcquirer::new();
    let mut waits = Vec::new();
    let mut attempt = 0;
    loop {
        if outcomes[attempt] {
            return (Ok(attempt), waits);
        }
        match acquirer.record_failure() {
            Ok(wait) => waits.push(wait),
            Err(e) => return (Err(e), waits),
        }
        attempt += 1;
    }
}

#[test]
fn succeeds_on_third_attempt() {
    let (result, waits) = simulate(&[false, false, true]);
    assert_eq!(result, Ok(2));
    assert_eq!(waits, vec![BACKOFF_MILLIS, BACKOFF_MILLIS]);
}

#[test]
fn three_failures_give_device_unavailable() {
    let (result, waits) = simulate(&[false, false, false, true]);
    assert_eq!(result, Err(HttpError::DeviceUnavailable));
    assert_eq!(waits.len(), 2);
}

#[test]
fn first_attempt_success_needs_no_wait() {
    let (result, waits) = simulate(&[true]);
    assert_eq!(result, Ok(0));
    assert!(waits.is_empty());
}

#[test]
fn failures_are_counted_and_capped() {
    let mut acquirer = DeviceAcquirer::new();
    assert_eq!(acquirer.failures(), 0);
    assert_eq!(acquirer.record_failure(), Ok(1000));
    assert_eq!(acquirer.record_failure(), Ok(1000));
    assert_eq!(acquirer.record_failure(), Err(HttpError::DeviceUnavailable));
    assert_eq!(acquirer.failures(), MAX_ATTEMPTS);
    assert_eq!(acquirer.record_failure(), Err(HttpError::DeviceUnavailable));
    assert_eq!(acquirer.failures(), 3);
}
