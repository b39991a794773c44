use etas_host::TransportTimeoutPolicy;
use std::time::Duration;

#[test]
fn timeout_policy_enforces_bounds_and_ordering() {
    let policy =
        TransportTimeoutPolicy::try_from_millis(2_000, 30_000).expect("bounded timeout policy");
    assert_eq!(policy.connect_timeout(), Duration::from_secs(2));
    assert_eq!(policy.request_deadline(), Duration::from_secs(30));

    for (connect, request) in [
        (99, 30_000),
        (2_000, 99),
        (60_001, 60_001),
        (2_000, 3_600_001),
        (2_001, 2_000),
    ] {
        assert!(
            TransportTimeoutPolicy::try_from_millis(connect, request).is_err(),
            "invalid timeout policy ({connect}, {request}) must be rejected"
        );
    }
}
