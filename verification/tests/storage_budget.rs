use etas_host::storage::accounting::Admission;
use etas_host::storage::executor::{
    scratch_bytes, sqlite_reservation_bytes, VolatileExecutor,
};
use etas_host::storage::receipt_budget::{admit_charge, charge, sum, FIXED_BYTES};
use etas_host::{DispatchError, HostError, HostErrorCode, HostJsonValue, HostValue, StorageLimits};

fn small_limits() -> StorageLimits {
    StorageLimits {
        max_pending_jobs: 2,
        max_pending_bytes: 100,
        max_value_bytes: 40,
        max_result_bytes: 60,
        ..StorageLimits::default()
    }
}

#[test]
fn default_limits_are_valid_and_documented() {
    let limits = StorageLimits::default();
    assert_eq!(limits.max_pending_jobs, 32);
    assert_eq!(limits.max_value_bytes, 1024 * 1024);
    assert_eq!(limits.max_depth, 48);
    assert!(limits.validate().is_ok());
}

#[test]
fn invalid_limits_are_rejected() {
    let mut limits = StorageLimits::default();
    limits.max_depth = 65;
    let error = limits.validate().unwrap_err();
    assert_eq!(error.code, HostErrorCode::InvalidRequest);
    assert_eq!(error.message, "invalid storage limits");
    let mut limits = StorageLimits::default();
    limits.max_pending_bytes = limits.max_value_bytes;
    assert!(limits.validate().is_err());
    let mut limits = StorageLimits::default();
    limits.max_pending_jobs = 0;
    assert!(limits.validate().is_err());
}

#[test]
fn value_size_counts_node_and_string_bytes() {
    let limits = StorageLimits::default();
    let node = std::mem::size_of::<HostValue>();
    assert_eq!(limits.value_size(&HostValue::Unit).unwrap(), node);
    assert_eq!(
        limits.value_size(&HostValue::String("abc".to_owned())).unwrap(),
        node + 3
    );
    let record = HostValue::Record(vec![("ab".to_owned(), HostValue::Bool(true))]);
    assert_eq!(limits.value_size(&record).unwrap(), 2 * node + 2);
    let json = HostValue::Json(HostJsonValue::String("xy".to_owned()));
    assert_eq!(
        limits.value_size(&json).unwrap(),
        node + std::mem::size_of::<HostJsonValue>() + 2
    );
}

#[test]
fn value_size_rejects_depth_nodes_and_bytes_beyond_limits() {
    let mut limits = StorageLimits::default();
    limits.max_depth = 2;
    let deep = HostValue::List(vec![HostValue::List(vec![HostValue::List(vec![
        HostValue::Unit,
    ])])]);
    let error = limits.value_size(&deep).unwrap_err();
    assert_eq!(error.code, HostErrorCode::BudgetExceeded);
    assert_eq!(error.message, "storage resource limit exceeded");
    let shallow = HostValue::List(vec![HostValue::List(vec![HostValue::Unit])]);
    assert!(limits.value_size(&shallow).is_ok());

    let mut limits = StorageLimits::default();
    limits.max_nodes = 2;
    let three = HostValue::List(vec![HostValue::Unit, HostValue::Unit]);
    assert!(limits.value_size(&three).is_err());

    let mut limits = StorageLimits::default();
    limits.max_result_bytes = std::mem::size_of::<HostValue>() + 2;
    let text = HostValue::String("abc".to_owned());
    assert!(limits.result_value_size(&text).is_err());
    assert!(limits.value_size(&text).is_ok());
}

#[test]
fn receipt_charge_counts_fixed_bytes_and_each_part_twice() {
    assert_eq!(FIXED_BYTES, 1024);
    assert_eq!(charge(&[]).unwrap(), 1024);
    assert_eq!(charge(&["ab", "c", "é"]).unwrap(), 1024 + 2 * (2 + 1 + 2));
}

#[test]
fn receipt_admission_respects_receipt_byte_limit() {
    let mut limits = StorageLimits::default();
    limits.max_receipt_bytes = 2000;
    assert!(admit_charge(&limits, 1000, 1000).is_ok());
    let error = admit_charge(&limits, 1000, 1001).unwrap_err();
    assert_eq!(error.code, HostErrorCode::BudgetExceeded);
    assert_eq!(error.message, "storage receipt byte budget exceeded");
    assert!(admit_charge(&limits, usize::MAX, 1).is_err());
}

#[test]
fn receipt_sum_stops_at_first_error_or_overflow() {
    assert_eq!(sum(vec![Ok(1), Ok(2), Ok(3)]).unwrap(), 6);
    assert_eq!(sum(vec![]).unwrap(), 0);
    let first = HostError::new(HostErrorCode::SchemaMismatch, "first");
    let second = HostError::new(HostErrorCode::InvalidRequest, "second");
    let error = sum(vec![Ok(1), Err(first.clone()), Err(second)]).unwrap_err();
    assert_eq!(error, first);
    let error = sum(vec![Ok(usize::MAX), Ok(1)]).unwrap_err();
    assert_eq!(error.message, "storage receipt byte budget exceeded");
}

#[test]
fn admission_reserve_then_release_restores_capacity() {
    let mut admission = Admission::new(small_limits());
    let first = admission.try_reserve(50).ok().expect("first reservation");
    assert_eq!(first.bytes(), 50);
    let second = admission.try_reserve(50).ok().expect("second reservation");
    let error = admission.try_reserve(1).err().expect("job limit reached");
    assert_eq!(error.code, HostErrorCode::ProviderUnavailable);
    assert_eq!(error.message, "storage admission capacity exhausted");
    assert_eq!(error.details, vec![("reason".to_owned(), "overloaded".to_owned())]);
    assert!(admission.release(second));
    let error = admission.try_reserve(51).err().expect("byte limit reached");
    assert_eq!(error.message, "storage admission capacity exhausted");
    let third = admission.try_reserve(50).ok().expect("released bytes are reusable");
    assert!(admission.release(third));
    assert!(admission.release(first));
    let stray = Admission::new(small_limits()).try_reserve(10).ok().expect("reservation");
    let mut empty = Admission::new(small_limits());
    assert!(!empty.release(stray));
    assert!(admission.try_reserve(100).is_ok());
}

#[test]
fn admission_reports_byte_overflow_as_resource_limit() {
    let mut limits = small_limits();
    limits.max_pending_bytes = usize::MAX;
    let mut admission = Admission::new(limits);
    let _held = admission.try_reserve(10).ok().expect("reservation");
    let error = admission.try_reserve(usize::MAX).err().expect("overflow");
    assert_eq!(error.code, HostErrorCode::BudgetExceeded);
    assert_eq!(error.message, "storage resource limit exceeded");
}

#[test]
fn scratch_and_reservation_bytes_follow_the_limits() {
    let limits = StorageLimits::default();
    let scratch = scratch_bytes(&limits).unwrap();
    assert_eq!(scratch, 2 * 1024 * 1024 + 3 * 4 * 1024 * 1024);
    assert_eq!(
        sqlite_reservation_bytes(&limits, 10).unwrap(),
        10 + scratch + 4 * 1024 * 1024
    );
    let mut huge = StorageLimits::default();
    huge.max_value_bytes = usize::MAX;
    let error = scratch_bytes(&huge).unwrap_err();
    assert_eq!(error.message, "storage scratch reservation overflow");
    assert!(sqlite_reservation_bytes(&limits, usize::MAX).is_err());
}

#[test]
fn volatile_executor_reserves_request_value_and_result_bytes() {
    let mut executor = VolatileExecutor::new(small_limits());
    let reservation = executor.reserve(0).ok().expect("fits exactly");
    assert_eq!(reservation.bytes(), 100);
    match executor.reserve(0) {
        Err(DispatchError::NotDispatched(error)) => {
            assert_eq!(error.message, "storage admission capacity exhausted")
        }
        _ => panic!("a full executor must not dispatch"),
    }
    assert!(executor.release(reservation));
    match executor.reserve(usize::MAX) {
        Err(DispatchError::NotDispatched(error)) => {
            assert_eq!(error.message, "storage reservation overflow")
        }
        _ => panic!("an overflowing request must not dispatch"),
    }
    assert!(VolatileExecutor::default().reserve(1).is_ok());
}
