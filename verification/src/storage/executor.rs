//! What a storage job reserves before it is dispatched: the request, its
//! working buffers, and the pending response, all within the admission limits.
use crate::error::{HostError, HostErrorCode};
use crate::execution::DispatchError;
use crate::storage::accounting::{
    is_overloaded_error, reserve_step, Admission, PendingState, Reservation,
};
use crate::storage::limits::{default_storage_limits, is_exceeded_error, StorageLimits};
use vstd::prelude::*;

verus! {

/// The error for a reservation whose byte count does not fit in `usize`.
pub open spec fn is_reservation_overflow(e: HostError) -> bool {
    &&& e.code == HostErrorCode::BudgetExceeded
    &&& e.message@ == "storage reservation overflow"@
    &&& e.details@.len() == 0
}

fn reservation_overflow() -> (error: HostError)
    ensures
        is_reservation_overflow(error),
{
    HostError::new(HostErrorCode::BudgetExceeded, "storage reservation overflow")
}

/// Scratch space of one SQLite job: two encoded values and three results.
pub open spec fn scratch_total(limits: StorageLimits) -> int {
    2 * limits.max_value_bytes + 3 * limits.max_result_bytes
}

/// Scratch space of one SQLite job, or an error when it does not fit in `usize`.
pub fn scratch_bytes(limits: &StorageLimits) -> (bytes: Result<usize, HostError>)
    ensures
        match bytes {
            Ok(n) => n == scratch_total(*limits),
            Err(e) => scratch_total(*limits) > usize::MAX && e.code == HostErrorCode::BudgetExceeded
                && e.message@ == "storage scratch reservation overflow"@,
        },
{
    let value = limits.max_value_bytes.checked_mul(2);
    let result = limits.max_result_bytes.checked_mul(3);
    match (value, result) {
        (Some(v), Some(r)) => match v.checked_add(r) {
            Some(total) => return Ok(total),
            None => {},
        },
        _ => {},
    }
    Err(HostError::new(HostErrorCode::BudgetExceeded, "storage scratch reservation overflow"))
}

/// Bytes a SQLite job reserves: its request, its scratch space, and one
/// pending result.
pub open spec fn sqlite_reservation_total(limits: StorageLimits, request_bytes: nat) -> int {
    request_bytes + scratch_total(limits) + limits.max_result_bytes
}

/// Bytes a SQLite job reserves, as [`sqlite_reservation_total`] says.
pub fn sqlite_reservation_bytes(limits: &StorageLimits, request_bytes: usize) -> (bytes: Result<
    usize,
    HostError,
>)
    ensures
        match bytes {
            Ok(n) => n == sqlite_reservation_total(*limits, request_bytes as nat),
            Err(e) => sqlite_reservation_total(*limits, request_bytes as nat) > usize::MAX
                && e.code == HostErrorCode::BudgetExceeded,
        },
{
    let scratch = scratch_bytes(limits)?;
    match request_bytes.checked_add(scratch) {
        Some(n) => match n.checked_add(limits.max_result_bytes) {
            Some(total) => Ok(total),
            None => Err(reservation_overflow()),
        },
        None => Err(reservation_overflow()),
    }
}

/// Bytes an in-memory job reserves: its request, one encoded value, and one
/// pending result.
pub open spec fn volatile_reservation_total(limits: StorageLimits, request_bytes: nat) -> int {
    request_bytes + limits.max_value_bytes + limits.max_result_bytes
}

/// Admission of in-memory storage jobs.
pub struct VolatileExecutor {
    admission: Admission,
}

impl Default for VolatileExecutor {
    fn default() -> (executor: VolatileExecutor)
        ensures
            executor.limits() == default_storage_limits(),
            executor.pending() == (0nat, 0nat),
    {
        VolatileExecutor::new(StorageLimits::default())
    }
}

impl VolatileExecutor {
    pub closed spec fn limits(&self) -> StorageLimits {
        self.admission.limits()
    }

    pub closed spec fn pending(&self) -> PendingState {
        self.admission.state()
    }

    pub fn new(limits: StorageLimits) -> (executor: VolatileExecutor)
        ensures
            executor.limits() == limits,
            executor.pending() == (0nat, 0nat),
    {
        VolatileExecutor { admission: Admission::new(limits) }
    }

    /// Reserves room for a job with a request of `request_bytes` bytes; every
    /// failure leaves the job undispatched.
    pub fn reserve(&mut self, request_bytes: usize) -> (reservation: Result<Reservation, DispatchError>)
        ensures
            final(self).limits() == old(self).limits(),
            ({
                let total = volatile_reservation_total(old(self).limits(), request_bytes as nat);
                if total > usize::MAX {
                    reservation matches Err(DispatchError::NotDispatched(e)) && is_reservation_overflow(e)
                        && final(self).pending() == old(self).pending()
                } else {
                    match reserve_step(old(self).pending(), old(self).limits(), total as nat) {
                        Some(next) => reservation matches Ok(r) && r.spec_bytes() == total
                            && final(self).pending() == next,
                        None => reservation matches Err(DispatchError::NotDispatched(e)) && (
                        is_overloaded_error(e) || is_exceeded_error(e)) && final(self).pending()
                            == old(self).pending(),
                    }
                }
            }),
    {
        let limits = self.admission.limits_ref();
        let bytes = match request_bytes.checked_add(limits.max_value_bytes) {
            Some(n) => match n.checked_add(limits.max_result_bytes) {
                Some(total) => total,
                None => return Err(DispatchError::NotDispatched(reservation_overflow())),
            },
            None => return Err(DispatchError::NotDispatched(reservation_overflow())),
        };
        match self.admission.try_reserve(bytes) {
            Ok(r) => Ok(r),
            Err(e) => Err(DispatchError::NotDispatched(e)),
        }
    }

    /// Gives back a reservation taken from this executor; one it could not
    /// have granted changes nothing and is reported as `false`.
    pub fn release(&mut self, reservation: Reservation) -> (released: bool)
        ensures
            final(self).limits() == old(self).limits(),
            released == (old(self).pending().0 >= 1 && old(self).pending().1
                >= reservation.spec_bytes()),
            final(self).pending() == if released {
                crate::storage::accounting::release_step(old(self).pending(), reservation.spec_bytes())
            } else {
                old(self).pending()
            },
    {
        self.admission.release(reservation)
    }
}

} // verus!
