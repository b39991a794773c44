//! How an operation handed to an executor can fail.
use crate::error::HostError;
use vstd::prelude::*;

verus! {

/// Failure of dispatching an operation to its executor.
#[derive(Clone, Debug)]
pub enum DispatchError {
    /// The operation never started: nothing it would write was written.
    NotDispatched(HostError),
    /// The operation may have run, but its outcome is not known.
    OutcomeUnavailable(HostError),
}

} // verus!
