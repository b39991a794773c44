//! Operating-system randomness for capability tokens and storage generations.
use vstd::prelude::*;

verus! {

/// Fills sixteen bytes from the operating system's random source through
/// `getrandom::fill`; on failure, the error's text.
/// Nothing is stated of the bytes: they are random.
#[verifier::external_body]
pub(crate) fn random_16() -> (bytes: Result<[u8; 16], String>) {
    let mut bytes = [0u8; 16];
    match getrandom::fill(&mut bytes) {
        Ok(()) => Ok(bytes),
        Err(error) => Err(error.to_string()),
    }
}

} // verus!
