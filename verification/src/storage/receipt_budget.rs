//! Byte accounting for stored operation receipts.
//!
//! A receipt reservation is charged a fixed amount for its bounded fields and
//! ledger nodes, plus every variable identity string twice (once for the
//! lookup key, once for the receipt itself).
use crate::error::{HostError, HostErrorCode};
use crate::storage::limits::StorageLimits;
use crate::text::{byte_len, utf8};
use vstd::prelude::*;

verus! {

broadcast use {vstd::std_specs::vec::group_vec_axioms, vstd::seq::group_seq_axioms};

/// Fixed charge of one receipt: version/disposition fields and ledger nodes.
pub const FIXED_BYTES: usize = 1024;

/// Twice the UTF-8 length of every part, summed.
pub open spec fn parts_bytes(parts: Seq<&str>) -> nat
    decreases parts.len(),
{
    if parts.len() == 0 {
        0
    } else {
        parts_bytes(parts.drop_last()) + 2 * utf8(parts.last()@).len()
    }
}

/// What a receipt with these identity strings is charged.
pub open spec fn receipt_charge(parts: Seq<&str>) -> nat {
    FIXED_BYTES as nat + parts_bytes(parts)
}

/// The error for an exhausted receipt byte budget.
pub open spec fn is_receipt_exceeded(e: HostError) -> bool {
    &&& e.code == HostErrorCode::BudgetExceeded
    &&& e.message@ == "storage receipt byte budget exceeded"@
    &&& e.details@.len() == 0
}

pub fn exceeded() -> (error: HostError)
    ensures
        is_receipt_exceeded(error),
{
    HostError::new(HostErrorCode::BudgetExceeded, "storage receipt byte budget exceeded")
}

/// A longer prefix is charged at least as much.
pub proof fn lemma_parts_bytes_prefix(parts: Seq<&str>, i: int, j: int)
    requires
        0 <= i <= j <= parts.len(),
    ensures
        parts_bytes(parts.take(i)) <= parts_bytes(parts.take(j)),
    decreases j - i,
{
    if i < j {
        lemma_parts_bytes_prefix(parts, i, j - 1);
        assert(parts.take(j).drop_last() =~= parts.take(j - 1));
    }
}

/// Charge of a receipt whose variable identities are `parts`; fails exactly
/// when the charge does not fit in `usize`.
pub fn charge(parts: &[&str]) -> (size: Result<usize, HostError>)
    ensures
        match size {
            Ok(n) => n == receipt_charge(parts@),
            Err(e) => receipt_charge(parts@) > usize::MAX && is_receipt_exceeded(e),
        },
{
    let mut size: usize = FIXED_BYTES;
    let mut i: usize = 0;
    assert(parts@.take(0) =~= Seq::<&str>::empty());
    while i < parts.len()
        invariant
            i <= parts@.len(),
            size == FIXED_BYTES + parts_bytes(parts@.take(i as int)),
        decreases parts@.len() - i,
    {
        proof {
            assert(parts@.take(i + 1).drop_last() =~= parts@.take(i as int));
            assert(parts@.take(i + 1).last() == parts@[i as int]);
            lemma_parts_bytes_prefix(parts@, i + 1, parts@.len() as int);
            assert(parts@.take(parts@.len() as int) =~= parts@);
        }
        let len = byte_len(parts[i]);
        let doubled = match len.checked_mul(2) {
            Some(n) => n,
            None => return Err(exceeded()),
        };
        size = match size.checked_add(doubled) {
            Some(n) => n,
            None => return Err(exceeded()),
        };
        i = i + 1;
    }
    assert(parts@.take(parts@.len() as int) =~= parts@);
    Ok(size)
}

/// Admits `additional` receipt bytes on top of `used` exactly when the total
/// stays within the receipt byte limit.
pub fn admit_charge(limits: &StorageLimits, used: usize, additional: usize) -> (admitted: Result<(), HostError>)
    ensures
        admitted is Ok <==> used + additional <= limits.max_receipt_bytes,
        admitted matches Err(e) ==> is_receipt_exceeded(e),
{
    match used.checked_add(additional) {
        Some(total) => {
            if total > limits.max_receipt_bytes {
                Err(exceeded())
            } else {
                Ok(())
            }
        },
        None => Err(exceeded()),
    }
}

/// Outcome of summing receipt charges in order.
pub enum ChargeSum {
    Total(nat),
    Failed(HostError),
    Overflow,
}

/// Sums `charges` from the front: the first failed charge ends the sum with
/// its error, and a running total beyond `usize` ends it as an overflow.
pub open spec fn sum_charges(charges: Seq<Result<usize, HostError>>, total: nat) -> ChargeSum
    decreases charges.len(),
{
    if charges.len() == 0 {
        ChargeSum::Total(total)
    } else {
        match charges[0] {
            Err(e) => ChargeSum::Failed(e),
            Ok(c) => if total + c > usize::MAX {
                ChargeSum::Overflow
            } else {
                sum_charges(charges.drop_first(), total + c as nat)
            },
        }
    }
}

/// Total of several receipt charges, as [`sum_charges`] describes.
pub fn sum(charges: Vec<Result<usize, HostError>>) -> (total: Result<usize, HostError>)
    ensures
        match sum_charges(charges@, 0) {
            ChargeSum::Total(n) => total matches Ok(t) && t == n,
            ChargeSum::Failed(e) => total matches Err(x) && x == e,
            ChargeSum::Overflow => total matches Err(x) && is_receipt_exceeded(x),
        },
{
    let ghost all = charges@;
    let mut rest = charges;
    let mut total: usize = 0;
    while rest.len() > 0
        invariant
            all == charges@,
            sum_charges(all, 0) == sum_charges(rest@, total as nat),
        decreases rest@.len(),
    {
        let ghost before = rest@;
        let charge = rest.remove(0);
        assert(charge == before[0]);
        assert(rest@ =~= before.drop_first());
        match charge {
            Err(e) => return Err(e),
            Ok(c) => {
                total = match total.checked_add(c) {
                    Some(n) => n,
                    None => return Err(exceeded()),
                };
            },
        }
    }
    Ok(total)
}

} // verus!
