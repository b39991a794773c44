//! Admission control for storage jobs: a bounded number of pending jobs and
//! a bounded number of bytes reserved by them.
use crate::error::{HostError, HostErrorCode};
use crate::storage::limits::{exceeded, is_exceeded_error, StorageLimits};
use vstd::prelude::*;

verus! {

/// Pending jobs and reserved bytes.
pub type PendingState = (nat, nat);

/// One reservation of `bytes`: `None` when the byte count overflows, the job
/// bound is reached, or the byte bound would be exceeded.
pub open spec fn reserve_step(state: PendingState, limits: StorageLimits, bytes: nat) -> Option<
    PendingState,
> {
    let total = state.1 + bytes;
    if total > usize::MAX || state.0 >= limits.max_pending_jobs || total > limits.max_pending_bytes {
        None
    } else {
        Some((state.0 + 1, total))
    }
}

/// Giving back one reservation of `bytes`.
pub open spec fn release_step(state: PendingState, bytes: nat) -> PendingState {
    ((state.0 - 1) as nat, (state.1 - bytes) as nat)
}

/// Releasing a reservation restores the state it was taken from.
pub proof fn lemma_reserve_release(state: PendingState, limits: StorageLimits, bytes: nat)
    requires
        reserve_step(state, limits, bytes) is Some,
    ensures
        release_step(reserve_step(state, limits, bytes)->0, bytes) == state,
{
}

/// A granted reservation never takes the state past the limits.
pub proof fn lemma_reserve_within_limits(state: PendingState, limits: StorageLimits, bytes: nat)
    requires
        reserve_step(state, limits, bytes) is Some,
    ensures
        match reserve_step(state, limits, bytes) {
            Some(next) => next.0 <= limits.max_pending_jobs && next.1 <= limits.max_pending_bytes,
            None => false,
        },
{
}

/// One event on an admission: a reservation of some bytes is asked for,
/// or the reservation granted at an earlier event (by its index) is given
/// back.
pub enum AdmissionEvent {
    Reserve(nat),
    Release(nat),
}

/// The state an admission reaches from `(0, 0)` through `events`: a
/// reservation moves it as `reserve_step` says when granted, a release as
/// `release_step` says for the bytes of the reservation it gives back.
pub open spec fn replay(limits: StorageLimits, events: Seq<AdmissionEvent>) -> PendingState
    decreases events.len(),
{
    if events.len() == 0 {
        (0nat, 0nat)
    } else {
        let before = replay(limits, events.drop_last());
        match events.last() {
            AdmissionEvent::Reserve(bytes) => match reserve_step(before, limits, bytes) {
                Some(next) => next,
                None => before,
            },
            AdmissionEvent::Release(i) => release_step(before, reserved_bytes(events, i as int)),
        }
    }
}

/// The bytes event `i` asked for, when it is a reservation.
pub open spec fn reserved_bytes(events: Seq<AdmissionEvent>, i: int) -> nat {
    match events[i] {
        AdmissionEvent::Reserve(bytes) => bytes,
        AdmissionEvent::Release(_) => 0,
    }
}

/// Event `i` is a reservation that was granted.
pub open spec fn granted(limits: StorageLimits, events: Seq<AdmissionEvent>, i: int) -> bool {
    0 <= i < events.len() && events[i] is Reserve && reserve_step(
        replay(limits, events.take(i)),
        limits,
        reserved_bytes(events, i),
    ) is Some
}

/// Some event from `from` up to (not including) `to` gives back the
/// reservation of event `i`.
pub open spec fn released_between(events: Seq<AdmissionEvent>, i: int, from: int, to: int) -> bool {
    exists|j: int| from <= j < to && #[trigger] events[j] == AdmissionEvent::Release(i as nat)
}

/// After `events`, the reservation of event `i` is held: granted and not
/// given back since.
pub open spec fn live(limits: StorageLimits, events: Seq<AdmissionEvent>, i: int) -> bool {
    granted(limits, events, i) && !released_between(events, i, i + 1, events.len() as int)
}

/// Every release gives back a reservation that was granted earlier and is
/// still held.
pub open spec fn releases_held(limits: StorageLimits, events: Seq<AdmissionEvent>) -> bool {
    forall|j: int|
        0 <= j < events.len() && #[trigger] events[j] is Release ==> {
            let i = events[j]->Release_0 as int;
            i < j && granted(limits, events.take(j), i) && !released_between(events, i, i + 1, j)
        }
}

/// How many of the first `n` events are held reservations, and how many
/// bytes they hold.
pub open spec fn held(limits: StorageLimits, events: Seq<AdmissionEvent>, n: int) -> PendingState
    decreases n,
{
    if n <= 0 {
        (0nat, 0nat)
    } else {
        let rest = held(limits, events, n - 1);
        if live(limits, events, n - 1) {
            (rest.0 + 1, rest.1 + reserved_bytes(events, n - 1))
        } else {
            rest
        }
    }
}

proof fn lemma_take_prefix(events: Seq<AdmissionEvent>, e: AdmissionEvent, i: int)
    requires
        0 <= i <= events.len(),
    ensures
        events.push(e).take(i) == events.take(i),
{
    assert(events.push(e).take(i) =~= events.take(i));
}

/// Granted events of a trace stay granted, with the same bytes, when the
/// trace is extended.
proof fn lemma_granted_extend(limits: StorageLimits, events: Seq<AdmissionEvent>, e: AdmissionEvent, i: int)
    requires
        0 <= i < events.len(),
    ensures
        granted(limits, events.push(e), i) == granted(limits, events, i),
        reserved_bytes(events.push(e), i) == reserved_bytes(events, i),
{
    lemma_take_prefix(events, e, i);
}

/// A reservation event leaves the holding of every earlier event as it was.
proof fn lemma_held_after_reserve(limits: StorageLimits, events: Seq<AdmissionEvent>, bytes: nat, n: int)
    requires
        0 <= n <= events.len(),
    ensures
        held(limits, events.push(AdmissionEvent::Reserve(bytes)), n) == held(limits, events, n),
    decreases n,
{
    let t = events.push(AdmissionEvent::Reserve(bytes));
    if n > 0 {
        lemma_held_after_reserve(limits, events, bytes, n - 1);
        let i = n - 1;
        lemma_granted_extend(limits, events, AdmissionEvent::Reserve(bytes), i);
        assert(released_between(t, i, i + 1, t.len() as int) == released_between(
            events,
            i,
            i + 1,
            events.len() as int,
        )) by {
            if released_between(t, i, i + 1, t.len() as int) {
                let j = choose|j: int| i + 1 <= j < t.len() && #[trigger] t[j] == AdmissionEvent::Release(i as nat);
                assert(j < events.len());
                assert(events[j] == t[j]);
            }
            if released_between(events, i, i + 1, events.len() as int) {
                let j = choose|j: int| i + 1 <= j < events.len() && #[trigger] events[j] == AdmissionEvent::Release(i as nat);
                assert(t[j] == events[j]);
            }
        }
    }
}

/// A release of event `k` ends its holding and leaves every other as it
/// was.
proof fn lemma_held_after_release(limits: StorageLimits, events: Seq<AdmissionEvent>, k: nat, n: int)
    requires
        0 <= n <= events.len(),
    ensures
        held(limits, events.push(AdmissionEvent::Release(k)), n) == (if k < n && live(limits, events, k as int) {
            ((held(limits, events, n).0 - 1) as nat, (held(limits, events, n).1 - reserved_bytes(events, k as int)) as nat)
        } else {
            held(limits, events, n)
        }),
        k < n && live(limits, events, k as int) ==> held(limits, events, n).0 >= 1 && held(limits, events, n).1 >= reserved_bytes(events, k as int),
    decreases n,
{
    let t = events.push(AdmissionEvent::Release(k));
    if n > 0 {
        lemma_held_after_release(limits, events, k, n - 1);
        let i = n - 1;
        lemma_granted_extend(limits, events, AdmissionEvent::Release(k), i);
        if i != k {
            assert(released_between(t, i, i + 1, t.len() as int) == released_between(
                events,
                i,
                i + 1,
                events.len() as int,
            )) by {
                if released_between(t, i, i + 1, t.len() as int) {
                    let j = choose|j: int| i + 1 <= j < t.len() && #[trigger] t[j] == AdmissionEvent::Release(i as nat);
                    if j == events.len() {
                        assert(t[j] == AdmissionEvent::Release(k));
                    }
                    assert(j < events.len());
                    assert(events[j] == t[j]);
                }
                if released_between(events, i, i + 1, events.len() as int) {
                    let j = choose|j: int| i + 1 <= j < events.len() && #[trigger] events[j] == AdmissionEvent::Release(i as nat);
                    assert(t[j] == events[j]);
                }
            }
        } else {
            assert(t[events.len() as int] == AdmissionEvent::Release(i as nat));
            assert(released_between(t, i, i + 1, t.len() as int));
            if live(limits, events, i) {
                assert(!released_between(events, i, i + 1, events.len() as int));
            }
        }
    }
}

/// The law of admission accounting: after any interleaving of
/// reservations and releases that gives back only reservations it holds,
/// the admission counts exactly the held reservations and their bytes.
pub proof fn lemma_replay_counts_held(limits: StorageLimits, events: Seq<AdmissionEvent>)
    requires
        releases_held(limits, events),
    ensures
        replay(limits, events) == held(limits, events, events.len() as int),
    decreases events.len(),
{
    if events.len() > 0 {
        let p = events.drop_last();
        let e = events.last();
        assert(p.push(e) =~= events);
        assert(releases_held(limits, p)) by {
            assert forall|j: int| 0 <= j < p.len() && #[trigger] p[j] is Release implies {
                let i = p[j]->Release_0 as int;
                i < j && granted(limits, p.take(j), i) && !released_between(p, i, i + 1, j)
            } by {
                assert(events[j] == p[j]);
                assert(events.take(j) =~= p.take(j));
                let i = p[j]->Release_0 as int;
                if released_between(p, i, i + 1, j) {
                    let m = choose|m: int| i + 1 <= m < j && #[trigger] p[m] == AdmissionEvent::Release(i as nat);
                    assert(events[m] == p[m]);
                }
            }
        }
        lemma_replay_counts_held(limits, p);
        let n = p.len() as int;
        match e {
            AdmissionEvent::Reserve(bytes) => {
                lemma_held_after_reserve(limits, p, bytes, n);
                assert(events.take(n) =~= p);
                assert(!released_between(events, n, n + 1, events.len() as int));
            },
            AdmissionEvent::Release(k) => {
                lemma_held_after_release(limits, p, k, n);
                assert(events[n] is Release);
                assert(p.take(n) =~= p);
                assert(events.take(n) =~= p);
                assert(!granted(limits, events, n));
                let i = k as int;
                assert(granted(limits, p, i)) by {
                    assert(p.take(i) =~= events.take(n).take(i));
                }
                assert(!released_between(p, i, i + 1, n)) by {
                    if released_between(p, i, i + 1, n) {
                        let m = choose|m: int| i + 1 <= m < n && #[trigger] p[m] == AdmissionEvent::Release(i as nat);
                        assert(events[m] == p[m]);
                    }
                }
                assert(live(limits, p, i));
            },
        }
    }
}

/// The error for a full admission queue.
pub open spec fn is_overloaded_error(e: HostError) -> bool {
    &&& e.code == HostErrorCode::ProviderUnavailable
    &&& e.message@ == "storage admission capacity exhausted"@
    &&& e.details@.len() == 1
    &&& e.details@[0].0@ == "reason"@
    &&& e.details@[0].1@ == "overloaded"@
}

/// Pending storage jobs and their reserved bytes under fixed limits.
pub struct Admission {
    limits: StorageLimits,
    pending_jobs: usize,
    pending_bytes: usize,
}

/// Bytes held by one admitted job until it is released.
pub struct Reservation {
    bytes: usize,
}

impl Reservation {
    pub closed spec fn spec_bytes(&self) -> nat {
        self.bytes as nat
    }

    pub fn bytes(&self) -> (bytes: usize)
        ensures
            bytes == self.spec_bytes(),
    {
        self.bytes
    }
}

impl Admission {
    pub closed spec fn limits(&self) -> StorageLimits {
        self.limits
    }

    pub closed spec fn state(&self) -> PendingState {
        (self.pending_jobs as nat, self.pending_bytes as nat)
    }

    pub fn limits_ref(&self) -> (limits: &StorageLimits)
        ensures
            *limits == self.limits(),
    {
        &self.limits
    }

    pub fn new(limits: StorageLimits) -> (admission: Admission)
        ensures
            admission.limits() == limits,
            admission.state() == (0nat, 0nat),
    {
        Admission { limits, pending_jobs: 0, pending_bytes: 0 }
    }

    /// Reserves room for one job of `bytes` bytes, as [`reserve_step`] says;
    /// a byte count beyond `usize` is a resource-limit error, a full queue an
    /// overload error.
    pub fn try_reserve(&mut self, bytes: usize) -> (reservation: Result<Reservation, HostError>)
        ensures
            final(self).limits() == old(self).limits(),
            match reserve_step(old(self).state(), old(self).limits(), bytes as nat) {
                Some(next) => reservation matches Ok(r) && r.spec_bytes() == bytes
                    && final(self).state() == next,
                None => reservation matches Err(e) && final(self).state() == old(self).state() && (
                if old(self).state().1 + bytes > usize::MAX {
                    is_exceeded_error(e)
                } else {
                    is_overloaded_error(e)
                }),
            },
    {
        let total = match self.pending_bytes.checked_add(bytes) {
            Some(total) => total,
            None => return Err(exceeded()),
        };
        if self.pending_jobs >= self.limits.max_pending_jobs || total > self.limits.max_pending_bytes {
            return Err(
                HostError::new(
                    HostErrorCode::ProviderUnavailable,
                    "storage admission capacity exhausted",
                ).with_detail("reason", "overloaded".to_owned()),
            );
        }
        self.pending_jobs = self.pending_jobs + 1;
        self.pending_bytes = total;
        Ok(Reservation { bytes })
    }

    /// Gives back a reservation: its job slot and its bytes. A reservation
    /// this admission could not have granted (no job pending, or fewer bytes
    /// pending than it holds) changes nothing and is reported as `false`.
    pub fn release(&mut self, reservation: Reservation) -> (released: bool)
        ensures
            final(self).limits() == old(self).limits(),
            released == (old(self).state().0 >= 1 && old(self).state().1 >= reservation.spec_bytes()),
            final(self).state() == if released {
                release_step(old(self).state(), reservation.spec_bytes())
            } else {
                old(self).state()
            },
    {
        if self.pending_jobs < 1 || self.pending_bytes < reservation.bytes {
            return false;
        }
        self.pending_jobs = self.pending_jobs - 1;
        self.pending_bytes = self.pending_bytes - reservation.bytes;
        true
    }
}

} // verus!
