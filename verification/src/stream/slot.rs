//! The lifecycle of one managed stream slot: open over TCP or TLS, upgrading
//! from TCP to TLS, closing, closed; and the generation that every handle
//! to the slot must match.
use crate::error::{HostError, HostErrorCode};
use crate::stream::{
    is_cancelled_error, is_closed_error, is_stale_error, stale_stream, stream_cancelled,
    stream_closed, StreamHandleRef,
};
use vstd::prelude::*;

verus! {

/// Where a stream slot is in its life.
#[derive(Clone, Copy, Debug, PartialEq, Eq, Structural)]
pub enum StreamLifecycle {
    OpenTcp,
    Upgrading,
    OpenTls,
    Closing,
    Closed,
}

/// The lifecycle and the generation of a slot.
pub struct SlotModel {
    pub lifecycle: StreamLifecycle,
    pub generation: u64,
}

/// Why a slot refused an operation.
pub enum SlotRefusal {
    /// The handle's generation is not the slot's.
    Stale,
    /// The slot is closing, closed, or otherwise not in the state asked for.
    Closed,
    /// Another operation holds the stream.
    Busy,
    /// The stream is not plain TCP with nothing read ahead.
    NotUnread,
    /// The upgrade was abandoned by a close.
    Cancelled,
}

pub open spec fn is_open(l: StreamLifecycle) -> bool {
    l == StreamLifecycle::OpenTcp || l == StreamLifecycle::OpenTls
}

/// Closing and closed are final: no operation leaves them.
pub open spec fn is_final(l: StreamLifecycle) -> bool {
    l == StreamLifecycle::Closing || l == StreamLifecycle::Closed
}

/// Starting to close: the generation must match, and any state but closing
/// or closed moves to closing.
pub open spec fn close_step(s: SlotModel, handle_generation: u64) -> Result<SlotModel, SlotRefusal> {
    if s.generation != handle_generation {
        Err(SlotRefusal::Stale)
    } else if is_final(s.lifecycle) {
        Err(SlotRefusal::Closed)
    } else {
        Ok(SlotModel { lifecycle: StreamLifecycle::Closing, generation: s.generation })
    }
}

/// Checking that a TLS upgrade may start: matching generation, an idle
/// stream, open over TCP, nothing read ahead.
pub open spec fn upgrade_check(s: SlotModel, handle_generation: u64, idle: bool, unread_plain_tcp: bool) -> Result<(), SlotRefusal> {
    if s.generation != handle_generation {
        Err(SlotRefusal::Stale)
    } else if !idle {
        Err(SlotRefusal::Busy)
    } else if s.lifecycle != StreamLifecycle::OpenTcp {
        Err(SlotRefusal::Closed)
    } else if !unread_plain_tcp {
        Err(SlotRefusal::NotUnread)
    } else {
        Ok(())
    }
}

/// Starting a TLS upgrade: the checks of [`upgrade_check`], then upgrading.
pub open spec fn upgrade_begin_step(s: SlotModel, handle_generation: u64, idle: bool, unread_plain_tcp: bool) -> Result<SlotModel, SlotRefusal> {
    match upgrade_check(s, handle_generation, idle, unread_plain_tcp) {
        Ok(()) => Ok(SlotModel { lifecycle: StreamLifecycle::Upgrading, generation: s.generation }),
        Err(r) => Err(r),
    }
}

/// Finishing a TLS upgrade: an upgrading slot becomes open over TLS with the
/// next generation; one closed meanwhile ends closed.
pub open spec fn upgrade_finish_step(s: SlotModel) -> (SlotModel, Result<u64, SlotRefusal>) {
    if s.lifecycle == StreamLifecycle::Upgrading {
        (
            SlotModel { lifecycle: StreamLifecycle::OpenTls, generation: (s.generation + 1) as u64 },
            Ok((s.generation + 1) as u64),
        )
    } else {
        (SlotModel { lifecycle: StreamLifecycle::Closed, generation: s.generation }, Err(SlotRefusal::Cancelled))
    }
}

/// Abandoning a TLS upgrade: an upgrading slot is closed.
pub open spec fn upgrade_fail_step(s: SlotModel) -> SlotModel {
    if s.lifecycle == StreamLifecycle::Upgrading {
        SlotModel { lifecycle: StreamLifecycle::Closed, generation: s.generation }
    } else {
        s
    }
}

/// Using the stream for I/O: matching generation and an open stream.
pub open spec fn use_check(s: SlotModel, handle_generation: u64) -> Result<(), SlotRefusal> {
    if s.generation != handle_generation {
        Err(SlotRefusal::Stale)
    } else if !is_open(s.lifecycle) {
        Err(SlotRefusal::Closed)
    } else {
        Ok(())
    }
}

/// The error a refusal is reported with.
pub open spec fn reports_refusal(e: HostError, r: SlotRefusal, handle: (Seq<char>, u64), actual: u64) -> bool {
    match r {
        SlotRefusal::Stale => is_stale_error(e, handle, actual),
        SlotRefusal::Closed => is_closed_error(e),
        SlotRefusal::Busy => e.code == HostErrorCode::InvalidRequest && e.message@
            == "TLS handshake requires an idle TCP stream"@,
        SlotRefusal::NotUnread => e.code == HostErrorCode::InvalidRequest && e.message@
            == "TLS handshake requires an unread plain TCP stream"@,
        SlotRefusal::Cancelled => is_cancelled_error(e),
    }
}

/// The lifecycle and generation of one managed stream.
pub struct StreamSlotState {
    lifecycle: StreamLifecycle,
    generation: u64,
}

impl View for StreamSlotState {
    type V = SlotModel;

    closed spec fn view(&self) -> SlotModel {
        SlotModel { lifecycle: self.lifecycle, generation: self.generation }
    }
}

impl StreamSlotState {
    /// A fresh slot, open over TLS or plain TCP, at generation 0.
    pub fn new(tls: bool) -> (slot: StreamSlotState)
        ensures
            slot@.generation == 0,
            slot@.lifecycle == if tls {
                StreamLifecycle::OpenTls
            } else {
                StreamLifecycle::OpenTcp
            },
    {
        StreamSlotState {
            lifecycle: if tls {
                StreamLifecycle::OpenTls
            } else {
                StreamLifecycle::OpenTcp
            },
            generation: 0,
        }
    }

    pub fn lifecycle(&self) -> (lifecycle: StreamLifecycle)
        ensures
            lifecycle == self@.lifecycle,
    {
        self.lifecycle
    }

    pub fn generation(&self) -> (generation: u64)
        ensures
            generation == self@.generation,
    {
        self.generation
    }

    /// Accepts a handle only of the slot's current generation.
    pub fn validate_generation(&self, handle: &StreamHandleRef) -> (valid: Result<(), HostError>)
        ensures
            match valid {
                Ok(()) => handle@.1 == self@.generation,
                Err(e) => handle@.1 != self@.generation && is_stale_error(e, handle@, self@.generation),
            },
    {
        if self.generation == handle.generation() {
            Ok(())
        } else {
            Err(stale_stream(handle, self.generation))
        }
    }

    /// Starts closing the stream, as [`close_step`] says.
    pub fn begin_close(&mut self, handle: &StreamHandleRef) -> (closing: Result<(), HostError>)
        ensures
            match close_step(old(self)@, handle@.1) {
                Ok(next) => closing is Ok && final(self)@ == next,
                Err(r) => closing matches Err(e) && reports_refusal(e, r, handle@, old(self)@.generation)
                    && final(self)@ == old(self)@,
            },
    {
        self.validate_generation(handle)?;
        match self.lifecycle {
            StreamLifecycle::Closing | StreamLifecycle::Closed => Err(stream_closed()),
            _ => {
                self.lifecycle = StreamLifecycle::Closing;
                Ok(())
            },
        }
    }

    /// Ends closing: the slot is closed.
    pub fn finish_close(&mut self)
        ensures
            final(self)@ == (SlotModel { lifecycle: StreamLifecycle::Closed, generation: old(self)@.generation }),
    {
        self.lifecycle = StreamLifecycle::Closed;
    }

    /// Checks, without a change, that a TLS upgrade could start now.
    pub fn validate_tls_upgrade(&self, handle: &StreamHandleRef, idle: bool, unread_plain_tcp: bool) -> (valid: Result<(), HostError>)
        ensures
            match upgrade_check(self@, handle@.1, idle, unread_plain_tcp) {
                Ok(()) => valid is Ok,
                Err(r) => valid matches Err(e) && reports_refusal(e, r, handle@, self@.generation),
            },
    {
        self.validate_generation(handle)?;
        if !idle {
            return Err(
                HostError::new(HostErrorCode::InvalidRequest, "TLS handshake requires an idle TCP stream"),
            );
        }
        if self.lifecycle != StreamLifecycle::OpenTcp {
            return Err(stream_closed());
        }
        if !unread_plain_tcp {
            return Err(
                HostError::new(
                    HostErrorCode::InvalidRequest,
                    "TLS handshake requires an unread plain TCP stream",
                ),
            );
        }
        Ok(())
    }

    /// Starts a TLS upgrade, as [`upgrade_begin_step`] says.
    pub fn begin_tls_upgrade(&mut self, handle: &StreamHandleRef, idle: bool, unread_plain_tcp: bool) -> (upgrading: Result<(), HostError>)
        ensures
            match upgrade_begin_step(old(self)@, handle@.1, idle, unread_plain_tcp) {
                Ok(next) => upgrading is Ok && final(self)@ == next,
                Err(r) => upgrading matches Err(e) && reports_refusal(e, r, handle@, old(self)@.generation)
                    && final(self)@ == old(self)@,
            },
    {
        self.validate_tls_upgrade(handle, idle, unread_plain_tcp)?;
        self.lifecycle = StreamLifecycle::Upgrading;
        Ok(())
    }

    /// Ends a TLS upgrade, as [`upgrade_finish_step`] says; the result is
    /// the new generation.
    /// An upgrade that would take the generation past `u64::MAX` is
    /// abandoned instead: the slot is closed and the error says the
    /// generation space is exhausted.
    pub fn finish_tls_upgrade(&mut self) -> (generation: Result<u64, HostError>)
        ensures
            old(self)@.generation < u64::MAX || old(self)@.lifecycle != StreamLifecycle::Upgrading
                ==> final(self)@ == upgrade_finish_step(old(self)@).0 && match upgrade_finish_step(
                old(self)@,
            ).1 {
                Ok(g) => generation == Ok::<u64, HostError>(g),
                Err(_) => generation matches Err(e) && is_cancelled_error(e),
            },
            old(self)@.generation == u64::MAX && old(self)@.lifecycle == StreamLifecycle::Upgrading
                ==> final(self)@ == upgrade_fail_step(old(self)@) && (generation matches Err(e)
                && e.code == HostErrorCode::ProviderUnavailable && e.message@
                == "stream generation space exhausted"@),
    {
        if self.lifecycle == StreamLifecycle::Upgrading && self.generation == u64::MAX {
            self.lifecycle = StreamLifecycle::Closed;
            return Err(HostError::new(HostErrorCode::ProviderUnavailable, "stream generation space exhausted"));
        }
        if self.lifecycle == StreamLifecycle::Upgrading {
            self.lifecycle = StreamLifecycle::OpenTls;
            self.generation = self.generation + 1;
            Ok(self.generation)
        } else {
            self.lifecycle = StreamLifecycle::Closed;
            Err(stream_cancelled())
        }
    }

    /// Abandons a TLS upgrade, as [`upgrade_fail_step`] says.
    pub fn fail_tls_upgrade(&mut self)
        ensures
            final(self)@ == upgrade_fail_step(old(self)@),
    {
        if self.lifecycle == StreamLifecycle::Upgrading {
            self.lifecycle = StreamLifecycle::Closed;
        }
    }

    /// Checks that a handle may use the stream for I/O now.
    pub fn check_usable(&self, handle: &StreamHandleRef) -> (usable: Result<(), HostError>)
        ensures
            match use_check(self@, handle@.1) {
                Ok(()) => usable is Ok,
                Err(r) => usable matches Err(e) && reports_refusal(e, r, handle@, self@.generation),
            },
    {
        self.validate_generation(handle)?;
        match self.lifecycle {
            StreamLifecycle::OpenTcp | StreamLifecycle::OpenTls => Ok(()),
            _ => Err(stream_closed()),
        }
    }
}

/// A closing or closed slot stays so: no operation reopens it, and every
/// use of it is refused.
pub proof fn lemma_final_is_final(s: SlotModel, g: u64, idle: bool, unread: bool)
    requires
        is_final(s.lifecycle),
    ensures
        close_step(s, g) is Err,
        upgrade_begin_step(s, g, idle, unread) is Err,
        is_final(upgrade_finish_step(s).0.lifecycle),
        upgrade_finish_step(s).1 is Err,
        is_final(upgrade_fail_step(s).lifecycle),
        use_check(s, g) is Err,
{
}

/// The generation never decreases, and only a finished TLS upgrade moves
/// it, by one.
pub proof fn lemma_generation_monotone(s: SlotModel, g: u64, idle: bool, unread: bool)
    requires
        s.generation < u64::MAX,
    ensures
        close_step(s, g) matches Ok(t) ==> t.generation == s.generation,
        upgrade_begin_step(s, g, idle, unread) matches Ok(t) ==> t.generation == s.generation,
        upgrade_finish_step(s).1 is Ok ==> upgrade_finish_step(s).0.generation == s.generation + 1,
        upgrade_finish_step(s).1 is Err ==> upgrade_finish_step(s).0.generation == s.generation,
        upgrade_fail_step(s).generation == s.generation,
{
}

/// After a TLS upgrade, handles of the TCP stream are stale: they can
/// neither use nor close the stream.
pub proof fn lemma_upgrade_invalidates_handles(s: SlotModel)
    requires
        s.generation < u64::MAX,
        upgrade_finish_step(s).1 is Ok,
    ensures
        use_check(upgrade_finish_step(s).0, s.generation) == Err::<(), SlotRefusal>(SlotRefusal::Stale),
        close_step(upgrade_finish_step(s).0, s.generation) == Err::<SlotModel, SlotRefusal>(SlotRefusal::Stale),
        use_check(upgrade_finish_step(s).0, upgrade_finish_step(s).1->Ok_0) is Ok,
{
}

/// A close during an upgrade cancels it: the upgrade cannot finish (it is
/// refused as cancelled) and the slot ends closed; an upgrade abandoned
/// after the close does not reopen the stream either.
pub proof fn lemma_close_cancels_upgrade(s: SlotModel, g: u64)
    requires
        s.lifecycle == StreamLifecycle::Upgrading,
        close_step(s, g) is Ok,
    ensures
        upgrade_finish_step(close_step(s, g)->Ok_0).1 == Err::<u64, SlotRefusal>(SlotRefusal::Cancelled),
        upgrade_finish_step(close_step(s, g)->Ok_0).0.lifecycle == StreamLifecycle::Closed,
        !is_open(upgrade_fail_step(close_step(s, g)->Ok_0).lifecycle),
{
}

} // verus!
