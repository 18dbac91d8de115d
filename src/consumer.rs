use vstd::prelude::*;

use crate::handle::{handle_of, release, Handle};
use crate::status::{pump_error_of, pump_outcome, PumpError};

verus! {

/// The value that the open call returns when no consumption handle could be opened.
pub const INVALID_PROCESSTRACE_HANDLE: u64 = 0xFFFF_FFFF_FFFF_FFFF;

/// Why a consumption handle could not be had.
#[derive(Debug, Clone, Copy, PartialEq, Eq, Structural)]
pub enum OpenError {
    /// The open call returned the invalid handle value.
    OpenFailed,
}

/// The consuming side of a trace session: the consumption handle and the
/// notional start time (a file time) that the pump is given.
pub struct Consumer {
    handle: Handle,
    current_time: u64,
}

impl Consumer {
    /// The consumption handle.
    pub closed spec fn consume(&self) -> Handle {
        self.handle
    }

    /// The pump's start time.
    pub closed spec fn start_time(&self) -> u64 {
        self.current_time
    }

    /// A consumer from what the open call returned (`raw`) and the time at which
    /// it was opened. Fails exactly when `raw` is the invalid handle value; a
    /// zero handle holds nothing to close.
    pub fn new(raw: u64, current_time: u64) -> (r: Result<Consumer, OpenError>)
        ensures
            r is Err <==> raw == INVALID_PROCESSTRACE_HANDLE,
            r is Err ==> r->Err_0 == OpenError::OpenFailed,
            r is Ok ==> r->Ok_0.consume() == handle_of(raw),
            r is Ok ==> r->Ok_0.start_time() == current_time,
    {
        if raw == INVALID_PROCESSTRACE_HANDLE {
            Err(OpenError::OpenFailed)
        } else {
            Ok(Consumer { handle: Handle::from_raw(raw), current_time })
        }
    }

    /// The pump's start time.
    pub fn current_time(&self) -> (r: u64)
        ensures
            r == self.start_time(),
    {
        self.current_time
    }

    /// The handle to pump events from, while one is held.
    pub fn pump_handle(&self) -> (r: Option<u64>)
        ensures
            r == release(self.consume()).0,
    {
        match self.handle {
            Handle::Open(v) => Some(v),
            Handle::Closed => None,
        }
    }

    /// Maps the status with which the pump returned (see [`pump_outcome`]).
    pub fn start_listening(&self, status: u32, cancel_requested: bool) -> (r: Result<(), PumpError>)
        ensures
            r is Ok <==> pump_error_of(status, cancel_requested) is None,
            r is Err ==> Some(r->Err_0) == pump_error_of(status, cancel_requested),
    {
        pump_outcome(status, cancel_requested)
    }

    /// The handle to close, once: afterwards nothing is held, and a second call
    /// returns `None`.
    pub fn take_close(&mut self) -> (r: Option<u64>)
        ensures
            r == release(old(self).consume()).0,
            final(self).consume() == release(old(self).consume()).1,
            final(self).start_time() == old(self).start_time(),
    {
        self.handle.take()
    }
}

/// What the buffer checkpoint answers the pump: 1 (go on) while no
/// cancellation was requested, 0 (stop after this buffer) once it was.
pub open spec fn checkpoint_answer(cancel_requested: bool) -> u32 {
    if cancel_requested {
        0
    } else {
        1
    }
}

/// The answer the buffer checkpoint gives the pump.
pub fn buffer_checkpoint(cancel_requested: bool) -> (r: u32)
    ensures
        r == checkpoint_answer(cancel_requested),
{
    if cancel_requested {
        0
    } else {
        1
    }
}

/// A write-once cancellation flag: once set, it stays set.
#[derive(Debug, Clone, Copy, PartialEq, Eq, Structural)]
pub struct CancelFlag {
    requested: bool,
}

impl CancelFlag {
    /// Whether cancellation was requested.
    pub closed spec fn is_set(&self) -> bool {
        self.requested
    }

    /// A flag on which no cancellation was requested.
    pub fn new() -> (r: CancelFlag)
        ensures
            !r.is_set(),
    {
        CancelFlag { requested: false }
    }

    /// Requests cancellation. Returns whether this call was the one that set
    /// the flag; later calls change nothing and return `false`.
    pub fn request(&mut self) -> (r: bool)
        ensures
            final(self).is_set(),
            r == !old(self).is_set(),
    {
        let first = !self.requested;
        self.requested = true;
        first
    }

    /// Whether cancellation was requested.
    pub fn requested(&self) -> (r: bool)
        ensures
            r == self.is_set(),
    {
        self.requested
    }

    /// What the buffer checkpoint answers with this flag.
    pub fn checkpoint(&self) -> (r: u32)
        ensures
            r == checkpoint_answer(self.is_set()),
    {
        buffer_checkpoint(self.requested)
    }
}

/// Once cancellation is requested the checkpoint tells the pump to stop, and a
/// pump that returned cancelled then ends normally.
pub proof fn lemma_cancelled_pump_ends_normally(status: u32)
    requires
        status == crate::status::ERROR_CANCELLED || status == crate::status::ERROR_SUCCESS,
    ensures
        checkpoint_answer(true) == 0,
        pump_error_of(status, true) is None,
{
}

} // verus!
