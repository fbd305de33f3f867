//! The abstract machine of the receive loop.
//!
//! The loop is modelled as a state machine over observable events. `H` is the
//! type of a partially decoded packet header, `T` the type of a fully decoded
//! packet; the machine carries header values across buffer swaps and records
//! the packets delivered to the callback, but never looks inside either.

use vstd::prelude::*;

verus! {

/// Why the receive task stopped.
#[derive(Clone, Copy, Debug, PartialEq, Eq, Structural)]
pub enum StopCause {
    /// The buffer pool could not supply a buffer. This is fail-fast: the
    /// task stops at once, without a decode attempt.
    PoolExhausted,
    /// The packet callback answered that the task should not keep running.
    CallbackStopped,
    /// The codec reported a terminal error (malformed data or a failed
    /// stream read), not an undersized buffer.
    DecodeFailed,
}

/// Control position of the receive loop.
#[derive(Clone, Copy, Debug, PartialEq, Eq, Structural)]
pub enum Phase {
    /// Top of the outer loop: a buffer must be acquired before anything
    /// can be decoded.
    NeedBuffer,
    /// A buffer is held: a decode attempt may begin.
    NeedDecode,
    /// A decode attempt is in flight; its outcome has not been reported.
    InDecode,
    /// The task has terminated; no further event is enabled.
    Stopped(StopCause),
}

/// One observable event of the receive loop.
pub enum Event<H, T> {
    /// The pool handed out a buffer.
    AcquireOk,
    /// The pool could not supply a buffer.
    AcquireFailed,
    /// A decode attempt begins. It is handed the pending header, which is
    /// thereby consumed.
    BeginDecode,
    /// The codec produced a packet; it was handed to the callback, which
    /// answered the boolean ("keep running?").
    PacketDecoded(T, bool),
    /// The codec reported that the current buffer cannot hold the packet's
    /// body; the event carries the header decoded so far.
    BufferTooSmall(H),
    /// The codec reported a terminal error.
    DecodeError,
}

/// Abstract state of the receive loop.
#[verifier::ext_equal]
pub struct Model<H, T> {
    /// Where the loop stands.
    pub phase: Phase,
    /// Header carried across a buffer swap, to be handed to the next decode
    /// attempt. At most one is live at a time.
    pub pending: Option<H>,
    /// Every packet handed to the callback so far, in delivery order.
    pub delivered: Seq<T>,
}

impl<H, T> Model<H, T> {
    /// A fresh loop: about to acquire its first buffer, no pending header,
    /// nothing delivered.
    pub open spec fn init() -> Model<H, T> {
        Model { phase: Phase::NeedBuffer, pending: None, delivered: Seq::empty() }
    }

    /// Whether event `e` can occur in state `self`. Nothing is enabled in a
    /// stopped state.
    pub open spec fn enabled(self, e: Event<H, T>) -> bool {
        match e {
            Event::AcquireOk => self.phase == Phase::NeedBuffer,
            Event::AcquireFailed => self.phase == Phase::NeedBuffer,
            Event::BeginDecode => self.phase == Phase::NeedDecode,
            Event::PacketDecoded(_, _) => self.phase == Phase::InDecode,
            Event::BufferTooSmall(_) => self.phase == Phase::InDecode,
            Event::DecodeError => self.phase == Phase::InDecode,
        }
    }

    /// The state after event `e`.
    pub open spec fn step(self, e: Event<H, T>) -> Model<H, T> {
        match e {
            Event::AcquireOk => Model { phase: Phase::NeedDecode, ..self },
            Event::AcquireFailed => Model {
                phase: Phase::Stopped(StopCause::PoolExhausted),
                ..self
            },
            Event::BeginDecode => Model { phase: Phase::InDecode, pending: None, ..self },
            Event::PacketDecoded(t, keep_going) => Model {
                phase: if keep_going {
                    Phase::NeedDecode
                } else {
                    Phase::Stopped(StopCause::CallbackStopped)
                },
                delivered: self.delivered.push(t),
                ..self
            },
            Event::BufferTooSmall(h) => Model {
                phase: Phase::NeedBuffer,
                pending: Some(h),
                ..self
            },
            Event::DecodeError => Model { phase: Phase::Stopped(StopCause::DecodeFailed), ..self },
        }
    }

    /// The task has terminated.
    pub open spec fn is_stopped(self) -> bool {
        self.phase matches Phase::Stopped(_)
    }
}

} // verus!
