//! The executable decision core of the receive loop.
//!
//! An embedding application owns the socket, the buffer pool and the packet
//! codec. It drives a [`ReceiverCore`] by asking it what to do next (acquire
//! a buffer, or begin a decode attempt), performing that call, and reporting
//! the outcome. Each reporting method's contract pins the new state to one
//! step of the abstract machine in [`crate::model`], so the guarantees proved
//! in [`crate::laws`] hold of every run the application can produce.

use vstd::prelude::*;

use crate::model::{Event, Model, Phase, StopCause};

verus! {

/// Control state of one receive task: the loop phase, the header carried
/// across a buffer swap, and (in ghost state) the packets delivered so far.
pub struct ReceiverCore<H, T> {
    phase: Phase,
    pending: Option<H>,
    delivered: Ghost<Seq<T>>,
}

impl<H, T> View for ReceiverCore<H, T> {
    type V = Model<H, T>;

    closed spec fn view(&self) -> Model<H, T> {
        Model { phase: self.phase, pending: self.pending, delivered: self.delivered@ }
    }
}

impl<H, T> ReceiverCore<H, T> {
    /// A fresh receive task: it must acquire a buffer before anything can be
    /// decoded, holds no pending header, and has delivered nothing.
    pub fn new() -> (r: Self)
        ensures
            r@ == Model::<H, T>::init(),
    {
        ReceiverCore { phase: Phase::NeedBuffer, pending: None, delivered: Ghost(Seq::empty()) }
    }

    /// The pool handed out a buffer: decoding into it may begin. The pending
    /// header, if any, is kept for the first decode attempt.
    pub fn on_acquire_ok(&mut self)
        requires
            old(self)@.phase == Phase::NeedBuffer,
        ensures
            final(self)@ == old(self)@.step(Event::<H, T>::AcquireOk),
    {
        self.phase = Phase::NeedDecode;
    }

    /// The pool could not supply a buffer: the task stops at once, without a
    /// decode attempt.
    pub fn on_acquire_failed(&mut self)
        requires
            old(self)@.phase == Phase::NeedBuffer,
        ensures
            final(self)@ == old(self)@.step(Event::<H, T>::AcquireFailed),
    {
        self.phase = Phase::Stopped(StopCause::PoolExhausted);
    }

    /// Begin one decode attempt. The pending header is handed out to be
    /// passed to the codec, and is thereby consumed: it is returned exactly
    /// once, and no copy of it remains in the core.
    pub fn begin_decode(&mut self) -> (r: Option<H>)
        requires
            old(self)@.phase == Phase::NeedDecode,
        ensures
            final(self)@ == old(self)@.step(Event::<H, T>::BeginDecode),
            r == old(self)@.pending,
    {
        self.phase = Phase::InDecode;
        self.pending.take()
    }

    /// The codec produced `packet`; it was handed to the callback, which
    /// answered `keep_going`. If the callback said to stop, the task
    /// terminates; otherwise the next packet is decoded from the same buffer.
    pub fn on_packet_delivered(&mut self, packet: &T, keep_going: bool)
        requires
            old(self)@.phase == Phase::InDecode,
        ensures
            final(self)@ == old(self)@.step(Event::PacketDecoded(*packet, keep_going)),
    {
        self.delivered = Ghost(self.delivered@.push(*packet));
        self.phase = if keep_going {
            Phase::NeedDecode
        } else {
            Phase::Stopped(StopCause::CallbackStopped)
        };
    }

    /// The codec reported that the buffer cannot hold the packet's body and
    /// handed back `header`, the header decoded so far. The core stores it
    /// for the next decode attempt and asks for a fresh buffer.
    pub fn on_buffer_too_small(&mut self, header: H)
        requires
            old(self)@.phase == Phase::InDecode,
        ensures
            final(self)@ == old(self)@.step(Event::BufferTooSmall(header)),
    {
        self.pending = Some(header);
        self.phase = Phase::NeedBuffer;
    }

    /// The codec reported a terminal error: the task terminates.
    pub fn on_decode_error(&mut self)
        requires
            old(self)@.phase == Phase::InDecode,
        ensures
            final(self)@ == old(self)@.step(Event::<H, T>::DecodeError),
    {
        self.phase = Phase::Stopped(StopCause::DecodeFailed);
    }

    /// A buffer must be acquired before the next decode attempt.
    pub fn should_acquire(&self) -> (r: bool)
        ensures
            r == (self@.phase == Phase::NeedBuffer),
    {
        match self.phase {
            Phase::NeedBuffer => true,
            _ => false,
        }
    }

    /// A buffer is held and a decode attempt may begin.
    pub fn should_decode(&self) -> (r: bool)
        ensures
            r == (self@.phase == Phase::NeedDecode),
    {
        match self.phase {
            Phase::NeedDecode => true,
            _ => false,
        }
    }

    /// The task has terminated.
    pub fn is_stopped(&self) -> (r: bool)
        ensures
            r == self@.is_stopped(),
    {
        match self.phase {
            Phase::Stopped(_) => true,
            _ => false,
        }
    }

    /// Why the task terminated, if it has.
    pub fn stop_cause(&self) -> (r: Option<StopCause>)
        ensures
            match self@.phase {
                Phase::Stopped(c) => r == Some(c),
                _ => r is None,
            },
    {
        match self.phase {
            Phase::Stopped(c) => Some(c),
            _ => None,
        }
    }

    /// A header from an undersized-buffer report is waiting to be handed to
    /// the next decode attempt.
    pub fn has_pending_header(&self) -> (r: bool)
        ensures
            r == (self@.pending is Some),
    {
        match self.pending {
            Some(_) => true,
            None => false,
        }
    }
}

} // verus!
