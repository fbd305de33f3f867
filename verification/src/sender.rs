//! The send side: a verified core for the outbound write loop.
//!
//! On each iteration the embedding application obtains the next outbound
//! frame from its producing callback, then writes it to the socket. A write
//! may be partial; the remaining bytes must be retried until the frame is
//! complete, and frames must reach the wire whole, in submission order. The
//! [`SenderCore`] carries the in-progress frame and the write offset, and its
//! laws state that the bytes handed to the socket are exactly the submitted
//! frames, concatenated in order, plus a prefix of the frame in progress.

use vstd::prelude::*;
use vstd::slice::slice_subrange;

verus! {

/// Why the send task stopped.
#[derive(Clone, Copy, Debug, PartialEq, Eq, Structural)]
pub enum SendStopCause {
    /// The frame-producing callback signalled that the task should stop.
    ServiceStopped,
    /// A write to the stream failed.
    WriteFailed,
}

/// Control position of the send loop.
#[derive(Clone, Copy, Debug, PartialEq, Eq, Structural)]
pub enum SendPhase {
    /// No frame is in progress: the next one must be obtained from the
    /// producing callback.
    NeedFrame,
    /// A frame is partly written; its remaining bytes must be written next.
    Writing,
    /// The task has terminated; no further event is enabled.
    Stopped(SendStopCause),
}

/// One observable event of the send loop.
pub enum SendEvent {
    /// The callback produced a frame with the given bytes.
    FrameReady(Seq<u8>),
    /// The stream accepted `n` bytes of the current frame.
    Wrote(int),
    /// The callback signalled a stop.
    ServiceStop,
    /// A write failed terminally.
    WriteError,
}

/// Abstract state of the send loop.
#[verifier::ext_equal]
pub struct SenderModel {
    /// Where the loop stands.
    pub phase: SendPhase,
    /// The frame being written.
    pub frame: Seq<u8>,
    /// How many bytes of `frame` the stream has accepted.
    pub off: int,
    /// Every byte handed to the stream so far, in order.
    pub sent: Seq<u8>,
    /// Every frame written to completion, in submission order.
    pub done: Seq<Seq<u8>>,
}

/// The frames of `frames` laid end to end, in order.
pub open spec fn concat_all(frames: Seq<Seq<u8>>) -> Seq<u8>
    decreases frames.len(),
{
    if frames.len() == 0 {
        Seq::empty()
    } else {
        concat_all(frames.drop_last()) + frames.last()
    }
}

impl SenderModel {
    /// A fresh send task: no frame in progress, nothing sent.
    pub open spec fn init() -> SenderModel {
        SenderModel {
            phase: SendPhase::NeedFrame,
            frame: Seq::empty(),
            off: 0,
            sent: Seq::empty(),
            done: Seq::empty(),
        }
    }

    /// The write offset stays inside the frame; while a frame is in progress
    /// some of it remains to write, and between frames none is retained. A
    /// stopped task may hold the partial frame it was writing.
    pub open spec fn wf(self) -> bool {
        &&& 0 <= self.off <= self.frame.len()
        &&& (self.phase is Writing ==> self.off < self.frame.len())
        &&& (self.phase is NeedFrame ==> self.off == 0 && self.frame.len() == 0)
    }

    /// The bytes handed to the stream are exactly the completed frames, in
    /// submission order, followed by the written prefix of the frame in
    /// progress: no byte is skipped, duplicated, reordered, or interleaved
    /// across frames.
    pub open spec fn wire_integrity(self) -> bool {
        self.sent == concat_all(self.done) + self.frame.take(self.off)
    }

    /// Whether event `e` can occur in state `self`. Nothing is enabled in a
    /// stopped state.
    pub open spec fn enabled(self, e: SendEvent) -> bool {
        match e {
            SendEvent::FrameReady(_) => self.phase == SendPhase::NeedFrame,
            SendEvent::Wrote(n) => self.phase == SendPhase::Writing && 1 <= n <= self.frame.len()
                - self.off,
            SendEvent::ServiceStop => self.phase == SendPhase::NeedFrame,
            SendEvent::WriteError => self.phase == SendPhase::Writing,
        }
    }

    /// The state after event `e`. An empty frame has nothing to write and is
    /// dropped where it stands; a write that reaches the end of the frame
    /// completes it.
    pub open spec fn step(self, e: SendEvent) -> SenderModel {
        match e {
            SendEvent::FrameReady(f) => if f.len() == 0 {
                self
            } else {
                SenderModel { phase: SendPhase::Writing, frame: f, off: 0, ..self }
            },
            SendEvent::Wrote(n) => {
                let sent = self.sent + self.frame.subrange(self.off, self.off + n);
                if self.off + n == self.frame.len() {
                    SenderModel {
                        phase: SendPhase::NeedFrame,
                        frame: Seq::empty(),
                        off: 0,
                        sent,
                        done: self.done.push(self.frame),
                    }
                } else {
                    SenderModel { off: self.off + n, sent, ..self }
                }
            },
            SendEvent::ServiceStop => SenderModel {
                phase: SendPhase::Stopped(SendStopCause::ServiceStopped),
                ..self
            },
            SendEvent::WriteError => SenderModel {
                phase: SendPhase::Stopped(SendStopCause::WriteFailed),
                ..self
            },
        }
    }

    /// The task has terminated.
    pub open spec fn is_stopped(self) -> bool {
        self.phase matches SendPhase::Stopped(_)
    }
}

/// The state after running the events `es` from state `m`.
pub open spec fn send_run(m: SenderModel, es: Seq<SendEvent>) -> SenderModel
    decreases es.len(),
{
    if es.len() == 0 {
        m
    } else {
        send_run(m.step(es.first()), es.drop_first())
    }
}

/// Every event of `es` is enabled at the state where it occurs.
pub open spec fn send_valid_from(m: SenderModel, es: Seq<SendEvent>) -> bool
    decreases es.len(),
{
    es.len() == 0 || (m.enabled(es.first()) && send_valid_from(m.step(es.first()), es.drop_first()))
}

/// One enabled event preserves well-formedness and wire integrity.
pub proof fn lemma_send_step_preserves_integrity(m: SenderModel, e: SendEvent)
    requires
        m.wf(),
        m.wire_integrity(),
        m.enabled(e),
    ensures
        m.step(e).wf(),
        m.step(e).wire_integrity(),
{
    match e {
        SendEvent::FrameReady(f) => {
            if f.len() > 0 {
                assert(m.frame.take(m.off) =~= f.take(0));
            }
        },
        SendEvent::Wrote(n) => {
            if m.off + n == m.frame.len() {
                assert(m.done.push(m.frame).drop_last() =~= m.done);
                assert(m.frame.take(m.off) + m.frame.subrange(m.off, m.off + n) =~= m.frame);
                assert(m.step(e).sent =~= concat_all(m.step(e).done) + Seq::<u8>::empty().take(0));
            } else {
                assert(m.step(e).sent =~= concat_all(m.done) + m.frame.take(m.off + n));
            }
        },
        SendEvent::ServiceStop => {},
        SendEvent::WriteError => {},
    }
}

/// Ordering of the send path: along any valid run from a well-formed,
/// integral state — the initial state is one — every byte handed to the
/// stream belongs to a submitted frame, the completed frames appear on the
/// wire whole and in submission order, and at most a prefix of one frame is
/// outstanding.
pub proof fn lemma_send_run_preserves_integrity(m: SenderModel, es: Seq<SendEvent>)
    requires
        m.wf(),
        m.wire_integrity(),
        send_valid_from(m, es),
    ensures
        SenderModel::init().wf(),
        SenderModel::init().wire_integrity(),
        send_run(m, es).wf(),
        send_run(m, es).wire_integrity(),
    decreases es.len(),
{
    assert(SenderModel::init().sent =~= concat_all(SenderModel::init().done) + SenderModel::init()
        .frame.take(0));
    if es.len() > 0 {
        lemma_send_step_preserves_integrity(m, es.first());
        lemma_send_run_preserves_integrity(m.step(es.first()), es.drop_first());
    }
}

/// Once the send task has terminated, nothing further happens: no frame is
/// accepted and no byte is written.
pub proof fn lemma_sender_stopped_is_terminal(m: SenderModel, es: Seq<SendEvent>)
    requires
        m.is_stopped(),
        send_valid_from(m, es),
    ensures
        es.len() == 0,
{
}

/// Control state of one send task: the loop phase, the frame in progress and
/// its write offset, and (in ghost state) the bytes sent and the frames
/// completed so far.
pub struct SenderCore {
    phase: SendPhase,
    frame: Vec<u8>,
    offset: usize,
    sent: Ghost<Seq<u8>>,
    done: Ghost<Seq<Seq<u8>>>,
}

impl View for SenderCore {
    type V = SenderModel;

    closed spec fn view(&self) -> SenderModel {
        SenderModel {
            phase: self.phase,
            frame: self.frame@,
            off: self.offset as int,
            sent: self.sent@,
            done: self.done@,
        }
    }
}

impl SenderCore {
    /// A fresh send task: the first frame must be obtained before anything
    /// can be written.
    pub fn new() -> (r: Self)
        ensures
            r@ == SenderModel::init(),
    {
        SenderCore {
            phase: SendPhase::NeedFrame,
            frame: Vec::new(),
            offset: 0,
            sent: Ghost(Seq::empty()),
            done: Ghost(Seq::empty()),
        }
    }

    /// The callback produced `frame`. An empty frame has nothing to write
    /// and is dropped; otherwise its bytes are written next.
    pub fn on_frame(&mut self, frame: Vec<u8>)
        requires
            old(self)@.wf(),
            old(self)@.phase == SendPhase::NeedFrame,
        ensures
            final(self)@ == old(self)@.step(SendEvent::FrameReady(frame@)),
            final(self)@.wf(),
    {
        if frame.len() > 0 {
            self.frame = frame;
            self.offset = 0;
            self.phase = SendPhase::Writing;
        }
    }

    /// The bytes of the current frame that the stream has not accepted yet;
    /// they are what must be handed to the next write call.
    pub fn pending_chunk(&self) -> (r: &[u8])
        requires
            self@.wf(),
            self@.phase == SendPhase::Writing,
        ensures
            r@ == self@.frame.subrange(self@.off, self@.frame.len() as int),
            r@.len() > 0,
    {
        slice_subrange(self.frame.as_slice(), self.offset, self.frame.len())
    }

    /// The stream accepted `n` bytes of the pending chunk. If that reaches
    /// the end of the frame, the frame is complete and the next one must be
    /// obtained; otherwise the rest is retried.
    pub fn on_wrote(&mut self, n: usize)
        requires
            old(self)@.wf(),
            old(self)@.phase == SendPhase::Writing,
            1 <= n <= old(self)@.frame.len() - old(self)@.off,
        ensures
            final(self)@ == old(self)@.step(SendEvent::Wrote(n as int)),
            final(self)@.wf(),
    {
        let len: usize = self.frame.len();
        self.sent = Ghost(
            self.sent@ + self.frame@.subrange(self.offset as int, self.offset as int + n as int),
        );
        self.offset = self.offset + n;
        if self.offset == len {
            self.done = Ghost(self.done@.push(self.frame@));
            self.frame = Vec::new();
            self.offset = 0;
            self.phase = SendPhase::NeedFrame;
        }
    }

    /// The callback signalled a stop: the task terminates.
    pub fn on_service_stop(&mut self)
        requires
            old(self)@.wf(),
            old(self)@.phase == SendPhase::NeedFrame,
        ensures
            final(self)@ == old(self)@.step(SendEvent::ServiceStop),
            final(self)@.wf(),
    {
        self.phase = SendPhase::Stopped(SendStopCause::ServiceStopped);
    }

    /// A write failed terminally: the task terminates.
    pub fn on_write_error(&mut self)
        requires
            old(self)@.wf(),
            old(self)@.phase == SendPhase::Writing,
        ensures
            final(self)@ == old(self)@.step(SendEvent::WriteError),
            final(self)@.wf(),
    {
        self.phase = SendPhase::Stopped(SendStopCause::WriteFailed);
    }

    /// The next frame must be obtained from the producing callback.
    pub fn needs_frame(&self) -> (r: bool)
        ensures
            r == (self@.phase == SendPhase::NeedFrame),
    {
        match self.phase {
            SendPhase::NeedFrame => true,
            _ => false,
        }
    }

    /// A frame is partly written and its remainder must be written next.
    pub fn is_writing(&self) -> (r: bool)
        ensures
            r == (self@.phase == SendPhase::Writing),
    {
        match self.phase {
            SendPhase::Writing => true,
            _ => false,
        }
    }

    /// The task has terminated.
    pub fn is_stopped(&self) -> (r: bool)
        ensures
            r == self@.is_stopped(),
    {
        match self.phase {
            SendPhase::Stopped(_) => true,
            _ => false,
        }
    }

    /// Why the task terminated, if it has.
    pub fn stop_cause(&self) -> (r: Option<SendStopCause>)
        ensures
            match self@.phase {
                SendPhase::Stopped(c) => r == Some(c),
                _ => r is None,
            },
    {
        match self.phase {
            SendPhase::Stopped(c) => Some(c),
            _ => None,
        }
    }
}

} // verus!
