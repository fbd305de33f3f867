//! Guarantees that hold of whole runs of the receive loop.

use vstd::prelude::*;

use crate::model::{Event, Model, Phase, StopCause};

verus! {

/// The state after running the events `es` from state `m`.
pub open spec fn run<H, T>(m: Model<H, T>, es: Seq<Event<H, T>>) -> Model<H, T>
    decreases es.len(),
{
    if es.len() == 0 {
        m
    } else {
        run(m.step(es.first()), es.drop_first())
    }
}

/// Every event of `es` is enabled at the state where it occurs.
pub open spec fn valid_from<H, T>(m: Model<H, T>, es: Seq<Event<H, T>>) -> bool
    decreases es.len(),
{
    es.len() == 0 || (m.enabled(es.first()) && valid_from(m.step(es.first()), es.drop_first()))
}

/// The packets the codec decoded along `es`, in decode order.
pub open spec fn decoded_packets<H, T>(es: Seq<Event<H, T>>) -> Seq<T>
    decreases es.len(),
{
    if es.len() == 0 {
        Seq::empty()
    } else {
        match es.first() {
            Event::PacketDecoded(t, _) => seq![t] + decoded_packets(es.drop_first()),
            _ => decoded_packets(es.drop_first()),
        }
    }
}

/// No decode attempt begins anywhere in `es`.
pub open spec fn no_decode_begins<H, T>(es: Seq<Event<H, T>>) -> bool {
    forall|i: int| 0 <= i < es.len() ==> !(#[trigger] es[i] is BeginDecode)
}

/// Once the task has terminated, nothing further happens: no buffer is
/// acquired, no decode attempt begins, and no packet is delivered.
pub proof fn lemma_stopped_is_terminal<H, T>(m: Model<H, T>, es: Seq<Event<H, T>>)
    requires
        m.is_stopped(),
        valid_from(m, es),
    ensures
        es.len() == 0,
{
}

/// Along any valid run, the packets handed to the callback are exactly the
/// packets the codec decoded, in decode order: none is lost, none is
/// delivered twice, and none is reordered.
pub proof fn lemma_delivered_matches_decoded<H, T>(m: Model<H, T>, es: Seq<Event<H, T>>)
    requires
        valid_from(m, es),
    ensures
        run(m, es).delivered == m.delivered + decoded_packets(es),
    decreases es.len(),
{
    if es.len() == 0 {
        assert(m.delivered + decoded_packets(es) =~= m.delivered);
    } else {
        let m1 = m.step(es.first());
        lemma_delivered_matches_decoded(m1, es.drop_first());
        assert(m1.delivered + decoded_packets(es.drop_first()) =~= m.delivered + decoded_packets(
            es,
        ));
    }
}

/// Delivery happens in wire order: if the peer's stream of packets is `wire`
/// and the codec is well behaved — each successful decode yields the next
/// wire packet — then a run from the initial state hands the callback exactly
/// the first `n` wire packets, in order, where `n` is the number of
/// successful decodes. In particular a well-behaved peer's `n` packets cause
/// exactly `n` callback invocations, however the stream was segmented: the
/// segmentation only changes how often a too-small buffer is swapped, which
/// adds no `PacketDecoded` event.
pub proof fn lemma_wire_order_delivery<H, T>(es: Seq<Event<H, T>>, wire: Seq<T>)
    requires
        valid_from(Model::<H, T>::init(), es),
        decoded_packets(es) == wire.take(decoded_packets(es).len() as int),
    ensures
        run(Model::<H, T>::init(), es).delivered == wire.take(
            decoded_packets(es).len() as int,
        ),
        run(Model::<H, T>::init(), es).delivered.len() == decoded_packets(es).len(),
{
    lemma_delivered_matches_decoded(Model::<H, T>::init(), es);
    assert(Seq::<T>::empty() + decoded_packets(es) =~= decoded_packets(es));
}

/// While no decode attempt begins, the pending header does not change: it is
/// carried intact across buffer acquisitions, failures included.
pub proof fn lemma_pending_stable_without_decode<H, T>(m: Model<H, T>, es: Seq<Event<H, T>>)
    requires
        valid_from(m, es),
        !(m.phase is InDecode),
        no_decode_begins(es),
    ensures
        run(m, es).pending == m.pending,
        !(run(m, es).phase is InDecode),
    decreases es.len(),
{
    if es.len() > 0 {
        let m1 = m.step(es.first());
        assert(!(es[0] is BeginDecode));
        assert forall|i: int|
            0 <= i < es.drop_first().len() implies !(#[trigger] es.drop_first()[i]
            is BeginDecode) by {
            assert(es.drop_first()[i] == es[i + 1]);
        }
        lemma_pending_stable_without_decode(m1, es.drop_first());
    }
}

/// Header carry-forward: after a decode attempt reports an undersized buffer
/// carrying header `h`, the next decode attempt — however many buffer
/// acquisitions lie in between — is handed exactly `Some(h)`, and consumes
/// it: once that attempt begins, no pending header remains, so the same
/// header is never decoded twice.
pub proof fn lemma_retry_reuses_header<H, T>(m: Model<H, T>, h: H, es: Seq<Event<H, T>>)
    requires
        m.phase == Phase::InDecode,
        valid_from(m.step(Event::BufferTooSmall(h)), es),
        no_decode_begins(es),
    ensures
        run(m.step(Event::BufferTooSmall(h)), es).pending == Some(h),
        run(m.step(Event::BufferTooSmall(h)), es).step(Event::<H, T>::BeginDecode).pending
            is None,
{
    lemma_pending_stable_without_decode(m.step(Event::BufferTooSmall(h)), es);
}

/// If the callback answers `false`, the task stops: the packet that was just
/// delivered is the last one, and no further event — in particular no decode
/// attempt and no delivery — can occur.
pub proof fn lemma_callback_false_stops<H, T>(m: Model<H, T>, t: T, es: Seq<Event<H, T>>)
    requires
        m.phase == Phase::InDecode,
        valid_from(m.step(Event::PacketDecoded(t, false)), es),
    ensures
        m.step(Event::PacketDecoded(t, false)).phase == Phase::Stopped(StopCause::CallbackStopped),
        m.step(Event::PacketDecoded(t, false)).delivered == m.delivered.push(t),
        es.len() == 0,
{
    lemma_stopped_is_terminal(m.step(Event::PacketDecoded(t, false)), es);
}

/// If the pool cannot supply a buffer, the task terminates at once: no decode
/// attempt is made — nothing more is read from the stream — and nothing more
/// is delivered.
pub proof fn lemma_pool_failure_stops<H, T>(m: Model<H, T>, es: Seq<Event<H, T>>)
    requires
        m.phase == Phase::NeedBuffer,
        valid_from(m.step(Event::<H, T>::AcquireFailed), es),
    ensures
        m.step(Event::<H, T>::AcquireFailed).phase == Phase::Stopped(StopCause::PoolExhausted),
        m.step(Event::<H, T>::AcquireFailed).delivered == m.delivered,
        es.len() == 0,
{
    lemma_stopped_is_terminal(m.step(Event::<H, T>::AcquireFailed), es);
}

/// If the codec reports a terminal error, the task terminates: no further
/// decode attempt occurs and no further packet reaches the callback.
pub proof fn lemma_decode_error_stops<H, T>(m: Model<H, T>, es: Seq<Event<H, T>>)
    requires
        m.phase == Phase::InDecode,
        valid_from(m.step(Event::<H, T>::DecodeError), es),
    ensures
        m.step(Event::<H, T>::DecodeError).phase == Phase::Stopped(StopCause::DecodeFailed),
        m.step(Event::<H, T>::DecodeError).delivered == m.delivered,
        es.len() == 0,
{
    lemma_stopped_is_terminal(m.step(Event::<H, T>::DecodeError), es);
}

/// At most one partial header is live at a time, and it is handed to at most
/// one decode attempt: while that attempt is in flight, no pending header is
/// retained, so the same header can never reach a second decode call.
pub open spec fn single_header_in_flight<H, T>(m: Model<H, T>) -> bool {
    m.phase is InDecode ==> m.pending is None
}

/// `single_header_in_flight` holds initially and along every valid run.
pub proof fn lemma_single_header_in_flight<H, T>(m: Model<H, T>, es: Seq<Event<H, T>>)
    requires
        single_header_in_flight(m),
        valid_from(m, es),
    ensures
        single_header_in_flight(Model::<H, T>::init()),
        single_header_in_flight(run(m, es)),
    decreases es.len(),
{
    if es.len() > 0 {
        lemma_single_header_in_flight(m.step(es.first()), es.drop_first());
    }
}

/// A fresh buffer is requested only after an undersized-buffer report: within
/// one acquisition the same buffer serves any number of packets, and the loop
/// returns to the acquiring phase through no other event.
pub proof fn lemma_reacquire_only_after_too_small<H, T>(m: Model<H, T>, e: Event<H, T>)
    requires
        m.enabled(e),
        !(m.phase is NeedBuffer),
        m.step(e).phase is NeedBuffer,
    ensures
        e is BufferTooSmall,
{
}

/// A task that has not stopped can always make a move: in every non-stopped
/// state some event is enabled, so the loop never wedges before one of the
/// three termination rules fires.
pub proof fn lemma_progress<H, T>(m: Model<H, T>)
    requires
        !m.is_stopped(),
    ensures
        exists|e: Event<H, T>| m.enabled(e),
{
    match m.phase {
        Phase::NeedBuffer => {
            assert(m.enabled(Event::<H, T>::AcquireOk));
        },
        Phase::NeedDecode => {
            assert(m.enabled(Event::<H, T>::BeginDecode));
        },
        Phase::InDecode => {
            assert(m.enabled(Event::<H, T>::DecodeError));
        },
        Phase::Stopped(_) => {
            assert(false);
        },
    }
}

} // verus!
