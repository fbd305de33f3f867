//! Whole runs of the receive loop, driven the way an embedding application
//! drives it: a scripted pool and codec stand in for the real collaborators,
//! and the core decides what happens next.

use packet_client::model::StopCause;
use packet_client::receiver::ReceiverCore;

/// One scripted decode outcome, as the codec would report it.
enum Outcome {
    Packet(u64),
    TooSmall(u64),
    Error,
}

/// Drives a `ReceiverCore` as the application loop does, replaying scripted
/// pool answers and decode outcomes. Returns the packets the callback saw,
/// the headers each decode attempt was handed, the number of buffers
/// acquired, and why the task stopped (`None`: the scripts ran dry while the
/// task was still live).
fn drive(
    pool: &[bool],
    script: &[Outcome],
    keep_going: impl Fn(u64) -> bool,
) -> (Vec<u64>, Vec<Option<u64>>, usize, Option<StopCause>) {
    let mut core = ReceiverCore::<u64, u64>::new();
    let mut delivered = Vec::new();
    let mut handed_headers = Vec::new();
    let mut acquires = 0usize;
    let mut pool = pool.iter();
    let mut script = script.iter();
    loop {
        if core.is_stopped() {
            return (delivered, handed_headers, acquires, core.stop_cause());
        }
        if core.should_acquire() {
            match pool.next() {
                Some(true) => {
                    acquires += 1;
                    core.on_acquire_ok();
                }
                Some(false) => core.on_acquire_failed(),
                None => return (delivered, handed_headers, acquires, None),
            }
        } else {
            assert!(core.should_decode());
            // A dry script models a stream with nothing more to read: the
            // real loop would block in the decode call.
            let Some(outcome) = script.next() else {
                return (delivered, handed_headers, acquires, None);
            };
            let header = core.begin_decode();
            handed_headers.push(header);
            match outcome {
                Outcome::Packet(p) => {
                    delivered.push(*p);
                    core.on_packet_delivered(p, keep_going(*p));
                }
                Outcome::TooSmall(h) => core.on_buffer_too_small(*h),
                Outcome::Error => core.on_decode_error(),
            }
        }
    }
}

#[test]
fn well_behaved_peer_delivers_every_packet_in_wire_order() {
    // Three packets, arbitrarily segmented: the second arrives across a
    // buffer swap (too-small in between). The callback sees exactly the
    // wire sequence, once each.
    let script = [
        Outcome::Packet(1),
        Outcome::TooSmall(42),
        Outcome::Packet(2),
        Outcome::Packet(3),
    ];
    let (delivered, headers, acquires, cause) = drive(&[true, true], &script, |_| true);
    assert!(delivered == vec![1, 2, 3]);
    assert!(headers == vec![None, None, Some(42), None]);
    assert!(acquires == 2);
    assert!(cause == None);
}

#[test]
fn back_to_back_packets_use_one_buffer() {
    let script = [Outcome::Packet(7), Outcome::Packet(8)];
    let (delivered, _, acquires, cause) = drive(&[true], &script, |_| true);
    assert!(delivered == vec![7, 8]);
    assert!(acquires == 1);
    assert!(cause == None);
}

#[test]
fn callback_stop_ends_the_run_after_that_packet() {
    let script = [Outcome::Packet(1), Outcome::Packet(2), Outcome::Packet(3)];
    let (delivered, _, _, cause) = drive(&[true, true], &script, |p| p != 2);
    assert!(delivered == vec![1, 2]);
    assert!(cause == Some(StopCause::CallbackStopped));
}

#[test]
fn decode_error_ends_the_run_with_no_more_deliveries() {
    let script = [Outcome::Packet(1), Outcome::Error, Outcome::Packet(2)];
    let (delivered, _, _, cause) = drive(&[true, true], &script, |_| true);
    assert!(delivered == vec![1]);
    assert!(cause == Some(StopCause::DecodeFailed));
}

#[test]
fn pool_failure_ends_the_run_before_any_read() {
    let script = [Outcome::Packet(1)];
    let (delivered, headers, acquires, cause) = drive(&[false], &script, |_| true);
    assert!(delivered.is_empty());
    assert!(headers.is_empty());
    assert!(acquires == 0);
    assert!(cause == Some(StopCause::PoolExhausted));
}

#[test]
fn repeated_undersized_buffers_carry_the_latest_header() {
    let script = [
        Outcome::TooSmall(5),
        Outcome::TooSmall(6),
        Outcome::Packet(9),
    ];
    let (delivered, headers, acquires, cause) = drive(&[true, true, true], &script, |_| true);
    assert!(delivered == vec![9]);
    assert!(headers == vec![None, Some(5), Some(6)]);
    assert!(acquires == 3);
    assert!(cause == None);
}
