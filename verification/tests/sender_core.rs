use packet_client::sender::{SendStopCause, SenderCore};

#[test]
fn fresh_sender_wants_a_frame_first() {
    let core = SenderCore::new();
    assert!(core.needs_frame());
    assert!(!core.is_writing());
    assert!(!core.is_stopped());
    assert!(core.stop_cause() == None);
}

#[test]
fn a_frame_is_written_from_its_first_byte() {
    let mut core = SenderCore::new();
    core.on_frame(vec![10, 20, 30]);
    assert!(core.is_writing());
    assert!(core.pending_chunk() == &[10, 20, 30]);
}

#[test]
fn an_empty_frame_is_dropped() {
    let mut core = SenderCore::new();
    core.on_frame(Vec::new());
    assert!(core.needs_frame());
    assert!(!core.is_writing());
}

#[test]
fn partial_writes_retry_the_remaining_bytes() {
    let mut core = SenderCore::new();
    core.on_frame(vec![1, 2, 3, 4, 5]);
    core.on_wrote(2);
    assert!(core.is_writing());
    assert!(core.pending_chunk() == &[3, 4, 5]);
    core.on_wrote(1);
    assert!(core.pending_chunk() == &[4, 5]);
    core.on_wrote(2);
    assert!(core.needs_frame());
}

#[test]
fn a_complete_write_finishes_the_frame() {
    let mut core = SenderCore::new();
    core.on_frame(vec![7, 8]);
    core.on_wrote(2);
    assert!(core.needs_frame());
    core.on_frame(vec![9]);
    assert!(core.pending_chunk() == &[9]);
}

#[test]
fn service_stop_ends_the_task() {
    let mut core = SenderCore::new();
    core.on_frame(vec![1]);
    core.on_wrote(1);
    core.on_service_stop();
    assert!(core.is_stopped());
    assert!(core.stop_cause() == Some(SendStopCause::ServiceStopped));
}

#[test]
fn write_error_ends_the_task_mid_frame() {
    let mut core = SenderCore::new();
    core.on_frame(vec![1, 2, 3]);
    core.on_wrote(1);
    core.on_write_error();
    assert!(core.is_stopped());
    assert!(!core.needs_frame());
    assert!(!core.is_writing());
    assert!(core.stop_cause() == Some(SendStopCause::WriteFailed));
}

/// Drives a `SenderCore` the way the application write loop does: `frames`
/// scripts the producing callback (`None`: stop signal), `accepts` scripts
/// how many bytes the socket takes per write call. Returns every byte handed
/// to the socket, in order, and why the task stopped.
fn drive_sender(
    frames: &[Option<Vec<u8>>],
    accepts: &[usize],
) -> (Vec<u8>, Option<SendStopCause>) {
    let mut core = SenderCore::new();
    let mut wire = Vec::new();
    let mut frames = frames.iter();
    let mut accepts = accepts.iter();
    loop {
        if core.is_stopped() {
            return (wire, core.stop_cause());
        }
        if core.needs_frame() {
            match frames.next() {
                Some(Some(frame)) => core.on_frame(frame.clone()),
                Some(None) => core.on_service_stop(),
                None => return (wire, None),
            }
        } else {
            assert!(core.is_writing());
            let chunk = core.pending_chunk();
            match accepts.next() {
                Some(0) | None => core.on_write_error(),
                Some(&n) => {
                    let n = n.min(chunk.len());
                    wire.extend_from_slice(&chunk[..n]);
                    core.on_wrote(n);
                }
            }
        }
    }
}

#[test]
fn frames_reach_the_wire_whole_and_in_submission_order() {
    let frames = [
        Some(vec![1, 2, 3]),
        Some(vec![]),
        Some(vec![4]),
        Some(vec![5, 6]),
        None,
    ];
    // The socket dribbles: 2, 1, 1, then plenty.
    let (wire, cause) = drive_sender(&frames, &[2, 1, 1, 9, 9]);
    assert!(wire == vec![1, 2, 3, 4, 5, 6]);
    assert!(cause == Some(SendStopCause::ServiceStopped));
}

#[test]
fn a_failed_write_leaves_a_clean_prefix_on_the_wire() {
    let frames = [Some(vec![1, 2, 3]), Some(vec![4, 5])];
    let (wire, cause) = drive_sender(&frames, &[3, 0]);
    assert!(wire == vec![1, 2, 3]);
    assert!(cause == Some(SendStopCause::WriteFailed));
}
