use std::cell::RefCell;

use streamer_core::capture::{
    deliver_frame, readback_requests, release_mapped_buffers, schedule_captures, Capture,
    ReadbackJob, ReleaseSignal,
};
use streamer_core::encoder::{SinkError, StreamEncoder};
use streamer_core::padded_bytes_per_row;

#[test]
fn row_stride_rounds_up_to_copy_alignment() {
    assert_eq!(padded_bytes_per_row(64), 256); // 256 raw bytes, already aligned
    assert_eq!(padded_bytes_per_row(100), 512); // 400 raw bytes, padded
    assert_eq!(padded_bytes_per_row(1), 256);
    assert_eq!(padded_bytes_per_row(0), 0);
    assert_eq!(padded_bytes_per_row(1920), 7680); // 7680 raw bytes, aligned
}

#[test]
fn buffer_size_is_stride_times_height() {
    let capture = Capture::new(1, 100, 50, 2);
    assert_eq!(capture.buffer_size(), 512 * 50);
}

#[test]
fn disabled_target_is_skipped_without_touching_the_pool() {
    let mut capture = Capture::new(1, 100, 50, 2);
    capture.set_enabled(false);
    assert!(capture.schedule_capture(true).is_none());
    assert!(capture.readback_request().is_none());
    capture.set_enabled(true);
    assert!(capture.schedule_capture(true).is_some());
}

#[test]
fn unresolved_texture_skips_the_whole_tick() {
    let mut capture = Capture::new(1, 100, 50, 2);
    assert!(capture.schedule_capture(false).is_none());
    // The frame was dropped: no readback either.
    assert!(capture.skipped());
    assert!(capture.readback_request().is_none());
    // The pool was not touched: the next tick still claims the first slot.
    let op = capture.schedule_capture(true).expect("first slot should be claimed");
    assert_eq!(op.buffer_index, 0);
}

#[test]
fn schedule_describes_the_device_copy() {
    let mut capture = Capture::new(42, 100, 50, 7);
    let op = capture.schedule_capture(true).expect("a slot should be free");
    assert_eq!(op.buffer_index, 0);
    assert_eq!(op.bytes_per_row, 512);
    assert_eq!(op.src_image, 42);
    assert_eq!(op.width, 100);
    assert_eq!(op.height, 50);
    assert_eq!(capture.readback_request(), Some(0));
}

#[test]
fn exhausted_pool_drops_frames_and_requests_nothing() {
    let mut capture = Capture::new(1, 8, 8, 2);
    for expected in 0..3 {
        let op = capture.schedule_capture(true).expect("slot should be free");
        assert_eq!(op.buffer_index, expected);
    }
    // Three consecutive ticks with a full pool: three frames dropped, zero
    // readbacks requested.
    for _ in 0..3 {
        assert!(capture.schedule_capture(true).is_none());
        assert!(capture.skipped());
        assert!(capture.readback_request().is_none());
    }
    // Release one slot: the next tick claims it and requests its readback.
    capture.release_slot(1);
    let op = capture.schedule_capture(true).expect("released slot should be claimed");
    assert_eq!(op.buffer_index, 1);
    assert_eq!(capture.readback_request(), Some(1));
}

#[test]
fn map_success_creates_the_job_and_keeps_the_slot() {
    let mut capture = Capture::new(1, 8, 8, 77);
    let op = capture.schedule_capture(true).expect("slot should be free");
    let job = capture
        .on_map_result(4, op.buffer_index, true)
        .expect("a mapped buffer must produce a job");
    assert_eq!(job, ReadbackJob { sink: 77, capture_index: 4, buffer_index: 0 });
    assert!(capture.buffer_in_use(0));
}

#[test]
fn map_failure_releases_the_slot_without_a_job() {
    let mut capture = Capture::new(1, 8, 8, 77);
    let op = capture.schedule_capture(true).expect("slot should be free");
    assert!(capture.buffer_in_use(op.buffer_index));
    assert!(capture.on_map_result(0, op.buffer_index, false).is_none());
    assert!(!capture.buffer_in_use(op.buffer_index));
}

struct RecordingSink {
    frames: RefCell<Vec<Vec<u8>>>,
    fail: bool,
}

impl StreamEncoder for RecordingSink {
    fn push_frame(&self, frame_data: &[u8]) -> Result<(), SinkError> {
        if self.fail {
            return Err(SinkError { detail: String::from("transport closed") });
        }
        self.frames.borrow_mut().push(frame_data.to_vec());
        Ok(())
    }

    fn start(&self) -> Result<(), SinkError> {
        Ok(())
    }
}

#[test]
fn delivery_forwards_the_frame_and_emits_the_release_signal() {
    let sink = RecordingSink { frames: RefCell::new(Vec::new()), fail: false };
    let job = ReadbackJob { sink: 1, capture_index: 2, buffer_index: 1 };
    let (signal, pushed) = deliver_frame(&sink, &job, &[1, 2, 3]);
    assert!(pushed);
    assert_eq!(signal, ReleaseSignal { capture_index: 2, buffer_index: 1 });
    assert_eq!(sink.frames.borrow().as_slice(), &[vec![1, 2, 3]]);
}

#[test]
fn delivery_emits_the_release_signal_even_when_the_push_fails() {
    let sink = RecordingSink { frames: RefCell::new(Vec::new()), fail: true };
    let job = ReadbackJob { sink: 1, capture_index: 0, buffer_index: 2 };
    let (signal, pushed) = deliver_frame(&sink, &job, &[9]);
    assert!(!pushed);
    assert_eq!(signal, ReleaseSignal { capture_index: 0, buffer_index: 2 });
    assert!(sink.frames.borrow().is_empty());
}

#[test]
fn release_drain_frees_exactly_the_signalled_slots() {
    let mut captures = vec![Capture::new(1, 8, 8, 1), Capture::new(2, 8, 8, 2)];
    for capture in captures.iter_mut() {
        capture.schedule_capture(true).expect("slot 0");
        capture.schedule_capture(true).expect("slot 1");
    }
    let signals = vec![
        ReleaseSignal { capture_index: 0, buffer_index: 1 },
        ReleaseSignal { capture_index: 1, buffer_index: 0 },
    ];
    release_mapped_buffers(&mut captures, &signals);
    assert!(captures[0].buffer_in_use(0));
    assert!(!captures[0].buffer_in_use(1));
    assert!(!captures[1].buffer_in_use(0));
    assert!(captures[1].buffer_in_use(1));
}

#[test]
fn release_signals_are_processed_for_disabled_targets() {
    // Disabling stops new copies but in-flight releases still free the pool.
    let mut captures = vec![Capture::new(1, 8, 8, 1)];
    captures[0].schedule_capture(true).expect("slot 0");
    captures[0].set_enabled(false);
    let signals = vec![ReleaseSignal { capture_index: 0, buffer_index: 0 }];
    release_mapped_buffers(&mut captures, &signals);
    assert!(!captures[0].buffer_in_use(0));
}

#[test]
fn whole_tick_schedules_only_enabled_resolved_targets() {
    let mut captures = vec![
        Capture::new(10, 100, 50, 1),
        Capture::new(11, 100, 50, 2),
        Capture::new(12, 64, 32, 3),
        Capture::new(13, 64, 32, 4),
    ];
    captures[1].set_enabled(false);
    // Target 3's pool is exhausted before the tick.
    for _ in 0..3 {
        captures[3].schedule_capture(true);
    }
    let resolved = vec![true, true, false, true];
    let ops = schedule_captures(&mut captures, &resolved);
    assert_eq!(ops.len(), 1);
    assert_eq!(ops[0].src_image, 10);
    assert_eq!(ops[0].buffer_index, 0);
    assert_eq!(ops[0].bytes_per_row, 512);
    assert!(captures[3].skipped());

    // Only target 0 claimed a slot this tick: the disabled target and the
    // two skipped ones request no mapping.
    let requests = readback_requests(&captures);
    assert_eq!(requests, vec![(0, 0)]);
}

#[test]
fn whole_tick_requests_one_mapping_per_claiming_target() {
    let mut captures = vec![Capture::new(1, 8, 8, 1), Capture::new(2, 8, 8, 2)];
    let resolved = vec![true, true];
    let ops = schedule_captures(&mut captures, &resolved);
    assert_eq!(ops.len(), 2);
    let requests = readback_requests(&captures);
    assert_eq!(requests, vec![(0, 0), (1, 0)]);
}
