use audio_capture::bridge::WriterSlot;
use audio_capture::session::{advance, recorded_files, CaptureHandle, Stage, StopCoordinator};

#[test]
fn armed_handle_is_live_and_empty() {
    let h = CaptureHandle::arm(String::from("/tmp/a.wav"));
    assert!(h.stream_live);
    assert!(!h.finalized);
    assert_eq!(h.sample_count, 0);
    assert_eq!(h.path, "/tmp/a.wav");
}

#[test]
fn stream_is_taken_exactly_once() {
    let mut h = CaptureHandle::arm(String::from("/tmp/a.wav"));
    assert!(h.take_stream());
    assert!(!h.take_stream());
    assert!(!h.take_stream());
    assert!(!h.stream_live);
}

#[test]
fn finalize_records_the_count() {
    let mut h = CaptureHandle::arm(String::from("/tmp/a.wav"));
    assert!(h.take_stream());
    h.finalize_writer(4410);
    assert!(h.finalized);
    assert_eq!(h.sample_count, 4410);
    let r = h.recorded();
    assert_eq!(r.path, "/tmp/a.wav");
    assert_eq!(r.sample_count, 4410);
}

#[test]
fn second_stop_signal_is_a_no_op() {
    let mut c = StopCoordinator::new();
    assert!(c.request_stop());
    assert!(!c.request_stop());
    assert!(!c.request_stop());
    assert_eq!(c.stage, Stage::StopRequested);
}

#[test]
fn stages_advance_in_order_and_complete() {
    let order = [
        Stage::Armed,
        Stage::Recording,
        Stage::StopRequested,
        Stage::Finalizing,
        Stage::Merging,
        Stage::Normalizing,
        Stage::Persisting,
        Stage::CleaningUp,
        Stage::Completed,
    ];
    for w in order.windows(2) {
        assert_eq!(advance(w[0]), w[1]);
    }
    assert_eq!(advance(Stage::Completed), Stage::Completed);
}

#[test]
fn coordinator_steps_through_the_pipeline_once() {
    let mut c = StopCoordinator::new();
    assert!(c.request_stop());
    let mut seen = vec![c.stage];
    while c.stage != Stage::Completed {
        c.step();
        seen.push(c.stage);
    }
    assert_eq!(
        seen,
        vec![
            Stage::StopRequested,
            Stage::Finalizing,
            Stage::Merging,
            Stage::Normalizing,
            Stage::Persisting,
            Stage::CleaningUp,
            Stage::Completed,
        ]
    );
}

#[test]
fn writer_appends_only_with_lock_and_writer_present() {
    let mut s = WriterSlot::armed();
    s.write_input(true, 480);
    s.write_input(true, 20);
    assert_eq!(s.count, 500);
    assert!(s.present);
}

#[test]
fn contended_write_drops_the_buffer_silently() {
    let mut s = WriterSlot::armed();
    s.write_input(true, 100);
    s.write_input(false, 999);
    assert_eq!(s.count, 100);
    assert!(s.present);
}

#[test]
fn write_after_take_is_dropped() {
    let mut s = WriterSlot::armed();
    s.write_input(true, 100);
    assert_eq!(s.take(), Some(100));
    s.write_input(true, 999);
    assert_eq!(s.count, 100);
    assert!(!s.present);
}

#[test]
fn writer_is_taken_exactly_once() {
    let mut s = WriterSlot::armed();
    s.write_input(true, 7);
    assert_eq!(s.take(), Some(7));
    assert_eq!(s.take(), None);
    assert_eq!(s.take(), None);
}

#[test]
fn sample_count_saturates_at_the_cap() {
    let mut s = WriterSlot::armed();
    s.write_input(true, u32::MAX);
    s.write_input(true, 1);
    assert_eq!(s.count, u32::MAX);
}

#[test]
fn recorded_files_keep_request_order() {
    let mut a = CaptureHandle::arm(String::from("/tmp/a.wav"));
    let mut b = CaptureHandle::arm(String::from("/tmp/b.wav"));
    a.take_stream();
    a.finalize_writer(10);
    b.take_stream();
    b.finalize_writer(20);
    let files = recorded_files(&vec![a, b]);
    assert_eq!(files.len(), 2);
    assert_eq!(files[0].path, "/tmp/a.wav");
    assert_eq!(files[0].sample_count, 10);
    assert_eq!(files[1].path, "/tmp/b.wav");
    assert_eq!(files[1].sample_count, 20);
}

#[test]
fn unfinalized_handles_report_zero_samples() {
    let h = CaptureHandle::arm(String::from("/tmp/a.wav"));
    let files = recorded_files(&vec![h]);
    assert_eq!(files[0].sample_count, 0);
}
