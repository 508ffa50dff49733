//! Tests of the producer state machine: lifecycle, recovery, thresholds,
//! pacing, and the stop guarantee.

use capture_core::capture::ScreenCapture;
use capture_core::frame::CaptureError;
use capture_core::frame::PixelFormat;
use capture_core::frame::RawFrame;
use capture_core::pump::interval_micros_for_fps;
use capture_core::staging::StagingCache;
use capture_core::staging::SurfaceDesc;
use capture_core::pump::remaining_wait;
use capture_core::pump::AcquireOutcome;
use capture_core::pump::PumpAction;
use capture_core::pump::PumpState;
use capture_core::pump::MAX_TRANSIENT_FAILURES;

fn red_raw(width: u32, height: u32) -> RawFrame {
    let pitch = width * 4;
    let mut data = Vec::with_capacity((height * pitch) as usize);
    for _ in 0..(width * height) {
        data.extend_from_slice(&[0, 0, 255, 255]);
    }
    RawFrame { data, width, height, row_pitch: pitch, format: PixelFormat::Bgra8 }
}

/// A started capture whose session came up: the pump is running.
fn running_capture() -> ScreenCapture {
    let mut sc = ScreenCapture::new();
    assert!(sc.start());
    let action = sc.pump.on_init_result(true);
    assert_eq!(action, PumpAction::Acquire);
    assert_eq!(sc.pump.state(), PumpState::Running);
    sc
}

#[test]
fn scenario_start_twice_spawns_once() {
    // Calling start() twice without an intervening stop() asks for exactly
    // one producer thread.
    let mut sc = ScreenCapture::new();
    let first = sc.start();
    let second = sc.start();
    assert!(first);
    assert!(!second);
    let spawned = [first, second].iter().filter(|&&s| s).count();
    assert_eq!(spawned, 1);
    // And after a stop, a new start may spawn again.
    assert!(sc.stop());
    assert!(sc.start());
}

#[test]
fn scenario_thousand_timeouts_change_nothing() {
    // 1000 consecutive timeout outcomes: the published frame is unchanged
    // and get_frame returns whatever was last published.
    let mut sc = running_capture();
    let action = sc.pump.on_event(AcquireOutcome::Frame(red_raw(16, 8)));
    assert_eq!(action, PumpAction::Acquire);
    let writes_before = sc.pump.write_count();
    for _ in 0..1000 {
        let action = sc.pump.on_event(AcquireOutcome::Timeout);
        assert_eq!(action, PumpAction::Acquire);
    }
    assert_eq!(sc.pump.write_count(), writes_before);
    let f = sc.get_frame().unwrap();
    assert_eq!(f.seq, 0);
    assert_eq!((f.width, f.height), (16, 8));
}

#[test]
fn scenario_thousand_timeouts_before_any_frame() {
    // The same steady state before anything was ever published: get_frame
    // keeps returning None.
    let mut sc = running_capture();
    for _ in 0..1000 {
        sc.pump.on_event(AcquireOutcome::Timeout);
    }
    assert_eq!(sc.pump.write_count(), 0);
    assert!(sc.get_frame().is_none());
}

#[test]
fn scenario_duplication_lost_then_recovery() {
    // One lost duplication followed by a successful reinitialization: frame
    // production resumes by itself, on a fresh session generation.
    let mut sc = running_capture();
    sc.pump.on_event(AcquireOutcome::Frame(red_raw(8, 8)));
    let generation_before = sc.pump.generation();

    let action = sc.pump.on_event(AcquireOutcome::Error(CaptureError::DuplicationLost));
    assert_eq!(action, PumpAction::Reinitialize);
    assert_eq!(sc.pump.state(), PumpState::Recovering);

    let action = sc.pump.on_init_result(true);
    assert_eq!(action, PumpAction::Acquire);
    assert_eq!(sc.pump.state(), PumpState::Running);
    // No stale session is reused: the generation moved on.
    assert!(sc.pump.generation() > generation_before);

    // Production resumes without caller intervention.
    sc.pump.on_event(AcquireOutcome::Frame(red_raw(8, 8)));
    let f = sc.get_frame().unwrap();
    assert_eq!(f.seq, 1);
}

#[test]
fn scenario_no_writes_after_stop() {
    // After stop() returns, no further writes occur to the frame buffer:
    // the injected write counter is unchanged by any later event.
    let mut sc = running_capture();
    sc.pump.on_event(AcquireOutcome::Frame(red_raw(8, 8)));
    assert!(sc.stop());
    let writes_at_stop = sc.pump.write_count();

    let events = [
        AcquireOutcome::Frame(red_raw(8, 8)),
        AcquireOutcome::Timeout,
        AcquireOutcome::Error(CaptureError::FrameAcquire),
        AcquireOutcome::Error(CaptureError::DuplicationLost),
        AcquireOutcome::Frame(red_raw(16, 16)),
    ];
    for ev in events {
        let action = sc.pump.on_event(ev);
        assert_eq!(action, PumpAction::Exit);
    }
    assert_eq!(sc.pump.write_count(), writes_at_stop);
    assert_eq!(sc.pump.state(), PumpState::Stopped);
    // The last published frame is still served.
    assert!(sc.get_frame().is_some());
}

#[test]
fn stop_is_idempotent_and_safe_without_start() {
    let mut sc = ScreenCapture::new();
    assert!(!sc.stop());
    assert!(!sc.stop());
    assert_eq!(sc.pump.state(), PumpState::Stopped);
}

#[test]
fn transient_failures_below_threshold_back_off() {
    let mut sc = running_capture();
    for _ in 0..(MAX_TRANSIENT_FAILURES - 1) {
        let action = sc.pump.on_event(AcquireOutcome::Error(CaptureError::FrameAcquire));
        assert_eq!(action, PumpAction::Backoff);
        assert_eq!(sc.pump.state(), PumpState::Running);
    }
    // The next consecutive failure crosses the threshold: full rebuild.
    let action = sc.pump.on_event(AcquireOutcome::Error(CaptureError::FrameAcquire));
    assert_eq!(action, PumpAction::Reinitialize);
    assert_eq!(sc.pump.state(), PumpState::Recovering);
}

#[test]
fn successful_frame_resets_the_failure_count() {
    let mut sc = running_capture();
    for _ in 0..(MAX_TRANSIENT_FAILURES - 1) {
        sc.pump.on_event(AcquireOutcome::Error(CaptureError::FrameAcquire));
    }
    sc.pump.on_event(AcquireOutcome::Frame(red_raw(4, 4)));
    // The count starts over: the threshold is about *consecutive* failures.
    for _ in 0..(MAX_TRANSIENT_FAILURES - 1) {
        let action = sc.pump.on_event(AcquireOutcome::Error(CaptureError::FrameAcquire));
        assert_eq!(action, PumpAction::Backoff);
    }
    assert_eq!(sc.pump.state(), PumpState::Running);
}

#[test]
fn access_denied_is_fatal() {
    let mut sc = running_capture();
    let action = sc.pump.on_event(AcquireOutcome::Error(CaptureError::AccessDenied));
    assert_eq!(action, PumpAction::Exit);
    assert_eq!(sc.pump.state(), PumpState::Failed(CaptureError::AccessDenied));
}

#[test]
fn failed_reinitialization_is_fatal() {
    let mut sc = running_capture();
    sc.pump.on_event(AcquireOutcome::Error(CaptureError::DuplicationLost));
    let action = sc.pump.on_init_result(false);
    assert_eq!(action, PumpAction::Exit);
    assert_eq!(sc.pump.state(), PumpState::Failed(CaptureError::DeviceCreation));
}

#[test]
fn dropped_frame_errors_keep_the_loop_going() {
    let mut sc = running_capture();
    sc.pump.on_event(AcquireOutcome::Frame(red_raw(4, 4)));
    let writes = sc.pump.write_count();
    for e in [CaptureError::FrameMap, CaptureError::BufferSizeMismatch] {
        let action = sc.pump.on_event(AcquireOutcome::Error(e));
        assert_eq!(action, PumpAction::Acquire);
        assert_eq!(sc.pump.state(), PumpState::Running);
    }
    assert_eq!(sc.pump.write_count(), writes);
}

#[test]
fn malformed_raw_frame_is_dropped() {
    let mut sc = running_capture();
    // Claims 8x8 but carries a single row.
    let bad = RawFrame {
        data: vec![0; 32],
        width: 8,
        height: 8,
        row_pitch: 32,
        format: PixelFormat::Bgra8,
    };
    let action = sc.pump.on_event(AcquireOutcome::Frame(bad));
    assert_eq!(action, PumpAction::Acquire);
    assert_eq!(sc.pump.write_count(), 0);
    assert!(sc.get_frame().is_none());
}

#[test]
fn pacing_arithmetic() {
    assert_eq!(interval_micros_for_fps(120), 8333);
    assert_eq!(interval_micros_for_fps(60), 16666);
    assert_eq!(remaining_wait(5000, 8333), 3333);
    assert_eq!(remaining_wait(8333, 8333), 0);
    assert_eq!(remaining_wait(9000, 8333), 0);
}

#[test]
fn staging_cache_recreates_only_on_change() {
    let d1 = SurfaceDesc { width: 1920, height: 1080, format: PixelFormat::Bgra8 };
    let d2 = SurfaceDesc { width: 1280, height: 1080, format: PixelFormat::Bgra8 };
    let mut cache = StagingCache::new();
    // Lazily created on the first frame...
    assert!(cache.needs_recreate(d1));
    cache.note_created(d1);
    // ...reused while the description holds...
    assert!(!cache.needs_recreate(d1));
    // ...recreated when it changes, and after a teardown.
    assert!(cache.needs_recreate(d2));
    cache.clear();
    assert!(cache.needs_recreate(d1));
}

#[test]
fn error_fatality() {
    assert!(CaptureError::DeviceCreation.is_fatal());
    assert!(CaptureError::AccessDenied.is_fatal());
    assert!(!CaptureError::FrameAcquire.is_fatal());
    assert!(!CaptureError::DuplicationLost.is_fatal());
    assert!(!CaptureError::FrameMap.is_fatal());
    assert!(!CaptureError::BufferSizeMismatch.is_fatal());
}
