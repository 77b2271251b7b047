use auto_targeting::detector::{preparation, BackendKind, Preparation};
use auto_targeting::visual::{check_rgb_frame, label_position, saved_frame_name, thick_rect, VisualizerError};
use auto_targeting::bridge::{
    check_health_ack, check_infer_ack, check_init_ack, check_shm_write, frame_message,
    next_shm_buffer, require_initialized, response_length, shm_frame_size, wire_format,
};
use auto_targeting::detector::{should_stop, AcquireAction, DetectorStats, RingStep};
use auto_targeting::imaging::{InferenceError, SaveThrottle};
use auto_targeting::scenario::{
    action_failure, action_kind, due_actions_end, kpi_failures, pass_rate_percent, tally,
    unknown_action_warning, update_failure, validate_header, ActionKind, OperatorAction,
    ScenarioError, VideoSpec,
};
use auto_targeting::types::{CommonError, FlightMode, HeartbeatStatus, PixelFormat, SystemState};

fn sample_video() -> VideoSpec {
    VideoSpec {
        kind: "synthetic".to_string(),
        pattern: "moving_dot".to_string(),
        width: 640,
        height: 480,
        fps: 30,
        duration_frames: 300,
        dot_speed_px_per_frame: Some(3),
        targets: vec![],
    }
}

fn action(at_frame: u64, name: &str) -> OperatorAction {
    OperatorAction { at_frame, action: name.to_string(), target_id: Some(1), note: String::new() }
}

// --- scenario checks ---

#[test]
fn validate_rejects_empty_name() {
    assert!(validate_header("", &sample_video()).is_err());
    assert!(validate_header("static target", &sample_video()).is_ok());
}

#[test]
fn validate_rejects_zero_dimensions() {
    let mut v = sample_video();
    v.width = 0;
    match validate_header("x", &v) {
        Err(ScenarioError::Invalid(m)) => assert_eq!(m, "video dimensions must be > 0"),
        other => panic!("unexpected {other:?}"),
    }
}

#[test]
fn validate_rejects_unknown_video_type() {
    let mut v = sample_video();
    v.kind = "magic".to_string();
    match validate_header("x", &v) {
        Err(ScenarioError::Invalid(m)) => {
            assert_eq!(m, "unknown video type: magic (expected 'synthetic' or 'replay')")
        }
        other => panic!("unexpected {other:?}"),
    }
}

#[test]
fn operator_actions_are_read_by_name() {
    assert_eq!(action_kind("select_target"), ActionKind::SelectTarget);
    assert_eq!(action_kind("abort"), ActionKind::Abort);
    assert_eq!(action_kind("scan"), ActionKind::Scan);
    assert_eq!(action_kind("dance"), ActionKind::Unknown);
}

#[test]
fn due_actions_stop_at_the_next_frame() {
    let actions = vec![action(5, "scan"), action(5, "select_target"), action(9, "abort")];
    assert_eq!(due_actions_end(&actions, 0, 4), 0);
    assert_eq!(due_actions_end(&actions, 0, 5), 2);
    assert_eq!(due_actions_end(&actions, 2, 9), 3);
    assert_eq!(due_actions_end(&actions, 3, 9), 3);
}

#[test]
fn runner_messages() {
    assert_eq!(
        action_failure(12, ActionKind::SelectTarget, 7, "no"),
        "frame 12: select_target(7) failed: no"
    );
    assert_eq!(action_failure(0, ActionKind::Abort, 0, "e"), "frame 0: abort failed: e");
    assert_eq!(action_failure(3, ActionKind::Scan, 0, "e"), "frame 3: scan failed: e");
    assert_eq!(unknown_action_warning(4, "dance"), "frame 4: unknown operator action 'dance'");
    assert_eq!(update_failure(8, "oops"), "frame 8: update failed: oops");
}

#[test]
fn kpis_pass_when_met() {
    let f = kpi_failures(SystemState::Tracking, "tracking", Some(100), Some(500), 0, Some(0));
    assert!(f.is_empty());
    let f = kpi_failures(SystemState::Idle, "whatever", None, None, 9, None);
    assert!(f.is_empty());
}

#[test]
fn kpi_failures_are_listed_in_order() {
    let f = kpi_failures(SystemState::Abort, "TRACKING", Some(900), Some(500), 4, Some(2));
    assert_eq!(
        f,
        vec![
            "final state mismatch: expected TRACKING, got ABORT".to_string(),
            "lock acquisition time 900ms exceeds target 500ms".to_string(),
            "watchdog triggers 4 exceed max 2".to_string(),
        ]
    );
    let f = kpi_failures(SystemState::Tracking, "TRACKING", None, Some(500), 0, None);
    assert_eq!(f, vec!["lock was never acquired".to_string()]);
}

#[test]
fn pass_rate_and_tally() {
    assert_eq!(pass_rate_percent(0, 0), 0);
    assert_eq!(pass_rate_percent(2, 3), 66);
    assert_eq!(pass_rate_percent(3, 3), 100);
    assert_eq!(tally(&vec![true, false, true, true]), (3, 1));
    assert_eq!(tally(&vec![]), (0, 0));
}

// --- inference bridge framing ---

#[test]
fn messages_are_length_prefixed_big_endian() {
    let framed = frame_message("{\"type\":\"health\"}");
    assert_eq!(&framed[..4], &[0, 0, 0, 17]);
    assert_eq!(&framed[4..], b"{\"type\":\"health\"}");
    assert_eq!(frame_message(""), vec![0, 0, 0, 0]);
    let long = "x".repeat(0x1_02_03);
    assert_eq!(&frame_message(&long)[..4], &[0, 1, 2, 3]);
}

#[test]
fn response_length_is_bounded() {
    assert_eq!(response_length([0, 0, 1, 0]).unwrap(), 256);
    assert_eq!(response_length([0, 0x98, 0x96, 0x80]).unwrap(), 10_000_000);
    match response_length([0, 0x98, 0x96, 0x81]) {
        Err(InferenceError::BridgeProtocol(m)) => assert_eq!(m, "response too large: 10000001 bytes"),
        other => panic!("unexpected {other:?}"),
    }
}

#[test]
fn shared_memory_buffers_rotate() {
    assert_eq!(shm_frame_size(640, 640), 640 * 640 * 3);
    assert_eq!(next_shm_buffer(0, 2), (0, 1));
    assert_eq!(next_shm_buffer(1, 2), (1, 2));
    assert_eq!(next_shm_buffer(u32::MAX, 2), (1, 0));
    assert!(check_shm_write(1, 2, 10, 10).is_ok());
    assert_eq!(check_shm_write(2, 2, 10, 10).unwrap_err(), "buf index 2 >= 2");
    assert_eq!(check_shm_write(0, 2, 11, 10).unwrap_err(), "frame 11 > buffer 10");
}

#[test]
fn bridge_acknowledgements() {
    assert!(check_init_ack(true, "").is_ok());
    match check_init_ack(false, "model not found") {
        Err(InferenceError::BridgeConnection(m)) => assert_eq!(m, "init failed: model not found"),
        other => panic!("unexpected {other:?}"),
    }
    match check_infer_ack(false, "npu") {
        Err(InferenceError::Inference(m)) => assert_eq!(m, "infer failed: npu"),
        other => panic!("unexpected {other:?}"),
    }
    assert!(matches!(check_health_ack(false), Err(InferenceError::BridgeConnection(_))));
    assert!(matches!(require_initialized(false), Err(InferenceError::ModelNotLoaded)));
    assert_eq!(wire_format(PixelFormat::Nv12), "nv12");
    assert_eq!(wire_format(PixelFormat::Mjpeg), "mjpeg");
}

// --- detector loop bookkeeping ---

#[test]
fn ring_answers_move_the_cursor() {
    let mut stats = DetectorStats::default();
    let mut last = 5u64;
    assert_eq!(stats.on_ring_answer(&mut last, RingStep::Frame(6), false), AcquireAction::Take);
    assert_eq!(last, 6);
    assert_eq!(stats.on_ring_answer(&mut last, RingStep::UpToDate, false), AcquireAction::Wait);
    assert_eq!(stats.on_ring_answer(&mut last, RingStep::TooFarBehind(40), false), AcquireAction::Retry);
    assert_eq!((last, stats.jumps), (40, 1));
    assert_eq!(stats.on_ring_answer(&mut last, RingStep::TooFarBehind(50), true), AcquireAction::Wait);
    assert_eq!((last, stats.jumps), (40, 1));
}

#[test]
fn detector_counters() {
    let mut stats = DetectorStats::default();
    stats.record_frame();
    stats.record_infer_error();
    stats.record_frame();
    stats.record_result(3, true);
    stats.record_result(2, false);
    assert_eq!(stats.frames_processed, 2);
    assert_eq!(stats.infer_errors, 1);
    assert_eq!(stats.detections_total, 5);
    assert_eq!(stats.frames_published, 1);
}

#[test]
fn detector_loop_stops() {
    assert!(should_stop(10_000, Some(10_000), 0, 5_000, 0));
    assert!(!should_stop(9_999, Some(10_000), 0, 5_000, 0));
    assert!(!should_stop(0, None, 6_000, 5_000, 0));
    assert!(should_stop(0, None, 5_000, 5_000, 1));
}

// --- frame writer cadence ---

#[test]
fn frame_writer_throttles_every_n() {
    let mut t = SaveThrottle::new(3);
    let mut saved = 0;
    for _ in 0..6 {
        if t.next_frame() {
            t.record_saved();
            saved += 1;
        }
    }
    assert_eq!(saved, 2, "expected 2 saves out of 6 with every_n=3");
    assert_eq!(t.saved_count(), 2);
}

#[test]
fn frame_writer_zero_cadence_saves_every_frame() {
    let mut t = SaveThrottle::new(0);
    assert!(t.should_save());
    for _ in 0..4 {
        assert!(t.next_frame());
    }
}

// --- heartbeat ---

#[test]
fn heartbeat_staleness() {
    let now = chrono::Utc::now().timestamp_millis();
    let hb = HeartbeatStatus { last_heartbeat_ms: now, armed: false, mode: FlightMode::Guided };
    assert!(!hb.is_stale(1000));
    let old = HeartbeatStatus { last_heartbeat_ms: now - 5_000, armed: false, mode: FlightMode::Guided };
    assert!(old.is_stale(1000));
}

#[test]
fn heartbeat_staleness_at_explicit_times() {
    let hb = HeartbeatStatus { last_heartbeat_ms: 1_000, armed: true, mode: FlightMode::Rtl };
    assert!(!hb.is_stale_at(2_000, 1_000));
    assert!(hb.is_stale_at(2_001, 1_000));
    assert!(!hb.is_stale_at(0, 0));
}

// --- annotation geometry ---

#[test]
fn annotation_accepts_only_rgb24_of_the_right_size() {
    assert!(check_rgb_frame(PixelFormat::Rgb24, 4, 2, 24).is_ok());
    match check_rgb_frame(PixelFormat::Nv12, 4, 2, 12) {
        Err(e @ VisualizerError::UnsupportedFormat(PixelFormat::Nv12)) => assert_eq!(
            e.message(),
            "unsupported pixel format: Nv12 (expected RGB24; convert upstream)"
        ),
        other => panic!("unexpected {other:?}"),
    }
    match check_rgb_frame(PixelFormat::Rgb24, 4, 2, 10) {
        Err(e @ VisualizerError::FrameSize { decl_w: 4, decl_h: 2, data_len: 10 }) => {
            assert_eq!(e.message(), "frame size mismatch: declared 4x2, data len 10")
        }
        other => panic!("unexpected {other:?}"),
    }
}

#[test]
fn thick_box_is_nested_rectangles() {
    assert_eq!(thick_rect(10, 20, 30, 40, 2), vec![(10, 20, 30, 40), (11, 21, 28, 38)]);
    assert_eq!(thick_rect(0, 0, 3, 1, 2), vec![(0, 0, 3, 1)]);
    assert!(thick_rect(0, 0, 0, 5, 2).is_empty());
}

#[test]
fn labels_go_above_the_box_or_below_it() {
    assert_eq!(label_position(10, 50, 20, 640, 40, 18), (10, 32));
    assert_eq!(label_position(10, 5, 20, 640, 40, 18), (10, 27));
    assert_eq!(label_position(630, 50, 20, 640, 40, 18), (600, 32));
    assert_eq!(label_position(5, 50, 20, 30, 40, 18), (0, 32));
}

#[test]
fn saved_frames_are_numbered() {
    assert_eq!(saved_frame_name(1), "seq_000001.jpg");
    assert_eq!(saved_frame_name(123456), "seq_123456.jpg");
    assert_eq!(saved_frame_name(1234567), "seq_1234567.jpg");
}

#[test]
fn frames_are_prepared_for_the_backend() {
    assert_eq!(preparation(BackendKind::Bridge, PixelFormat::Nv12), Preparation::ConvertAndLetterbox);
    assert_eq!(preparation(BackendKind::Bridge, PixelFormat::Rgb24), Preparation::Letterbox);
    assert_eq!(preparation(BackendKind::CpuOnnx, PixelFormat::Nv12), Preparation::PassThrough);
    assert_eq!(preparation(BackendKind::Mock, PixelFormat::Rgb24), Preparation::PassThrough);
}

#[test]
fn safety_critical_errors() {
    let w = CommonError::Watchdog { watchdog: "video_loop".to_string(), elapsed_ms: 150, limit_ms: 100 };
    assert!(w.is_safety_critical());
    assert_eq!(w.message(), "watchdog timeout: video_loop exceeded 150ms (limit: 100ms)");
    assert!(CommonError::Safety("geofence".to_string()).is_safety_critical());
    let t = CommonError::InvalidStateTransition { from: "IDLE".to_string(), to: "TRACKING".to_string() };
    assert!(t.is_safety_critical());
    assert_eq!(t.message(), "invalid state transition: IDLE -> TRACKING");
    assert!(!CommonError::Video("x".to_string()).is_safety_critical());
    assert_eq!(CommonError::Config("bad".to_string()).message(), "configuration error: bad");
}
