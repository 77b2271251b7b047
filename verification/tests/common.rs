use auto_targeting::types::{is_lost, is_lost_at};
use auto_targeting::detector::{backend_from_keyword, BackendKind};
use auto_targeting::cli::{parse_flight_mode, parse_state, CliArgs, RunMode};
use auto_targeting::health::{health_response, HealthConfig, HealthStatus, OverallHealth, overall_health};
use auto_targeting::imaging::{base64_encode, frame_to_rgb24, nv12_to_rgb24, InferenceError};
use auto_targeting::ota::{is_newer_version, sha256_hex, verify_checksum, OtaConfig, OtaError};
use auto_targeting::safety::{
    battery_violation, combine_safety, geofence_violation, BatteryViolation, GeofenceViolation,
    SafetyAction, SafetyViolation,
};
use auto_targeting::scenario::{
    compute_target_position, detection_bbox, in_occlusion, validate_header, FrameRef,
    OcclusionSpec, ScenarioError, VideoSpec,
};
use auto_targeting::text::{decimal_string, hex16_string, parse_u64};
use auto_targeting::types::{FlightMode, PixelFormat, SystemState};

#[test]
fn parse_flight_mode_recognizes_all_modes() {
    assert_eq!(parse_flight_mode("guided").unwrap(), FlightMode::Guided);
    assert_eq!(parse_flight_mode("GUIDED").unwrap(), FlightMode::Guided);
    assert_eq!(parse_flight_mode("rtl").unwrap(), FlightMode::Rtl);
    assert_eq!(parse_flight_mode("loiter").unwrap(), FlightMode::Loiter);
    assert_eq!(parse_flight_mode("manual").unwrap(), FlightMode::Manual);
    assert_eq!(parse_flight_mode("auto").unwrap(), FlightMode::Auto);
    assert_eq!(parse_flight_mode("stabilize").unwrap(), FlightMode::Stabilize);
    assert_eq!(parse_flight_mode("stab").unwrap(), FlightMode::Stabilize);
    assert!(parse_flight_mode("nonsense").is_err());
}

#[test]
fn unknown_flight_mode_message_is_lowercased() {
    let e = parse_flight_mode("NonSense").unwrap_err();
    assert_eq!(e.message, "unknown flight mode: nonsense");
}

#[test]
fn parse_state_recognizes_all() {
    assert_eq!(parse_state("TRACKING"), SystemState::Tracking);
    assert_eq!(parse_state("tracking"), SystemState::Tracking);
    assert_eq!(parse_state("ABORT"), SystemState::Abort);
    assert_eq!(parse_state("unknown"), SystemState::Idle);
}

#[test]
fn parse_state_reads_every_display_name() {
    for s in [
        SystemState::Idle,
        SystemState::Armed,
        SystemState::Scanning,
        SystemState::TargetSelected,
        SystemState::Tracking,
        SystemState::TrackingDegraded,
        SystemState::Lost,
        SystemState::Rth,
        SystemState::Abort,
    ] {
        assert_eq!(parse_state(s.as_str()), s);
    }
}

#[test]
fn run_mode_priorities() {
    let base = CliArgs { config: None, mock_fc: false, mock_all: false, health_check: false, verbose: 0 };
    assert_eq!(base.mode(), RunMode::Full);
    let a = CliArgs { mock_fc: true, ..base.clone() };
    assert_eq!(a.mode(), RunMode::MockFc);
    let b = CliArgs { mock_fc: true, mock_all: true, ..base.clone() };
    assert_eq!(b.mode(), RunMode::MockAll);
    let c = CliArgs { mock_fc: true, mock_all: true, health_check: true, ..base.clone() };
    assert_eq!(c.mode(), RunMode::HealthCheck);
}

#[test]
fn health_status_default() {
    let s = HealthStatus::default();
    assert_eq!(s.status, "starting");
    assert_eq!(s.state, "IDLE");
    assert!(!s.connected);
}

#[test]
fn health_config_default() {
    let c = HealthConfig::default();
    assert_eq!(c.port, 8080);
    assert_eq!(c.notify_interval_secs, 5);
    assert!(c.enable_systemd_notify);
}

#[test]
fn health_response_verdicts() {
    let mut s = HealthStatus::default();
    // default: heartbeat stale -> degraded
    assert_eq!(overall_health(&s), OverallHealth::Degraded);
    s.fc_heartbeat_stale = false;
    let (r, code) = health_response(s.clone(), 7);
    assert_eq!(r.status, "starting");
    assert_eq!(code, 200);
    assert_eq!(r.uptime_secs, 7);
    s.connected = true;
    let (r, code) = health_response(s.clone(), 8);
    assert_eq!(r.status, "ok");
    assert_eq!(code, 200);
    s.watchdogs_expired = 1;
    let (r, code) = health_response(s, 9);
    assert_eq!(r.status, "degraded");
    assert_eq!(code, 503);
}

#[test]
fn ota_config_default() {
    let cfg = OtaConfig::default();
    assert!(!cfg.enabled);
    assert_eq!(cfg.check_interval_secs, 3600);
    assert_eq!(cfg.current_version, "0.1.0");
}

#[test]
fn sha256_stub_deterministic() {
    let data = b"hello";
    let hash1 = sha256_hex(data);
    let hash2 = sha256_hex(data);
    assert_eq!(hash1, hash2);
}

#[test]
fn sha256_stub_different_data_different_hash() {
    let hash1 = sha256_hex(b"hello");
    let hash2 = sha256_hex(b"world");
    assert_ne!(hash1, hash2);
}

#[test]
fn sha256_stub_known_values() {
    assert_eq!(sha256_hex(b""), "0000000000000000");
    assert_eq!(sha256_hex(b"a"), "0000000000000061");
    // 'a' * 31 + 'b' = 97 * 31 + 98 = 3105 = 0xc21
    assert_eq!(sha256_hex(b"ab"), "0000000000000c21");
    assert_eq!(sha256_hex(b"hello"), "0000000005e918d2");
}

#[test]
fn checksum_verification() {
    assert!(verify_checksum(b"ab", "0000000000000c21").is_ok());
    match verify_checksum(b"ab", "wrong_checksum") {
        Err(OtaError::ChecksumMismatch { expected, actual }) => {
            assert_eq!(expected, "wrong_checksum");
            assert_eq!(actual, "0000000000000c21");
        }
        other => panic!("unexpected {other:?}"),
    }
}

#[test]
fn version_comparison_is_string_order() {
    assert!(is_newer_version("1.2.4", "1.2.3"));
    assert!(!is_newer_version("1.2.3", "1.2.3"));
    assert!(is_newer_version("1.2.3.1", "1.2.3"));
    // string order, not numeric order
    assert!(is_newer_version("9.0.0", "10.0.0"));
}

#[test]
fn safety_violation_display() {
    let v = SafetyViolation::Geofence(GeofenceViolation::DistanceExceeded);
    let s = v.to_text();
    assert!(s.contains("geofence"));
    assert!(s.contains("distance exceeded"));
}

#[test]
fn safety_priorities() {
    assert_eq!(battery_violation(true, true, true), Some(BatteryViolation::CriticalBatteryLand));
    assert_eq!(battery_violation(false, true, true), Some(BatteryViolation::LowBatteryRth));
    assert_eq!(battery_violation(false, false, true), Some(BatteryViolation::LowVoltage));
    assert_eq!(battery_violation(false, false, false), None);
    assert_eq!(geofence_violation(true, true, false), Some(GeofenceViolation::DistanceExceeded));
    assert_eq!(geofence_violation(false, false, true), Some(GeofenceViolation::AltitudeMinExceeded));
    let both = combine_safety(
        true,
        Some(BatteryViolation::CriticalBatteryLand),
        true,
        true,
        Some(GeofenceViolation::DistanceExceeded),
    );
    assert_eq!(
        both,
        Some((SafetyViolation::Battery(BatteryViolation::CriticalBatteryLand), SafetyAction::Land))
    );
    let geo = combine_safety(true, None, true, true, Some(GeofenceViolation::AltitudeMaxExceeded));
    assert_eq!(geo, Some((SafetyViolation::Geofence(GeofenceViolation::AltitudeMaxExceeded), SafetyAction::Rth)));
    assert_eq!(combine_safety(true, None, true, false, Some(GeofenceViolation::DistanceExceeded)), None);
    assert_eq!(combine_safety(false, Some(BatteryViolation::LowVoltage), false, true, None), None);
    assert_eq!(
        SafetyViolation::Battery(BatteryViolation::LowBatteryRth).to_text(),
        "battery: low battery \u{2014} RTH triggered"
    );
}

#[test]
fn frame_ref_single_matches_exact() {
    let fr = FrameRef::Single(42);
    assert!(fr.matches(42));
    assert!(!fr.matches(41));
    assert!(!fr.matches(43));
}

#[test]
fn frame_ref_range_matches_inclusive() {
    let fr = FrameRef::Range("50-100".to_string());
    assert!(fr.matches(50));
    assert!(fr.matches(75));
    assert!(fr.matches(100));
    assert!(!fr.matches(49));
    assert!(!fr.matches(101));
}

#[test]
fn frame_ref_range_invalid_format() {
    let fr = FrameRef::Range("not-a-range".to_string());
    assert!(!fr.matches(50));
}

#[test]
fn frame_ref_range_edge_cases() {
    assert!(FrameRef::Range("+5-+10".to_string()).matches(7));
    assert!(!FrameRef::Range("5--10".to_string()).matches(7));
    assert!(!FrameRef::Range("5".to_string()).matches(5));
    assert!(!FrameRef::Range("-5".to_string()).matches(5));
    assert!(FrameRef::Range("0-18446744073709551615".to_string()).matches(u64::MAX));
    assert!(!FrameRef::Range("0-18446744073709551616".to_string()).matches(1));
}

#[test]
fn parse_u64_like_from_str() {
    assert_eq!(parse_u64("42"), Some(42));
    assert_eq!(parse_u64("+42"), Some(42));
    assert_eq!(parse_u64("+"), None);
    assert_eq!(parse_u64(""), None);
    assert_eq!(parse_u64("-1"), None);
    assert_eq!(parse_u64("4 2"), None);
    assert_eq!(parse_u64("18446744073709551615"), Some(u64::MAX));
    assert_eq!(parse_u64("18446744073709551616"), None);
}

#[test]
fn number_rendering() {
    assert_eq!(decimal_string(0), "0");
    assert_eq!(decimal_string(1234567890), "1234567890");
    assert_eq!(decimal_string(u64::MAX), "18446744073709551615");
    assert_eq!(hex16_string(0xdead_beef), "00000000deadbeef");
    assert_eq!(hex16_string(u64::MAX), "ffffffffffffffff");
}

fn video(w: u32, h: u32, speed: Option<u32>) -> VideoSpec {
    VideoSpec {
        kind: "synthetic".to_string(),
        pattern: "moving_dot".to_string(),
        width: w,
        height: h,
        fps: 30,
        duration_frames: 100,
        dot_speed_px_per_frame: speed,
        targets: vec![],
    }
}

#[test]
fn compute_target_position_wraps() {
    let v = video(100, 100, Some(10));
    assert_eq!(compute_target_position(&v, 0), (0, 50));
    assert_eq!(compute_target_position(&v, 5).0, 50);
    assert_eq!(compute_target_position(&v, 10).0, 0);
    let d = video(100, 101, None);
    assert_eq!(compute_target_position(&d, 2), (6, 50));
}

#[test]
fn occlusion_windows_are_inclusive() {
    let occ = vec![
        OcclusionSpec { start_frame: 100, end_frame: 130, note: "1s gap".to_string() },
        OcclusionSpec { start_frame: 200, end_frame: 200, note: String::new() },
    ];
    assert!(!in_occlusion(&occ, 99));
    assert!(in_occlusion(&occ, 100));
    assert!(in_occlusion(&occ, 130));
    assert!(!in_occlusion(&occ, 131));
    assert!(in_occlusion(&occ, 200));
    assert!(!in_occlusion(&vec![], 0));
}

#[test]
fn detection_box_saturates_at_edges() {
    let b = detection_bbox(10, 100, 60, 120);
    assert_eq!((b.x, b.y, b.width, b.height), (0, 40, 60, 120));
}

#[test]
fn scenario_header_checks() {
    assert!(validate_header("s", &video(640, 480, None)).is_ok());
    let msg = |r: Result<(), ScenarioError>| match r {
        Err(ScenarioError::Invalid(m)) => m,
        other => panic!("unexpected {other:?}"),
    };
    assert_eq!(msg(validate_header("", &video(640, 480, None))), "name is empty");
    assert_eq!(msg(validate_header("s", &video(0, 480, None))), "video dimensions must be > 0");
    let mut v = video(640, 480, None);
    v.fps = 0;
    assert_eq!(msg(validate_header("s", &v)), "video fps must be > 0");
    let mut v = video(640, 480, None);
    v.duration_frames = 0;
    assert_eq!(msg(validate_header("s", &v)), "duration_frames must be > 0");
    let mut v = video(640, 480, None);
    v.kind = "magic".to_string();
    assert_eq!(
        msg(validate_header("s", &v)),
        "unknown video type: magic (expected 'synthetic' or 'replay')"
    );
    v.kind = "replay".to_string();
    assert!(validate_header("s", &v).is_ok());
}

#[test]
fn nv12_to_rgb_black_is_black() {
    let w = 4;
    let h = 4;
    let mut nv12 = vec![0u8; w * h * 3 / 2];
    for b in &mut nv12[..w * h] {
        *b = 0;
    }
    for b in &mut nv12[w * h..] {
        *b = 128;
    }
    let rgb = nv12_to_rgb24(&nv12, w, h);
    assert_eq!(rgb.len(), w * h * 3);
    for chunk in rgb.chunks_exact(3) {
        assert_eq!(chunk, &[0, 0, 0]);
    }
}

#[test]
fn nv12_to_rgb_white_is_white() {
    let w = 2;
    let h = 2;
    let mut nv12 = vec![0u8; w * h * 3 / 2];
    for b in &mut nv12[..w * h] {
        *b = 255;
    }
    for b in &mut nv12[w * h..] {
        *b = 128;
    }
    let rgb = nv12_to_rgb24(&nv12, w, h);
    for chunk in rgb.chunks_exact(3) {
        assert!(chunk.iter().all(|&c| c >= 254), "got {chunk:?}");
    }
}

#[test]
fn nv12_exact_values() {
    // one pixel pair, Y = 100 / 50, U = 200, V = 60
    let nv12 = vec![100u8, 50, 200, 60];
    let rgb = nv12_to_rgb24(&nv12, 2, 1);
    // v = -68: 359 * -68 = -24412 -> floor / 256 = -96
    // u = 72, v = -68: 88 * 72 + 183 * -68 = -6108 -> floor / 256 = -24
    // u = 72: 454 * 72 = 32688 -> 127
    assert_eq!(rgb, vec![4, 124, 227, 0, 74, 177]);
    // odd width: the last column has no chroma pair and stays black
    let nv12 = vec![200u8, 200, 200, 128, 128, 0];
    let rgb = nv12_to_rgb24(&nv12, 3, 1);
    assert_eq!(rgb, vec![200, 200, 200, 200, 200, 200, 0, 0, 0]);
}

#[test]
fn frame_to_rgb_passthrough_for_rgb24() {
    let rgb = frame_to_rgb24(&vec![10, 20, 30], 1, 1, PixelFormat::Rgb24).unwrap();
    assert_eq!(rgb, vec![10, 20, 30]);
}

#[test]
fn frame_to_rgb_rejects_mjpeg() {
    assert!(frame_to_rgb24(&vec![0; 10], 1, 1, PixelFormat::Mjpeg).is_err());
}

#[test]
fn frame_to_rgb24_formats() {
    match frame_to_rgb24(&vec![0; 10], 1, 1, PixelFormat::Mjpeg) {
        Err(InferenceError::Inference(m)) => assert_eq!(
            m,
            "CpuInferenceBackend expects RGB24 or NV12 frame; got Mjpeg. Decode MJPEG/YUYV upstream via video-capture::convert."
        ),
        other => panic!("unexpected {other:?}"),
    }
    match frame_to_rgb24(&vec![0; 4], 1, 1, PixelFormat::Rgb24) {
        Err(InferenceError::Inference(m)) => assert_eq!(m, "RGB24 frame size mismatch: got 4, expected 3"),
        other => panic!("unexpected {other:?}"),
    }
    match frame_to_rgb24(&vec![0; 5], 2, 2, PixelFormat::Nv12) {
        Err(InferenceError::Inference(m)) => assert_eq!(m, "NV12 frame size mismatch: got 5, expected 6"),
        other => panic!("unexpected {other:?}"),
    }
    let black = frame_to_rgb24(&vec![0, 0, 0, 0, 128, 128], 2, 2, PixelFormat::Nv12).unwrap();
    assert_eq!(black, vec![0; 12]);
}

#[test]
fn base64_encode_empty() {
    assert_eq!(base64_encode(&[]), "");
}

#[test]
fn base64_encode_one_byte() {
    assert_eq!(base64_encode(&[0x66]), "Zg==");
}

#[test]
fn base64_encode_two_bytes() {
    assert_eq!(base64_encode(&[0x66, 0x6F]), "Zm8=");
}

#[test]
fn base64_encode_three_bytes() {
    assert_eq!(base64_encode(&[0x66, 0x6F, 0x6F]), "Zm9v");
}

#[test]
fn base64_encode_known_string() {
    assert_eq!(base64_encode(b"Hello, World!"), "SGVsbG8sIFdvcmxkIQ==");
}

#[test]
fn base64_uses_plus_and_slash() {
    assert_eq!(base64_encode(&[0xFB, 0xFF, 0xBF]), "+/+/");
}

fn b64_value(c: u8) -> u8 {
    match c {
        b'A'..=b'Z' => c - b'A',
        b'a'..=b'z' => c - b'a' + 26,
        b'0'..=b'9' => c - b'0' + 52,
        b'+' => 62,
        b'/' => 63,
        _ => panic!("not base64: {c}"),
    }
}

fn b64_decode(e: &str) -> Vec<u8> {
    let e = e.as_bytes();
    let mut out = Vec::new();
    for g in e.chunks(4) {
        let v0 = b64_value(g[0]);
        let v1 = b64_value(g[1]);
        out.push(v0 * 4 + v1 / 16);
        if g[2] != b'=' {
            let v2 = b64_value(g[2]);
            out.push((v1 % 16) * 16 + v2 / 4);
            if g[3] != b'=' {
                let v3 = b64_value(g[3]);
                out.push((v2 % 4) * 64 + v3);
            }
        }
    }
    out
}

#[test]
fn base64_round_trips_with_alphabet_and_padding() {
    for n in 0..20usize {
        let data: Vec<u8> = (0..n).map(|i| (i * 37 + 250) as u8).collect();
        let e = base64_encode(&data);
        assert_eq!(e.len(), 4 * ((n + 2) / 3));
        let pad = (3 - n % 3) % 3;
        let bytes = e.as_bytes();
        for (i, &c) in bytes.iter().enumerate() {
            if i < bytes.len() - pad {
                assert!(c.is_ascii_alphanumeric() || c == b'+' || c == b'/');
            } else {
                assert_eq!(c, b'=');
            }
        }
        assert_eq!(b64_decode(&e), data);
    }
}

#[test]
fn target_loss_by_age() {
    assert!(!is_lost_at(1_000, 1_500, 500));
    assert!(is_lost_at(1_000, 1_501, 500));
    assert!(!is_lost_at(2_000, 1_000, 0));
    assert!(!is_lost_at(i64::MIN, i64::MAX, u64::MAX));
    assert!(is_lost_at(i64::MIN, i64::MAX, u64::MAX - 1));
    assert!(!is_lost(i64::MAX, 0));
    assert!(is_lost(0, 1_000));
}

#[test]
fn detector_backend_keywords() {
    assert_eq!(backend_from_keyword("bridge"), Some(BackendKind::Bridge));
    assert_eq!(backend_from_keyword("npu"), Some(BackendKind::Bridge));
    assert_eq!(backend_from_keyword("cpu-onnx"), Some(BackendKind::CpuOnnx));
    assert_eq!(backend_from_keyword("onnx"), Some(BackendKind::CpuOnnx));
    assert_eq!(backend_from_keyword("mock"), Some(BackendKind::Mock));
    assert_eq!(backend_from_keyword("Mock"), None);
    assert_eq!(backend_from_keyword(""), None);
}
