//! Core domain types shared across the system.

use vstd::prelude::*;
use vstd::string::StringExecFns;
use std::time::Instant;
use crate::watchdogs::{elapsed_ms, elapsed_since, utc_now_ms};
use crate::text::{ascii_chars, dec_bytes, decimal_string};

verus! {

/// `std::time::Instant`, carried through as an opaque value.
#[verifier::external_type_specification]
#[verifier::external_body]
pub struct ExInstant(std::time::Instant);

/// Reads the monotonic clock (`std::time::Instant::now`); nothing is stated
/// of the instant returned.
#[verifier::external_body]
pub(crate) fn instant_now() -> (i: Instant) {
    Instant::now()
}

/// Microseconds elapsed since `i` (`Instant::elapsed`, as whole
/// microseconds, truncated to 64 bits); nothing is stated of the value,
/// which depends on when the call is made.
#[verifier::external_body]
pub(crate) fn instant_elapsed_us(i: &Instant) -> (us: u64) {
    i.elapsed().as_micros() as u64
}

/// Milliseconds elapsed since `i` (`Instant::elapsed`, as whole
/// milliseconds, truncated to 64 bits); nothing is stated of the value,
/// which depends on when the call is made.
#[verifier::external_body]
pub(crate) fn instant_elapsed_ms(i: &Instant) -> (ms: u64) {
    i.elapsed().as_millis() as u64
}

/// Nanoseconds elapsed since `i` (`Instant::elapsed`, as whole
/// nanoseconds, truncated to 64 bits); nothing is stated of the value,
/// which depends on when the call is made.
#[verifier::external_body]
pub(crate) fn instant_elapsed_ns(i: &Instant) -> (ns: u64) {
    i.elapsed().as_nanos() as u64
}

/// Monotonic timestamp for measuring latencies within one process.
#[derive(Debug, Clone, Copy)]
pub struct Timestamp {
    inner: Instant,
}

impl Timestamp {
    /// The current instant of the monotonic clock.
    pub fn now() -> (t: Self) {
        Timestamp { inner: instant_now() }
    }

    /// Microseconds elapsed since this timestamp (time-dependent).
    pub fn elapsed_us(&self) -> (us: u64) {
        instant_elapsed_us(&self.inner)
    }

    /// Milliseconds elapsed since this timestamp (time-dependent).
    pub fn elapsed_ms(&self) -> (ms: u64) {
        instant_elapsed_ms(&self.inner)
    }
}

impl Default for Timestamp {
    fn default() -> (t: Self) {
        Timestamp::now()
    }
}

/// Supported pixel formats of captured frames.
#[derive(Debug, Clone, Copy, PartialEq, Eq, Structural)]
pub enum PixelFormat {
    /// YUV 4:2:0 semi-planar (NV12).
    Nv12,
    /// YUV 4:2:2 packed.
    Yuyv,
    /// 8-bit RGB.
    Rgb24,
    /// JPEG-encoded bytes.
    Mjpeg,
}

/// A bounding box in image coordinates (pixels, origin at top-left).
#[derive(Debug, Clone, Copy, PartialEq, Eq, Structural)]
pub struct BoundingBox {
    pub x: u32,
    pub y: u32,
    pub width: u32,
    pub height: u32,
}

/// ArduPilot flight modes relevant to auto-targeting.
#[derive(Debug, Clone, Copy, PartialEq, Eq, Structural)]
pub enum FlightMode {
    Unknown,
    Manual,
    Stabilize,
    AltHold,
    Loiter,
    Guided,
    Rtl,
    Auto,
}

/// The name under which a flight mode is displayed (its variant name).
pub open spec fn flight_mode_name(m: FlightMode) -> Seq<char> {
    match m {
        FlightMode::Unknown => "Unknown"@,
        FlightMode::Manual => "Manual"@,
        FlightMode::Stabilize => "Stabilize"@,
        FlightMode::AltHold => "AltHold"@,
        FlightMode::Loiter => "Loiter"@,
        FlightMode::Guided => "Guided"@,
        FlightMode::Rtl => "Rtl"@,
        FlightMode::Auto => "Auto"@,
    }
}

impl FlightMode {
    /// The displayed name of the mode.
    pub fn as_str(&self) -> (s: &'static str)
        ensures
            s@ == flight_mode_name(*self),
    {
        match self {
            FlightMode::Unknown => "Unknown",
            FlightMode::Manual => "Manual",
            FlightMode::Stabilize => "Stabilize",
            FlightMode::AltHold => "AltHold",
            FlightMode::Loiter => "Loiter",
            FlightMode::Guided => "Guided",
            FlightMode::Rtl => "Rtl",
            FlightMode::Auto => "Auto",
        }
    }
}

impl Default for FlightMode {
    fn default() -> (m: Self)
        ensures
            m == FlightMode::Unknown,
    {
        FlightMode::Unknown
    }
}

/// Top-level state of the commander state machine.
#[derive(Debug, Clone, Copy, PartialEq, Eq, Structural)]
pub enum SystemState {
    Idle,
    Armed,
    Scanning,
    TargetSelected,
    Tracking,
    TrackingDegraded,
    Lost,
    Rth,
    Abort,
}

/// The upper-case name under which a state is displayed and logged.
pub open spec fn state_name(s: SystemState) -> Seq<char> {
    match s {
        SystemState::Idle => "IDLE"@,
        SystemState::Armed => "ARMED"@,
        SystemState::Scanning => "SCANNING"@,
        SystemState::TargetSelected => "TARGET_SELECTED"@,
        SystemState::Tracking => "TRACKING"@,
        SystemState::TrackingDegraded => "TRACKING_DEGRADED"@,
        SystemState::Lost => "LOST"@,
        SystemState::Rth => "RTH"@,
        SystemState::Abort => "ABORT"@,
    }
}

impl SystemState {
    pub fn as_str(&self) -> (s: &'static str)
        ensures
            s@ == state_name(*self),
    {
        match self {
            SystemState::Idle => "IDLE",
            SystemState::Armed => "ARMED",
            SystemState::Scanning => "SCANNING",
            SystemState::TargetSelected => "TARGET_SELECTED",
            SystemState::Tracking => "TRACKING",
            SystemState::TrackingDegraded => "TRACKING_DEGRADED",
            SystemState::Lost => "LOST",
            SystemState::Rth => "RTH",
            SystemState::Abort => "ABORT",
        }
    }
}

impl Default for SystemState {
    fn default() -> (s: Self)
        ensures
            s == SystemState::Idle,
    {
        SystemState::Idle
    }
}


/// What was last heard from the flight controller: when (milliseconds
/// since the Unix epoch), whether it was armed, and its mode.
#[derive(Debug, Clone, Copy, PartialEq, Eq, Structural)]
pub struct HeartbeatStatus {
    pub last_heartbeat_ms: i64,
    pub armed: bool,
    pub mode: FlightMode,
}

impl HeartbeatStatus {
    /// Whether, at `now_ms`, more than `timeout_ms` have passed since the
    /// last heartbeat (a heartbeat from the future counts as fresh).
    pub fn is_stale_at(&self, now_ms: i64, timeout_ms: u64) -> (b: bool)
        ensures
            b == (elapsed_since(now_ms, self.last_heartbeat_ms) > timeout_ms),
    {
        elapsed_ms(now_ms, self.last_heartbeat_ms) > timeout_ms
    }

    /// Whether, by the system clock, more than `timeout_ms` have passed
    /// since the last heartbeat (see `is_stale_at`).
    pub fn is_stale(&self, timeout_ms: u64) -> (b: bool)
        ensures
            exists|now: i64| b == (elapsed_since(now, self.last_heartbeat_ms) > timeout_ms),
    {
        let now = utc_now_ms();
        self.is_stale_at(now, timeout_ms)
    }
}


/// Error shared across the system; each part's own errors convert into it
/// for propagation (errors of outside libraries are carried as their text).
#[derive(Debug, Clone)]
pub enum CommonError {
    Video(String),
    Inference(String),
    Tracking(String),
    Fc(String),
    Commander(String),
    Config(String),
    Io(String),
    Serde(String),
    TomlDe(String),
    ChannelSend(String),
    Watchdog { watchdog: String, elapsed_ms: u64, limit_ms: u64 },
    InvalidStateTransition { from: String, to: String },
    Safety(String),
    Other(String),
}

/// Errors that must lead to ABORT: watchdog timeouts, safety violations
/// and invalid state transitions.
pub open spec fn safety_critical(e: CommonError) -> bool {
    e is Watchdog || e is Safety || e is InvalidStateTransition
}

/// The text under which a shared error is reported.
pub open spec fn common_error_text(e: CommonError) -> Seq<char> {
    match e {
        CommonError::Video(s) => "video capture error: "@ + s@,
        CommonError::Inference(s) => "inference error: "@ + s@,
        CommonError::Tracking(s) => "tracking error: "@ + s@,
        CommonError::Fc(s) => "flight controller error: "@ + s@,
        CommonError::Commander(s) => "commander error: "@ + s@,
        CommonError::Config(s) => "configuration error: "@ + s@,
        CommonError::Io(s) => "io error: "@ + s@,
        CommonError::Serde(s) => "serde error: "@ + s@,
        CommonError::TomlDe(s) => "toml deserialize error: "@ + s@,
        CommonError::ChannelSend(s) => "channel send error: "@ + s@,
        CommonError::Watchdog { watchdog, elapsed_ms, limit_ms } => "watchdog timeout: "@ + watchdog@
            + " exceeded "@ + ascii_chars(dec_bytes(elapsed_ms as nat)) + "ms (limit: "@ + ascii_chars(
            dec_bytes(limit_ms as nat),
        ) + "ms)"@,
        CommonError::InvalidStateTransition { from, to } => "invalid state transition: "@ + from@
            + " -> "@ + to@,
        CommonError::Safety(s) => "safety violation: "@ + s@,
        CommonError::Other(s) => "other: "@ + s@,
    }
}

impl CommonError {
    /// The text under which the error is reported.
    pub fn message(&self) -> (m: String)
        ensures
            m@ == common_error_text(*self),
    {
        match self {
            CommonError::Watchdog { watchdog, elapsed_ms, limit_ms } => {
                let mut m = "watchdog timeout: ".to_owned();
                m.append(watchdog.as_str());
                m.append(" exceeded ");
                let a = decimal_string(*elapsed_ms);
                m.append(a.as_str());
                m.append("ms (limit: ");
                let b = decimal_string(*limit_ms);
                m.append(b.as_str());
                m.append("ms)");
                m
            },
            CommonError::InvalidStateTransition { from, to } => {
                let mut m = "invalid state transition: ".to_owned();
                m.append(from.as_str());
                m.append(" -> ");
                m.append(to.as_str());
                m
            },
            _ => {
                let (prefix, s) = match self {
                    CommonError::Video(s) => ("video capture error: ", s),
                    CommonError::Inference(s) => ("inference error: ", s),
                    CommonError::Tracking(s) => ("tracking error: ", s),
                    CommonError::Fc(s) => ("flight controller error: ", s),
                    CommonError::Commander(s) => ("commander error: ", s),
                    CommonError::Config(s) => ("configuration error: ", s),
                    CommonError::Io(s) => ("io error: ", s),
                    CommonError::Serde(s) => ("serde error: ", s),
                    CommonError::TomlDe(s) => ("toml deserialize error: ", s),
                    CommonError::ChannelSend(s) => ("channel send error: ", s),
                    CommonError::Safety(s) => ("safety violation: ", s),
                    CommonError::Other(s) => ("other: ", s),
                    CommonError::Watchdog { watchdog, .. } => ("", watchdog),
                    CommonError::InvalidStateTransition { from, .. } => ("", from),
                };
                let mut m = prefix.to_owned();
                m.append(s.as_str());
                m
            },
        }
    }

    /// Whether the error must lead to ABORT (see `safety_critical`).
    pub fn is_safety_critical(&self) -> (b: bool)
        ensures
            b == safety_critical(*self),
    {
        match self {
            CommonError::Watchdog { .. } | CommonError::Safety(_)
            | CommonError::InvalidStateTransition { .. } => true,
            _ => false,
        }
    }
}

/// Whether a target last seen at `last_seen_ms` counts as lost at
/// `now_ms` (both milliseconds on the wall clock): more than `max_age_ms`
/// milliseconds have passed, a last sighting in the future counting as
/// just now.
pub open spec fn target_lost(last_seen_ms: i64, now_ms: i64, max_age_ms: u64) -> bool {
    let age = if now_ms - last_seen_ms > 0 {
        now_ms - last_seen_ms
    } else {
        0
    };
    age > max_age_ms
}

/// Whether a target last seen at `last_seen_ms` counts as lost at `now_ms`.
pub fn is_lost_at(last_seen_ms: i64, now_ms: i64, max_age_ms: u64) -> (b: bool)
    ensures
        b == target_lost(last_seen_ms, now_ms, max_age_ms),
{
    let diff: i128 = now_ms as i128 - last_seen_ms as i128;
    let age: i128 = if diff > 0 {
        diff
    } else {
        0
    };
    age > max_age_ms as i128
}

/// Whether a target last seen at `last_seen_ms` counts as lost now (the
/// wall clock is read; see `target_lost`).
pub fn is_lost(last_seen_ms: i64, max_age_ms: u64) -> (b: bool)
    ensures
        exists|now: i64| b == target_lost(last_seen_ms, now, max_age_ms),
{
    let now = utc_now_ms();
    is_lost_at(last_seen_ms, now, max_age_ms)
}

} // verus!
