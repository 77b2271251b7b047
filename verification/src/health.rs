//! Health reporting: the status record served on the health endpoint, the
//! endpoint's configuration, and how the overall status is derived.

use vstd::prelude::*;

verus! {

/// Version reported by the health endpoint and used by updates.
pub open spec fn package_version() -> Seq<char> {
    "0.1.0"@
}

/// The version string.
pub fn version_string() -> (s: String)
    ensures
        s@ == package_version(),
{
    "0.1.0".to_owned()
}

/// Health status, updated from the main loop.
#[derive(Debug, Clone)]
pub struct HealthStatus {
    pub status: String,
    pub version: String,
    pub uptime_secs: u64,
    pub state: String,
    pub connected: bool,
    pub armed: bool,
    pub fc_mode: String,
    pub fc_heartbeat_stale: bool,
    pub watchdogs_expired: u32,
    pub watchdogs_total: u32,
    pub active_target_id: Option<u64>,
    pub rate_limiter_sent: u64,
    pub rate_limiter_dropped: u64,
    pub last_command_age_ms: u64,
}

impl Default for HealthStatus {
    fn default() -> (s: Self)
        ensures
            s.status@ == "starting"@,
            s.version@ == package_version(),
            s.uptime_secs == 0,
            s.state@ == "IDLE"@,
            !s.connected,
            !s.armed,
            s.fc_mode@ == "Unknown"@,
            s.fc_heartbeat_stale,
            s.watchdogs_expired == 0,
            s.watchdogs_total == 0,
            s.active_target_id is None,
            s.rate_limiter_sent == 0,
            s.rate_limiter_dropped == 0,
            s.last_command_age_ms == u64::MAX,
    {
        HealthStatus {
            status: "starting".to_owned(),
            version: version_string(),
            uptime_secs: 0,
            state: "IDLE".to_owned(),
            connected: false,
            armed: false,
            fc_mode: "Unknown".to_owned(),
            fc_heartbeat_stale: true,
            watchdogs_expired: 0,
            watchdogs_total: 0,
            active_target_id: None,
            rate_limiter_sent: 0,
            rate_limiter_dropped: 0,
            last_command_age_ms: u64::MAX,
        }
    }
}

/// Configuration of the health endpoint.
#[derive(Debug, Clone, Copy, PartialEq, Eq, Structural)]
pub struct HealthConfig {
    /// HTTP port.
    pub port: u16,
    /// Interval of systemd watchdog notifications (s).
    pub notify_interval_secs: u64,
    /// Whether systemd notifications are sent.
    pub enable_systemd_notify: bool,
}

impl Default for HealthConfig {
    fn default() -> (c: Self)
        ensures
            c.port == 8080,
            c.notify_interval_secs == 5,
            c.enable_systemd_notify,
    {
        HealthConfig { port: 8080, notify_interval_secs: 5, enable_systemd_notify: true }
    }
}

/// Overall verdict of the health endpoint.
#[derive(Debug, Clone, Copy, PartialEq, Eq, Structural)]
pub enum OverallHealth {
    Healthy,
    Degraded,
    Starting,
}

/// A stale heartbeat or any expired watchdog degrades; otherwise a
/// connected system is ok; otherwise it is still starting.
pub open spec fn overall_of(fc_heartbeat_stale: bool, watchdogs_expired: u32, connected: bool) -> OverallHealth {
    if fc_heartbeat_stale || watchdogs_expired > 0 {
        OverallHealth::Degraded
    } else if connected {
        OverallHealth::Healthy
    } else {
        OverallHealth::Starting
    }
}

/// The text of a verdict in the status record.
pub open spec fn overall_text(h: OverallHealth) -> Seq<char> {
    match h {
        OverallHealth::Healthy => "ok"@,
        OverallHealth::Degraded => "degraded"@,
        OverallHealth::Starting => "starting"@,
    }
}

/// The HTTP status answered for an overall health: 503 when degraded,
/// 200 otherwise.
pub open spec fn overall_code(h: OverallHealth) -> u16 {
    match h {
        OverallHealth::Degraded => 503,
        _ => 200,
    }
}

/// The overall verdict of a status record.
pub fn overall_health(s: &HealthStatus) -> (h: OverallHealth)
    ensures
        h == overall_of(s.fc_heartbeat_stale, s.watchdogs_expired, s.connected),
{
    if s.fc_heartbeat_stale || s.watchdogs_expired > 0 {
        OverallHealth::Degraded
    } else if s.connected {
        OverallHealth::Healthy
    } else {
        OverallHealth::Starting
    }
}

/// The response of the health endpoint for a snapshot taken after
/// `uptime_secs`: the snapshot with its uptime and overall status set,
/// and the HTTP status code.
pub fn health_response(snapshot: HealthStatus, uptime_secs: u64) -> (r: (HealthStatus, u16))
    ensures
        ({
            let h = overall_of(snapshot.fc_heartbeat_stale, snapshot.watchdogs_expired, snapshot.connected);
            &&& r.0.status@ == overall_text(h)
            &&& r.1 == overall_code(h)
            &&& r.0.uptime_secs == uptime_secs
            &&& r.0.version@ == snapshot.version@
            &&& r.0.state@ == snapshot.state@
            &&& r.0.fc_mode@ == snapshot.fc_mode@
            &&& r.0.connected == snapshot.connected
            &&& r.0.armed == snapshot.armed
            &&& r.0.fc_heartbeat_stale == snapshot.fc_heartbeat_stale
            &&& r.0.watchdogs_expired == snapshot.watchdogs_expired
            &&& r.0.watchdogs_total == snapshot.watchdogs_total
            &&& r.0.active_target_id == snapshot.active_target_id
            &&& r.0.rate_limiter_sent == snapshot.rate_limiter_sent
            &&& r.0.rate_limiter_dropped == snapshot.rate_limiter_dropped
            &&& r.0.last_command_age_ms == snapshot.last_command_age_ms
        }),
{
    let h = overall_health(&snapshot);
    let mut s = snapshot;
    s.uptime_secs = uptime_secs;
    let (text, code) = match h {
        OverallHealth::Healthy => ("ok", 200u16),
        OverallHealth::Degraded => ("degraded", 503u16),
        OverallHealth::Starting => ("starting", 200u16),
    };
    s.status = text.to_owned();
    (s, code)
}

/// A degraded system is never reported with a success code, and a
/// success code means ok or starting.
pub proof fn degraded_is_unavailable(stale: bool, expired: u32, connected: bool)
    ensures
        (stale || expired > 0) <==> overall_code(overall_of(stale, expired, connected)) == 503,
{
}

} // verus!
