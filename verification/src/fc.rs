//! Flight-controller side: errors, the configurations of the MAVLink
//! adapters, the choice of adapter, and the translation between flight
//! modes and ArduPilot's custom mode numbers.

use vstd::prelude::*;
use vstd::string::StringExecFns;
use crate::config::FcConfig;
use crate::text::{str_eq, decimal_string, ascii_chars, dec_bytes};
use crate::types::{FlightMode, HeartbeatStatus, flight_mode_name};

verus! {

/// Errors reported by a flight-controller adapter.
#[derive(Debug, Clone)]
pub enum FcError {
    Connection(String),
    CommandRejected(String),
    HeartbeatLost { last_seen_ms: u64 },
    Timeout,
    NotArmed,
    UnsupportedMode(FlightMode),
    Internal(String),
}

/// The text under which an adapter error is reported.
pub open spec fn fc_error_text(e: FcError) -> Seq<char> {
    match e {
        FcError::Connection(s) => "FC connection error: "@ + s@,
        FcError::CommandRejected(s) => "FC command rejected: "@ + s@,
        FcError::HeartbeatLost { last_seen_ms } => "FC heartbeat lost (last seen "@ + ascii_chars(
            dec_bytes(last_seen_ms as nat),
        ) + "ms ago)"@,
        FcError::Timeout => "FC communication timeout"@,
        FcError::NotArmed => "FC not armed"@,
        FcError::UnsupportedMode(m) => "FC mode not supported: "@ + flight_mode_name(m),
        FcError::Internal(s) => "FC internal error: "@ + s@,
    }
}

impl FcError {
    /// The human-readable message of the error.
    pub fn message(&self) -> (m: String)
        ensures
            m@ == fc_error_text(*self),
    {
        match self {
            FcError::Connection(s) => {
                let mut m = "FC connection error: ".to_owned();
                m.append(s.as_str());
                m
            },
            FcError::CommandRejected(s) => {
                let mut m = "FC command rejected: ".to_owned();
                m.append(s.as_str());
                m
            },
            FcError::HeartbeatLost { last_seen_ms } => {
                let mut m = "FC heartbeat lost (last seen ".to_owned();
                let d = decimal_string(*last_seen_ms);
                m.append(d.as_str());
                m.append("ms ago)");
                m
            },
            FcError::Timeout => "FC communication timeout".to_owned(),
            FcError::NotArmed => "FC not armed".to_owned(),
            FcError::UnsupportedMode(mode) => {
                let mut m = "FC mode not supported: ".to_owned();
                m.append(mode.as_str());
                m
            },
            FcError::Internal(s) => {
                let mut m = "FC internal error: ".to_owned();
                m.append(s.as_str());
                m
            },
        }
    }
}

/// ArduPilot's custom mode number for a flight mode, when it has one.
pub open spec fn custom_mode_of(mode: FlightMode) -> Option<u32> {
    match mode {
        FlightMode::Manual => Some(0),
        FlightMode::Stabilize => Some(2),
        FlightMode::Loiter => Some(12),
        FlightMode::Guided => Some(15),
        FlightMode::Rtl => Some(11),
        FlightMode::Auto => Some(10),
        _ => None,
    }
}

/// The custom mode number to send for a mode change; modes that ArduPilot
/// has no number for are refused with `UnsupportedMode`.
pub fn custom_mode_for(mode: FlightMode) -> (r: Result<u32, FcError>)
    ensures
        match custom_mode_of(mode) {
            Some(n) => r == Ok::<u32, FcError>(n),
            None => r matches Err(FcError::UnsupportedMode(m)) && m == mode,
        },
{
    match mode {
        FlightMode::Manual => Ok(0),
        FlightMode::Stabilize => Ok(2),
        FlightMode::Loiter => Ok(12),
        FlightMode::Guided => Ok(15),
        FlightMode::Rtl => Ok(11),
        FlightMode::Auto => Ok(10),
        other => Err(FcError::UnsupportedMode(other)),
    }
}

/// The flight mode a heartbeat reports: only ArduPilot heartbeats are
/// understood, and only the custom modes the system uses.
pub open spec fn heartbeat_mode(from_ardupilot: bool, custom_mode: u32) -> FlightMode {
    if !from_ardupilot {
        FlightMode::Unknown
    } else if custom_mode == 0 {
        FlightMode::Manual
    } else if custom_mode == 2 {
        FlightMode::Stabilize
    } else if custom_mode == 10 {
        FlightMode::Auto
    } else if custom_mode == 11 {
        FlightMode::Rtl
    } else if custom_mode == 12 {
        FlightMode::Loiter
    } else if custom_mode == 15 {
        FlightMode::Guided
    } else {
        FlightMode::Unknown
    }
}

/// Translates a heartbeat's autopilot kind and custom mode into a mode.
pub fn heartbeat_to_flight_mode(from_ardupilot: bool, custom_mode: u32) -> (m: FlightMode)
    ensures
        m == heartbeat_mode(from_ardupilot, custom_mode),
{
    if !from_ardupilot {
        return FlightMode::Unknown;
    }
    match custom_mode {
        0 => FlightMode::Manual,
        2 => FlightMode::Stabilize,
        10 => FlightMode::Auto,
        11 => FlightMode::Rtl,
        12 => FlightMode::Loiter,
        15 => FlightMode::Guided,
        _ => FlightMode::Unknown,
    }
}

/// The armed bit of a heartbeat's base mode (`MAV_MODE_FLAG_SAFETY_ARMED`).
pub const SAFETY_ARMED_FLAG: u8 = 128;

/// Whether a heartbeat's base mode reports the vehicle armed.
pub fn base_mode_armed(base_mode: u8) -> (b: bool)
    ensures
        b == (base_mode >= SAFETY_ARMED_FLAG),
{
    let r = base_mode & SAFETY_ARMED_FLAG == SAFETY_ARMED_FLAG;
    assert(r == (base_mode >= 128u8)) by (bit_vector)
        requires
            r == (base_mode & 128u8 == 128u8),
    ;
    r
}

/// Every mode the system commands comes back unchanged when an ArduPilot
/// heartbeat reports its custom mode number.
pub proof fn commanded_mode_round_trips(mode: FlightMode)
    requires
        custom_mode_of(mode) is Some,
    ensures
        heartbeat_mode(true, custom_mode_of(mode)->0) == mode,
{
}

/// Every custom mode a heartbeat is understood as is the number the
/// system would send for that mode.
pub proof fn reported_mode_round_trips(custom_mode: u32)
    requires
        heartbeat_mode(true, custom_mode) != FlightMode::Unknown,
    ensures
        custom_mode_of(heartbeat_mode(true, custom_mode)) == Some(custom_mode),
{
}

/// Configuration of the shared MAVLink adapter core.
#[derive(Debug, Clone)]
pub struct MavlinkCoreConfig {
    /// MAVLink connection URL.
    pub endpoint: String,
    pub system_id: u8,
    pub component_id: u8,
    pub target_system_id: u8,
    pub target_component_id: u8,
    /// No heartbeat for this long means the FC is lost.
    pub heartbeat_timeout_ms: u64,
}

impl Default for MavlinkCoreConfig {
    fn default() -> (c: Self)
        ensures
            c.endpoint@ == "serial:/dev/ttyACM0:115200"@,
            c.system_id == 255,
            c.component_id == 1,
            c.target_system_id == 1,
            c.target_component_id == 1,
            c.heartbeat_timeout_ms == 1000,
    {
        MavlinkCoreConfig {
            endpoint: "serial:/dev/ttyACM0:115200".to_owned(),
            system_id: 255,
            component_id: 1,
            target_system_id: 1,
            target_component_id: 1,
            heartbeat_timeout_ms: 1000,
        }
    }
}

impl MavlinkCoreConfig {
    pub fn from_common(cfg: &FcConfig) -> (c: Self)
        ensures
            c.endpoint@ == cfg.endpoint@,
            c.system_id == cfg.system_id,
            c.component_id == cfg.component_id,
            c.target_system_id == cfg.target_system_id,
            c.target_component_id == cfg.target_component_id,
            c.heartbeat_timeout_ms == cfg.heartbeat_timeout_ms,
    {
        MavlinkCoreConfig {
            endpoint: cfg.endpoint.clone(),
            system_id: cfg.system_id,
            component_id: cfg.component_id,
            target_system_id: cfg.target_system_id,
            target_component_id: cfg.target_component_id,
            heartbeat_timeout_ms: cfg.heartbeat_timeout_ms,
        }
    }
}

/// Configuration of the adapter for real ArduPilot flight controllers.
#[derive(Debug, Clone)]
pub struct ArduPilotConfig {
    /// MAVLink connection URL.
    pub endpoint: String,
    pub system_id: u8,
    pub component_id: u8,
    pub target_system_id: u8,
    pub target_component_id: u8,
    pub heartbeat_timeout_ms: u64,
}

impl Default for ArduPilotConfig {
    fn default() -> (c: Self)
        ensures
            c.endpoint@ == "serial:/dev/ttyACM0:115200"@,
            c.system_id == 255,
            c.component_id == 1,
            c.target_system_id == 1,
            c.target_component_id == 1,
            c.heartbeat_timeout_ms == 1000,
    {
        ArduPilotConfig {
            endpoint: "serial:/dev/ttyACM0:115200".to_owned(),
            system_id: 255,
            component_id: 1,
            target_system_id: 1,
            target_component_id: 1,
            heartbeat_timeout_ms: 1000,
        }
    }
}

impl ArduPilotConfig {
    pub fn from_common(cfg: &FcConfig) -> (c: Self)
        ensures
            c.endpoint@ == cfg.endpoint@,
            c.system_id == cfg.system_id,
            c.component_id == cfg.component_id,
            c.target_system_id == cfg.target_system_id,
            c.target_component_id == cfg.target_component_id,
            c.heartbeat_timeout_ms == cfg.heartbeat_timeout_ms,
    {
        ArduPilotConfig {
            endpoint: cfg.endpoint.clone(),
            system_id: cfg.system_id,
            component_id: cfg.component_id,
            target_system_id: cfg.target_system_id,
            target_component_id: cfg.target_component_id,
            heartbeat_timeout_ms: cfg.heartbeat_timeout_ms,
        }
    }

    /// The core configuration: the endpoint URL is passed through unchanged.
    pub fn to_core(&self) -> (c: MavlinkCoreConfig)
        ensures
            c.endpoint@ == self.endpoint@,
            c.system_id == self.system_id,
            c.component_id == self.component_id,
            c.target_system_id == self.target_system_id,
            c.target_component_id == self.target_component_id,
            c.heartbeat_timeout_ms == self.heartbeat_timeout_ms,
    {
        MavlinkCoreConfig {
            endpoint: self.endpoint.clone(),
            system_id: self.system_id,
            component_id: self.component_id,
            target_system_id: self.target_system_id,
            target_component_id: self.target_component_id,
            heartbeat_timeout_ms: self.heartbeat_timeout_ms,
        }
    }
}

/// Configuration of the adapter for ArduPilot SITL (UDP).
#[derive(Debug, Clone)]
pub struct SittlConfig {
    /// Bare `host:port` to listen on for SITL traffic.
    pub endpoint: String,
    pub system_id: u8,
    pub component_id: u8,
    pub target_system_id: u8,
    pub target_component_id: u8,
}

impl Default for SittlConfig {
    fn default() -> (c: Self)
        ensures
            c.endpoint@ == "127.0.0.1:14550"@,
            c.system_id == 255,
            c.component_id == 1,
            c.target_system_id == 1,
            c.target_component_id == 1,
    {
        SittlConfig {
            endpoint: "127.0.0.1:14550".to_owned(),
            system_id: 255,
            component_id: 1,
            target_system_id: 1,
            target_component_id: 1,
        }
    }
}

impl SittlConfig {
    pub fn from_common(cfg: &FcConfig) -> (c: Self)
        ensures
            c.endpoint@ == cfg.endpoint@,
            c.system_id == cfg.system_id,
            c.component_id == cfg.component_id,
            c.target_system_id == cfg.target_system_id,
            c.target_component_id == cfg.target_component_id,
    {
        SittlConfig {
            endpoint: cfg.endpoint.clone(),
            system_id: cfg.system_id,
            component_id: cfg.component_id,
            target_system_id: cfg.target_system_id,
            target_component_id: cfg.target_component_id,
        }
    }

    /// The core configuration: the endpoint becomes a `udpin:` URL and the
    /// heartbeat timeout is one second.
    pub fn to_core(&self) -> (c: MavlinkCoreConfig)
        ensures
            c.endpoint@ == "udpin:"@ + self.endpoint@,
            c.system_id == self.system_id,
            c.component_id == self.component_id,
            c.target_system_id == self.target_system_id,
            c.target_component_id == self.target_component_id,
            c.heartbeat_timeout_ms == 1000,
    {
        let mut endpoint = "udpin:".to_owned();
        endpoint.append(self.endpoint.as_str());
        MavlinkCoreConfig {
            endpoint,
            system_id: self.system_id,
            component_id: self.component_id,
            target_system_id: self.target_system_id,
            target_component_id: self.target_component_id,
            heartbeat_timeout_ms: 1000,
        }
    }
}

/// Which flight-controller adapter to build.
#[derive(Debug, Clone, Copy, PartialEq, Eq, Structural)]
pub enum AdapterKind {
    Mock,
    Sitl,
    ArduPilot,
}

/// The adapter a configured name selects; unknown names fall back to the
/// mock adapter.
pub open spec fn adapter_kind_of(name: Seq<char>) -> AdapterKind {
    if name == "mock"@ {
        AdapterKind::Mock
    } else if name == "sitl-mavlink"@ {
        AdapterKind::Sitl
    } else if name == "ardupilot-mavlink"@ {
        AdapterKind::ArduPilot
    } else {
        AdapterKind::Mock
    }
}

/// Selects the adapter named in the configuration.
pub fn adapter_kind(name: &str) -> (k: AdapterKind)
    ensures
        k == adapter_kind_of(name@),
{
    if str_eq(name, "mock") {
        AdapterKind::Mock
    } else if str_eq(name, "sitl-mavlink") {
        AdapterKind::Sitl
    } else if str_eq(name, "ardupilot-mavlink") {
        AdapterKind::ArduPilot
    } else {
        AdapterKind::Mock
    }
}


/// A command the in-memory controller received. The payloads of region-of-
/// interest and position-target commands are kept by the caller.
#[derive(Debug, Clone, Copy, PartialEq, Eq, Structural)]
pub enum RecordedCommand {
    SetRoi,
    SetPositionTargetLocalNed,
    SetMode(FlightMode),
    Arm,
    Disarm,
}

/// How long before "now" an unheard controller is taken to have been last
/// heard from (ms).
pub const NEVER_HEARD_AGE_MS: i64 = 60000;

/// State of the in-memory flight controller used without hardware: the
/// commands received in order, armed flag, mode, connection, and when a
/// heartbeat was last seen (ms since the Unix epoch; none after a simulated
/// loss).
#[derive(Debug, Clone)]
pub struct MockFcState {
    pub commands: Vec<RecordedCommand>,
    pub armed: bool,
    pub mode: FlightMode,
    pub connected: bool,
    pub last_heartbeat_ms: Option<i64>,
}

impl MockFcState {
    /// Nothing received, disarmed, mode unknown, not connected.
    pub fn new() -> (s: Self)
        ensures
            s.commands@.len() == 0,
            !s.armed,
            s.mode == FlightMode::Unknown,
            !s.connected,
            s.last_heartbeat_ms is None,
    {
        MockFcState {
            commands: Vec::new(),
            armed: false,
            mode: FlightMode::Unknown,
            connected: false,
            last_heartbeat_ms: None,
        }
    }

    /// Connects at `now_ms`: a heartbeat is heard and the controller reports
    /// STABILIZE.
    pub fn connect(&mut self, now_ms: i64)
        ensures
            final(self).connected,
            final(self).last_heartbeat_ms == Some(now_ms),
            final(self).mode == FlightMode::Stabilize,
            final(self).armed == old(self).armed,
            final(self).commands@ == old(self).commands@,
    {
        self.connected = true;
        self.last_heartbeat_ms = Some(now_ms);
        self.mode = FlightMode::Stabilize;
    }

    /// Disconnects; everything else stays.
    pub fn disconnect(&mut self)
        ensures
            !final(self).connected,
            final(self).last_heartbeat_ms == old(self).last_heartbeat_ms,
            final(self).mode == old(self).mode,
            final(self).armed == old(self).armed,
            final(self).commands@ == old(self).commands@,
    {
        self.connected = false;
    }

    /// Receives a command: refused with a connection error when not
    /// connected; otherwise recorded, and a mode change or (dis)arming takes
    /// effect.
    pub fn command(&mut self, cmd: RecordedCommand) -> (r: Result<(), FcError>)
        ensures
            !old(self).connected ==> (r matches Err(FcError::Connection(m)) && m@
                == "not connected"@),
            !old(self).connected ==> final(self).commands@ == old(self).commands@
                && final(self).armed == old(self).armed && final(self).mode == old(self).mode,
            old(self).connected ==> {
                &&& r is Ok
                &&& final(self).commands@ == old(self).commands@.push(cmd)
                &&& final(self).mode == match cmd {
                    RecordedCommand::SetMode(m) => m,
                    _ => old(self).mode,
                }
                &&& final(self).armed == match cmd {
                    RecordedCommand::Arm => true,
                    RecordedCommand::Disarm => false,
                    _ => old(self).armed,
                }
            },
            final(self).connected == old(self).connected,
            final(self).last_heartbeat_ms == old(self).last_heartbeat_ms,
    {
        if !self.connected {
            return Err(FcError::Connection("not connected".to_owned()));
        }
        match cmd {
            RecordedCommand::SetMode(m) => {
                self.mode = m;
            },
            RecordedCommand::Arm => {
                self.armed = true;
            },
            RecordedCommand::Disarm => {
                self.armed = false;
            },
            _ => {},
        }
        self.commands.push(cmd);
        Ok(())
    }

    /// Forgets the last heartbeat (the heartbeat is then stale).
    pub fn simulate_heartbeat_loss(&mut self)
        ensures
            final(self).last_heartbeat_ms is None,
            final(self).connected == old(self).connected,
            final(self).mode == old(self).mode,
            final(self).armed == old(self).armed,
            final(self).commands@ == old(self).commands@,
    {
        self.last_heartbeat_ms = None;
    }

    /// Telemetry arrived at `now_ms` (a simulated attitude update): the
    /// controller was heard from.
    pub fn heard_at(&mut self, now_ms: i64)
        ensures
            final(self).last_heartbeat_ms == Some(now_ms),
            final(self).connected == old(self).connected,
            final(self).mode == old(self).mode,
            final(self).armed == old(self).armed,
            final(self).commands@ == old(self).commands@,
    {
        self.last_heartbeat_ms = Some(now_ms);
    }

    /// The heartbeat status at `now_ms`: armed flag and mode, and the time
    /// of the last heartbeat, a minute before `now_ms` when there is none.
    pub fn heartbeat_status_at(&self, now_ms: i64) -> (h: HeartbeatStatus)
        requires
            now_ms >= i64::MIN + NEVER_HEARD_AGE_MS,
        ensures
            h.armed == self.armed,
            h.mode == self.mode,
            h.last_heartbeat_ms == match self.last_heartbeat_ms {
                Some(t) => t as int,
                None => now_ms - NEVER_HEARD_AGE_MS,
            },
    {
        let last = match self.last_heartbeat_ms {
            Some(t) => t,
            None => now_ms - NEVER_HEARD_AGE_MS,
        };
        HeartbeatStatus { last_heartbeat_ms: last, armed: self.armed, mode: self.mode }
    }
}

/// After a simulated loss the heartbeat is stale for every timeout under a
/// minute; right after connecting it is fresh for every timeout.
pub proof fn heartbeat_loss_is_stale(now_ms: i64, timeout_ms: u64)
    requires
        now_ms >= i64::MIN + NEVER_HEARD_AGE_MS,
        timeout_ms < NEVER_HEARD_AGE_MS,
    ensures
        crate::watchdogs::elapsed_since(now_ms, (now_ms - NEVER_HEARD_AGE_MS) as i64) > timeout_ms,
        !(crate::watchdogs::elapsed_since(now_ms, now_ms) > timeout_ms),
{
}


/// `POSITION_TARGET_TYPEMASK` flags of MAVLink: the velocity,
/// acceleration and yaw-rate fields to ignore.
pub const TYPEMASK_VX_IGNORE: u16 = 8;
pub const TYPEMASK_VY_IGNORE: u16 = 16;
pub const TYPEMASK_VZ_IGNORE: u16 = 32;
pub const TYPEMASK_AX_IGNORE: u16 = 64;
pub const TYPEMASK_AY_IGNORE: u16 = 128;
pub const TYPEMASK_AZ_IGNORE: u16 = 256;
pub const TYPEMASK_YAW_RATE_IGNORE: u16 = 2048;

/// The type mask of a position target: position and yaw are used;
/// velocities, accelerations and the yaw rate are ignored.
pub fn position_target_type_mask() -> (m: u16)
    ensures
        m == 2552,
        m & 7 == 0,
        m & 1024 == 0,
{
    let m = TYPEMASK_VX_IGNORE | TYPEMASK_VY_IGNORE | TYPEMASK_VZ_IGNORE | TYPEMASK_AX_IGNORE
        | TYPEMASK_AY_IGNORE | TYPEMASK_AZ_IGNORE | TYPEMASK_YAW_RATE_IGNORE;
    assert(m == 2552 && m & 7 == 0 && m & 1024 == 0) by (bit_vector)
        requires
            m == 8u16 | 16u16 | 32u16 | 64u16 | 128u16 | 256u16 | 2048u16,
    ;
    m
}

/// The mode numbers are ArduPilot's: MANUAL 0, STABILIZE 2, AUTO 10, RTL
/// 11, LOITER 12 and GUIDED 15 are sent for those modes and read back from
/// heartbeats; ALT_HOLD and the unknown mode have no number, and every
/// other number reads as the unknown mode.
pub proof fn ardupilot_mode_numbers(mode: FlightMode, custom_mode: u32)
    ensures
        custom_mode_of(mode) == match mode {
            FlightMode::Manual => Some(0u32),
            FlightMode::Stabilize => Some(2u32),
            FlightMode::Auto => Some(10u32),
            FlightMode::Rtl => Some(11u32),
            FlightMode::Loiter => Some(12u32),
            FlightMode::Guided => Some(15u32),
            FlightMode::AltHold => None,
            FlightMode::Unknown => None,
        },
        heartbeat_mode(true, custom_mode) == if custom_mode == 0 {
            FlightMode::Manual
        } else if custom_mode == 2 {
            FlightMode::Stabilize
        } else if custom_mode == 10 {
            FlightMode::Auto
        } else if custom_mode == 11 {
            FlightMode::Rtl
        } else if custom_mode == 12 {
            FlightMode::Loiter
        } else if custom_mode == 15 {
            FlightMode::Guided
        } else {
            FlightMode::Unknown
        },
        heartbeat_mode(false, custom_mode) == FlightMode::Unknown,
{
}

} // verus!
