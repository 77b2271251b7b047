//! Configuration records of the application that hold no fractional
//! values: event bus, video capture and flight controller.

use vstd::prelude::*;

verus! {

/// Event bus configuration.
#[derive(Debug, Clone)]
pub struct BusConfig {
    /// Bus endpoint (listener or connect address).
    pub endpoint: String,
    /// Start the listener (first process on the bus) instead of connecting.
    pub listen: bool,
}

impl Default for BusConfig {
    fn default() -> (c: Self)
        ensures
            c.endpoint@ == "tcp/127.0.0.1:7447"@,
            !c.listen,
    {
        BusConfig { endpoint: "tcp/127.0.0.1:7447".to_owned(), listen: false }
    }
}

/// Video capture configuration.
#[derive(Debug, Clone)]
pub struct VideoConfig {
    /// V4L2 device path.
    pub device: String,
    pub width: u32,
    pub height: u32,
    pub fps: u32,
    /// Preferred pixel format: "nv12", "yuyv" or "mjpeg".
    pub format: String,
    /// Frames older than this queue length are dropped.
    pub queue_depth: usize,
}

impl Default for VideoConfig {
    fn default() -> (c: Self)
        ensures
            c.device@ == "/dev/video0"@,
            c.width == 1280,
            c.height == 720,
            c.fps == 30,
            c.format@ == "mjpeg"@,
            c.queue_depth == 3,
    {
        VideoConfig {
            device: "/dev/video0".to_owned(),
            width: 1280,
            height: 720,
            fps: 30,
            format: "mjpeg".to_owned(),
            queue_depth: 3,
        }
    }
}

/// Flight controller configuration.
#[derive(Debug, Clone)]
pub struct FcConfig {
    /// Adapter: "ardupilot-mavlink", "sitl-mavlink" or "mock".
    pub adapter: String,
    /// Serial device / connection URL, or UDP endpoint for SITL.
    pub endpoint: String,
    pub baud_rate: u32,
    /// MAVLink system id of this companion computer.
    pub system_id: u8,
    pub component_id: u8,
    /// MAVLink ids of the flight controller.
    pub target_system_id: u8,
    pub target_component_id: u8,
    /// Rate limit for position targets (Hz).
    pub command_rate_hz: u32,
    /// Heartbeat timeout (ms).
    pub heartbeat_timeout_ms: u64,
}

impl Default for FcConfig {
    fn default() -> (c: Self)
        ensures
            c.adapter@ == "mock"@,
            c.endpoint@ == "127.0.0.1:14550"@,
            c.baud_rate == 115_200,
            c.system_id == 1,
            c.component_id == 1,
            c.target_system_id == 1,
            c.target_component_id == 1,
            c.command_rate_hz == 10,
            c.heartbeat_timeout_ms == 1000,
    {
        FcConfig {
            adapter: "mock".to_owned(),
            endpoint: "127.0.0.1:14550".to_owned(),
            baud_rate: 115_200,
            system_id: 1,
            component_id: 1,
            target_system_id: 1,
            target_component_id: 1,
            command_rate_hz: 10,
            heartbeat_timeout_ms: 1000,
        }
    }
}

} // verus!
