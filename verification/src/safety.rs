//! Safety decisions: which geofence or battery violation holds, which one
//! takes priority, and what the vehicle must do about it.
//!
//! The measured comparisons (distance from home, altitude, charge and
//! voltage against their limits) are made by the caller on the telemetry;
//! the priorities and actions below are decided here.

use vstd::prelude::*;
use vstd::string::StringExecFns;

verus! {

/// Kind of geofence violation.
#[derive(Debug, Clone, Copy, PartialEq, Eq, Structural)]
pub enum GeofenceViolation {
    DistanceExceeded,
    AltitudeMaxExceeded,
    AltitudeMinExceeded,
}

/// Kind of battery violation.
#[derive(Debug, Clone, Copy, PartialEq, Eq, Structural)]
pub enum BatteryViolation {
    LowBatteryRth,
    CriticalBatteryLand,
    LowVoltage,
}

/// A safety violation of either monitor.
#[derive(Debug, Clone, Copy, PartialEq, Eq, Structural)]
pub enum SafetyViolation {
    Geofence(GeofenceViolation),
    Battery(BatteryViolation),
}

/// What to do about a violation.
#[derive(Debug, Clone, Copy, PartialEq, Eq, Structural)]
pub enum SafetyAction {
    /// Return to home (RTL).
    Rth,
    /// Land immediately.
    Land,
    /// Only warn.
    Warn,
}

pub open spec fn geofence_text(v: GeofenceViolation) -> Seq<char> {
    match v {
        GeofenceViolation::DistanceExceeded => "distance exceeded"@,
        GeofenceViolation::AltitudeMaxExceeded => "max altitude exceeded"@,
        GeofenceViolation::AltitudeMinExceeded => "min altitude exceeded"@,
    }
}

pub open spec fn battery_text(v: BatteryViolation) -> Seq<char> {
    match v {
        BatteryViolation::LowBatteryRth => "low battery \u{2014} RTH triggered"@,
        BatteryViolation::CriticalBatteryLand => "critical battery \u{2014} LAND triggered"@,
        BatteryViolation::LowVoltage => "low voltage"@,
    }
}

pub open spec fn safety_text(v: SafetyViolation) -> Seq<char> {
    match v {
        SafetyViolation::Geofence(g) => "geofence: "@ + geofence_text(g),
        SafetyViolation::Battery(b) => "battery: "@ + battery_text(b),
    }
}

impl GeofenceViolation {
    pub fn as_str(&self) -> (s: &'static str)
        ensures
            s@ == geofence_text(*self),
    {
        match self {
            GeofenceViolation::DistanceExceeded => "distance exceeded",
            GeofenceViolation::AltitudeMaxExceeded => "max altitude exceeded",
            GeofenceViolation::AltitudeMinExceeded => "min altitude exceeded",
        }
    }
}

impl BatteryViolation {
    pub fn as_str(&self) -> (s: &'static str)
        ensures
            s@ == battery_text(*self),
    {
        match self {
            BatteryViolation::LowBatteryRth => "low battery \u{2014} RTH triggered",
            BatteryViolation::CriticalBatteryLand => "critical battery \u{2014} LAND triggered",
            BatteryViolation::LowVoltage => "low voltage",
        }
    }
}

impl SafetyViolation {
    /// The text under which the violation is displayed.
    pub fn to_text(&self) -> (s: String)
        ensures
            s@ == safety_text(*self),
    {
        match self {
            SafetyViolation::Geofence(g) => {
                let mut s = "geofence: ".to_owned();
                s.append(g.as_str());
                s
            },
            SafetyViolation::Battery(b) => {
                let mut s = "battery: ".to_owned();
                s.append(b.as_str());
                s
            },
        }
    }
}

/// The geofence violation given the three measured conditions, in the
/// order they are checked: distance before maximum altitude before
/// minimum altitude.
pub open spec fn geofence_priority(distance_exceeded: bool, above_max: bool, below_min: bool) -> Option<GeofenceViolation> {
    if distance_exceeded {
        Some(GeofenceViolation::DistanceExceeded)
    } else if above_max {
        Some(GeofenceViolation::AltitudeMaxExceeded)
    } else if below_min {
        Some(GeofenceViolation::AltitudeMinExceeded)
    } else {
        None
    }
}

/// Picks the geofence violation to report (see `geofence_priority`).
pub fn geofence_violation(distance_exceeded: bool, above_max: bool, below_min: bool) -> (v: Option<GeofenceViolation>)
    ensures
        v == geofence_priority(distance_exceeded, above_max, below_min),
        v is None <==> (!distance_exceeded && !above_max && !below_min),
        (!distance_exceeded && above_max) ==> v == Some(GeofenceViolation::AltitudeMaxExceeded),
{
    if distance_exceeded {
        Some(GeofenceViolation::DistanceExceeded)
    } else if above_max {
        Some(GeofenceViolation::AltitudeMaxExceeded)
    } else if below_min {
        Some(GeofenceViolation::AltitudeMinExceeded)
    } else {
        None
    }
}

/// The battery violation given the measured conditions: a charge at or
/// below the LAND threshold is critical, then a charge at or below the RTH
/// threshold, then a positive voltage at or below the minimum.
pub open spec fn battery_priority(at_or_below_land: bool, at_or_below_rth: bool, voltage_low: bool) -> Option<BatteryViolation> {
    if at_or_below_land {
        Some(BatteryViolation::CriticalBatteryLand)
    } else if at_or_below_rth {
        Some(BatteryViolation::LowBatteryRth)
    } else if voltage_low {
        Some(BatteryViolation::LowVoltage)
    } else {
        None
    }
}

/// Picks the battery violation to report (see `battery_priority`).
pub fn battery_violation(at_or_below_land: bool, at_or_below_rth: bool, voltage_low: bool) -> (v: Option<BatteryViolation>)
    ensures
        v == battery_priority(at_or_below_land, at_or_below_rth, voltage_low),
{
    if at_or_below_land {
        Some(BatteryViolation::CriticalBatteryLand)
    } else if at_or_below_rth {
        Some(BatteryViolation::LowBatteryRth)
    } else if voltage_low {
        Some(BatteryViolation::LowVoltage)
    } else {
        None
    }
}

/// The action for a battery violation: a critical battery lands, the
/// others return home.
pub open spec fn battery_action(v: BatteryViolation) -> SafetyAction {
    match v {
        BatteryViolation::CriticalBatteryLand => SafetyAction::Land,
        BatteryViolation::LowBatteryRth | BatteryViolation::LowVoltage => SafetyAction::Rth,
    }
}

/// The combined verdict of the safety monitor.
pub open spec fn safety_verdict(
    enable_battery: bool,
    battery: Option<BatteryViolation>,
    enable_geofence: bool,
    has_home: bool,
    geofence: Option<GeofenceViolation>,
) -> Option<(SafetyViolation, SafetyAction)> {
    if enable_battery && battery is Some {
        Some((SafetyViolation::Battery(battery->0), battery_action(battery->0)))
    } else if enable_geofence && has_home && geofence is Some {
        Some((SafetyViolation::Geofence(geofence->0), SafetyAction::Rth))
    } else {
        None
    }
}

/// Combines the two monitors: an enabled battery monitor's violation takes
/// priority (LAND for a critical battery, RTH otherwise); then an enabled
/// geofence with a home position reports its violation with RTH.
pub fn combine_safety(
    enable_battery: bool,
    battery: Option<BatteryViolation>,
    enable_geofence: bool,
    has_home: bool,
    geofence: Option<GeofenceViolation>,
) -> (r: Option<(SafetyViolation, SafetyAction)>)
    ensures
        r == safety_verdict(enable_battery, battery, enable_geofence, has_home, geofence),
{
    if enable_battery {
        match battery {
            Some(v) => {
                let action = match v {
                    BatteryViolation::CriticalBatteryLand => SafetyAction::Land,
                    BatteryViolation::LowBatteryRth | BatteryViolation::LowVoltage => SafetyAction::Rth,
                };
                return Some((SafetyViolation::Battery(v), action));
            },
            None => {},
        }
    }
    if enable_geofence && has_home {
        match geofence {
            Some(v) => {
                return Some((SafetyViolation::Geofence(v), SafetyAction::Rth));
            },
            None => {},
        }
    }
    None
}

/// An enabled battery violation always wins over any geofence violation.
pub proof fn battery_takes_priority(
    b: BatteryViolation,
    enable_geofence: bool,
    has_home: bool,
    geofence: Option<GeofenceViolation>,
)
    ensures
        safety_verdict(true, Some(b), enable_geofence, has_home, geofence) == Some(
            (SafetyViolation::Battery(b), battery_action(b)),
        ),
{
}

/// The monitor never asks only to warn: every verdict is RTH or LAND, and
/// LAND only for a critical battery.
pub proof fn verdicts_act(
    enable_battery: bool,
    battery: Option<BatteryViolation>,
    enable_geofence: bool,
    has_home: bool,
    geofence: Option<GeofenceViolation>,
)
    ensures
        safety_verdict(enable_battery, battery, enable_geofence, has_home, geofence) matches Some(
            (v, a),
        ) ==> (a == SafetyAction::Rth || (a == SafetyAction::Land && v
            == SafetyViolation::Battery(BatteryViolation::CriticalBatteryLand))),
{
}

/// Disabled monitors never report.
pub proof fn disabled_monitors_are_silent(
    battery: Option<BatteryViolation>,
    has_home: bool,
    geofence: Option<GeofenceViolation>,
)
    ensures
        safety_verdict(false, battery, false, has_home, geofence) is None,
{
}

/// The geofence reports a violation exactly when one of its limits is
/// broken, and then the first broken one in the order distance, maximum
/// altitude, minimum altitude: in particular a vehicle within the distance
/// limit but above the maximum altitude is reported as above the maximum.
pub proof fn geofence_reports_the_first_broken_limit(
    distance_exceeded: bool,
    above_max: bool,
    below_min: bool,
)
    ensures
        ({
            let v = geofence_priority(distance_exceeded, above_max, below_min);
            &&& (v is None <==> (!distance_exceeded && !above_max && !below_min))
            &&& distance_exceeded ==> v == Some(GeofenceViolation::DistanceExceeded)
            &&& (!distance_exceeded && above_max) ==> v == Some(
                GeofenceViolation::AltitudeMaxExceeded,
            )
            &&& (!distance_exceeded && !above_max && below_min) ==> v == Some(
                GeofenceViolation::AltitudeMinExceeded,
            )
            &&& v == Some(GeofenceViolation::AltitudeMaxExceeded) ==> above_max
            &&& v == Some(GeofenceViolation::AltitudeMinExceeded) ==> below_min
        }),
{
}

/// The battery monitor reports a violation exactly when one of its limits
/// is reached, the most severe first: a charge at the LAND threshold lands,
/// a charge at the RTH threshold or a low voltage returns home.
pub proof fn battery_reports_the_most_severe_limit(
    at_or_below_land: bool,
    at_or_below_rth: bool,
    voltage_low: bool,
)
    ensures
        ({
            let v = battery_priority(at_or_below_land, at_or_below_rth, voltage_low);
            &&& (v is None <==> (!at_or_below_land && !at_or_below_rth && !voltage_low))
            &&& at_or_below_land ==> v == Some(BatteryViolation::CriticalBatteryLand)
            &&& (!at_or_below_land && at_or_below_rth) ==> v == Some(BatteryViolation::LowBatteryRth)
            &&& (!at_or_below_land && !at_or_below_rth && voltage_low) ==> v == Some(
                BatteryViolation::LowVoltage,
            )
            &&& (v matches Some(b) && battery_action(b) == SafetyAction::Land) <==> at_or_below_land
        }),
{
}

} // verus!
