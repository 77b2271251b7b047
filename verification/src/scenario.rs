//! Test-scenario records and the integer logic the scenario runner uses:
//! frame references, the synthetic target's motion, occlusion windows and
//! the consistency checks of a scenario's header.

use vstd::prelude::*;
use vstd::string::StringExecFns;
use crate::text::{chars_of, find_char, parse_u64_chars, parse_u64_spec, first_index_of, str_eq};
use crate::types::{BoundingBox, SystemState, state_name};
use crate::cli::{parse_state, state_keyword, upper_text};
use crate::repl::{dec_text, lines_view};
use crate::text::decimal_string;

verus! {

/// Video source specification of a scenario.
#[derive(Debug, Clone)]
pub struct VideoSpec {
    /// "synthetic" or "replay".
    pub kind: String,
    pub pattern: String,
    pub width: u32,
    pub height: u32,
    pub fps: u32,
    pub duration_frames: u64,
    pub dot_speed_px_per_frame: Option<u32>,
    pub targets: Vec<TargetSpec>,
}

/// A target of a multi-target scenario.
#[derive(Debug, Clone, Copy, PartialEq, Eq, Structural)]
pub struct TargetSpec {
    pub id: u64,
    pub start_x: u32,
    pub start_y: u32,
    pub speed_x: i32,
    pub speed_y: i32,
}

/// A window of frames in which the target is hidden.
#[derive(Debug, Clone)]
pub struct OcclusionSpec {
    pub start_frame: u64,
    pub end_frame: u64,
    pub note: String,
}

/// An operator action at a given frame.
#[derive(Debug, Clone)]
pub struct OperatorAction {
    pub at_frame: u64,
    pub action: String,
    pub target_id: Option<u64>,
    pub note: String,
}

/// An event the scenario expects at a frame or within a frame range.
#[derive(Debug, Clone)]
pub struct ExpectedEvent {
    pub at_frame: FrameRef,
    pub event: String,
    pub from: String,
    pub to: String,
    pub note: String,
}

/// Either a single frame number or a range written "start-end".
#[derive(Debug, Clone)]
pub enum FrameRef {
    Single(u64),
    Range(String),
}

/// Whether `frame` is matched by the range text `s`: the text is split at
/// its first '-', both sides must read as `u64` (as `u64::from_str` reads
/// them), and the frame must lie between them inclusive.
pub open spec fn range_matches(s: Seq<char>, frame: u64) -> bool {
    match first_index_of(s, '-') {
        None => false,
        Some(k) => match (
            parse_u64_spec(s.subrange(0, k)),
            parse_u64_spec(s.subrange(k + 1, s.len() as int)),
        ) {
            (Some(start), Some(end)) => start <= frame && frame <= end,
            _ => false,
        },
    }
}

/// Whether a frame reference matches `frame`.
pub open spec fn frame_ref_matches(r: FrameRef, frame: u64) -> bool {
    match r {
        FrameRef::Single(f) => f == frame,
        FrameRef::Range(s) => range_matches(s@, frame),
    }
}

impl FrameRef {
    /// Returns true if the given frame matches this reference.
    pub fn matches(&self, frame: u64) -> (b: bool)
        ensures
            b == frame_ref_matches(*self, frame),
    {
        match self {
            FrameRef::Single(f) => *f == frame,
            FrameRef::Range(s) => {
                let v = chars_of(s.as_str());
                match find_char(&v, '-') {
                    None => false,
                    Some(k) => {
                        let start = parse_u64_chars(&v, 0, k);
                        let end = parse_u64_chars(&v, k + 1, v.len());
                        match (start, end) {
                            (Some(a), Some(b)) => frame >= a && frame <= b,
                            _ => false,
                        }
                    },
                }
            },
        }
    }
}

/// Position of the synthetic target at a frame: it moves right by the dot
/// speed (3 pixels when unset) each frame, wrapping at the frame width, at
/// half the frame height.
pub open spec fn target_position(video: VideoSpec, frame_seq: u64) -> (u32, u32) {
    let speed: u32 = match video.dot_speed_px_per_frame {
        Some(s) => s,
        None => 3,
    };
    (
        ((frame_seq * speed) % (video.width as int)) as u32,
        (video.height / 2) as u32,
    )
}

/// Position of the synthetic target at a frame (see `target_position`).
pub fn compute_target_position(video: &VideoSpec, frame_seq: u64) -> (p: (u32, u32))
    requires
        video.width > 0,
        frame_seq * (match video.dot_speed_px_per_frame {
            Some(s) => s,
            None => 3u32,
        }) <= u64::MAX,
    ensures
        p == target_position(*video, frame_seq),
{
    let w = video.width;
    let h = video.height;
    let speed = match video.dot_speed_px_per_frame {
        Some(s) => s,
        None => 3,
    };
    let x = (frame_seq * speed as u64) % w as u64;
    let y = (h / 2) as u64;
    (x as u32, y as u32)
}

/// Whether `frame` lies inside one of the occlusion windows (inclusive).
pub open spec fn occluded(occlusions: Seq<OcclusionSpec>, frame: u64) -> bool {
    exists|i: int|
        0 <= i < occlusions.len() && #[trigger] occlusions[i].start_frame <= frame
            && frame <= occlusions[i].end_frame
}

/// Whether the target is hidden at `frame` (no detection is produced).
pub fn in_occlusion(occlusions: &Vec<OcclusionSpec>, frame: u64) -> (b: bool)
    ensures
        b == occluded(occlusions@, frame),
{
    let mut i: usize = 0;
    while i < occlusions.len()
        invariant
            i <= occlusions@.len(),
            forall|j: int|
                0 <= j < i ==> !(#[trigger] occlusions@[j].start_frame <= frame && frame
                    <= occlusions@[j].end_frame),
        decreases occlusions@.len() - i,
    {
        let o = &occlusions[i];
        if frame >= o.start_frame && frame <= o.end_frame {
            return true;
        }
        i = i + 1;
    }
    false
}

/// The box of the synthetic detection centred (as far as the frame edge
/// allows) on the target position.
pub fn detection_bbox(x: u32, y: u32, bbox_width: u32, bbox_height: u32) -> (b: BoundingBox)
    ensures
        b.x == if x >= bbox_width / 2 { x - bbox_width / 2 } else { 0 },
        b.y == if y >= bbox_height / 2 { y - bbox_height / 2 } else { 0 },
        b.width == bbox_width,
        b.height == bbox_height,
{
    BoundingBox {
        x: x.saturating_sub(bbox_width / 2),
        y: y.saturating_sub(bbox_height / 2),
        width: bbox_width,
        height: bbox_height,
    }
}

/// Errors of scenario loading and checking.
#[derive(Debug)]
pub enum ScenarioError {
    /// The scenario file could not be read.
    Io(String),
    /// The scenario file is not valid scenario JSON.
    Parse(String),
    /// The scenario is inconsistent.
    Invalid(String),
}

/// The text under which a scenario error is reported.
pub open spec fn scenario_error_text(e: ScenarioError) -> Seq<char> {
    match e {
        ScenarioError::Io(s) => "failed to read scenario file: "@ + s@,
        ScenarioError::Parse(s) => "failed to parse scenario JSON: "@ + s@,
        ScenarioError::Invalid(s) => "invalid scenario: "@ + s@,
    }
}

impl ScenarioError {
    /// The text under which the error is reported.
    pub fn message(&self) -> (m: String)
        ensures
            m@ == scenario_error_text(*self),
    {
        let (prefix, s) = match self {
            ScenarioError::Io(s) => ("failed to read scenario file: ", s),
            ScenarioError::Parse(s) => ("failed to parse scenario JSON: ", s),
            ScenarioError::Invalid(s) => ("invalid scenario: ", s),
        };
        let mut m = prefix.to_owned();
        m.append(s.as_str());
        m
    }
}

/// The first inconsistency of a scenario header, if any.
pub open spec fn header_problem(name: Seq<char>, video: VideoSpec) -> Option<Seq<char>> {
    if name.len() == 0 {
        Some("name is empty"@)
    } else if video.width == 0 || video.height == 0 {
        Some("video dimensions must be > 0"@)
    } else if video.fps == 0 {
        Some("video fps must be > 0"@)
    } else if video.duration_frames == 0 {
        Some("duration_frames must be > 0"@)
    } else if video.kind@ != "synthetic"@ && video.kind@ != "replay"@ {
        Some(
            "unknown video type: "@ + video.kind@ + " (expected 'synthetic' or 'replay')"@,
        )
    } else {
        None
    }
}

/// Checks a scenario's name and video specification: the name must not be
/// empty, the dimensions, frame rate and duration must be positive, and the
/// video kind must be "synthetic" or "replay".
pub fn validate_header(name: &str, video: &VideoSpec) -> (r: Result<(), ScenarioError>)
    ensures
        match header_problem(name@, *video) {
            None => r is Ok,
            Some(msg) => r matches Err(ScenarioError::Invalid(m)) && m@ == msg,
        },
{
    if name.is_empty() {
        return Err(ScenarioError::Invalid("name is empty".to_owned()));
    }
    if video.width == 0 || video.height == 0 {
        return Err(ScenarioError::Invalid("video dimensions must be > 0".to_owned()));
    }
    if video.fps == 0 {
        return Err(ScenarioError::Invalid("video fps must be > 0".to_owned()));
    }
    if video.duration_frames == 0 {
        return Err(ScenarioError::Invalid("duration_frames must be > 0".to_owned()));
    }
    if !str_eq(video.kind.as_str(), "synthetic") && !str_eq(video.kind.as_str(), "replay") {
        let mut m = "unknown video type: ".to_owned();
        m.append(video.kind.as_str());
        m.append(" (expected 'synthetic' or 'replay')");
        return Err(ScenarioError::Invalid(m));
    }
    Ok(())
}


/// What an operator action of a scenario asks the runner to do.
#[derive(Debug, Clone, Copy, PartialEq, Eq, Structural)]
pub enum ActionKind {
    SelectTarget,
    Abort,
    Scan,
    Unknown,
}

/// The kind of an operator action, by its name.
pub open spec fn action_kind_of(a: Seq<char>) -> ActionKind {
    if a == "select_target"@ {
        ActionKind::SelectTarget
    } else if a == "abort"@ {
        ActionKind::Abort
    } else if a == "scan"@ {
        ActionKind::Scan
    } else {
        ActionKind::Unknown
    }
}

/// Reads the name of an operator action.
pub fn action_kind(action: &str) -> (k: ActionKind)
    ensures
        k == action_kind_of(action@),
{
    if str_eq(action, "select_target") {
        ActionKind::SelectTarget
    } else if str_eq(action, "abort") {
        ActionKind::Abort
    } else if str_eq(action, "scan") {
        ActionKind::Scan
    } else {
        ActionKind::Unknown
    }
}

/// The position after the operator actions due at `frame`: starting at
/// `start`, every action whose frame is `frame` is due, up to the first one
/// that is not.
pub fn due_actions_end(actions: &Vec<OperatorAction>, start: usize, frame: u64) -> (end: usize)
    requires
        start <= actions@.len(),
    ensures
        start <= end <= actions@.len(),
        forall|j: int| start <= j < end ==> #[trigger] actions@[j].at_frame == frame,
        end < actions@.len() ==> actions@[end as int].at_frame != frame,
{
    let mut i = start;
    while i < actions.len() && actions[i].at_frame == frame
        invariant
            start <= i <= actions@.len(),
            forall|j: int| start <= j < i ==> #[trigger] actions@[j].at_frame == frame,
        decreases actions@.len() - i,
    {
        i = i + 1;
    }
    i
}

/// "frame N: " before a runner message.
pub open spec fn frame_prefix(frame: u64) -> Seq<char> {
    "frame "@ + dec_text(frame) + ": "@
}

/// The failure the runner records when an operator action fails with the
/// error text `err`.
pub open spec fn action_failure_text(frame: u64, kind: ActionKind, target_id: u64, err: Seq<char>) -> Seq<
    char,
> {
    match kind {
        ActionKind::SelectTarget => frame_prefix(frame) + "select_target("@ + dec_text(target_id)
            + ") failed: "@ + err,
        ActionKind::Abort => frame_prefix(frame) + "abort failed: "@ + err,
        _ => frame_prefix(frame) + "scan failed: "@ + err,
    }
}

fn frame_prefix_string(frame: u64) -> (s: String)
    ensures
        s@ == frame_prefix(frame),
{
    let mut s = "frame ".to_owned();
    let d = decimal_string(frame);
    s.append(d.as_str());
    s.append(": ");
    s
}

/// Builds the failure message of an operator action (see
/// `action_failure_text`).
pub fn action_failure(frame: u64, kind: ActionKind, target_id: u64, err: &str) -> (m: String)
    ensures
        m@ == action_failure_text(frame, kind, target_id, err@),
{
    let mut m = frame_prefix_string(frame);
    match kind {
        ActionKind::SelectTarget => {
            m.append("select_target(");
            let d = decimal_string(target_id);
            m.append(d.as_str());
            m.append(") failed: ");
        },
        ActionKind::Abort => {
            m.append("abort failed: ");
        },
        _ => {
            m.append("scan failed: ");
        },
    }
    m.append(err);
    m
}

/// The warning for an operator action the runner does not know.
pub fn unknown_action_warning(frame: u64, action: &str) -> (m: String)
    ensures
        m@ == frame_prefix(frame) + "unknown operator action '"@ + action@ + "'"@,
{
    let mut m = frame_prefix_string(frame);
    m.append("unknown operator action '");
    m.append(action);
    m.append("'");
    m
}

/// The failure recorded when a frame's update fails with `err`.
pub fn update_failure(frame: u64, err: &str) -> (m: String)
    ensures
        m@ == frame_prefix(frame) + "update failed: "@ + err@,
{
    let mut m = frame_prefix_string(frame);
    m.append("update failed: ");
    m.append(err);
    m
}

/// The failures of a finished scenario run, in order: a final state other
/// than the expected one (read as `parse_state` reads it), a lock that took
/// longer than its target or never came when a lock target is set, and
/// more watchdog triggers than allowed when a maximum is set.
pub open spec fn kpi_failure_texts(
    final_state: SystemState,
    expected: SystemState,
    lock_ms: Option<u64>,
    lock_target_ms: Option<u64>,
    watchdog_triggers: u64,
    max_triggers: Option<u32>,
) -> Seq<Seq<char>> {
    let a: Seq<Seq<char>> = if final_state != expected {
        seq![
            "final state mismatch: expected "@ + state_name(expected) + ", got "@ + state_name(
                final_state,
            ),
        ]
    } else {
        Seq::empty()
    };
    let b: Seq<Seq<char>> = match lock_target_ms {
        Some(target) => match lock_ms {
            Some(actual) => if actual > target {
                seq![
                    "lock acquisition time "@ + dec_text(actual) + "ms exceeds target "@
                        + dec_text(target) + "ms"@,
                ]
            } else {
                Seq::empty()
            },
            None => seq!["lock was never acquired"@],
        },
        None => Seq::empty(),
    };
    let c: Seq<Seq<char>> = match max_triggers {
        Some(max) => if watchdog_triggers > max {
            seq![
                "watchdog triggers "@ + dec_text(watchdog_triggers) + " exceed max "@ + dec_text(
                    max as u64,
                ),
            ]
        } else {
            Seq::empty()
        },
        None => Seq::empty(),
    };
    a + b + c
}

/// Checks a finished run against the scenario's expected final state and
/// KPI limits (see `kpi_failure_texts`).
pub fn kpi_failures(
    final_state: SystemState,
    expected_final_state: &str,
    lock_ms: Option<u64>,
    lock_target_ms: Option<u64>,
    watchdog_triggers: u64,
    max_triggers: Option<u32>,
) -> (f: Vec<String>)
    ensures
        lines_view(f@) == kpi_failure_texts(
            final_state,
            state_keyword(upper_text(expected_final_state@)),
            lock_ms,
            lock_target_ms,
            watchdog_triggers,
            max_triggers,
        ),
{
    let mut f: Vec<String> = Vec::new();
    let ghost view: Seq<Seq<char>> = Seq::empty();
    let expected = parse_state(expected_final_state);
    if final_state != expected {
        let mut m = "final state mismatch: expected ".to_owned();
        m.append(expected.as_str());
        m.append(", got ");
        m.append(final_state.as_str());
        proof {
            view = view.push(m@);
        }
        f.push(m);
    }
    let ghost a = view;
    match lock_target_ms {
        Some(target) => match lock_ms {
            Some(actual) => {
                if actual > target {
                    let mut m = "lock acquisition time ".to_owned();
                    let d1 = decimal_string(actual);
                    m.append(d1.as_str());
                    m.append("ms exceeds target ");
                    let d2 = decimal_string(target);
                    m.append(d2.as_str());
                    m.append("ms");
                    proof {
                        view = view.push(m@);
                    }
                    f.push(m);
                }
            },
            None => {
                let m = "lock was never acquired".to_owned();
                proof {
                    view = view.push(m@);
                }
                f.push(m);
            },
        },
        None => {},
    }
    let ghost ab = view;
    match max_triggers {
        Some(max) => {
            if watchdog_triggers > max as u64 {
                let mut m = "watchdog triggers ".to_owned();
                let d1 = decimal_string(watchdog_triggers);
                m.append(d1.as_str());
                m.append(" exceed max ");
                let d2 = decimal_string(max as u64);
                m.append(d2.as_str());
                proof {
                    view = view.push(m@);
                }
                f.push(m);
            }
        },
        None => {},
    }
    proof {
        assert(lines_view(f@) =~= view);
        let expected_s = state_keyword(upper_text(expected_final_state@));
        let t = kpi_failure_texts(
            final_state,
            expected_s,
            lock_ms,
            lock_target_ms,
            watchdog_triggers,
            max_triggers,
        );
        assert(view =~= t);
    }
    f
}

/// The share of passed scenarios in whole percent (rounded down), 0 when
/// there are none.
pub fn pass_rate_percent(passed: usize, total: usize) -> (p: usize)
    requires
        passed <= total,
        passed * 100 <= usize::MAX,
    ensures
        p == if total > 0 {
            (passed * 100) / (total as int)
        } else {
            0
        },
        p <= 100,
{
    if total > 0 {
        proof {
            assert((passed * 100) / (total as int) <= 100) by (nonlinear_arith)
                requires
                    passed <= total,
                    total > 0,
            ;
        }
        passed * 100 / total
    } else {
        0
    }
}

/// The number of `true` entries.
pub open spec fn count_true(s: Seq<bool>) -> nat
    decreases s.len(),
{
    if s.len() == 0 {
        0
    } else {
        count_true(s.drop_last()) + if s.last() {
            1nat
        } else {
            0nat
        }
    }
}

/// Counts passed and failed runs.
pub fn tally(passed: &Vec<bool>) -> (r: (usize, usize))
    ensures
        r.0 == count_true(passed@),
        r.0 + r.1 == passed@.len(),
{
    let mut p: usize = 0;
    let mut f: usize = 0;
    let mut i: usize = 0;
    proof {
        assert(passed@.take(0) =~= Seq::<bool>::empty());
    }
    while i < passed.len()
        invariant
            i <= passed@.len(),
            p + f == i,
            p == count_true(passed@.take(i as int)),
        decreases passed@.len() - i,
    {
        proof {
            assert(passed@.take(i + 1).drop_last() =~= passed@.take(i as int));
            assert(passed@.take(i + 1).last() == passed@[i as int]);
        }
        if passed[i] {
            p = p + 1;
        } else {
            f = f + 1;
        }
        i = i + 1;
    }
    proof {
        assert(passed@.take(i as int) =~= passed@);
    }
    (p, f)
}

} // verus!
