//! Detector component bookkeeping: backend choice, counters, the latency
//! sample window and the thermal throttling decision.

use vstd::prelude::*;
use std::time::Instant;
use crate::types::{PixelFormat, instant_now};
use crate::text::str_eq;

verus! {

/// Inference backend of the detector.
#[derive(Debug, Clone, Copy, PartialEq, Eq, Structural)]
pub enum BackendKind {
    /// NPU through the inference bridge.
    Bridge,
    /// ONNX Runtime on the CPU.
    CpuOnnx,
    /// Mock backend.
    Mock,
}

impl Default for BackendKind {
    fn default() -> (k: Self)
        ensures
            k == BackendKind::Bridge,
    {
        BackendKind::Bridge
    }
}

/// The backend a command-line keyword names: "bridge" or "npu", "cpu-onnx"
/// or "onnx", and "mock"; any other word names none.
pub open spec fn backend_keyword(k: Seq<char>) -> Option<BackendKind> {
    if k == "bridge"@ || k == "npu"@ {
        Some(BackendKind::Bridge)
    } else if k == "cpu-onnx"@ || k == "onnx"@ {
        Some(BackendKind::CpuOnnx)
    } else if k == "mock"@ {
        Some(BackendKind::Mock)
    } else {
        None
    }
}

/// Reads a backend keyword (see `backend_keyword`).
pub fn backend_from_keyword(k: &str) -> (b: Option<BackendKind>)
    ensures
        b == backend_keyword(k@),
{
    if str_eq(k, "bridge") || str_eq(k, "npu") {
        Some(BackendKind::Bridge)
    } else if str_eq(k, "cpu-onnx") || str_eq(k, "onnx") {
        Some(BackendKind::CpuOnnx)
    } else if str_eq(k, "mock") {
        Some(BackendKind::Mock)
    } else {
        None
    }
}

/// Counters of the detector loop.
#[derive(Debug, Clone, Copy, PartialEq, Eq, Structural)]
pub struct DetectorStats {
    pub frames_processed: u64,
    pub frames_published: u64,
    pub jumps: u64,
    pub infer_errors: u64,
    pub detections_total: u64,
}

impl Default for DetectorStats {
    fn default() -> (s: Self)
        ensures
            s.frames_processed == 0,
            s.frames_published == 0,
            s.jumps == 0,
            s.infer_errors == 0,
            s.detections_total == 0,
    {
        DetectorStats { frames_processed: 0, frames_published: 0, jumps: 0, infer_errors: 0, detections_total: 0 }
    }
}

/// Samples after which the measurement window is restarted.
pub const METRICS_WINDOW: usize = 512;

/// Latency samples and the current measurement window.
pub struct Metrics {
    infer_us: Vec<u64>,
    e2e_us: Vec<u64>,
    window_start: Instant,
    window_frames: u64,
}

impl Metrics {
    pub closed spec fn infer_samples(&self) -> Seq<u64> {
        self.infer_us@
    }

    pub closed spec fn e2e_samples(&self) -> Seq<u64> {
        self.e2e_us@
    }

    pub closed spec fn frames_in_window(&self) -> u64 {
        self.window_frames
    }

    pub fn new() -> (m: Self)
        ensures
            m.infer_samples().len() == 0,
            m.e2e_samples().len() == 0,
            m.frames_in_window() == 0,
    {
        Metrics {
            infer_us: Vec::with_capacity(METRICS_WINDOW),
            e2e_us: Vec::with_capacity(METRICS_WINDOW),
            window_start: instant_now(),
            window_frames: 0,
        }
    }

    /// Records one frame's latencies; once the window holds 512 samples
    /// the window is restarted first (the samples are kept).
    pub fn push(&mut self, infer_us: u64, e2e_us: u64)
        requires
            old(self).frames_in_window() < u64::MAX,
        ensures
            final(self).infer_samples() == old(self).infer_samples().push(infer_us),
            final(self).e2e_samples() == old(self).e2e_samples().push(e2e_us),
            final(self).frames_in_window() == if old(self).infer_samples().len() >= METRICS_WINDOW {
                1
            } else {
                old(self).frames_in_window() + 1
            },
    {
        if self.infer_us.len() >= METRICS_WINDOW {
            self.rotate();
        }
        self.infer_us.push(infer_us);
        self.e2e_us.push(e2e_us);
        self.window_frames = self.window_frames + 1;
    }

    /// Restarts the measurement window now.
    pub fn rotate(&mut self)
        ensures
            final(self).infer_samples() == old(self).infer_samples(),
            final(self).e2e_samples() == old(self).e2e_samples(),
            final(self).frames_in_window() == 0,
    {
        self.window_start = instant_now();
        self.window_frames = 0;
    }

    /// Frames counted in the current window.
    pub fn window_frames(&self) -> (n: u64)
        ensures
            n == self.frames_in_window(),
    {
        self.window_frames
    }

    /// The inference latency samples.
    pub fn infer_samples_us(&self) -> (s: &Vec<u64>)
        ensures
            s@ == self.infer_samples(),
    {
        &self.infer_us
    }

    /// The end-to-end latency samples.
    pub fn e2e_samples_us(&self) -> (s: &Vec<u64>)
        ensures
            s@ == self.e2e_samples(),
    {
        &self.e2e_us
    }
}

/// Thermal throttling: while the NPU is hot, the skip counter advances
/// (saturating) and only every `every_n`-th frame (at least every frame
/// when `every_n` is zero) is processed. Returns the new counter and
/// whether the frame is skipped.
pub open spec fn throttle(counter: u32, every_n: u32, hot: bool) -> (u32, bool) {
    if !hot {
        (counter, false)
    } else {
        let c: u32 = if counter == u32::MAX { u32::MAX } else { (counter + 1) as u32 };
        let n: u32 = if every_n == 0 { 1 } else { every_n };
        (c, c % n != 0)
    }
}

/// One throttling decision (see `throttle`).
pub fn throttle_step(counter: u32, every_n: u32, hot: bool) -> (r: (u32, bool))
    ensures
        r == throttle(counter, every_n, hot),
{
    if !hot {
        return (counter, false);
    }
    let c = counter.saturating_add(1);
    let n = if every_n > 1 { every_n } else { 1 };
    (c, c % n != 0)
}

/// Throttling by every frame (`every_n` of 0 or 1) never skips.
pub proof fn throttle_by_one_never_skips(counter: u32, hot: bool)
    ensures
        !throttle(counter, 1, hot).1,
        !throttle(counter, 0, hot).1,
{
}


/// What the frame ring answers when asked for the next frame after a
/// given one.
#[derive(Debug, Clone, Copy, PartialEq, Eq, Structural)]
pub enum RingStep {
    /// A frame with this id is ready.
    Frame(u64),
    /// No newer frame yet.
    UpToDate,
    /// The reader fell behind the ring; the newest frame id is given.
    TooFarBehind(u64),
}

/// What the detector does after an answer of the ring.
#[derive(Debug, Clone, Copy, PartialEq, Eq, Structural)]
pub enum AcquireAction {
    /// Process the frame that was offered.
    Take,
    /// Ask again for the frame after the newest one.
    Retry,
    /// Nothing to process now.
    Wait,
}

/// The cursor, jump count and action after an answer of the ring. A frame
/// moves the cursor to it; falling behind counts a jump and moves the
/// cursor to the newest frame, to be asked once more (a second answer that
/// is not a frame gives up until later).
pub open spec fn acquire_effect(last: u64, jumps: u64, step: RingStep, retried: bool) -> (
    u64,
    int,
    AcquireAction,
) {
    match step {
        RingStep::Frame(id) => (id, jumps as int, AcquireAction::Take),
        RingStep::UpToDate => (last, jumps as int, AcquireAction::Wait),
        RingStep::TooFarBehind(latest) => if retried {
            (last, jumps as int, AcquireAction::Wait)
        } else {
            (latest, jumps + 1, AcquireAction::Retry)
        },
    }
}

impl DetectorStats {
    /// Handles one answer of the frame ring (see `acquire_effect`).
    pub fn on_ring_answer(&mut self, last: &mut u64, step: RingStep, retried: bool) -> (a:
        AcquireAction)
        requires
            !retried && step is TooFarBehind ==> old(self).jumps < u64::MAX,
        ensures
            (*final(last), final(self).jumps as int, a) == acquire_effect(
                *old(last),
                old(self).jumps,
                step,
                retried,
            ),
            final(self).frames_processed == old(self).frames_processed,
            final(self).frames_published == old(self).frames_published,
            final(self).infer_errors == old(self).infer_errors,
            final(self).detections_total == old(self).detections_total,
    {
        match step {
            RingStep::Frame(id) => {
                *last = id;
                AcquireAction::Take
            },
            RingStep::UpToDate => AcquireAction::Wait,
            RingStep::TooFarBehind(latest) => {
                if retried {
                    AcquireAction::Wait
                } else {
                    self.jumps = self.jumps + 1;
                    *last = latest;
                    AcquireAction::Retry
                }
            },
        }
    }

    /// Counts a frame taken for processing.
    pub fn record_frame(&mut self)
        requires
            old(self).frames_processed < u64::MAX,
        ensures
            *final(self) == (DetectorStats { frames_processed: (old(self).frames_processed + 1) as u64, ..*old(self) }),
    {
        self.frames_processed = self.frames_processed + 1;
    }

    /// Counts a failed inference (the frame is skipped).
    pub fn record_infer_error(&mut self)
        requires
            old(self).infer_errors < u64::MAX,
        ensures
            *final(self) == (DetectorStats { infer_errors: (old(self).infer_errors + 1) as u64, ..*old(self) }),
    {
        self.infer_errors = self.infer_errors + 1;
    }

    /// Counts the detections of an inferred frame and, when its event was
    /// published, the publication.
    pub fn record_result(&mut self, detections: u64, published: bool)
        requires
            old(self).detections_total + detections <= u64::MAX,
            published ==> old(self).frames_published < u64::MAX,
        ensures
            final(self).detections_total == old(self).detections_total + detections,
            final(self).frames_published == old(self).frames_published + if published {
                1int
            } else {
                0int
            },
            final(self).frames_processed == old(self).frames_processed,
            final(self).jumps == old(self).jumps,
            final(self).infer_errors == old(self).infer_errors,
    {
        self.detections_total = self.detections_total + detections;
        if published {
            self.frames_published = self.frames_published + 1;
        }
    }
}

/// Whether the detector loop ends: its running time reached the optional
/// limit, or the ring has been quiet for the quiet timeout after at least
/// one frame was processed.
pub open spec fn loop_ends(
    running_ms: u64,
    max_ms: Option<u64>,
    quiet_ms: u64,
    quiet_timeout_ms: u64,
    frames_processed: u64,
) -> bool {
    (max_ms matches Some(m) && running_ms >= m) || (quiet_ms >= quiet_timeout_ms
        && frames_processed > 0)
}

/// Decides whether the detector loop ends (see `loop_ends`).
pub fn should_stop(
    running_ms: u64,
    max_ms: Option<u64>,
    quiet_ms: u64,
    quiet_timeout_ms: u64,
    frames_processed: u64,
) -> (b: bool)
    ensures
        b == loop_ends(running_ms, max_ms, quiet_ms, quiet_timeout_ms, frames_processed),
{
    let over = match max_ms {
        Some(m) => running_ms >= m,
        None => false,
    };
    over || (quiet_ms >= quiet_timeout_ms && frames_processed > 0)
}



/// How a frame from the ring is prepared for the backend.
#[derive(Debug, Clone, Copy, PartialEq, Eq, Structural)]
pub enum Preparation {
    /// NV12 converted to RGB24, then letterboxed to the model's square input.
    ConvertAndLetterbox,
    /// RGB24 letterboxed to the model's square input.
    Letterbox,
    /// Handed over as it is (the backend converts it itself).
    PassThrough,
}

/// The bridge backend needs a letterboxed RGB24 frame (NV12 is converted
/// first); the other backends take the ring's frame as it is.
pub open spec fn preparation_of(backend: BackendKind, format: PixelFormat) -> Preparation {
    match backend {
        BackendKind::Bridge => match format {
            PixelFormat::Nv12 => Preparation::ConvertAndLetterbox,
            _ => Preparation::Letterbox,
        },
        _ => Preparation::PassThrough,
    }
}

/// Chooses how a ring frame (NV12 or RGB24) is prepared for the backend.
pub fn preparation(backend: BackendKind, format: PixelFormat) -> (p: Preparation)
    requires
        format == PixelFormat::Nv12 || format == PixelFormat::Rgb24,
    ensures
        p == preparation_of(backend, format),
{
    match backend {
        BackendKind::Bridge => match format {
            PixelFormat::Nv12 => Preparation::ConvertAndLetterbox,
            _ => Preparation::Letterbox,
        },
        _ => Preparation::PassThrough,
    }
}

} // verus!
