//! The integer side of frame annotation: which frames can be annotated,
//! the rectangles that make a thick box, where a label goes, and how saved
//! frames are named. Drawing, fonts and JPEG encoding belong to the program.

use vstd::prelude::*;
use vstd::string::StringExecFns;
use vstd::string::StrSliceExecFns;
use crate::imaging::{pixel_format_name, pixel_format_str};
use crate::repl::dec_text;
use crate::text::decimal_string;
use crate::types::PixelFormat;

verus! {

/// Errors of frame annotation and saving.
#[derive(Debug, Clone)]
pub enum VisualizerError {
    Io(String),
    ImageEncode(String),
    UnsupportedFormat(PixelFormat),
    FrameSize { decl_w: u32, decl_h: u32, data_len: usize },
    Json(String),
    FontLoad(String),
}

/// The text under which an annotation error is reported.
pub open spec fn visualizer_error_text(e: VisualizerError) -> Seq<char> {
    match e {
        VisualizerError::Io(s) => "io error: "@ + s@,
        VisualizerError::ImageEncode(s) => "image encode error: "@ + s@,
        VisualizerError::UnsupportedFormat(f) => "unsupported pixel format: "@ + pixel_format_name(f)
            + " (expected RGB24; convert upstream)"@,
        VisualizerError::FrameSize { decl_w, decl_h, data_len } => "frame size mismatch: declared "@
            + dec_text(decl_w as u64) + "x"@ + dec_text(decl_h as u64) + ", data len "@ + dec_text(
            data_len as u64,
        ),
        VisualizerError::Json(s) => "json serialize error: "@ + s@,
        VisualizerError::FontLoad(s) => "font load error: "@ + s@,
    }
}

impl VisualizerError {
    /// The text under which the error is reported.
    pub fn message(&self) -> (m: String)
        requires
            self matches VisualizerError::FrameSize { data_len, .. } ==> data_len <= u64::MAX,
        ensures
            m@ == visualizer_error_text(*self),
    {
        match self {
            VisualizerError::Io(s) => {
                let mut m = "io error: ".to_owned();
                m.append(s.as_str());
                m
            },
            VisualizerError::ImageEncode(s) => {
                let mut m = "image encode error: ".to_owned();
                m.append(s.as_str());
                m
            },
            VisualizerError::UnsupportedFormat(f) => {
                let mut m = "unsupported pixel format: ".to_owned();
                m.append(pixel_format_str(*f));
                m.append(" (expected RGB24; convert upstream)");
                m
            },
            VisualizerError::FrameSize { decl_w, decl_h, data_len } => {
                let mut m = "frame size mismatch: declared ".to_owned();
                let a = decimal_string(*decl_w as u64);
                m.append(a.as_str());
                m.append("x");
                let b = decimal_string(*decl_h as u64);
                m.append(b.as_str());
                m.append(", data len ");
                let c = decimal_string(*data_len as u64);
                m.append(c.as_str());
                m
            },
            VisualizerError::Json(s) => {
                let mut m = "json serialize error: ".to_owned();
                m.append(s.as_str());
                m
            },
            VisualizerError::FontLoad(s) => {
                let mut m = "font load error: ".to_owned();
                m.append(s.as_str());
                m
            },
        }
    }
}

/// Checks that a frame can be annotated: it must be RGB24 and hold exactly
/// three bytes per pixel.
pub fn check_rgb_frame(format: PixelFormat, width: u32, height: u32, data_len: usize) -> (r: Result<
    (),
    VisualizerError,
>)
    requires
        width * height * 3 <= usize::MAX,
    ensures
        format != PixelFormat::Rgb24 ==> (r matches Err(VisualizerError::UnsupportedFormat(f)) && f
            == format),
        format == PixelFormat::Rgb24 && data_len != width * height * 3 ==> (r matches Err(
            VisualizerError::FrameSize { decl_w, decl_h, data_len: n },
        ) && decl_w == width && decl_h == height && n == data_len),
        format == PixelFormat::Rgb24 && data_len == width * height * 3 ==> r is Ok,
{
    if format != PixelFormat::Rgb24 {
        return Err(VisualizerError::UnsupportedFormat(format));
    }
    proof {
        assert(0 <= width * height) by (nonlinear_arith);
        assert(width * height <= width * height * 3) by (nonlinear_arith)
            requires
                0 <= width * height,
        ;
    }
    let expected = width as usize * height as usize * 3;
    if data_len != expected {
        return Err(VisualizerError::FrameSize { decl_w: width, decl_h: height, data_len });
    }
    Ok(())
}

/// Width of the drawn box outline, in pixels.
pub const THICKNESS: i32 = 2;

/// The rectangles (left, top, width, height) drawn for a box of the given
/// thickness: the `i`-th is inset by `i` on every side; those with no area
/// left are skipped.
pub open spec fn thick_rect_parts(left: int, top: int, width: int, height: int, n: int) -> Seq<
    (int, int, int, int),
>
    decreases n,
{
    if n <= 0 {
        Seq::empty()
    } else {
        let i = n - 1;
        let prev = thick_rect_parts(left, top, width, height, i);
        if width - 2 * i > 0 && height - 2 * i > 0 {
            prev.push((left + i, top + i, width - 2 * i, height - 2 * i))
        } else {
            prev
        }
    }
}

/// The rectangles that make a box outline of the given thickness (see
/// `thick_rect_parts`).
pub fn thick_rect(left: i32, top: i32, width: u32, height: u32, thickness: i32) -> (r: Vec<
    (i32, i32, u32, u32),
>)
    requires
        width <= i32::MAX,
        height <= i32::MAX,
        0 <= thickness,
        left + thickness <= i32::MAX,
        top + thickness <= i32::MAX,
    ensures
        r@.len() == thick_rect_parts(left as int, top as int, width as int, height as int, thickness as int).len(),
        forall|k: int|
            0 <= k < r@.len() ==> {
                let p = thick_rect_parts(left as int, top as int, width as int, height as int, thickness as int)[k];
                &&& (#[trigger] r@[k]).0 == p.0
                &&& r@[k].1 == p.1
                &&& r@[k].2 == p.2
                &&& r@[k].3 == p.3
            },
{
    let mut r: Vec<(i32, i32, u32, u32)> = Vec::new();
    let mut i: i32 = 0;
    while i < thickness
        invariant
            0 <= i <= thickness,
            width <= i32::MAX,
            height <= i32::MAX,
            left + thickness <= i32::MAX,
            top + thickness <= i32::MAX,
            r@.len() == thick_rect_parts(left as int, top as int, width as int, height as int, i as int).len(),
            forall|k: int|
                0 <= k < r@.len() ==> {
                    let p = thick_rect_parts(left as int, top as int, width as int, height as int, i as int)[k];
                    &&& (#[trigger] r@[k]).0 == p.0
                    &&& r@[k].1 == p.1
                    &&& r@[k].2 == p.2
                    &&& r@[k].3 == p.3
                },
        decreases thickness - i,
    {
        let w: i64 = width as i64 - 2 * i as i64;
        let h: i64 = height as i64 - 2 * i as i64;
        let ghost prev = thick_rect_parts(left as int, top as int, width as int, height as int, i as int);
        if w > 0 && h > 0 {
            r.push((left + i, top + i, w as u32, h as u32));
        }
        proof {
            let next = thick_rect_parts(left as int, top as int, width as int, height as int, i + 1);
            if w > 0 && h > 0 {
                assert(next == prev.push((left + i, top + i, w as int, h as int)));
                assert forall|k: int| 0 <= k < r@.len() implies {
                    let p = next[k];
                    &&& (#[trigger] r@[k]).0 == p.0
                    &&& r@[k].1 == p.1
                    &&& r@[k].2 == p.2
                    &&& r@[k].3 == p.3
                } by {
                    if k < prev.len() {
                        assert(next[k] == prev[k]);
                    }
                }
            } else {
                assert(next == prev);
            }
        }
        i = i + 1;
    }
    r
}

/// Where a label of the given size goes for a box at (`x`, `y`) of height
/// `height` in an image `img_w` wide: above the box when there is room
/// (the top row itself does not count), otherwise two pixels below it;
/// shifted left so that it stays inside the image when it can.
pub open spec fn label_spot(x: u32, y: u32, height: u32, img_w: u32, label_w: u32, label_h: u32) -> (
    int,
    int,
) {
    let room: int = if img_w >= label_w { img_w - label_w } else { 0 };
    let lx: int = if x <= room { x as int } else { room };
    let above: int = if y >= label_h { y - label_h } else { 0 };
    let ly: int = if above > 0 { above } else { y + height + 2 };
    (lx, ly)
}

/// Places a label (see `label_spot`).
pub fn label_position(x: u32, y: u32, height: u32, img_w: u32, label_w: u32, label_h: u32) -> (r: (
    u32,
    u32,
))
    requires
        y + height + 2 <= u32::MAX,
    ensures
        (r.0 as int, r.1 as int) == label_spot(x, y, height, img_w, label_w, label_h),
{
    let room = img_w.saturating_sub(label_w);
    let lx = if x <= room { x } else { room };
    let above = y.saturating_sub(label_h);
    let ly = if above > 0 { above } else { y + height + 2 };
    (lx, ly)
}

/// The decimal digits of `n`, zero-padded on the left to at least `w`.
pub open spec fn zero_padded(n: u64, w: nat) -> Seq<char> {
    let d = dec_text(n);
    if d.len() >= w {
        d
    } else {
        Seq::new((w - d.len()) as nat, |i: int| '0') + d
    }
}

/// The file name under which the `seq`-th saved frame is written:
/// "seq_" and at least six digits, then ".jpg".
pub fn saved_frame_name(seq: u64) -> (s: String)
    ensures
        s@ == "seq_"@ + zero_padded(seq, 6) + ".jpg"@,
{
    let d = decimal_string(seq);
    let n = d.unicode_len();
    let mut s = "seq_".to_owned();
    let ghost head = s@;
    let mut i: usize = n;
    while i < 6
        invariant
            n <= i <= 6 || (n > 6 && i == n),
            n == d@.len(),
            s@ == head + Seq::new((i - n) as nat, |k: int| '0'),
        decreases 6 - i,
    {
        s.append("0");
        proof {
            reveal_strlit("0");
            assert(s@ =~= head + Seq::new((i + 1 - n) as nat, |k: int| '0'));
        }
        i = i + 1;
    }
    s.append(d.as_str());
    s.append(".jpg");
    proof {
        if n >= 6 {
            assert(s@ =~= "seq_"@ + zero_padded(seq, 6) + ".jpg"@);
        } else {
            assert(s@ =~= "seq_"@ + zero_padded(seq, 6) + ".jpg"@);
        }
    }
    s
}

} // verus!
