//! Pixel and byte codecs of the inference path: NV12 to RGB24 conversion
//! (integer BT.601), the RGB24 view of a frame, and base64 encoding of
//! frame bytes for the inference bridge.

use vstd::prelude::*;
use vstd::string::StringExecFns;
use crate::text::{decimal_string, ascii_chars, dec_bytes, ascii_string, all_ascii};
use crate::types::PixelFormat;

verus! {

/// Errors of an inference backend.
#[derive(Debug, Clone)]
pub enum InferenceError {
    BridgeConnection(String),
    BridgeProtocol(String),
    Inference(String),
    ModelNotLoaded,
    Unavailable(String),
}

/// The text under which an inference error is reported.
pub open spec fn inference_error_text(e: InferenceError) -> Seq<char> {
    match e {
        InferenceError::BridgeConnection(s) => "bridge connection error: "@ + s@,
        InferenceError::BridgeProtocol(s) => "bridge protocol error: "@ + s@,
        InferenceError::Inference(s) => "inference failed: "@ + s@,
        InferenceError::ModelNotLoaded => "model not loaded"@,
        InferenceError::Unavailable(s) => "backend unavailable: "@ + s@,
    }
}

impl InferenceError {
    pub fn message(&self) -> (m: String)
        ensures
            m@ == inference_error_text(*self),
    {
        match self {
            InferenceError::BridgeConnection(s) => {
                let mut m = "bridge connection error: ".to_owned();
                m.append(s.as_str());
                m
            },
            InferenceError::BridgeProtocol(s) => {
                let mut m = "bridge protocol error: ".to_owned();
                m.append(s.as_str());
                m
            },
            InferenceError::Inference(s) => {
                let mut m = "inference failed: ".to_owned();
                m.append(s.as_str());
                m
            },
            InferenceError::ModelNotLoaded => "model not loaded".to_owned(),
            InferenceError::Unavailable(s) => {
                let mut m = "backend unavailable: ".to_owned();
                m.append(s.as_str());
                m
            },
        }
    }
}

/// Clamps to the byte range.
pub open spec fn clamp8(v: int) -> u8 {
    if v < 0 {
        0
    } else if v > 255 {
        255
    } else {
        v as u8
    }
}

/// The RGB24 output byte at flat position `t` for an NV12 frame of width
/// `w`: pixel `t / 3`, channel `t % 3` (R, G, B). Luma is at
/// `row * w + col`; the chroma pair (U, V) shared by two horizontally
/// adjacent pixels of a row pair is at `w * h + (row / 2) * w + 2 * (col / 2)`.
/// Channels use the fixed-point BT.601 coefficients 359, 88, 183 and 454
/// over 256, rounded down. In a frame of odd width the last column has no
/// chroma pair and stays black.
pub open spec fn nv12_rgb_byte(nv12: Seq<u8>, w: int, h: int, t: int) -> u8 {
    let p = t / 3;
    let c = t % 3;
    let j = p / w;
    let i = p % w;
    if i >= 2 * (w / 2) {
        0
    } else {
        let y = nv12[j * w + i] as int;
        let uv = w * h + (j / 2) * w + 2 * (i / 2);
        let u = nv12[uv] as int - 128;
        let v = nv12[uv + 1] as int - 128;
        if c == 0 {
            clamp8(y + (359 * v) / 256)
        } else if c == 1 {
            clamp8(y - (88 * u + 183 * v) / 256)
        } else {
            clamp8(y + (454 * u) / 256)
        }
    }
}

/// An NV12 buffer of `len` bytes can be converted at `w` x `h`: the width
/// is positive, the output size fits, and the luma plane and every chroma
/// row that the rows read are inside the buffer.
pub open spec fn nv12_fits(len: int, w: int, h: int) -> bool {
    &&& w > 0
    &&& h >= 0
    &&& w * h * 3 <= usize::MAX
    &&& len >= w * h
    &&& h > 0 ==> w * h + ((h - 1) / 2) * w + w <= len
}

fn clamp_byte(v: i32) -> (b: u8)
    ensures
        b == clamp8(v as int),
{
    if v < 0 {
        0
    } else if v > 255 {
        255
    } else {
        v as u8
    }
}

fn floor_div256(x: i32) -> (q: i32)
    ensures
        q == (x as int) / 256,
{
    if x >= 0 {
        x / 256
    } else {
        let n = -(x as i64);
        let q = -((n + 255) / 256);
        assert(q == (x as int) / 256) by (nonlinear_arith)
            requires
                n == -(x as int),
                n > 0,
                q == -((n + 255) / 256),
        ;
        q as i32
    }
}

proof fn lemma_flat_index(j: int, i: int, w: int, c: int)
    requires
        0 <= j,
        0 <= i < w,
        0 <= c < 3,
    ensures
        ((j * w + i) * 3 + c) / 3 == j * w + i,
        ((j * w + i) * 3 + c) % 3 == c,
        (j * w + i) / w == j,
        (j * w + i) % w == i,
{
    vstd::arithmetic::div_mod::lemma_fundamental_div_mod_converse((j * w + i) * 3 + c, 3, j * w + i, c);
    vstd::arithmetic::div_mod::lemma_fundamental_div_mod_converse(j * w + i, w, j, i);
}

proof fn lemma_row_bounds(j: int, i: int, w: int, h: int)
    by (nonlinear_arith)
    requires
        0 <= j < h,
        0 <= i < w,
    ensures
        0 <= j * w + i < w * h,
        (j + 1) * w == j * w + w,
        0 <= (j / 2) * w,
        (j / 2) * w <= ((h - 1) / 2) * w,
{
    assert(j / 2 <= (h - 1) / 2);
}

/// NV12 (semi-planar YUV 4:2:0) to RGB24, integer BT.601 approximation.
pub fn nv12_to_rgb24(nv12: &[u8], w: usize, h: usize) -> (out: Vec<u8>)
    requires
        nv12_fits(nv12@.len() as int, w as int, h as int),
    ensures
        out@.len() == w * h * 3,
        forall|t: int| 0 <= t < w * h * 3 ==> #[trigger] out@[t] == nv12_rgb_byte(nv12@, w as int, h as int, t),
{
    let mut out: Vec<u8> = Vec::new();
    let len = nv12.len();
    let pairs = w / 2;
    let mut j: usize = 0;
    while j < h
        invariant
            nv12_fits(nv12@.len() as int, w as int, h as int),
            len == nv12@.len(),
            pairs == w / 2,
            j <= h,
            out@.len() == j * w * 3,
            forall|t: int| 0 <= t < out@.len() ==> #[trigger] out@[t] == nv12_rgb_byte(nv12@, w as int, h as int, t),
        decreases h - j,
    {
        proof {
            lemma_row_bounds(j as int, 0, w as int, h as int);
            assert(j * w <= w * h);
            assert(w * h + (j / 2) * w + w <= len);
        }
        let row_y = j * w;
        let uv_row = w * h + (j / 2) * w;
        let mut i: usize = 0;
        while i < w
            invariant
                nv12_fits(nv12@.len() as int, w as int, h as int),
                pairs == w / 2,
                j < h,
                i <= w,
                row_y == j * w,
                uv_row == w * h + (j / 2) * w,
                out@.len() == (j * w + i) * 3,
                forall|t: int| 0 <= t < out@.len() ==> #[trigger] out@[t] == nv12_rgb_byte(nv12@, w as int, h as int, t),
            decreases w - i,
        {
            proof {
                lemma_row_bounds(j as int, i as int, w as int, h as int);
            }
            let base = out.len();
            if i < 2 * pairs {
                let y = nv12[row_y + i] as i32;
                let k2 = 2 * (i / 2);
                let u = nv12[uv_row + k2] as i32 - 128;
                let v = nv12[uv_row + k2 + 1] as i32 - 128;
                let r = clamp_byte(y + floor_div256(359 * v));
                let g = clamp_byte(y - floor_div256(88 * u + 183 * v));
                let b = clamp_byte(y + floor_div256(454 * u));
                out.push(r);
                out.push(g);
                out.push(b);
            } else {
                out.push(0);
                out.push(0);
                out.push(0);
            }
            proof {
                assert forall|t: int| 0 <= t < out@.len() implies #[trigger] out@[t] == nv12_rgb_byte(nv12@, w as int, h as int, t) by {
                    if t >= base {
                        lemma_flat_index(j as int, i as int, w as int, t - base);
                    }
                }
            }
            i = i + 1;
        }
        proof {
            assert((j * w + w) * 3 == (j + 1) * w * 3) by (nonlinear_arith);
        }
        j = j + 1;
    }
    proof {
        assert(h * w * 3 == w * h * 3) by (nonlinear_arith);
    }
    out
}

/// The debug name of a pixel format.
pub open spec fn pixel_format_name(f: PixelFormat) -> Seq<char> {
    match f {
        PixelFormat::Nv12 => "Nv12"@,
        PixelFormat::Yuyv => "Yuyv"@,
        PixelFormat::Rgb24 => "Rgb24"@,
        PixelFormat::Mjpeg => "Mjpeg"@,
    }
}

pub(crate) fn pixel_format_str(f: PixelFormat) -> (s: &'static str)
    ensures
        s@ == pixel_format_name(f),
{
    match f {
        PixelFormat::Nv12 => "Nv12",
        PixelFormat::Yuyv => "Yuyv",
        PixelFormat::Rgb24 => "Rgb24",
        PixelFormat::Mjpeg => "Mjpeg",
    }
}

/// Decimal text of a number.
pub open spec fn dec(n: nat) -> Seq<char> {
    ascii_chars(dec_bytes(n))
}

/// The message of a frame whose size does not match its format.
pub open spec fn size_mismatch_text(kind: Seq<char>, got: nat, expected: nat) -> Seq<char> {
    kind + " frame size mismatch: got "@ + dec(got) + ", expected "@ + dec(expected)
}

fn size_mismatch(kind: &str, got: usize, expected: usize) -> (e: InferenceError)
    ensures
        e matches InferenceError::Inference(m) && m@ == size_mismatch_text(kind@, got as nat, expected as nat),
{
    let mut m = kind.to_owned();
    m.append(" frame size mismatch: got ");
    let g = decimal_string(got as u64);
    m.append(g.as_str());
    m.append(", expected ");
    let x = decimal_string(expected as u64);
    m.append(x.as_str());
    InferenceError::Inference(m)
}

/// What a frame of the given format and geometry converts to, given its
/// bytes: RGB24 is passed through when it has exactly `w * h * 3` bytes;
/// NV12 is converted when it has exactly `w * h * 3 / 2` bytes; a size
/// mismatch or any other format is refused with an inference error.
pub open spec fn frame_rgb_ok(data: Seq<u8>, w: int, h: int, format: PixelFormat) -> bool {
    match format {
        PixelFormat::Rgb24 => data.len() == w * h * 3,
        PixelFormat::Nv12 => data.len() == w * h * 3 / 2,
        _ => false,
    }
}

/// The RGB24 bytes of a frame (see `frame_rgb_ok`).
pub fn frame_to_rgb24(data: &Vec<u8>, width: u32, height: u32, format: PixelFormat) -> (r: Result<Vec<u8>, InferenceError>)
    requires
        width * height * 3 <= usize::MAX,
        format == PixelFormat::Nv12 && data@.len() == width * height * 3 / 2 ==> nv12_fits(
            data@.len() as int,
            width as int,
            height as int,
        ),
    ensures
        format == PixelFormat::Rgb24 && data@.len() == width * height * 3 ==> (r matches Ok(v) && v@ == data@),
        format == PixelFormat::Rgb24 && data@.len() != width * height * 3 ==> (r matches Err(InferenceError::Inference(m))
            && m@ == size_mismatch_text("RGB24"@, data@.len(), (width * height * 3) as nat)),
        format == PixelFormat::Nv12 && data@.len() == width * height * 3 / 2 ==> (r matches Ok(v)
            && v@.len() == width * height * 3
            && forall|t: int| 0 <= t < width * height * 3 ==> #[trigger] v@[t] == nv12_rgb_byte(data@, width as int, height as int, t)),
        format == PixelFormat::Nv12 && data@.len() != width * height * 3 / 2 ==> (r matches Err(InferenceError::Inference(m))
            && m@ == size_mismatch_text("NV12"@, data@.len(), (width * height * 3 / 2) as nat)),
        format != PixelFormat::Rgb24 && format != PixelFormat::Nv12 ==> (r matches Err(InferenceError::Inference(m))
            && m@ == "CpuInferenceBackend expects RGB24 or NV12 frame; got "@ + pixel_format_name(format)
            + ". Decode MJPEG/YUYV upstream via video-capture::convert."@),
{
    let w = width as usize;
    let h = height as usize;
    match format {
        PixelFormat::Rgb24 => {
            let expected = w * h * 3;
            if data.len() != expected {
                return Err(size_mismatch("RGB24", data.len(), expected));
            }
            Ok(data.clone())
        },
        PixelFormat::Nv12 => {
            let expected = w * h * 3 / 2;
            if data.len() != expected {
                return Err(size_mismatch("NV12", data.len(), expected));
            }
            Ok(nv12_to_rgb24(data.as_slice(), w, h))
        },
        other => {
            let mut m = "CpuInferenceBackend expects RGB24 or NV12 frame; got ".to_owned();
            m.append(pixel_format_str(other));
            m.append(". Decode MJPEG/YUYV upstream via video-capture::convert.");
            Err(InferenceError::Inference(m))
        },
    }
}

/// The base64 alphabet (standard, with `+` and `/`).
pub open spec fn b64_char(i: int) -> u8 {
    if i < 26 {
        (65 + i) as u8
    } else if i < 52 {
        (97 + i - 26) as u8
    } else if i < 62 {
        (48 + i - 52) as u8
    } else if i == 62 {
        43
    } else {
        47
    }
}

/// Standard base64 encoding with `=` padding, as ASCII bytes.
pub open spec fn base64_bytes(d: Seq<u8>) -> Seq<u8>
    decreases d.len(),
{
    if d.len() >= 3 {
        b64_group(d[0] as int, d[1] as int, d[2] as int) + base64_bytes(d.subrange(3, d.len() as int))
    } else if d.len() == 2 {
        let (a, b) = (d[0] as int, d[1] as int);
        seq![b64_char(a / 4), b64_char((a % 4) * 16 + b / 16), b64_char((b % 16) * 4), 61u8]
    } else if d.len() == 1 {
        let a = d[0] as int;
        seq![b64_char(a / 4), b64_char((a % 4) * 16), 61u8, 61u8]
    } else {
        Seq::empty()
    }
}

/// The four characters of a full group of three bytes.
pub open spec fn b64_group(a: int, b: int, c: int) -> Seq<u8> {
    seq![
        b64_char(a / 4),
        b64_char((a % 4) * 16 + b / 16),
        b64_char((b % 16) * 4 + c / 64),
        b64_char(c % 64),
    ]
}

fn b64_byte(i: u8) -> (c: u8)
    requires
        i < 64,
    ensures
        c == b64_char(i as int),
        c < 128,
{
    if i < 26 {
        65 + i
    } else if i < 52 {
        97 + i - 26
    } else if i < 62 {
        48 + i - 52
    } else if i == 62 {
        43
    } else {
        47
    }
}

proof fn lemma_base64_ascii(d: Seq<u8>)
    ensures
        all_ascii(base64_bytes(d)),
    decreases d.len(),
{
    if d.len() >= 3 {
        lemma_base64_ascii(d.subrange(3, d.len() as int));
    }
}

/// Every group of three input bytes, and a final partial group, becomes
/// four characters: the encoding is `4 * ceil(n / 3)` characters long.
pub proof fn base64_length(d: Seq<u8>)
    ensures
        base64_bytes(d).len() == 4 * ((d.len() + 2) / 3),
    decreases d.len(),
{
    if d.len() >= 3 {
        base64_length(d.subrange(3, d.len() as int));
    }
}

/// Encodes bytes as standard base64 with `=` padding.
pub fn base64_encode(data: &[u8]) -> (s: String)
    ensures
        s@ == ascii_chars(base64_bytes(data@)),
{
    let n = data.len();
    let mut out: Vec<u8> = Vec::new();
    let mut i: usize = 0;
    proof {
        assert(data@.subrange(0, n as int) =~= data@);
        assert(out@ + base64_bytes(data@) =~= base64_bytes(data@));
    }
    while n - i >= 3
        invariant
            n == data@.len(),
            i <= n,
            out@ + base64_bytes(data@.subrange(i as int, n as int)) == base64_bytes(data@),
        decreases n - i,
    {
        let b0 = data[i];
        let b1 = data[i + 1];
        let b2 = data[i + 2];
        let ghost rest = data@.subrange(i as int, n as int);
        proof {
            assert(rest.subrange(3, rest.len() as int) =~= data@.subrange(i + 3, n as int));
        }
        let ghost before = out@;
        out.push(b64_byte(b0 / 4));
        out.push(b64_byte((b0 % 4) * 16 + b1 / 16));
        out.push(b64_byte((b1 % 16) * 4 + b2 / 64));
        out.push(b64_byte(b2 % 64));
        proof {
            let chunk = b64_group(b0 as int, b1 as int, b2 as int);
            assert(base64_bytes(rest) == chunk + base64_bytes(data@.subrange(i + 3, n as int)));
            assert(out@ =~= before + chunk);
        }
        i = i + 3;
    }
    let rem = n - i;
    let ghost rest = data@.subrange(i as int, n as int);
    if rem == 2 {
        let b0 = data[i];
        let b1 = data[i + 1];
        out.push(b64_byte(b0 / 4));
        out.push(b64_byte((b0 % 4) * 16 + b1 / 16));
        out.push(b64_byte((b1 % 16) * 4));
        out.push(61);
    } else if rem == 1 {
        let b0 = data[i];
        out.push(b64_byte(b0 / 4));
        out.push(b64_byte((b0 % 4) * 16));
        out.push(61);
        out.push(61);
    }
    proof {
        assert(out@ =~= base64_bytes(data@));
        lemma_base64_ascii(data@);
    }
    ascii_string(out)
}


/// The value of a base64 character, or -1 for a byte outside the alphabet.
pub open spec fn b64_value(c: u8) -> int {
    if 65 <= c <= 90 {
        c - 65
    } else if 97 <= c <= 122 {
        c - 97 + 26
    } else if 48 <= c <= 57 {
        c - 48 + 52
    } else if c == 43 {
        62
    } else if c == 47 {
        63
    } else {
        -1
    }
}

/// Standard base64 decoding of padded text: each group of four
/// characters gives three bytes, two when it ends in one `=`, one when it
/// ends in two.
pub open spec fn base64_decoded(e: Seq<u8>) -> Seq<u8>
    decreases e.len(),
{
    if e.len() < 4 {
        Seq::empty()
    } else {
        let (v0, v1, v2, v3) = (b64_value(e[0]), b64_value(e[1]), b64_value(e[2]), b64_value(e[3]));
        let head = if e[2] == 61 {
            seq![(v0 * 4 + v1 / 16) as u8]
        } else if e[3] == 61 {
            seq![(v0 * 4 + v1 / 16) as u8, ((v1 % 16) * 16 + v2 / 4) as u8]
        } else {
            seq![
                (v0 * 4 + v1 / 16) as u8,
                ((v1 % 16) * 16 + v2 / 4) as u8,
                ((v2 % 4) * 64 + v3) as u8,
            ]
        };
        head + base64_decoded(e.subrange(4, e.len() as int))
    }
}

proof fn lemma_b64_char_value(i: int)
    requires
        0 <= i < 64,
    ensures
        b64_value(b64_char(i)) == i,
        b64_char(i) != 61,
{
}

proof fn lemma_b64_bytes_back(a: u8, b: u8, c: u8)
    ensures
        (a / 4) * 4 + ((a % 4) * 16 + b / 16) / 16 == a,
        (((a % 4) * 16 + b / 16) % 16) * 16 + ((b % 16) * 4 + c / 64) / 4 == b,
        (((b % 16) * 4 + c / 64) % 4) * 64 + c % 64 == c,
        ((a % 4) * 16 + b / 16) < 64,
        ((b % 16) * 4 + c / 64) < 64,
{
    assert((a / 4) * 4 + ((a % 4) * 16 + b / 16) / 16 == a) by (bit_vector);
    assert((((a % 4) * 16 + b / 16) % 16) * 16 + ((b % 16) * 4 + c / 64) / 4 == b) by (bit_vector);
    assert((((b % 16) * 4 + c / 64) % 4) * 64 + c % 64 == c) by (bit_vector);
    assert(((a % 4) * 16 + b / 16) < 64) by (bit_vector);
    assert(((b % 16) * 4 + c / 64) < 64) by (bit_vector);
}

/// Decoding the base64 text of any bytes gives those bytes back.
pub proof fn base64_round_trip(d: Seq<u8>)
    ensures
        base64_decoded(base64_bytes(d)) == d,
    decreases d.len(),
{
    let e = base64_bytes(d);
    if d.len() >= 3 {
        let (a, b, c) = (d[0], d[1], d[2]);
        let (ai, bi, ci) = (a as int, b as int, c as int);
        let rest = d.subrange(3, d.len() as int);
        base64_round_trip(rest);
        base64_length(rest);
        lemma_b64_bytes_back(a, b, c);
        lemma_b64_char_value(ai / 4);
        lemma_b64_char_value((ai % 4) * 16 + bi / 16);
        lemma_b64_char_value((bi % 16) * 4 + ci / 64);
        lemma_b64_char_value(ci % 64);
        let g = b64_group(a as int, b as int, c as int);
        assert(e.subrange(4, e.len() as int) =~= base64_bytes(rest));
        assert(e[0] == g[0] && e[1] == g[1] && e[2] == g[2] && e[3] == g[3]);
        let (v0, v1, v2, v3) = (b64_value(e[0]), b64_value(e[1]), b64_value(e[2]), b64_value(e[3]));
        assert(v0 == ai / 4 && v1 == (ai % 4) * 16 + bi / 16);
        assert(v2 == (bi % 16) * 4 + ci / 64 && v3 == ci % 64);
        assert(e[2] != 61 && e[3] != 61);
        assert((v0 * 4 + v1 / 16) as u8 == a);
        assert(((v1 % 16) * 16 + v2 / 4) as u8 == b);
        assert(((v2 % 4) * 64 + v3) as u8 == c);
        assert(base64_decoded(e) == seq![a, b, c] + base64_decoded(base64_bytes(rest)));
        assert(seq![a, b, c] + rest =~= d);
    } else if d.len() == 2 {
        let (a, b) = (d[0], d[1]);
        let (ai, bi) = (a as int, b as int);
        lemma_b64_bytes_back(a, b, 0);
        lemma_b64_char_value(ai / 4);
        lemma_b64_char_value((ai % 4) * 16 + bi / 16);
        lemma_b64_char_value((bi % 16) * 4);
        assert(e.subrange(4, e.len() as int) =~= Seq::<u8>::empty());
        let (v0, v1, v2) = (b64_value(e[0]), b64_value(e[1]), b64_value(e[2]));
        assert(v0 == ai / 4 && v1 == (ai % 4) * 16 + bi / 16 && v2 == (bi % 16) * 4);
        assert(e[2] != 61 && e[3] == 61);
        assert((v0 * 4 + v1 / 16) as u8 == a);
        assert(((v1 % 16) * 16 + v2 / 4) as u8 == b);
        assert(e.len() == 4);
        assert(base64_decoded(e.subrange(4, e.len() as int)) == Seq::<u8>::empty());
        assert(base64_decoded(e) == seq![(v0 * 4 + v1 / 16) as u8, ((v1 % 16) * 16 + v2 / 4) as u8]
            + Seq::<u8>::empty());
        assert(base64_decoded(e) =~= seq![a, b]);
        assert(seq![a, b] =~= d);
    } else if d.len() == 1 {
        let a = d[0];
        let ai = a as int;
        lemma_b64_bytes_back(a, 0, 0);
        lemma_b64_char_value(ai / 4);
        lemma_b64_char_value((ai % 4) * 16);
        assert(e.subrange(4, e.len() as int) =~= Seq::<u8>::empty());
        let (v0, v1) = (b64_value(e[0]), b64_value(e[1]));
        assert(v0 == ai / 4 && v1 == (ai % 4) * 16);
        assert(e[2] == 61);
        assert((v0 * 4 + v1 / 16) as u8 == a);
        assert(e.len() == 4);
        assert(base64_decoded(e.subrange(4, e.len() as int)) == Seq::<u8>::empty());
        assert(base64_decoded(e) == seq![(v0 * 4 + v1 / 16) as u8] + Seq::<u8>::empty());
        assert(base64_decoded(e) =~= seq![a]);
        assert(seq![a] =~= d);
    } else {
        assert(d =~= Seq::<u8>::empty());
    }
}

/// The base64 text of any bytes uses only the 64 characters of the
/// alphabet, followed by `(3 - n % 3) % 3` padding characters `=`.
pub proof fn base64_alphabet_and_padding(d: Seq<u8>)
    ensures
        ({
            let e = base64_bytes(d);
            let pad = (3 - d.len() % 3) % 3;
            &&& forall|i: int| 0 <= i < e.len() - pad ==> b64_value(#[trigger] e[i]) >= 0
            &&& forall|i: int| e.len() - pad <= i < e.len() ==> #[trigger] e[i] == 61
        }),
    decreases d.len(),
{
    let e = base64_bytes(d);
    base64_length(d);
    if d.len() >= 3 {
        let (a, b, c) = (d[0], d[1], d[2]);
        let (ai, bi, ci) = (a as int, b as int, c as int);
        let rest = d.subrange(3, d.len() as int);
        base64_alphabet_and_padding(rest);
        base64_length(rest);
        lemma_b64_bytes_back(a, b, c);
        lemma_b64_char_value(ai / 4);
        lemma_b64_char_value((ai % 4) * 16 + bi / 16);
        lemma_b64_char_value((bi % 16) * 4 + ci / 64);
        lemma_b64_char_value(ci % 64);
        let er = base64_bytes(rest);
        assert((3 - rest.len() % 3) % 3 == (3 - d.len() % 3) % 3);
        assert forall|i: int| 4 <= i < e.len() implies #[trigger] e[i] == er[i - 4] by {}
    } else if d.len() == 2 {
        let (a, b) = (d[0], d[1]);
        let (ai, bi) = (a as int, b as int);
        lemma_b64_bytes_back(a, b, 0);
        lemma_b64_char_value(ai / 4);
        lemma_b64_char_value((ai % 4) * 16 + bi / 16);
        lemma_b64_char_value((bi % 16) * 4);
    } else if d.len() == 1 {
        let a = d[0];
        let ai = a as int;
        lemma_b64_bytes_back(a, 0, 0);
        lemma_b64_char_value(ai / 4);
        lemma_b64_char_value((ai % 4) * 16);
    }
}

/// The cadence at which annotated frames are written: every frame is
/// counted, and a frame is written when the count is a multiple of
/// `save_every_n` (at least 1).
#[derive(Debug, Clone, Copy)]
pub struct SaveThrottle {
    save_every_n: u64,
    frame_counter: u64,
    saved_counter: u64,
}

impl SaveThrottle {
    pub closed spec fn every(&self) -> u64 {
        self.save_every_n
    }

    pub closed spec fn frames(&self) -> u64 {
        self.frame_counter
    }

    pub closed spec fn saved(&self) -> u64 {
        self.saved_counter
    }

    /// A cadence of every `save_every_n`-th frame (0 is taken as 1), with
    /// nothing counted yet.
    pub fn new(save_every_n: u64) -> (t: Self)
        ensures
            t.every() == if save_every_n == 0 {
                1
            } else {
                save_every_n
            },
            t.frames() == 0,
            t.saved() == 0,
    {
        let n = if save_every_n > 1 { save_every_n } else { 1 };
        SaveThrottle { save_every_n: n, frame_counter: 0, saved_counter: 0 }
    }

    /// Whether the frame counted last is written.
    pub fn should_save(&self) -> (b: bool)
        requires
            self.every() > 0,
        ensures
            b == (self.frames() % self.every() == 0),
    {
        self.frame_counter % self.save_every_n
            == 0
    }

    /// Counts a frame and tells whether it is written (the counter advances
    /// also for skipped frames, so the cadence stays stable).
    pub fn next_frame(&mut self) -> (b: bool)
        requires
            old(self).every() > 0,
            old(self).frames() < u64::MAX,
        ensures
            final(self).frames() == old(self).frames() + 1,
            final(self).every() == old(self).every(),
            final(self).saved() == old(self).saved(),
            b == (final(self).frames() % final(self).every() == 0),
    {
        self.frame_counter = self.frame_counter + 1;
        self.frame_counter % self.save_every_n == 0
    }

    /// Counts a frame that was written.
    pub fn record_saved(&mut self)
        requires
            old(self).saved() < u64::MAX,
        ensures
            final(self).saved() == old(self).saved() + 1,
            final(self).frames() == old(self).frames(),
            final(self).every() == old(self).every(),
    {
        self.saved_counter = self.saved_counter + 1;
    }

    /// Number of frames written so far.
    pub fn saved_count(&self) -> (n: u64)
        ensures
            n == self.saved(),
    {
        self.saved_counter
    }
}

} // verus!
