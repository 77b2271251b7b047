//! Framing and checks of the inference-bridge protocol. Each message is a
//! four-byte big-endian length followed by its JSON text; a response longer
//! than ten million bytes is refused; frames are handed over through the
//! buffers of a shared-memory segment in turn. Encoding and decoding the JSON
//! itself, and the socket, belong to the program.

use vstd::prelude::*;
use vstd::string::StringExecFns;
use vstd::string::StringSliceAdditionalSpecFns;
use crate::imaging::InferenceError;
use crate::repl::dec_text;
use crate::text::decimal_string;
use crate::types::PixelFormat;

verus! {

/// The largest response the client accepts, in bytes.
pub const MAX_RESPONSE_LEN: u32 = 10000000;

/// The name under which a pixel format travels in requests.
pub open spec fn wire_format_name(f: PixelFormat) -> Seq<char> {
    match f {
        PixelFormat::Nv12 => "nv12"@,
        PixelFormat::Rgb24 => "rgb24"@,
        PixelFormat::Yuyv => "yuyv"@,
        PixelFormat::Mjpeg => "mjpeg"@,
    }
}

/// The name under which a pixel format travels in requests.
pub fn wire_format(f: PixelFormat) -> (s: &'static str)
    ensures
        s@ == wire_format_name(f),
{
    match f {
        PixelFormat::Nv12 => "nv12",
        PixelFormat::Rgb24 => "rgb24",
        PixelFormat::Yuyv => "yuyv",
        PixelFormat::Mjpeg => "mjpeg",
    }
}

/// The four big-endian bytes of `n`.
pub open spec fn be_bytes(n: u32) -> Seq<u8> {
    seq![
        (n / 0x1000000) as u8,
        ((n / 0x10000) % 0x100) as u8,
        ((n / 0x100) % 0x100) as u8,
        (n % 0x100) as u8,
    ]
}

/// The number four big-endian bytes stand for.
pub open spec fn be_value(b: Seq<u8>) -> int {
    b[0] * 0x1000000 + b[1] * 0x10000 + b[2] * 0x100 + b[3]
}

/// Reading the bytes of a length gives the length back.
pub proof fn length_prefix_round_trips(n: u32)
    ensures
        be_value(be_bytes(n)) == n,
{
    let b = be_bytes(n);
    assert(b[0] == n / 0x1000000);
    assert(b[1] == (n / 0x10000) % 0x100);
    assert(b[2] == (n / 0x100) % 0x100);
    assert(b[3] == n % 0x100);
    assert(be_value(b) == n) by (nonlinear_arith)
        requires
            b[0] == n / 0x1000000,
            b[1] == (n / 0x10000) % 0x100,
            b[2] == (n / 0x100) % 0x100,
            b[3] == n % 0x100,
            n <= 0xffff_ffff,
    ;
}

/// The framed form of a message: its length in four big-endian bytes,
/// then its bytes.
pub fn frame_message(json: &str) -> (out: Vec<u8>)
    requires
        json.spec_bytes().len() <= u32::MAX,
    ensures
        out@ == be_bytes(json.spec_bytes().len() as u32) + json.spec_bytes(),
{
    let bytes = json.as_bytes();
    let n = bytes.len() as u32;
    let mut out: Vec<u8> = Vec::new();
    out.push((n / 0x1000000) as u8);
    out.push(((n / 0x10000) % 0x100) as u8);
    out.push(((n / 0x100) % 0x100) as u8);
    out.push((n % 0x100) as u8);
    let ghost head = out@;
    proof {
        assert(head =~= be_bytes(n));
    }
    let mut i: usize = 0;
    while i < bytes.len()
        invariant
            i <= bytes@.len(),
            bytes@ == json.spec_bytes(),
            out@ == head + bytes@.take(i as int),
        decreases bytes@.len() - i,
    {
        out.push(bytes[i]);
        proof {
            assert(bytes@.take(i + 1) =~= bytes@.take(i as int).push(bytes@[i as int]));
            assert(out@ =~= head + bytes@.take(i + 1));
        }
        i = i + 1;
    }
    proof {
        assert(bytes@.take(i as int) =~= bytes@);
    }
    out
}

/// Reads the length of a response from its four-byte prefix; a length over
/// `MAX_RESPONSE_LEN` is refused with "response too large: N bytes".
pub fn response_length(prefix: [u8; 4]) -> (r: Result<usize, InferenceError>)
    ensures
        be_value(prefix@) <= MAX_RESPONSE_LEN ==> r == Ok::<usize, InferenceError>(
            be_value(prefix@) as usize,
        ),
        be_value(prefix@) > MAX_RESPONSE_LEN ==> (r matches Err(InferenceError::BridgeProtocol(m))
            && m@ == "response too large: "@ + dec_text(be_value(prefix@) as u64) + " bytes"@),
{
    let n: u64 = prefix[0] as u64 * 0x1000000 + prefix[1] as u64 * 0x10000 + prefix[2] as u64
        * 0x100 + prefix[3] as u64;
    if n > MAX_RESPONSE_LEN as u64 {
        let mut m = "response too large: ".to_owned();
        let d = decimal_string(n);
        m.append(d.as_str());
        m.append(" bytes");
        return Err(InferenceError::BridgeProtocol(m));
    }
    Ok(n as usize)
}

/// The size of one frame buffer in the shared-memory segment: a
/// letterboxed RGB frame of the model's input size.
pub fn shm_frame_size(input_width: u32, input_height: u32) -> (n: usize)
    requires
        input_width * input_height * 3 <= usize::MAX,
    ensures
        n == input_width * input_height * 3,
{
    proof {
        assert(0 <= input_width * input_height) by (nonlinear_arith);
        assert(input_width * input_height <= input_width * input_height * 3) by (nonlinear_arith)
            requires
                0 <= input_width * input_height,
        ;
    }
    input_width as usize * input_height as usize * 3
}

/// The buffer the next frame goes to, and the cursor after it: buffers are
/// used in turn, the cursor counting frames modulo 2^32.
pub fn next_shm_buffer(cursor: u32, buffers: u32) -> (r: (u32, u32))
    requires
        buffers > 0,
    ensures
        r.0 == cursor % buffers,
        r.0 < buffers,
        r.1 == (cursor + 1) % 0x1_0000_0000,
{
    let index = cursor % buffers;
    let next = cursor.wrapping_add(1);
    (index, next)
}

/// The reason a frame cannot be written to buffer `index`, if any: an index
/// past the last buffer, or a frame larger than a buffer.
pub open spec fn shm_write_problem(index: u32, buffers: u32, data_len: nat, frame_size: nat) -> Option<
    Seq<char>,
> {
    if index >= buffers {
        Some("buf index "@ + dec_text(index as u64) + " >= "@ + dec_text(buffers as u64))
    } else if data_len > frame_size {
        Some("frame "@ + dec_text(data_len as u64) + " > buffer "@ + dec_text(frame_size as u64))
    } else {
        None
    }
}

/// Checks that a frame fits buffer `index` of the segment.
pub fn check_shm_write(index: u32, buffers: u32, data_len: usize, frame_size: usize) -> (r: Result<
    (),
    String,
>)
    requires
        data_len <= u64::MAX,
        frame_size <= u64::MAX,
    ensures
        match shm_write_problem(index, buffers, data_len as nat, frame_size as nat) {
            None => r is Ok,
            Some(m) => r matches Err(e) && e@ == m,
        },
{
    if index >= buffers {
        let mut m = "buf index ".to_owned();
        let a = decimal_string(index as u64);
        m.append(a.as_str());
        m.append(" >= ");
        let b = decimal_string(buffers as u64);
        m.append(b.as_str());
        return Err(m);
    }
    if data_len > frame_size {
        let mut m = "frame ".to_owned();
        let a = decimal_string(data_len as u64);
        m.append(a.as_str());
        m.append(" > buffer ");
        let b = decimal_string(frame_size as u64);
        m.append(b.as_str());
        return Err(m);
    }
    Ok(())
}

/// The outcome of an `init` acknowledgement: refused with "init failed: "
/// and the bridge's error text when it is not ok.
pub fn check_init_ack(ok: bool, error: &str) -> (r: Result<(), InferenceError>)
    ensures
        ok ==> r is Ok,
        !ok ==> (r matches Err(InferenceError::BridgeConnection(m)) && m@ == "init failed: "@
            + error@),
{
    if ok {
        Ok(())
    } else {
        let mut m = "init failed: ".to_owned();
        m.append(error);
        Err(InferenceError::BridgeConnection(m))
    }
}

/// The outcome of an `infer` acknowledgement: refused with "infer failed: "
/// and the bridge's error text when it is not ok.
pub fn check_infer_ack(ok: bool, error: &str) -> (r: Result<(), InferenceError>)
    ensures
        ok ==> r is Ok,
        !ok ==> (r matches Err(InferenceError::Inference(m)) && m@ == "infer failed: "@ + error@),
{
    if ok {
        Ok(())
    } else {
        let mut m = "infer failed: ".to_owned();
        m.append(error);
        Err(InferenceError::Inference(m))
    }
}

/// The outcome of a `health` acknowledgement.
pub fn check_health_ack(ok: bool) -> (r: Result<(), InferenceError>)
    ensures
        ok ==> r is Ok,
        !ok ==> (r matches Err(InferenceError::BridgeConnection(m)) && m@
            == "health check failed"@),
{
    if ok {
        Ok(())
    } else {
        Err(InferenceError::BridgeConnection("health check failed".to_owned()))
    }
}

/// An uninitialised client refuses to infer or check health.
pub fn require_initialized(initialized: bool) -> (r: Result<(), InferenceError>)
    ensures
        initialized ==> r is Ok,
        !initialized ==> r matches Err(InferenceError::ModelNotLoaded),
{
    if initialized {
        Ok(())
    } else {
        Err(InferenceError::ModelNotLoaded)
    }
}

} // verus!
