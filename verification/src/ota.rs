//! Over-the-air updates: the update record, the client configuration, the
//! version comparison and the checksum check of a downloaded binary.

use vstd::prelude::*;
use vstd::string::StringExecFns;
use vstd::wrapping::u64_specs;
use crate::health::{package_version, version_string};
use crate::text::{hex16_string, ascii_chars, hex_bytes, str_eq};

verus! {

/// Errors of the update client.
#[derive(Debug, Clone)]
pub enum OtaError {
    Http(String),
    ChecksumMismatch { expected: String, actual: String },
    Io(String),
    VersionCheck(String),
}

/// The text under which an update error is reported.
pub open spec fn ota_error_text(e: OtaError) -> Seq<char> {
    match e {
        OtaError::Http(s) => "HTTP error: "@ + s@,
        OtaError::ChecksumMismatch { expected, actual } => "checksum mismatch: expected "@
            + expected@ + ", got "@ + actual@,
        OtaError::Io(s) => "IO error: "@ + s@,
        OtaError::VersionCheck(s) => "version check failed: "@ + s@,
    }
}

impl OtaError {
    /// The text under which the error is reported.
    pub fn message(&self) -> (m: String)
        ensures
            m@ == ota_error_text(*self),
    {
        match self {
            OtaError::Http(s) => {
                let mut m = "HTTP error: ".to_owned();
                m.append(s.as_str());
                m
            },
            OtaError::ChecksumMismatch { expected, actual } => {
                let mut m = "checksum mismatch: expected ".to_owned();
                m.append(expected.as_str());
                m.append(", got ");
                m.append(actual.as_str());
                m
            },
            OtaError::Io(s) => {
                let mut m = "IO error: ".to_owned();
                m.append(s.as_str());
                m
            },
            OtaError::VersionCheck(s) => {
                let mut m = "version check failed: ".to_owned();
                m.append(s.as_str());
                m
            },
        }
    }
}

/// Update metadata served by the update server.
#[derive(Debug, Clone)]
pub struct UpdateInfo {
    pub version: String,
    pub binary_url: String,
    pub checksum_sha256: String,
    pub release_notes: Option<String>,
}

/// Configuration of the update client.
#[derive(Debug, Clone)]
pub struct OtaConfig {
    /// Update server URL.
    pub server_url: String,
    /// Version currently installed.
    pub current_version: String,
    /// Binary to replace.
    pub binary_path: String,
    /// Where the current binary is backed up.
    pub backup_path: String,
    /// Check interval (s).
    pub check_interval_secs: u64,
    /// Whether updates are enabled.
    pub enabled: bool,
}

impl Default for OtaConfig {
    fn default() -> (c: Self)
        ensures
            c.server_url@ == "http://localhost:9090"@,
            c.current_version@ == package_version(),
            c.binary_path@ == "/opt/auto-targeting/bin/auto-targeting"@,
            c.backup_path@ == "/opt/auto-targeting/previous/auto-targeting"@,
            c.check_interval_secs == 3600,
            !c.enabled,
    {
        OtaConfig {
            server_url: "http://localhost:9090".to_owned(),
            current_version: version_string(),
            binary_path: "/opt/auto-targeting/bin/auto-targeting".to_owned(),
            backup_path: "/opt/auto-targeting/previous/auto-targeting".to_owned(),
            check_interval_secs: 3600,
            enabled: false,
        }
    }
}

/// The (non-cryptographic) checksum of a binary: starting from zero, each
/// byte folds in as `hash * 31 + byte`, wrapping at 64 bits.
pub open spec fn checksum_value(data: Seq<u8>) -> u64
    decreases data.len(),
{
    if data.len() == 0 {
        0
    } else {
        u64_specs::wrapping_add(
            u64_specs::wrapping_mul(checksum_value(data.drop_last()), 31),
            data.last() as u64,
        )
    }
}

/// The checksum as sixteen lowercase hexadecimal digits.
pub open spec fn checksum_text(data: Seq<u8>) -> Seq<char> {
    ascii_chars(hex_bytes(checksum_value(data) as nat, 16))
}

/// The checksum of `data` as sixteen lowercase hexadecimal digits.
pub fn sha256_hex(data: &[u8]) -> (s: String)
    ensures
        s@ == checksum_text(data@),
{
    let mut hash: u64 = 0;
    let mut i: usize = 0;
    while i < data.len()
        invariant
            i <= data@.len(),
            hash == checksum_value(data@.take(i as int)),
        decreases data@.len() - i,
    {
        proof {
            assert(data@.take(i + 1).drop_last() =~= data@.take(i as int));
        }
        hash = hash.wrapping_mul(31).wrapping_add(data[i] as u64);
        i = i + 1;
    }
    proof {
        assert(data@.take(data@.len() as int) =~= data@);
    }
    hex16_string(hash)
}

/// Lexicographic order of character sequences (the order of `String`).
pub open spec fn seq_greater(a: Seq<char>, b: Seq<char>) -> bool
    decreases a.len(),
{
    if a.len() == 0 {
        false
    } else if b.len() == 0 {
        true
    } else if a[0] != b[0] {
        (a[0] as u32) > (b[0] as u32)
    } else {
        seq_greater(a.subrange(1, a.len() as int), b.subrange(1, b.len() as int))
    }
}

fn greater_from(a: &Vec<char>, b: &Vec<char>, i: usize) -> (r: bool)
    requires
        i <= a@.len(),
        i <= b@.len(),
    ensures
        r == seq_greater(a@.subrange(i as int, a@.len() as int), b@.subrange(i as int, b@.len() as int)),
    decreases a@.len() - i,
{
    let ghost sa = a@.subrange(i as int, a@.len() as int);
    let ghost sb = b@.subrange(i as int, b@.len() as int);
    if i == a.len() {
        return false;
    }
    if i == b.len() {
        return true;
    }
    proof {
        assert(sa[0] == a@[i as int]);
        assert(sb[0] == b@[i as int]);
    }
    if a[i] != b[i] {
        return (a[i] as u32) > (b[i] as u32);
    }
    proof {
        assert(sa.subrange(1, sa.len() as int) =~= a@.subrange(i + 1, a@.len() as int));
        assert(sb.subrange(1, sb.len() as int) =~= b@.subrange(i + 1, b@.len() as int));
    }
    greater_from(a, b, i + 1)
}

/// Whether version `a` is newer than `b`: versions are compared as
/// strings, character by character.
pub fn is_newer_version(a: &str, b: &str) -> (r: bool)
    ensures
        r == seq_greater(a@, b@),
{
    let va = crate::text::chars_of(a);
    let vb = crate::text::chars_of(b);
    proof {
        assert(va@.subrange(0, va@.len() as int) =~= va@);
        assert(vb@.subrange(0, vb@.len() as int) =~= vb@);
    }
    greater_from(&va, &vb, 0)
}

/// The update to install: the offered one when its version is newer than
/// the current one, nothing otherwise.
pub fn offered_update(info: UpdateInfo, current_version: &str) -> (r: Option<UpdateInfo>)
    ensures
        seq_greater(info.version@, current_version@) ==> (r matches Some(i) && i.version@
            == info.version@ && i.binary_url@ == info.binary_url@ && i.checksum_sha256@
            == info.checksum_sha256@),
        !seq_greater(info.version@, current_version@) ==> r is None,
{
    if is_newer_version(info.version.as_str(), current_version) {
        Some(info)
    } else {
        None
    }
}

/// Checks a downloaded binary against the announced checksum: a mismatch
/// is refused with both checksums; a match yields the checksum.
pub fn verify_checksum(binary: &[u8], expected: &str) -> (r: Result<String, OtaError>)
    ensures
        checksum_text(binary@) == expected@ ==> (r matches Ok(s) && s@ == expected@),
        checksum_text(binary@) != expected@ ==> (r matches Err(OtaError::ChecksumMismatch {
            expected: e,
            actual: a,
        }) && e@ == expected@ && a@ == checksum_text(binary@)),
{
    let actual = sha256_hex(binary);
    if !str_eq(actual.as_str(), expected) {
        return Err(OtaError::ChecksumMismatch { expected: expected.to_owned(), actual });
    }
    Ok(actual)
}

/// Equal binaries always have equal checksums, so a binary that matched
/// once matches again.
pub proof fn checksum_is_deterministic(a: Seq<u8>, b: Seq<u8>)
    requires
        a == b,
    ensures
        checksum_text(a) == checksum_text(b),
{
}

/// No version is newer than itself.
pub proof fn version_not_newer_than_itself(v: Seq<char>)
    ensures
        !seq_greater(v, v),
    decreases v.len(),
{
    if v.len() > 0 {
        version_not_newer_than_itself(v.subrange(1, v.len() as int));
    }
}

/// Of two different versions exactly one is newer.
pub proof fn versions_are_totally_ordered(a: Seq<char>, b: Seq<char>)
    requires
        a != b,
    ensures
        seq_greater(a, b) != seq_greater(b, a),
    decreases a.len(),
{
    if a.len() == 0 {
        assert(b.len() > 0) by {
            if b.len() == 0 {
                assert(a =~= b);
            }
        }
    } else if b.len() == 0 {
    } else if a[0] != b[0] {
        vstd::utf8::char_u32_cast(a[0], a[0] as u32);
        vstd::utf8::char_u32_cast(b[0], b[0] as u32);
        assert((a[0] as u32) != (b[0] as u32));
    } else {
        let ta = a.subrange(1, a.len() as int);
        let tb = b.subrange(1, b.len() as int);
        if ta == tb {
            assert(a =~= seq![a[0]] + ta);
            assert(b =~= seq![b[0]] + tb);
        } else {
            versions_are_totally_ordered(ta, tb);
        }
    }
}

} // verus!
