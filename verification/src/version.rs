//! Entry-point table resolution: version handshake and library-path policy.
//!
//! The engine's function table is resolved once per process.  When the engine
//! is loaded dynamically, the library path comes from an environment override
//! or a platform default, resolved relative to the executable when possible.
//! Before the table is used, the engine's reported version string (such as
//! `"1.23.0"`) is parsed and its minor component compared with the minor
//! version the binding was compiled against: an older engine is a fatal
//! incompatibility, a newer one is accepted with a warning, an equal one is
//! accepted silently.
//!
//! Everything here is pure decision logic over plain values; the actual
//! environment read, dynamic loading and foreign calls live outside the
//! verified crate and merely hand their observations in.

use vstd::prelude::*;
use vstd::string::StringExecFns;

use crate::error::{Error, ErrorCode};
use crate::text::{all_digits, digits_val, is_digit_char, spec_decimal, u64_to_string};

verus! {

/// Outcome of comparing the engine's reported minor version with the minor
/// version the binding expects.
#[derive(Clone, Copy, Debug, PartialEq, Eq, Structural)]
pub enum VersionGate {
    /// The engine is older than the binding expects; resolution must fail
    /// before any other entry point becomes callable.
    Incompatible,
    /// The engine is newer than the binding expects; resolution proceeds, but
    /// a warning should be surfaced to the caller.
    CompatibleNewer,
    /// The engine reports exactly the expected minor version.
    Matched,
}

/// Compares the engine's reported minor version against the expected one.
pub fn version_gate(engine_minor: u32, expected_minor: u32) -> (r: VersionGate)
    ensures
        r == VersionGate::Incompatible <==> engine_minor < expected_minor,
        r == VersionGate::CompatibleNewer <==> engine_minor > expected_minor,
        r == VersionGate::Matched <==> engine_minor == expected_minor,
{
    if engine_minor < expected_minor {
        VersionGate::Incompatible
    } else if engine_minor > expected_minor {
        VersionGate::CompatibleNewer
    } else {
        VersionGate::Matched
    }
}

/// Index of the first `'.'` in `s` at or after `from`, or `s.len()` if there
/// is none.
pub open spec fn find_dot(s: Seq<char>, from: int) -> int
    recommends
        0 <= from <= s.len(),
    decreases s.len() - from,
{
    if from < 0 || from >= s.len() {
        s.len() as int
    } else if s[from] == '.' {
        from
    } else {
        find_dot(s, from + 1)
    }
}

/// The characters between the first and second dots of a version string:
/// the minor-version field.  Empty when there is no first dot.
pub open spec fn minor_segment(s: Seq<char>) -> Seq<char> {
    let d1 = find_dot(s, 0);
    if d1 == s.len() {
        Seq::empty()
    } else {
        s.subrange(d1 + 1, find_dot(s, d1 + 1))
    }
}

/// The minor version denoted by a version string: the value of its minor
/// field if that field is a non-empty string of digits denoting a value
/// that fits in a `u32`, and `0` otherwise.
pub open spec fn spec_minor_version(s: Seq<char>) -> int {
    let seg = minor_segment(s);
    if seg.len() > 0 && all_digits(seg) && digits_val(seg) <= u32::MAX {
        digits_val(seg)
    } else {
        0
    }
}

/// `find_dot` returns `idx` exactly when no dot precedes `idx` and `idx` is
/// a dot or the end of the string.
proof fn lemma_find_dot_is(s: Seq<char>, from: int, idx: int)
    requires
        0 <= from <= idx <= s.len(),
        forall|k: int| from <= k < idx ==> s[k] != '.',
        idx < s.len() ==> s[idx] == '.',
    ensures
        find_dot(s, from) == idx,
    decreases idx - from,
{
    if from < idx {
        lemma_find_dot_is(s, from + 1, idx);
    }
}

/// Extracts the minor version from an engine version string.
///
/// Mirrors splitting the string on `'.'` and parsing the second field as a
/// `u32`, with any absent or unparsable field read as `0`.
pub fn parse_minor_version(s: &str) -> (r: u32)
    ensures
        r as int == spec_minor_version(s@),
{
    let n = s.unicode_len();
    let mut i: usize = 0;
    while i < n && s.get_char(i) != '.'
        invariant
            n == s@.len(),
            i <= n,
            forall|k: int| 0 <= k < i ==> s@[k] != '.',
        decreases n - i,
    {
        i = i + 1;
    }
    proof {
        lemma_find_dot_is(s@, 0, i as int);
    }
    if i == n {
        proof {
            assert(minor_segment(s@) =~= Seq::<char>::empty());
        }
        return 0;
    }
    let mut j: usize = i + 1;
    while j < n && s.get_char(j) != '.'
        invariant
            n == s@.len(),
            i < j <= n,
            forall|k: int| i < k < j ==> s@[k] != '.',
        decreases n - j,
    {
        j = j + 1;
    }
    proof {
        lemma_find_dot_is(s@, i as int + 1, j as int);
    }
    let ghost seg = minor_segment(s@);
    proof {
        assert(seg =~= s@.subrange(i as int + 1, j as int));
    }
    if i + 1 == j {
        return 0;
    }
    let mut acc: u64 = 0;
    let mut k: usize = i + 1;
    while k < j
        invariant
            n == s@.len(),
            i + 1 <= k <= j <= n,
            seg == minor_segment(s@),
            seg =~= s@.subrange(i as int + 1, j as int),
            acc <= u32::MAX,
            all_digits(seg.subrange(0, k - (i + 1))),
            acc as int == digits_val(seg.subrange(0, k - (i + 1))),
        decreases j - k,
    {
        let c = s.get_char(k);
        let cv = c as u32;
        let ghost pre = seg.subrange(0, k - (i + 1));
        if cv < 48 || cv > 57 {
            proof {
                assert(seg[k - (i + 1)] == s@[k as int]);
                assert(c as int == cv as int);
                assert(!is_digit_char(seg[k - (i + 1)]));
                assert(!all_digits(seg));
                assert(spec_minor_version(s@) == 0);
            }
            return 0;
        }
        let d = (cv - 48) as u64;
        let next = acc * 10 + d;
        proof {
            let cur = seg.subrange(0, k + 1 - (i + 1));
            assert(cur.drop_last() =~= pre);
            assert(cur.last() == s@[k as int]);
            assert(c as int == cv as int);
            assert(is_digit_char(cur.last()));
            assert(crate::text::digit_value(cur.last()) == d as int);
            assert(forall|t: int| 0 <= t < cur.len() ==> crate::text::is_digit_char(
                #[trigger] cur[t],
            ));
            assert(digits_val(cur) == next as int);
        }
        if next > 0xFFFF_FFFF {
            proof {
                let cur = seg.subrange(0, k + 1 - (i + 1));
                if all_digits(seg) {
                    crate::text::lemma_digits_val_prefix_le(seg, k + 1 - (i as int + 1));
                    assert(digits_val(seg) >= digits_val(cur));
                    assert(digits_val(seg) > u32::MAX);
                }
                assert(spec_minor_version(s@) == 0);
            }
            return 0;
        }
        acc = next;
        k = k + 1;
    }
    proof {
        assert(seg.subrange(0, j - (i + 1)) =~= seg);
    }
    acc as u32
}

/// The platform the binding runs on; decides the default library file name.
#[derive(Clone, Copy, Debug, PartialEq, Eq, Structural)]
pub enum Platform {
    Windows,
    Linux,
    Android,
    MacOs,
    Ios,
}

/// The platform-default file name of the engine's dynamic library.
pub open spec fn spec_default_dylib_name(platform: Platform) -> Seq<char> {
    match platform {
        Platform::Windows => "onnxruntime.dll"@,
        Platform::Linux => "libonnxruntime.so"@,
        Platform::Android => "libonnxruntime.so"@,
        Platform::MacOs => "libonnxruntime.dylib"@,
        Platform::Ios => "libonnxruntime.dylib"@,
    }
}

/// The platform-default file name of the engine's dynamic library.
pub fn default_dylib_name(platform: Platform) -> (r: &'static str)
    ensures
        r@ =~= spec_default_dylib_name(platform),
{
    match platform {
        Platform::Windows => "onnxruntime.dll",
        Platform::Linux => "libonnxruntime.so",
        Platform::Android => "libonnxruntime.so",
        Platform::MacOs => "libonnxruntime.dylib",
        Platform::Ios => "libonnxruntime.dylib",
    }
}

/// Decides the path of the engine's dynamic library: a non-empty environment
/// override wins, otherwise the platform default name is used.
pub fn dylib_path(env_override: Option<String>, platform: Platform) -> (r: String)
    ensures
        match env_override {
            Option::Some(s) => r@ =~= (if s@.len() > 0 {
                s@
            } else {
                spec_default_dylib_name(platform)
            }),
            Option::None => r@ =~= spec_default_dylib_name(platform),
        },
{
    match env_override {
        Option::Some(s) => {
            if s.as_str().is_empty() {
                default_dylib_name(platform).to_owned()
            } else {
                s
            }
        },
        Option::None => default_dylib_name(platform).to_owned(),
    }
}

/// Where a dynamic-library path should be loaded from.
#[derive(Clone, Copy, Debug, PartialEq, Eq, Structural)]
pub enum LibraryCandidate {
    /// Load the path exactly as given (also covers letting the platform's
    /// library search path find a bare file name).
    GivenPath,
    /// Load the file of the same name sitting beside the current executable.
    BesideExecutable,
}

/// Decides where to load the engine's dynamic library from: a relative path
/// is resolved beside the executable when a file exists there, otherwise the
/// path is used as given.
pub fn resolve_library_candidate(path_is_absolute: bool, exists_beside_executable: bool) -> (r:
    LibraryCandidate)
    ensures
        r == LibraryCandidate::BesideExecutable <==> (!path_is_absolute
            && exists_beside_executable),
{
    if !path_is_absolute && exists_beside_executable {
        LibraryCandidate::BesideExecutable
    } else {
        LibraryCandidate::GivenPath
    }
}

/// The process-wide entry-point table, as the host sees it once resolution
/// has succeeded: which library the table came from and which ABI generation
/// was requested from the engine.
#[derive(Debug)]
pub struct EntryPointTable {
    /// The dynamic-library path the table was resolved from, or `None` when
    /// the engine is statically linked.
    pub dylib_path: Option<String>,
    /// The ABI version requested from (and honoured by) the engine.
    pub api_version: u32,
}

/// The message of the fatal error raised when the engine is older than the
/// binding expects.
pub open spec fn incompatible_version_message(engine_minor: int, expected_minor: int) -> Seq<
    char,
> {
    "engine reports minor version "@ + spec_decimal(engine_minor)
        + " but this binding requires at least minor version "@ + spec_decimal(expected_minor)
}

/// Performs the version handshake for entry-point table resolution.
///
/// Parses the engine's reported version string, gates it against the
/// expected minor version, and on success yields the resolved table and the
/// gate outcome; a newer-than-expected engine is accepted and the outcome
/// lets the caller log a warning.  An older engine yields an error; the
/// caller treats it as fatal, since no engine call is possible without a
/// table.
pub fn resolve_entry_point_table(
    version_string: &str,
    dylib_path: Option<String>,
    expected_minor: u32,
) -> (r: Result<(EntryPointTable, VersionGate), Error>)
    ensures
        r is Err <==> spec_minor_version(version_string@) < expected_minor,
        match r {
            Result::Ok((table, gate)) => {
                &&& table.api_version == expected_minor
                &&& gate == VersionGate::Matched <==> spec_minor_version(version_string@)
                    == expected_minor
                &&& gate == VersionGate::CompatibleNewer <==> spec_minor_version(
                    version_string@,
                ) > expected_minor
                &&& match (table.dylib_path, dylib_path) {
                    (Option::Some(a), Option::Some(b)) => a@ =~= b@,
                    (Option::None, Option::None) => true,
                    _ => false,
                }
            },
            Result::Err(e) => {
                &&& e.spec_code() == ErrorCode::Fail
                &&& e.spec_message() =~= incompatible_version_message(
                    spec_minor_version(version_string@),
                    expected_minor as int,
                )
            },
        },
{
    let engine_minor = parse_minor_version(version_string);
    let gate = version_gate(engine_minor, expected_minor);
    match gate {
        VersionGate::Incompatible => {
            let mut message = String::new();
            message.append("engine reports minor version ");
            let minor_text = u64_to_string(engine_minor as u64);
            message.append(minor_text.as_str());
            message.append(" but this binding requires at least minor version ");
            let expected_text = u64_to_string(expected_minor as u64);
            message.append(expected_text.as_str());
            Err(Error::new(ErrorCode::Fail, message))
        },
        _ => Ok((EntryPointTable { dylib_path, api_version: expected_minor }, gate)),
    }
}

} // verus!
