use vstd::prelude::*;

use crate::errors::LaunchError;
use crate::strutil::last_char_position;
use crate::strutil::last_separator_position;
use crate::strutil::spec_last_pos;
use crate::strutil::spec_last_sep;

verus! {

/// The extension of the final path component — the part after the last
/// separator of either kind: the characters after the last '.' of the
/// component, provided that dot is not the component's first character;
/// otherwise none.
pub open spec fn spec_extension(path: Seq<char>) -> Option<Seq<char>> {
    let name = path.subrange(spec_last_sep(path) + 1, path.len() as int);
    let d = spec_last_pos(name, '.');
    if d <= 0 {
        None
    } else {
        Some(name.subrange(d + 1, name.len() as int))
    }
}

/// Extension of the final component of `path`, as [`spec_extension`] gives it.
pub fn extension_of(path: &str) -> (r: Option<String>)
    ensures
        r.deep_view() == spec_extension(path@),
{
    let plen = path.unicode_len();
    let name: &str = match last_separator_position(path) {
        Some(i) => path.substring_char(i + 1, plen),
        None => path,
    };
    proof {
        assert(name@ =~= path@.subrange(spec_last_sep(path@) + 1, path@.len() as int));
    }
    let nlen = name.unicode_len();
    match last_char_position(name, '.') {
        Some(d) => {
            if d > 0 {
                let e = name.substring_char(d + 1, nlen);
                Some(e.to_owned())
            } else {
                None
            }
        },
        None => None,
    }
}

/// Case-insensitive test for the expected executable extension.
pub open spec fn spec_is_exe_extension(s: Seq<char>) -> bool {
    &&& s.len() == 3
    &&& (s[0] == 'e' || s[0] == 'E')
    &&& (s[1] == 'x' || s[1] == 'X')
    &&& (s[2] == 'e' || s[2] == 'E')
}

pub fn is_exe_extension(s: &str) -> (r: bool)
    ensures
        r == spec_is_exe_extension(s@),
{
    let n = s.unicode_len();
    if n != 3 {
        return false;
    }
    let c0 = s.get_char(0);
    let c1 = s.get_char(1);
    let c2 = s.get_char(2);
    (c0 == 'e' || c0 == 'E') && (c1 == 'x' || c1 == 'X') && (c2 == 'e' || c2 == 'E')
}

/// The warning a capability-bearing platform raises when no execute bit is set
/// for owner, group or other.
pub open spec fn spec_unix_warnings(mode: u32) -> Seq<Seq<char>> {
    if mode & 0o111 == 0 {
        seq!["WARNING: Binary is not executable"@]
    } else {
        Seq::empty()
    }
}

/// On capability-bearing platforms: the execute-bit finding, derived from the
/// permission bits the caller read from the binary's metadata. The warning is
/// non-fatal; the caller reports it as a log line and proceeds.
pub fn unix_permission_findings(mode: u32) -> (w: Vec<String>)
    ensures
        w.deep_view() == spec_unix_warnings(mode),
{
    let mut w: Vec<String> = Vec::new();
    if mode & 0o111 == 0 {
        w.push("WARNING: Binary is not executable".to_owned());
    }
    proof {
        assert(w.deep_view() =~= spec_unix_warnings(mode));
    }
    w
}

/// What `str::to_lowercase` returns for a given character sequence: the
/// result depends on the characters alone.
pub uninterp spec fn lower_of(s: Seq<char>) -> Seq<char>;

/// Relies on str::to_lowercase: returns the lowercase equivalent of the
/// slice, a function of its characters alone.
#[verifier::external_body]
fn lowercase(s: &str) -> (r: String)
    ensures
        r@ == lower_of(s@),
{
    s.to_lowercase()
}

/// The extension warnings of the platform without permission bits: a missing
/// extension warns, and so does any extension other than the expected
/// executable one (compared case-insensitively); the warning names the
/// offending extension lowercased.
pub open spec fn spec_extension_warnings(path: Seq<char>) -> Seq<Seq<char>> {
    match spec_extension(path) {
        None => seq!["WARNING: File has no extension"@],
        Some(e) => if spec_is_exe_extension(e) {
            Seq::empty()
        } else {
            seq!["WARNING: File does not have .exe extension: "@ + lower_of(e)]
        },
    }
}

/// All non-fatal warnings of the platform without permission bits, in the
/// order they are raised: the read-only warning first, then — only when the
/// path is a regular file, since the fatal finding ends the sequence — the
/// extension warnings.
pub open spec fn spec_non_unix_warnings(path: Seq<char>, is_file: bool, readonly: bool) -> Seq<
    Seq<char>,
> {
    (if readonly {
        seq!["WARNING: Binary file is read-only"@]
    } else {
        Seq::empty()
    }) + (if is_file {
        spec_extension_warnings(path)
    } else {
        Seq::empty()
    })
}

/// The outcome of the metadata check on the platform without permission bits:
/// the non-fatal warnings raised up to the point the check ended, and the
/// fatal finding, if any. The caller reports every warning as a log line and
/// aborts only on the fatal finding.
#[derive(Debug, PartialEq, Eq)]
pub struct MetadataFindings {
    pub warnings: Vec<String>,
    pub fatal: Option<LaunchError>,
}

/// On platforms without permission bits: raises the warnings of
/// [`spec_non_unix_warnings`], and the fatal not-a-regular-file finding (which
/// cuts the warning sequence short), from metadata facts the caller read.
pub fn non_unix_findings(path: &str, is_file: bool, readonly: bool) -> (r: MetadataFindings)
    ensures
        r.warnings.deep_view() == spec_non_unix_warnings(path@, is_file, readonly),
        is_file ==> r.fatal is None,
        !is_file ==> (r.fatal matches Some(e) && e matches LaunchError::Io { message } && message@
            == "Path is not a regular file"@),
{
    let mut w: Vec<String> = Vec::new();
    if readonly {
        w.push("WARNING: Binary file is read-only".to_owned());
    }
    if !is_file {
        proof {
            assert(w.deep_view() =~= spec_non_unix_warnings(path@, is_file, readonly));
        }
        return MetadataFindings {
            warnings: w,
            fatal: Some(LaunchError::Io { message: "Path is not a regular file".to_owned() }),
        };
    }
    match extension_of(path) {
        None => {
            w.push("WARNING: File has no extension".to_owned());
        },
        Some(e) => {
            if !is_exe_extension(e.as_str()) {
                let low = lowercase(e.as_str());
                let mut m = "WARNING: File does not have .exe extension: ".to_owned();
                m.append(low.as_str());
                w.push(m);
            }
        },
    }
    proof {
        assert(w.deep_view() =~= spec_non_unix_warnings(path@, is_file, readonly));
    }
    MetadataFindings { warnings: w, fatal: None }
}

/// The verdict of the pre-flight probe: the caller ran the binary with the
/// harmless introspection flag and reports whether it exited successfully,
/// together with the exit-status description. Success yields the confirmation
/// message; anything else the probe-failure error carrying that description.
pub fn diagnosis_verdict(probe_succeeded: bool, status_text: &str) -> (r: Result<
    String,
    LaunchError,
>)
    ensures
        probe_succeeded ==> (r matches Ok(m) && m@ == "RustFS binary appears to be working"@),
        !probe_succeeded ==> (r matches Err(e) && e matches LaunchError::BinaryFailed { status }
            && status@ == status_text@),
{
    if probe_succeeded {
        Ok("RustFS binary appears to be working".to_owned())
    } else {
        Err(LaunchError::BinaryFailed { status: status_text.to_owned() })
    }
}

/// The probe log shows at most the first 200 characters of the probe's
/// standard output.
pub fn stdout_preview(s: &str) -> (r: String)
    ensures
        s@.len() <= 200 ==> r@ == s@,
        s@.len() > 200 ==> r@ == s@.subrange(0, 200),
{
    let n = s.unicode_len();
    if n <= 200 {
        s.to_owned()
    } else {
        s.substring_char(0, 200).to_owned()
    }
}

} // verus!
