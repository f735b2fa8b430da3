//! The tool-based version reader: pure interpretation of `hipconfig`
//! output.
//!
//! The external tool itself is invoked outside this crate; every
//! function here takes the captured output of one invocation as text and
//! is a total function of it.  `hipconfig --version` prints a string
//! like `6.4.43482-0f2d60242`, out of which the HIP patch build number
//! is extracted; `hipconfig -l` prints a path under the ROCm root whose
//! first component below the root names the library directory.

use vstd::prelude::*;

use crate::error::BuildError;
use crate::text::all_digits;
use crate::text::digit_run_end;
use crate::text::find_char;
use crate::text::is_ascii_digit;
use crate::text::find_char_from;
use crate::text::lemma_spec_trim_idempotent;
use crate::text::non_char_end;
use crate::text::skip_digits;
use crate::text::spec_trim;
use crate::text::str_has_prefix;
use crate::text::trim;
use crate::text::trim_end_char;

verus! {

/// Does the version pattern (a digit run, a dot, a digit run, a dot, a
/// digit run, a hyphen) match at position `i` of `s`, with each run
/// taken maximally?
pub open spec fn version_match_at(s: Seq<char>, i: int) -> bool {
    let e1 = digit_run_end(s, i);
    let e2 = digit_run_end(s, e1 + 1);
    let e3 = digit_run_end(s, e2 + 1);
    &&& 0 <= i
    &&& i < e1
    &&& e1 < s.len() && s[e1] == '.'
    &&& e1 + 1 < e2
    &&& e2 < s.len() && s[e2] == '.'
    &&& e2 + 1 < e3
    &&& e3 < s.len() && s[e3] == '-'
}

/// The patch group of the version pattern matching at `i`: the third
/// digit run, between the second dot and the hyphen.
pub open spec fn version_patch_at(s: Seq<char>, i: int) -> Seq<char> {
    let e1 = digit_run_end(s, i);
    let e2 = digit_run_end(s, e1 + 1);
    let e3 = digit_run_end(s, e2 + 1);
    s.subrange(e2 + 1, e3)
}

/// Try the version pattern at position `i`; on a match, hand back the
/// bounds of the patch group.
fn version_match_at_exec(s: &str, i: usize) -> (r: Option<(usize, usize)>)
    requires
        i < s@.len(),
    ensures
        r is Some <==> version_match_at(s@, i as int),
        r matches Some(bounds) ==> {
            &&& bounds.0 <= bounds.1 <= s@.len()
            &&& version_patch_at(s@, i as int) == s@.subrange(bounds.0 as int, bounds.1 as int)
        },
{
    let n = s.unicode_len();
    let e1 = skip_digits(s, i);
    proof {
        crate::text::lemma_digit_run_end(s@, i as int);
    }
    if e1 == i || e1 >= n || s.get_char(e1) != '.' {
        return None;
    }
    let e2 = skip_digits(s, e1 + 1);
    proof {
        crate::text::lemma_digit_run_end(s@, e1 + 1);
    }
    if e2 == e1 + 1 || e2 >= n || s.get_char(e2) != '.' {
        return None;
    }
    let e3 = skip_digits(s, e2 + 1);
    proof {
        crate::text::lemma_digit_run_end(s@, e2 + 1);
    }
    if e3 == e2 + 1 || e3 >= n || s.get_char(e3) != '-' {
        return None;
    }
    Some((e2 + 1, e3))
}

/// Extract the HIP patch build number from the output of
/// `hipconfig --version`.
///
/// The first (leftmost) match of the version pattern decides; its third
/// digit run is returned verbatim, leading zeros kept.  Output without
/// such a match, in particular output lacking the hyphen separator or
/// holding no digits at all, is a parse error carrying the offending
/// text.
pub fn parse_hip_patch_number(version: &str) -> (r: Result<String, BuildError>)
    ensures
        match r {
            Ok(patch) => exists|i: int|
                {
                    &&& #[trigger] version_match_at(version@, i)
                    &&& patch@ == version_patch_at(version@, i)
                    &&& forall|j: int| 0 <= j < i ==> !version_match_at(version@, j)
                },
            Err(e) => {
                &&& forall|i: int| !(#[trigger] version_match_at(version@, i))
                &&& e matches BuildError::ToolOutputParseError { output } && output@ == version@
            },
        },
{
    let n = version.unicode_len();
    let mut i: usize = 0;
    while i < n
        invariant
            0 <= i <= n == version@.len(),
            forall|j: int| 0 <= j < i ==> !version_match_at(version@, j),
        decreases n - i,
    {
        match version_match_at_exec(version, i) {
            Some(bounds) => {
                let patch = version.substring_char(bounds.0, bounds.1);
                return Ok(String::from_str(patch));
            },
            None => {
                i = i + 1;
            },
        }
    }
    proof {
        assert forall|j: int| !(#[trigger] version_match_at(version@, j)) by {
            if 0 <= j < n {
                assert(!version_match_at(version@, j));
            }
        }
    }
    Err(BuildError::ToolOutputParseError { output: String::from_str(version) })
}

/// What interpreting one `hipconfig` invocation yields: the trimmed
/// standard output when nothing was written to standard error, and a
/// tool-invocation error carrying the trimmed standard error otherwise.
pub fn interpret_hipconfig_output(stdout: &str, stderr: &str) -> (r: Result<String, BuildError>)
    ensures
        stderr@.len() == 0 ==> (r matches Ok(out) && out@ == spec_trim(stdout@)),
        stderr@.len() != 0 ==> (r matches Err(BuildError::ToolInvocationError { stderr: msg })
            && msg@ == spec_trim(stderr@)),
{
    if stderr.unicode_len() == 0 {
        Ok(String::from_str(trim(stdout)))
    } else {
        Err(BuildError::ToolInvocationError { stderr: String::from_str(trim(stderr)) })
    }
}

/// The ROCm installation root, from the captured output of
/// `hipconfig -R`.
pub fn get_rocm_path(stdout: &str, stderr: &str) -> (r: Result<String, BuildError>)
    ensures
        stderr@.len() == 0 ==> (r matches Ok(out) && out@ == spec_trim(stdout@)),
        stderr@.len() != 0 ==> (r matches Err(BuildError::ToolInvocationError { stderr: msg })
            && msg@ == spec_trim(stderr@)),
{
    interpret_hipconfig_output(stdout, stderr)
}

/// The HIP installation root, from the captured output of
/// `hipconfig -p`.
pub fn get_hip_path(stdout: &str, stderr: &str) -> (r: Result<String, BuildError>)
    ensures
        stderr@.len() == 0 ==> (r matches Ok(out) && out@ == spec_trim(stdout@)),
        stderr@.len() != 0 ==> (r matches Err(BuildError::ToolInvocationError { stderr: msg })
            && msg@ == spec_trim(stderr@)),
{
    interpret_hipconfig_output(stdout, stderr)
}

/// The HIP patch build number, from the captured output of
/// `hipconfig --version`.
pub fn get_hip_patch_version(stdout: &str, stderr: &str) -> (r: Result<String, BuildError>)
    ensures
        stderr@.len() != 0 ==> (r matches Err(BuildError::ToolInvocationError { stderr: msg })
            && msg@ == spec_trim(stderr@)),
        stderr@.len() == 0 ==> ({
            let v = spec_trim(stdout@);
            match r {
                Ok(patch) => exists|i: int|
                    {
                        &&& #[trigger] version_match_at(v, i)
                        &&& patch@ == version_patch_at(v, i)
                        &&& forall|j: int| 0 <= j < i ==> !version_match_at(v, j)
                    },
                Err(e) => {
                    &&& forall|i: int| !(#[trigger] version_match_at(v, i))
                    &&& e matches BuildError::ToolOutputParseError { output } && output@ == v
                },
            }
        }),
{
    match interpret_hipconfig_output(stdout, stderr) {
        Ok(v) => parse_hip_patch_number(v.as_str()),
        Err(e) => Err(e),
    }
}

/// The library directory name below the ROCm root, as the first path
/// component of `clang` below `rocm`: `rocm`, trimmed and with trailing
/// slashes removed, must be a proper prefix of the trimmed `clang`,
/// followed by a slash and at least one non-slash character; the run of
/// non-slash characters there is the directory name.
pub open spec fn spec_lib_dir(rocm: Seq<char>, clang: Seq<char>) -> Option<Seq<char>> {
    let r0 = spec_trim(rocm);
    let r1 = r0.subrange(0, non_char_end(r0, r0.len() as int, '/'));
    let c = spec_trim(clang);
    if r1.len() < c.len() && r1.is_prefix_of(c) && c[r1.len() as int] == '/' {
        let e = find_char_from(c, r1.len() as int + 1, '/');
        if e > r1.len() + 1 {
            Some(c.subrange(r1.len() as int + 1, e))
        } else {
            None
        }
    } else {
        None
    }
}

/// Extract the library directory name from the ROCm root and the
/// captured output of `hipconfig -l`.
pub fn parse_hip_library_directory_name(rocm_path: &str, clang_path: &str) -> (r: Result<
    String,
    BuildError,
>)
    ensures
        match spec_lib_dir(rocm_path@, clang_path@) {
            Some(d) => r matches Ok(dir) && dir@ == d,
            None => r matches Err(BuildError::ToolOutputParseError { output }) && output@
                == spec_trim(clang_path@),
        },
{
    let r0 = trim(rocm_path);
    let r1 = trim_end_char(r0, '/');
    let c = trim(clang_path);
    let rlen = r1.unicode_len();
    let clen = c.unicode_len();
    if rlen < clen && str_has_prefix(c, r1) && c.get_char(rlen) == '/' {
        let e = find_char(c, rlen + 1, '/');
        proof {
            crate::text::lemma_find_char_from(c@, rlen + 1, '/');
        }
        if e > rlen + 1 {
            return Ok(String::from_str(c.substring_char(rlen + 1, e)));
        }
    }
    Err(BuildError::ToolOutputParseError { output: String::from_str(c) })
}

/// The library directory name, from the ROCm root and the captured
/// output of `hipconfig -l`.
pub fn get_hip_library_directory_name(rocm_path: &str, stdout: &str, stderr: &str) -> (r: Result<
    String,
    BuildError,
>)
    ensures
        stderr@.len() != 0 ==> (r matches Err(BuildError::ToolInvocationError { stderr: msg })
            && msg@ == spec_trim(stderr@)),
        stderr@.len() == 0 ==> match spec_lib_dir(rocm_path@, stdout@) {
            Some(d) => r matches Ok(dir) && dir@ == d,
            None => r matches Err(BuildError::ToolOutputParseError { output }) && output@
                == spec_trim(stdout@),
        },
{
    if stderr.unicode_len() != 0 {
        return Err(BuildError::ToolInvocationError { stderr: String::from_str(trim(stderr)) });
    }
    parse_hip_library_directory_name(rocm_path, stdout)
}

/// The native library search path: the ROCm root joined with the
/// library directory name, from the captured outputs of `hipconfig -R`
/// and `hipconfig -l`.
pub fn get_hip_ld_library_path(
    rocm_stdout: &str,
    rocm_stderr: &str,
    lib_stdout: &str,
    lib_stderr: &str,
) -> (r: Result<String, BuildError>)
    ensures
        rocm_stderr@.len() != 0 ==> (r matches Err(BuildError::ToolInvocationError { stderr: msg })
            && msg@ == spec_trim(rocm_stderr@)),
        rocm_stderr@.len() == 0 && lib_stderr@.len() != 0 ==> (r matches Err(
            BuildError::ToolInvocationError { stderr: msg },
        ) && msg@ == spec_trim(lib_stderr@)),
        rocm_stderr@.len() == 0 && lib_stderr@.len() == 0 ==> match spec_lib_dir(
            rocm_stdout@,
            lib_stdout@,
        ) {
            Some(d) => r matches Ok(path) && path@ == spec_trim(rocm_stdout@) + "/"@ + d,
            None => r matches Err(BuildError::ToolOutputParseError { output }) && output@
                == spec_trim(lib_stdout@),
        },
{
    let mut rocm_path = match interpret_hipconfig_output(rocm_stdout, rocm_stderr) {
        Ok(p) => p,
        Err(e) => {
            return Err(e);
        },
    };
    let dir = match get_hip_library_directory_name(rocm_path.as_str(), lib_stdout, lib_stderr) {
        Ok(d) => d,
        Err(e) => {
            proof {
                lemma_trim_invariance(rocm_stdout@, lib_stdout@);
            }
            return Err(e);
        },
    };
    proof {
        lemma_trim_invariance(rocm_stdout@, lib_stdout@);
    }
    rocm_path.append("/");
    rocm_path.append(dir.as_str());
    Ok(rocm_path)
}

/// Trimming the root before handing it to `spec_lib_dir` changes
/// nothing: the extraction trims its arguments itself.
proof fn lemma_trim_invariance(rocm: Seq<char>, clang: Seq<char>)
    ensures
        spec_lib_dir(spec_trim(rocm), clang) == spec_lib_dir(rocm, clang),
{
    lemma_spec_trim_idempotent(rocm);
}

/// On every well-formed tool-output string
/// `<maj>.<min>.<patch>-<suffix>` — the first three parts non-empty
/// digit strings, the suffix arbitrary — the version pattern matches at
/// the very start, and the patch group is exactly `<patch>`, unchanged.
/// Since no earlier position exists, the extraction returns it.
pub proof fn lemma_well_formed_output_extracts_patch(
    maj: Seq<char>,
    min: Seq<char>,
    patch: Seq<char>,
    suffix: Seq<char>,
    s: Seq<char>,
)
    requires
        s == maj + seq!['.'] + min + seq!['.'] + patch + seq!['-'] + suffix,
        maj.len() > 0,
        all_digits(maj),
        min.len() > 0,
        all_digits(min),
        patch.len() > 0,
        all_digits(patch),
    ensures
        version_match_at(s, 0),
        version_patch_at(s, 0) == patch,
{
    let a = maj.len() as int;
    let b = a + 1 + min.len() as int;
    let c = b + 1 + patch.len() as int;
    assert(s.len() == c + 1 + suffix.len());
    assert forall|j: int| 0 <= j < a implies is_ascii_digit(s[j]) by {
        assert(s[j] == maj[j]);
    }
    assert(s[a] == '.');
    crate::text::lemma_digit_run_end_is(s, 0, a);
    assert forall|j: int| a + 1 <= j < b implies is_ascii_digit(s[j]) by {
        assert(s[j] == min[j - (a + 1)]);
    }
    assert(s[b] == '.');
    crate::text::lemma_digit_run_end_is(s, a + 1, b);
    assert forall|j: int| b + 1 <= j < c implies is_ascii_digit(s[j]) by {
        assert(s[j] == patch[j - (b + 1)]);
    }
    assert(s[c] == '-');
    crate::text::lemma_digit_run_end_is(s, b + 1, c);
    assert(version_match_at(s, 0));
    assert(version_patch_at(s, 0) =~= patch);
}

/// Output without a hyphen never matches the version pattern, so the
/// extraction fails on it.
pub proof fn lemma_no_hyphen_no_match(s: Seq<char>)
    requires
        forall|k: int| 0 <= k < s.len() ==> s[k] != '-',
    ensures
        forall|i: int| !version_match_at(s, i),
{
    assert forall|i: int| !version_match_at(s, i) by {
        if version_match_at(s, i) {
            let e1 = digit_run_end(s, i);
            let e2 = digit_run_end(s, e1 + 1);
            let e3 = digit_run_end(s, e2 + 1);
            assert(0 <= e3 < s.len() && s[e3] == '-');
        }
    }
}

/// Output without any digit never matches the version pattern, so the
/// extraction fails on it.
pub proof fn lemma_no_digits_no_match(s: Seq<char>)
    requires
        forall|k: int| 0 <= k < s.len() ==> !is_ascii_digit(s[k]),
    ensures
        forall|i: int| !version_match_at(s, i),
{
    assert forall|i: int| !version_match_at(s, i) by {
        if version_match_at(s, i) {
            if i < s.len() {
                crate::text::lemma_digit_run_end(s, i);
                assert(is_ascii_digit(s[i]));
            } else {
                assert(digit_run_end(s, i) == s.len());
            }
        }
    }
}

} // verus!
