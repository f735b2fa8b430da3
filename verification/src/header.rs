//! The header-based version reader.
//!
//! A vendor header defines one macro line per version component,
//! `#define <NAME> <int>`.  Given the text of such a header, the reader
//! locates the first line starting with each macro prefix and parses the
//! remainder of the line as an unsigned integer of the component's width:
//! `u8` for major and minor, `u32` for the patch (HIP headers report an
//! internal build number there).

use vstd::prelude::*;

use crate::error::BuildError;
use crate::error::HeaderField;
use crate::error::HeaderIssue;
use crate::text::find_char_from;
use crate::text::lemma_find_char_from;
use crate::text::parse_u32;
use crate::text::parse_u8;
use crate::text::spec_parse_u32;
use crate::text::spec_parse_u8;
use crate::text::spec_trim;
use crate::text::str_has_prefix;
use crate::text::trim;
use crate::version::Version;

verus! {

/// The end of the line starting at `start`: the index of the next line
/// feed, or the length of `s`.
pub open spec fn line_break(s: Seq<char>, start: int) -> int {
    find_char_from(s, start, '\n')
}

/// The contents of the line starting at `start`, without its line feed
/// and without a trailing carriage return.
pub open spec fn line_at(s: Seq<char>, start: int) -> Seq<char> {
    let e = line_break(s, start);
    if e > start && s[e - 1] == '\r' {
        s.subrange(start, e - 1)
    } else {
        s.subrange(start, e)
    }
}

/// The text after `prefix` on the first line of `s` (at or after
/// `start`) that begins with `prefix`, or nothing when no line does.
pub open spec fn find_macro_value(s: Seq<char>, prefix: Seq<char>, start: int) -> Option<
    Seq<char>,
>
    decreases s.len() - start,
    via find_macro_value_decreases
{
    if start < 0 || start > s.len() {
        None
    } else {
        let line = line_at(s, start);
        if prefix.is_prefix_of(line) {
            Some(line.subrange(prefix.len() as int, line.len() as int))
        } else {
            let e = line_break(s, start);
            if e + 1 > s.len() {
                None
            } else {
                find_macro_value(s, prefix, e + 1)
            }
        }
    }
}

#[via_fn]
proof fn find_macro_value_decreases(s: Seq<char>, prefix: Seq<char>, start: int) {
    if 0 <= start <= s.len() {
        lemma_find_char_from(s, start, '\n');
    }
}

/// The first macro value at or after `start`, as an executable search.
fn find_macro_value_exec<'a>(contents: &'a str, prefix: &str) -> (r: Option<&'a str>)
    ensures
        match r {
            Some(v) => find_macro_value(contents@, prefix@, 0) == Some(v@),
            None => find_macro_value(contents@, prefix@, 0) is None,
        },
{
    let n = contents.unicode_len();
    let plen = prefix.unicode_len();
    let mut start: usize = 0;
    loop
        invariant
            0 <= start <= n == contents@.len(),
            plen == prefix@.len(),
            find_macro_value(contents@, prefix@, 0) == find_macro_value(
                contents@,
                prefix@,
                start as int,
            ),
        decreases n - start,
    {
        let e = crate::text::find_char(contents, start, '\n');
        proof {
            lemma_find_char_from(contents@, start as int, '\n');
        }
        let line_end = if e > start && contents.get_char(e - 1) == '\r' {
            e - 1
        } else {
            e
        };
        let line = contents.substring_char(start, line_end);
        proof {
            assert(line@ == line_at(contents@, start as int));
        }
        if str_has_prefix(line, prefix) {
            let value = line.substring_char(plen, line_end - start);
            return Some(value);
        }
        if e >= n {
            return None;
        }
        start = e + 1;
    }
}

/// What reading a version out of header text yields: for each component
/// in turn, the first line starting with the component's macro prefix,
/// its remainder trimmed and read as a numeral of the component's width;
/// the first component that fails decides the error.
pub open spec fn spec_header_version(
    s: Seq<char>,
    major_prefix: Seq<char>,
    minor_prefix: Seq<char>,
    patch_prefix: Seq<char>,
) -> Result<Version, BuildError> {
    match find_macro_value(s, major_prefix, 0) {
        None => Err(
            BuildError::HeaderParseError { field: HeaderField::Major, issue: HeaderIssue::MissingLine },
        ),
        Some(raw_major) => match spec_parse_u8(spec_trim(raw_major)) {
            None => Err(
                BuildError::HeaderParseError { field: HeaderField::Major, issue: HeaderIssue::BadValue },
            ),
            Some(major) => match find_macro_value(s, minor_prefix, 0) {
                None => Err(
                    BuildError::HeaderParseError {
                        field: HeaderField::Minor,
                        issue: HeaderIssue::MissingLine,
                    },
                ),
                Some(raw_minor) => match spec_parse_u8(spec_trim(raw_minor)) {
                    None => Err(
                        BuildError::HeaderParseError {
                            field: HeaderField::Minor,
                            issue: HeaderIssue::BadValue,
                        },
                    ),
                    Some(minor) => match find_macro_value(s, patch_prefix, 0) {
                        None => Err(
                            BuildError::HeaderParseError {
                                field: HeaderField::Patch,
                                issue: HeaderIssue::MissingLine,
                            },
                        ),
                        Some(raw_patch) => match spec_parse_u32(spec_trim(raw_patch)) {
                            None => Err(
                                BuildError::HeaderParseError {
                                    field: HeaderField::Patch,
                                    issue: HeaderIssue::BadValue,
                                },
                            ),
                            Some(patch) => Ok(Version { major, minor, patch }),
                        },
                    },
                },
            },
        },
    }
}

/// Read a version triple out of header text, taking the three macro
/// prefixes to search for.
pub fn read_header_version(
    contents: &str,
    major_prefix: &str,
    minor_prefix: &str,
    patch_prefix: &str,
) -> (r: Result<Version, BuildError>)
    ensures
        r == spec_header_version(contents@, major_prefix@, minor_prefix@, patch_prefix@),
{
    let major = match find_macro_value_exec(contents, major_prefix) {
        None => {
            return Err(
                BuildError::HeaderParseError {
                    field: HeaderField::Major,
                    issue: HeaderIssue::MissingLine,
                },
            );
        },
        Some(raw) => match parse_u8(trim(raw)) {
            None => {
                return Err(
                    BuildError::HeaderParseError {
                        field: HeaderField::Major,
                        issue: HeaderIssue::BadValue,
                    },
                );
            },
            Some(v) => v,
        },
    };
    let minor = match find_macro_value_exec(contents, minor_prefix) {
        None => {
            return Err(
                BuildError::HeaderParseError {
                    field: HeaderField::Minor,
                    issue: HeaderIssue::MissingLine,
                },
            );
        },
        Some(raw) => match parse_u8(trim(raw)) {
            None => {
                return Err(
                    BuildError::HeaderParseError {
                        field: HeaderField::Minor,
                        issue: HeaderIssue::BadValue,
                    },
                );
            },
            Some(v) => v,
        },
    };
    let patch = match find_macro_value_exec(contents, patch_prefix) {
        None => {
            return Err(
                BuildError::HeaderParseError {
                    field: HeaderField::Patch,
                    issue: HeaderIssue::MissingLine,
                },
            );
        },
        Some(raw) => match parse_u32(trim(raw)) {
            None => {
                return Err(
                    BuildError::HeaderParseError {
                        field: HeaderField::Patch,
                        issue: HeaderIssue::BadValue,
                    },
                );
            },
            Some(v) => v,
        },
    };
    Ok(Version { major, minor, patch })
}

/// Read the SDK version out of the text of the ROCm core header
/// (`include/rocm-core/rocm_version.h`).
pub fn get_rocm_system_version(contents: &str) -> (r: Result<Version, BuildError>)
    ensures
        r == spec_header_version(
            contents@,
            "#define ROCM_VERSION_MAJOR "@,
            "#define ROCM_VERSION_MINOR "@,
            "#define ROCM_VERSION_PATCH "@,
        ),
{
    read_header_version(
        contents,
        "#define ROCM_VERSION_MAJOR ",
        "#define ROCM_VERSION_MINOR ",
        "#define ROCM_VERSION_PATCH ",
    )
}

/// Read the HIP runtime version out of the text of the HIP header
/// (`include/hip/hip_version.h`).
pub fn get_hip_system_version(contents: &str) -> (r: Result<Version, BuildError>)
    ensures
        r == spec_header_version(
            contents@,
            "#define HIP_VERSION_MAJOR "@,
            "#define HIP_VERSION_MINOR "@,
            "#define HIP_VERSION_PATCH "@,
        ),
{
    read_header_version(
        contents,
        "#define HIP_VERSION_MAJOR ",
        "#define HIP_VERSION_MINOR ",
        "#define HIP_VERSION_PATCH ",
    )
}

} // verus!
