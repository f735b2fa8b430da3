//! Tests for the tool-output and header parsers.

use cubecl_hip_sys::error::BuildError;
use cubecl_hip_sys::header::get_hip_system_version;
use cubecl_hip_sys::header::get_rocm_system_version;
use cubecl_hip_sys::header::read_header_version;
use cubecl_hip_sys::hipconfig::get_hip_ld_library_path;
use cubecl_hip_sys::hipconfig::get_hip_library_directory_name;
use cubecl_hip_sys::hipconfig::get_hip_patch_version;
use cubecl_hip_sys::hipconfig::get_hip_path;
use cubecl_hip_sys::hipconfig::get_rocm_path;
use cubecl_hip_sys::hipconfig::interpret_hipconfig_output;
use cubecl_hip_sys::hipconfig::parse_hip_library_directory_name;
use cubecl_hip_sys::hipconfig::parse_hip_patch_number;

#[test]
fn patch_number_standard() {
    assert_eq!(
        parse_hip_patch_number("6.4.43482-0f2d60242").unwrap(),
        "43482"
    );
}

#[test]
fn patch_number_with_rc_suffix() {
    assert_eq!(parse_hip_patch_number("10.20.54321-rc1").unwrap(), "54321");
}

#[test]
fn patch_number_leading_zeros() {
    assert_eq!(parse_hip_patch_number("6.4.00099-test").unwrap(), "00099");
}

#[test]
fn patch_number_missing_hyphen() {
    let r = parse_hip_patch_number("6.4.43482");
    assert!(
        matches!(r, Err(BuildError::ToolOutputParseError { ref output }) if output == "6.4.43482")
    );
}

#[test]
fn patch_number_completely_invalid() {
    let r = parse_hip_patch_number("no numbers");
    assert!(matches!(r, Err(BuildError::ToolOutputParseError { .. })));
}

#[test]
fn patch_number_skips_earlier_partial_matches() {
    // The first full match of the pattern decides, not the first digits.
    assert_eq!(
        parse_hip_patch_number("HIP version: 6.2.41134-65d174c3e").unwrap(),
        "41134"
    );
}

#[test]
fn patch_number_empty_input() {
    assert!(matches!(
        parse_hip_patch_number(""),
        Err(BuildError::ToolOutputParseError { .. })
    ));
}

#[test]
fn interpret_output_empty_everything() {
    assert_eq!(interpret_hipconfig_output("", "").unwrap(), "");
    assert_eq!(interpret_hipconfig_output(" \n\t ", "").unwrap(), "");
}

#[test]
fn library_directory_standard() {
    assert_eq!(
        parse_hip_library_directory_name("/opt/rocm\n", "/opt/rocm/lib/llvm/bin\n").unwrap(),
        "lib"
    );
}

#[test]
fn library_directory_lib64() {
    assert_eq!(
        parse_hip_library_directory_name("/usr/local/rocm\n", "/usr/local/rocm/lib64/x86_64\n")
            .unwrap(),
        "lib64"
    );
}

#[test]
fn library_directory_trailing_slash() {
    assert_eq!(
        parse_hip_library_directory_name("/opt/rocm/\n", "/opt/rocm/lib/foo\n").unwrap(),
        "lib"
    );
}

#[test]
fn library_directory_no_match() {
    let r = parse_hip_library_directory_name("/opt/rocm\n", "/other/path/lib\n");
    assert!(matches!(r, Err(BuildError::ToolOutputParseError { .. })));
}

#[test]
fn library_directory_no_component() {
    let r = parse_hip_library_directory_name("/opt/rocm\n", "/opt/rocm/\n");
    assert!(matches!(r, Err(BuildError::ToolOutputParseError { .. })));
}

#[test]
fn interpret_output_trims_stdout() {
    assert_eq!(
        interpret_hipconfig_output("  /opt/rocm\n", "").unwrap(),
        "/opt/rocm"
    );
}

#[test]
fn interpret_output_fails_on_stderr() {
    let r = interpret_hipconfig_output("/opt/rocm", "boom\n");
    assert!(matches!(r, Err(BuildError::ToolInvocationError { ref stderr }) if stderr == "boom"));
}

#[test]
fn rocm_and_hip_path_trim() {
    assert_eq!(get_rocm_path("/opt/rocm\n", "").unwrap(), "/opt/rocm");
    assert_eq!(get_hip_path(" /opt/rocm/hip \n", "").unwrap(), "/opt/rocm/hip");
}

#[test]
fn hip_patch_version_from_tool_output() {
    assert_eq!(
        get_hip_patch_version("6.4.43482-0f2d60242\n", "").unwrap(),
        "43482"
    );
    assert!(matches!(
        get_hip_patch_version("whatever", "err"),
        Err(BuildError::ToolInvocationError { .. })
    ));
}

#[test]
fn ld_library_path_joins_root_and_directory() {
    let r = get_hip_ld_library_path("/opt/rocm\n", "", "/opt/rocm/lib/llvm/bin\n", "").unwrap();
    assert_eq!(r, "/opt/rocm/lib");
}

#[test]
fn ld_library_path_reports_tool_failure() {
    assert!(matches!(
        get_hip_ld_library_path("/opt/rocm", "denied", "/opt/rocm/lib", ""),
        Err(BuildError::ToolInvocationError { .. })
    ));
    assert!(matches!(
        get_hip_ld_library_path("/opt/rocm", "", "/opt/rocm/lib", "denied"),
        Err(BuildError::ToolInvocationError { .. })
    ));
}

#[test]
fn library_directory_from_tool_output() {
    assert_eq!(
        get_hip_library_directory_name("/opt/rocm", "/opt/rocm/lib64/x86_64\n", "").unwrap(),
        "lib64"
    );
}

#[test]
fn rocm_header_parses() {
    let header = "\
// auto-generated\n\
#define ROCM_VERSION_MAJOR 6\n\
#define ROCM_VERSION_MINOR 2\n\
#define ROCM_VERSION_PATCH 4\n\
#define ROCM_BUILD_INFO \"6.2.4\"\n";
    let v = get_rocm_system_version(header).unwrap();
    assert_eq!((v.major, v.minor, v.patch), (6, 2, 4));
}

#[test]
fn hip_header_parses_build_number() {
    let header = "\
#define HIP_VERSION_MAJOR 6\n\
#define HIP_VERSION_MINOR 2\n\
#define HIP_VERSION_PATCH 41134\n";
    let v = get_hip_system_version(header).unwrap();
    assert_eq!((v.major, v.minor, v.patch), (6, 2, 41134));
}

#[test]
fn header_missing_line_fails() {
    let header = "#define ROCM_VERSION_MAJOR 6\n#define ROCM_VERSION_PATCH 4\n";
    let r = get_rocm_system_version(header);
    assert!(matches!(r, Err(BuildError::HeaderParseError { .. })));
    assert_eq!(
        r.unwrap_err().message(),
        "Invalid version header structure: Minor version line not found."
    );
}

#[test]
fn header_bad_value_fails() {
    let header = "\
#define ROCM_VERSION_MAJOR 6\n\
#define ROCM_VERSION_MINOR two\n\
#define ROCM_VERSION_PATCH 4\n";
    let r = get_rocm_system_version(header);
    assert_eq!(
        r.unwrap_err().message(),
        "Invalid version header structure: Couldn't parse minor version."
    );
}

#[test]
fn header_value_width_is_enforced() {
    // Major and minor are u8-wide; 256 does not fit.
    let header = "\
#define ROCM_VERSION_MAJOR 256\n\
#define ROCM_VERSION_MINOR 0\n\
#define ROCM_VERSION_PATCH 0\n";
    assert!(get_rocm_system_version(header).is_err());
    // The patch is u32-wide; a large build number fits.
    let header = "\
#define ROCM_VERSION_MAJOR 6\n\
#define ROCM_VERSION_MINOR 0\n\
#define ROCM_VERSION_PATCH 4294967295\n";
    assert_eq!(get_rocm_system_version(header).unwrap().patch, u32::MAX);
    let header = "\
#define ROCM_VERSION_MAJOR 6\n\
#define ROCM_VERSION_MINOR 0\n\
#define ROCM_VERSION_PATCH 4294967296\n";
    assert!(get_rocm_system_version(header).is_err());
}

#[test]
fn header_first_matching_line_wins() {
    let header = "\
#define ROCM_VERSION_MAJOR 6\n\
#define ROCM_VERSION_MAJOR 7\n\
#define ROCM_VERSION_MINOR 1\n\
#define ROCM_VERSION_PATCH 2\n";
    assert_eq!(get_rocm_system_version(header).unwrap().major, 6);
}

#[test]
fn header_tolerates_carriage_returns_and_padding() {
    let header = "#define X_MAJOR 1\r\n#define X_MINOR  2 \r\n#define X_PATCH\t3\r\n";
    let v = read_header_version(header, "#define X_MAJOR", "#define X_MINOR", "#define X_PATCH")
        .unwrap();
    assert_eq!((v.major, v.minor, v.patch), (1, 2, 3));
}
