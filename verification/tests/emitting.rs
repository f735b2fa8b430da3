//! Tests for path resolution, link directives, version formatting and
//! diagnostics.

use cubecl_hip_sys::emit::emit_link_directives;
use cubecl_hip_sys::emit::fallback_feature_directive;
use cubecl_hip_sys::error::BuildError;
use cubecl_hip_sys::paths::filter_candidates;
use cubecl_hip_sys::paths::resolve_candidates;
use cubecl_hip_sys::Version;

#[test]
fn candidates_keep_priority_order_and_default() {
    let overrides: Vec<(String, Option<String>)> = vec![
        ("CUBECL_ROCM_PATH".to_string(), None),
        ("ROCM_PATH".to_string(), Some("/custom/rocm".to_string())),
        ("HIP_PATH".to_string(), Some("/custom/hip".to_string())),
    ];
    let r = resolve_candidates(&overrides, "/opt/rocm");
    assert_eq!(
        r,
        vec![
            "/custom/rocm".to_string(),
            "/custom/hip".to_string(),
            "/opt/rocm".to_string()
        ]
    );
}

#[test]
fn candidates_default_only_when_nothing_is_set() {
    let overrides: Vec<(String, Option<String>)> = vec![
        ("CUBECL_ROCM_PATH".to_string(), None),
        ("ROCM_PATH".to_string(), None),
    ];
    assert_eq!(resolve_candidates(&overrides, "/opt/rocm"), vec!["/opt/rocm".to_string()]);
}

#[test]
fn filtering_keeps_marked_candidates_in_order() {
    let candidates = vec![
        "/a".to_string(),
        "/b".to_string(),
        "/c".to_string(),
    ];
    let flags = vec![true, false, true];
    assert_eq!(
        filter_candidates(&candidates, &flags),
        vec!["/a".to_string(), "/c".to_string()]
    );
}

#[test]
fn link_directives_are_exactly_three() {
    let r = emit_link_directives("/opt/rocm/lib");
    assert_eq!(
        r,
        vec![
            "cargo::rustc-link-lib=dylib=hiprtc".to_string(),
            "cargo::rustc-link-lib=dylib=amdhip64".to_string(),
            "cargo::rustc-link-search=native=/opt/rocm/lib".to_string()
        ]
    );
}

#[test]
fn fallback_directive_reencodes_detected_version() {
    assert_eq!(
        fallback_feature_directive("43482"),
        "cargo:rustc-cfg=feature=\"hip_43482\""
    );
}

#[test]
fn version_prints_as_dotted_triple() {
    assert_eq!(Version::new(6, 2, 4).to_version_string(), "6.2.4");
    assert_eq!(Version::new(0, 0, 0).to_version_string(), "0.0.0");
    assert_eq!(Version::new(6, 10, 43482).to_version_string(), "6.10.43482");
}

#[test]
fn messages_name_the_offending_values() {
    let e = BuildError::PathNotFound {
        variables: vec!["ROCM_PATH".to_string(), "HIP_PATH".to_string()],
    };
    assert_eq!(
        e.message(),
        "No SDK installation found: none of the configured path variables (ROCM_PATH, HIP_PATH) \
         points at a directory holding the marker sub-path."
    );
    let e = BuildError::FeatureCountError {
        enabled: vec!["hip_41134".to_string(), "hip_42131".to_string()],
    };
    assert_eq!(
        e.message(),
        "Multiple version feature switches are enabled: hip_41134, hip_42131. Only one can be set."
    );
    let e = BuildError::FeatureCountError { enabled: vec![] };
    assert_eq!(e.message(), "No version feature switch is enabled.");
    let e = BuildError::VersionIncompatible {
        declared: Version::new(7, 0, 0),
        detected: Version::new(6, 2, 4),
    };
    assert_eq!(
        e.message(),
        "Declared version 7.0.0 is incompatible with detected version 6.2.4."
    );
    let e = BuildError::ToolInvocationError {
        stderr: "command failed".to_string(),
    };
    assert_eq!(
        e.message(),
        "Error executing hipconfig. The process returned:\ncommand failed"
    );
    let e = BuildError::ToolOutputParseError {
        output: "6.4.43482".to_string(),
    };
    assert_eq!(e.message(), "Could not parse hipconfig output '6.4.43482'.");
    let e = BuildError::FeatureDecodeError {
        switch: "hip_latest".to_string(),
    };
    assert_eq!(
        e.message(),
        "Could not decode a version from feature switch 'hip_latest'."
    );
    let e = BuildError::AmbiguousCandidates {
        candidates: vec!["/opt/rocm".to_string()],
    };
    assert_eq!(
        e.message(),
        "Candidate installations were found, but none is version-compatible: /opt/rocm"
    );
}
