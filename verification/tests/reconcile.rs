//! Tests for feature reconciliation, version comparison, the patch
//! mapping and the build plan.

use cubecl_hip_sys::compare::check_compatibility;
use cubecl_hip_sys::compare::compare;
use cubecl_hip_sys::error::BuildError;
use cubecl_hip_sys::features::collect_enabled;
use cubecl_hip_sys::features::decode_patch_switch;
use cubecl_hip_sys::features::decode_sdk_switch;
use cubecl_hip_sys::features::reconcile_patch_feature;
use cubecl_hip_sys::features::reconcile_sdk_feature;
use cubecl_hip_sys::plan::plan_build;
use cubecl_hip_sys::plan::BuildPlan;
use cubecl_hip_sys::CandidateProbe;
use cubecl_hip_sys::DriftComponent;
use cubecl_hip_sys::PatchNumberMapper;
use cubecl_hip_sys::ReconcileMode;
use cubecl_hip_sys::ReconciliationResult;
use cubecl_hip_sys::Version;

fn switches(pairs: &[(&str, &str)]) -> Vec<(String, String)> {
    pairs
        .iter()
        .map(|(k, v)| (k.to_string(), v.to_string()))
        .collect()
}

#[test]
fn mapper_known_pairs() {
    assert_eq!(PatchNumberMapper::map(41134), Some(4));
    assert_eq!(PatchNumberMapper::map(42131), Some(0));
}

#[test]
fn mapper_unknown_input() {
    assert_eq!(PatchNumberMapper::map(99999), None);
}

#[test]
fn mapper_normalize_falls_back_to_raw() {
    assert_eq!(PatchNumberMapper::normalize(41134), (4, true));
    assert_eq!(PatchNumberMapper::normalize(99999), (99999, false));
}

#[test]
fn one_enabled_switch_decides() {
    let sw = switches(&[
        ("CARGO_FEATURE_HIP_41134", "1"),
        ("CARGO_FEATURE_HIP_42131", "0"),
        ("PATH", "/usr/bin"),
    ]);
    let r = reconcile_patch_feature(&sw, "CARGO_FEATURE_HIP_", ReconcileMode::Strict, 0);
    assert_eq!(r.unwrap(), 41134);
}

#[test]
fn two_enabled_switches_fail_naming_both() {
    let sw = switches(&[
        ("CARGO_FEATURE_HIP_41134", "1"),
        ("CARGO_FEATURE_HIP_42131", "1"),
    ]);
    let r = reconcile_patch_feature(&sw, "CARGO_FEATURE_HIP_", ReconcileMode::Permissive, 0);
    match r {
        Err(BuildError::FeatureCountError { enabled }) => {
            assert_eq!(
                enabled,
                vec![
                    "CARGO_FEATURE_HIP_41134".to_string(),
                    "CARGO_FEATURE_HIP_42131".to_string()
                ]
            );
        }
        other => panic!("expected a feature count error, got {:?}", other),
    }
}

#[test]
fn zero_enabled_strict_fails() {
    let sw = switches(&[("PATH", "/usr/bin")]);
    let r = reconcile_patch_feature(&sw, "CARGO_FEATURE_HIP_", ReconcileMode::Strict, 43482);
    assert!(matches!(r, Err(BuildError::FeatureCountError { ref enabled }) if enabled.is_empty()));
}

#[test]
fn zero_enabled_permissive_falls_back_to_detected() {
    let sw = switches(&[("PATH", "/usr/bin")]);
    let r = reconcile_patch_feature(&sw, "CARGO_FEATURE_HIP_", ReconcileMode::Permissive, 43482);
    assert_eq!(r.unwrap(), 43482);
}

#[test]
fn malformed_switch_is_a_decode_error() {
    let sw = switches(&[("CARGO_FEATURE_HIP_LATEST", "1")]);
    let r = reconcile_patch_feature(&sw, "CARGO_FEATURE_HIP_", ReconcileMode::Strict, 0);
    assert!(
        matches!(r, Err(BuildError::FeatureDecodeError { ref switch }) if switch == "CARGO_FEATURE_HIP_LATEST")
    );
}

#[test]
fn sdk_switch_decodes_three_parts() {
    assert_eq!(
        decode_sdk_switch("CARGO_FEATURE_ROCM_6_2_4", "CARGO_FEATURE_ROCM_"),
        Some(Version::new(6, 2, 4))
    );
    assert_eq!(decode_sdk_switch("CARGO_FEATURE_ROCM_6_2", "CARGO_FEATURE_ROCM_"), None);
    assert_eq!(
        decode_sdk_switch("CARGO_FEATURE_ROCM_6_2_4_1", "CARGO_FEATURE_ROCM_"),
        None
    );
    assert_eq!(decode_sdk_switch("CARGO_FEATURE_ROCM_6_x_4", "CARGO_FEATURE_ROCM_"), None);
}

#[test]
fn patch_switch_decodes_number() {
    assert_eq!(decode_patch_switch("HIP_41134", "HIP_"), Some(41134));
    assert_eq!(decode_patch_switch("HIP_", "HIP_"), None);
    assert_eq!(decode_patch_switch("OTHER_41134", "HIP_"), None);
}

#[test]
fn sdk_reconciliation_uses_one_switch() {
    let sw = switches(&[("CARGO_FEATURE_ROCM_6_2_4", "1")]);
    let r = reconcile_sdk_feature(&sw, "CARGO_FEATURE_ROCM_", ReconcileMode::Strict, Version::new(0, 0, 0));
    assert_eq!(r.unwrap(), Version::new(6, 2, 4));
}

#[test]
fn collect_enabled_preserves_order() {
    let sw = switches(&[
        ("CARGO_FEATURE_HIP_2", "1"),
        ("CARGO_FEATURE_HIP_1", "1"),
        ("CARGO_FEATURE_HIP_3", "0"),
    ]);
    assert_eq!(
        collect_enabled(&sw, "CARGO_FEATURE_HIP_"),
        vec!["CARGO_FEATURE_HIP_2".to_string(), "CARGO_FEATURE_HIP_1".to_string()]
    );
}

#[test]
fn compare_full_match() {
    assert_eq!(
        compare(&Version::new(6, 2, 4), &Version::new(6, 2, 4)),
        ReconciliationResult::Compatible
    );
}

#[test]
fn compare_patch_drift() {
    assert_eq!(
        compare(&Version::new(6, 2, 4), &Version::new(6, 2, 1)),
        ReconciliationResult::CompatibleWithWarning(DriftComponent::Patch)
    );
}

#[test]
fn compare_minor_drift() {
    assert_eq!(
        compare(&Version::new(6, 3, 0), &Version::new(6, 2, 4)),
        ReconciliationResult::CompatibleWithWarning(DriftComponent::Minor)
    );
}

#[test]
fn compare_major_mismatch() {
    assert_eq!(
        compare(&Version::new(7, 0, 0), &Version::new(6, 2, 4)),
        ReconciliationResult::Incompatible
    );
}

#[test]
fn compatibility_check_converts_outcome() {
    assert_eq!(
        check_compatibility(&Version::new(6, 2, 4), &Version::new(6, 2, 4)).unwrap(),
        None
    );
    assert_eq!(
        check_compatibility(&Version::new(6, 2, 4), &Version::new(6, 2, 1)).unwrap(),
        Some(DriftComponent::Patch)
    );
    let r = check_compatibility(&Version::new(7, 0, 0), &Version::new(6, 2, 4));
    match r {
        Err(BuildError::VersionIncompatible { declared, detected }) => {
            assert_eq!(declared, Version::new(7, 0, 0));
            assert_eq!(detected, Version::new(6, 2, 4));
        }
        other => panic!("expected incompatibility, got {:?}", other),
    }
}

fn rocm_header(major: u8, minor: u8, patch: u32) -> String {
    format!(
        "#define ROCM_VERSION_MAJOR {}\n#define ROCM_VERSION_MINOR {}\n#define ROCM_VERSION_PATCH {}\n",
        major, minor, patch
    )
}

fn probe(path: &str, marker: bool, header: Option<String>) -> CandidateProbe {
    CandidateProbe {
        path: path.to_string(),
        marker_exists: marker,
        header,
    }
}

#[test]
fn plan_silent_skip_without_overrides_or_default() {
    let overrides: Vec<(String, Option<String>)> = vec![
        ("CUBECL_ROCM_PATH".to_string(), None),
        ("ROCM_PATH".to_string(), None),
        ("HIP_PATH".to_string(), None),
    ];
    let probes = vec![probe("/opt/rocm", false, None)];
    let r = plan_build(&overrides, &probes, &Version::new(6, 2, 4));
    assert!(matches!(r, BuildPlan::Skip));
}

#[test]
fn plan_fails_when_override_lacks_marker() {
    let overrides: Vec<(String, Option<String>)> = vec![
        ("CUBECL_ROCM_PATH".to_string(), None),
        ("ROCM_PATH".to_string(), Some("/bad/path".to_string())),
        ("HIP_PATH".to_string(), None),
    ];
    let probes = vec![probe("/bad/path", false, None), probe("/opt/rocm", false, None)];
    let r = plan_build(&overrides, &probes, &Version::new(6, 2, 4));
    match r {
        BuildPlan::Fail(BuildError::PathNotFound { variables }) => {
            assert_eq!(
                variables,
                vec![
                    "CUBECL_ROCM_PATH".to_string(),
                    "ROCM_PATH".to_string(),
                    "HIP_PATH".to_string()
                ]
            );
        }
        other => panic!("expected a path error, got {:?}", other),
    }
}

#[test]
fn plan_picks_first_compatible_candidate() {
    let overrides: Vec<(String, Option<String>)> = vec![(
        "ROCM_PATH".to_string(),
        Some("/first".to_string()),
    )];
    let probes = vec![
        probe("/first", true, Some(rocm_header(7, 0, 0))),
        probe("/second", true, Some(rocm_header(6, 2, 4))),
    ];
    let r = plan_build(&overrides, &probes, &Version::new(6, 2, 4));
    match r {
        BuildPlan::Proceed { root, detected, drift } => {
            assert_eq!(root, "/second");
            assert_eq!(detected, Version::new(6, 2, 4));
            assert_eq!(drift, None);
        }
        other => panic!("expected to proceed, got {:?}", other),
    }
}

#[test]
fn plan_reports_drift_advisory() {
    let overrides: Vec<(String, Option<String>)> = vec![];
    let probes = vec![probe("/opt/rocm", true, Some(rocm_header(6, 2, 1)))];
    let r = plan_build(&overrides, &probes, &Version::new(6, 2, 4));
    match r {
        BuildPlan::Proceed { root, detected, drift } => {
            assert_eq!(root, "/opt/rocm");
            assert_eq!(detected, Version::new(6, 2, 1));
            assert_eq!(drift, Some(DriftComponent::Patch));
        }
        other => panic!("expected to proceed, got {:?}", other),
    }
}

#[test]
fn plan_distinguishes_found_but_incompatible() {
    let overrides: Vec<(String, Option<String>)> = vec![(
        "ROCM_PATH".to_string(),
        Some("/opt/rocm".to_string()),
    )];
    let probes = vec![probe("/opt/rocm", true, Some(rocm_header(7, 0, 0)))];
    let r = plan_build(&overrides, &probes, &Version::new(6, 2, 4));
    match r {
        BuildPlan::Fail(BuildError::AmbiguousCandidates { candidates }) => {
            assert_eq!(candidates, vec!["/opt/rocm".to_string()]);
        }
        other => panic!("expected an ambiguity error, got {:?}", other),
    }
}

#[test]
fn plan_skips_unreadable_headers() {
    let overrides: Vec<(String, Option<String>)> = vec![];
    let probes = vec![
        probe("/broken", true, None),
        probe("/garbled", true, Some("not a header".to_string())),
        probe("/good", true, Some(rocm_header(6, 2, 4))),
    ];
    let r = plan_build(&overrides, &probes, &Version::new(6, 2, 4));
    match r {
        BuildPlan::Proceed { root, .. } => assert_eq!(root, "/good"),
        other => panic!("expected to proceed, got {:?}", other),
    }
}
