//! Comparison of the version declared at compile time against the version
//! detected on the host.
//!
//! The major level is a hard gate: the native ABI is assumed stable within
//! a major line but not across one, so a major mismatch is always
//! incompatible.  Below the major level the build may proceed with an
//! advisory: a minor mismatch is reported as minor drift (patch numbers
//! are only comparable within the same minor line), and a patch mismatch
//! under an equal minor as patch drift.

use vstd::prelude::*;

use crate::error::BuildError;
use crate::version::Version;

verus! {

/// The version field that drifted between the declared and the detected
/// version, when the drift is tolerable.
#[derive(Clone, Copy, PartialEq, Eq, Structural, Debug)]
pub enum DriftComponent {
    Minor,
    Patch,
}

/// The outcome of comparing a declared version against a detected one.
#[derive(Clone, Copy, PartialEq, Eq, Structural, Debug)]
pub enum ReconciliationResult {
    /// Full match; the build proceeds silently.
    Compatible,
    /// Major match with drift below it; the build proceeds with an advisory.
    CompatibleWithWarning(DriftComponent),
    /// Major mismatch; the build must not proceed with this candidate.
    Incompatible,
}

/// What `compare` returns for any pair of versions.
pub open spec fn spec_compare(declared: Version, detected: Version) -> ReconciliationResult {
    if declared.major != detected.major {
        ReconciliationResult::Incompatible
    } else if declared.minor != detected.minor {
        ReconciliationResult::CompatibleWithWarning(DriftComponent::Minor)
    } else if declared.patch != detected.patch {
        ReconciliationResult::CompatibleWithWarning(DriftComponent::Patch)
    } else {
        ReconciliationResult::Compatible
    }
}

/// Classify the declared version against the detected one.
pub fn compare(declared: &Version, detected: &Version) -> (r: ReconciliationResult)
    ensures
        r == spec_compare(*declared, *detected),
{
    if declared.major != detected.major {
        ReconciliationResult::Incompatible
    } else if declared.minor != detected.minor {
        ReconciliationResult::CompatibleWithWarning(DriftComponent::Minor)
    } else if declared.patch != detected.patch {
        ReconciliationResult::CompatibleWithWarning(DriftComponent::Patch)
    } else {
        ReconciliationResult::Compatible
    }
}

/// Turn the classification of a chosen installation into the build's
/// outcome: an incompatible pair is the fatal error naming both
/// versions, a compatible one passes with its drift advisory, if any.
pub fn check_compatibility(declared: &Version, detected: &Version) -> (r: Result<
    Option<DriftComponent>,
    BuildError,
>)
    ensures
        r == match spec_compare(*declared, *detected) {
            ReconciliationResult::Incompatible => Err::<Option<DriftComponent>, BuildError>(
                BuildError::VersionIncompatible { declared: *declared, detected: *detected },
            ),
            ReconciliationResult::CompatibleWithWarning(d) => Ok(Some(d)),
            ReconciliationResult::Compatible => Ok(None),
        },
{
    match compare(declared, detected) {
        ReconciliationResult::Incompatible => Err(
            BuildError::VersionIncompatible { declared: *declared, detected: *detected },
        ),
        ReconciliationResult::CompatibleWithWarning(d) => Ok(Some(d)),
        ReconciliationResult::Compatible => Ok(None),
    }
}

} // verus!
