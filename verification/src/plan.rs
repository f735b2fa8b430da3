//! The reconciliation state machine.
//!
//! Given the probed candidate directories (path, marker flag and the
//! text of the SDK version header where it could be read) and the
//! version declared at compile time, the plan selects the first
//! candidate whose detected version is compatible.  A candidate whose
//! header cannot be read or parsed is skipped, as is an incompatible
//! one.  When no candidate has the marker at all, the build is skipped
//! silently unless a path variable was explicitly supplied; when
//! candidates were found but none is compatible, that is reported
//! distinctly.

use vstd::prelude::*;

use crate::compare::compare;
use crate::compare::spec_compare;
use crate::compare::DriftComponent;
use crate::compare::ReconciliationResult;
use crate::error::BuildError;
use crate::header::get_rocm_system_version;
use crate::header::spec_header_version;
use crate::version::Version;

verus! {

/// One probed candidate directory: its path, whether the marker
/// sub-path exists beneath it, and the text of its SDK version header
/// when it could be read.
#[derive(Debug)]
pub struct CandidateProbe {
    pub path: String,
    pub marker_exists: bool,
    pub header: Option<String>,
}

/// The outcome of reconciliation.
#[derive(Debug)]
pub enum BuildPlan {
    /// A compatible installation was found; emit directives for it,
    /// with an advisory when a component drifted.
    Proceed { root: String, detected: Version, drift: Option<DriftComponent> },
    /// No candidate exists and none was asked for: do nothing, silently.
    Skip,
    /// The build must not proceed.
    Fail(BuildError),
}

/// The version a probed candidate presents: its header text read as an
/// SDK version header, when the marker exists and the header was
/// readable and parses.
pub open spec fn candidate_version(p: CandidateProbe) -> Option<Version> {
    match p.header {
        Some(h) => match spec_header_version(
            h@,
            "#define ROCM_VERSION_MAJOR "@,
            "#define ROCM_VERSION_MINOR "@,
            "#define ROCM_VERSION_PATCH "@,
        ) {
            Ok(v) => Some(v),
            Err(_) => None,
        },
        None => None,
    }
}

/// Is this candidate acceptable: marker present, version readable, and
/// not incompatible with the declared version?
pub open spec fn candidate_accepts(p: CandidateProbe, declared: Version) -> bool {
    &&& p.marker_exists
    &&& candidate_version(p) matches Some(v) && spec_compare(declared, v)
        != ReconciliationResult::Incompatible
}

/// The index of the first acceptable candidate at or after `i`.
pub open spec fn first_accepted(probes: Seq<CandidateProbe>, declared: Version, i: int) -> Option<
    int,
>
    decreases probes.len() - i,
{
    if i < 0 || i >= probes.len() {
        None
    } else if candidate_accepts(probes[i], declared) {
        Some(i)
    } else {
        first_accepted(probes, declared, i + 1)
    }
}

/// The paths of the candidates whose marker exists, in order.
pub open spec fn valid_paths(probes: Seq<CandidateProbe>) -> Seq<String>
    decreases probes.len(),
{
    if probes.len() == 0 {
        Seq::empty()
    } else {
        let rest = valid_paths(probes.drop_last());
        if probes.last().marker_exists {
            rest.push(probes.last().path)
        } else {
            rest
        }
    }
}

/// Was any of the path variables explicitly supplied?
pub open spec fn any_override_set(overrides: Seq<(String, Option<String>)>) -> bool {
    exists|i: int| 0 <= i < overrides.len() && overrides[i].1 is Some
}

/// The names of the configured path variables, in order.
pub open spec fn override_names(overrides: Seq<(String, Option<String>)>) -> Seq<String>
    decreases overrides.len(),
{
    if overrides.len() == 0 {
        Seq::empty()
    } else {
        override_names(overrides.drop_last()).push(overrides.last().0)
    }
}

/// The drift advisory owed for a comparison that allows the build to
/// proceed.
pub open spec fn spec_drift(declared: Version, detected: Version) -> Option<DriftComponent> {
    match spec_compare(declared, detected) {
        ReconciliationResult::CompatibleWithWarning(d) => Some(d),
        _ => None,
    }
}

fn collect_valid_paths(probes: &Vec<CandidateProbe>) -> (r: Vec<String>)
    ensures
        r@ == valid_paths(probes@),
{
    let mut out: Vec<String> = Vec::new();
    let mut i: usize = 0;
    while i < probes.len()
        invariant
            0 <= i <= probes@.len(),
            out@ == valid_paths(probes@.subrange(0, i as int)),
        decreases probes@.len() - i,
    {
        proof {
            assert(probes@.subrange(0, i + 1).drop_last() =~= probes@.subrange(0, i as int));
            assert(probes@.subrange(0, i + 1).last() == probes@[i as int]);
        }
        if probes[i].marker_exists {
            out.push(probes[i].path.clone());
        }
        i = i + 1;
    }
    proof {
        assert(probes@.subrange(0, probes@.len() as int) =~= probes@);
    }
    out
}

fn collect_override_names(overrides: &Vec<(String, Option<String>)>) -> (r: Vec<String>)
    ensures
        r@ == override_names(overrides@),
{
    let mut out: Vec<String> = Vec::new();
    let mut i: usize = 0;
    while i < overrides.len()
        invariant
            0 <= i <= overrides@.len(),
            out@ == override_names(overrides@.subrange(0, i as int)),
        decreases overrides@.len() - i,
    {
        proof {
            assert(overrides@.subrange(0, i + 1).drop_last() =~= overrides@.subrange(0, i as int));
            assert(overrides@.subrange(0, i + 1).last() == overrides@[i as int]);
        }
        out.push(overrides[i].0.clone());
        i = i + 1;
    }
    proof {
        assert(overrides@.subrange(0, overrides@.len() as int) =~= overrides@);
    }
    out
}

fn any_override_set_exec(overrides: &Vec<(String, Option<String>)>) -> (r: bool)
    ensures
        r == any_override_set(overrides@),
{
    let mut i: usize = 0;
    while i < overrides.len()
        invariant
            0 <= i <= overrides@.len(),
            forall|j: int| 0 <= j < i ==> overrides@[j].1 is None,
        decreases overrides@.len() - i,
    {
        if overrides[i].1.is_some() {
            return true;
        }
        i = i + 1;
    }
    false
}

/// Walk the candidates in order and decide the build's outcome.
///
/// The first candidate with the marker, a parsable SDK header and a
/// version that is not incompatible wins; the plan carries its path,
/// its detected version and the drift advisory, if any.  With no such
/// candidate the outcome distinguishes "candidates found but none
/// compatible" from "no candidates at all", and the latter fails only
/// when a path variable was explicitly supplied.
pub fn plan_build(
    overrides: &Vec<(String, Option<String>)>,
    probes: &Vec<CandidateProbe>,
    declared: &Version,
) -> (r: BuildPlan)
    ensures
        ({
            let sel = first_accepted(probes@, *declared, 0);
            &&& sel matches Some(i) ==> (r matches BuildPlan::Proceed { root, detected, drift } && {
                &&& root == probes@[i].path
                &&& candidate_version(probes@[i]) == Some(detected)
                &&& drift == spec_drift(*declared, detected)
            })
            &&& (sel is None && valid_paths(probes@).len() > 0) ==> (r matches BuildPlan::Fail(e)
                && e matches BuildError::AmbiguousCandidates { candidates } && candidates@
                == valid_paths(probes@))
            &&& (sel is None && valid_paths(probes@).len() == 0 && any_override_set(overrides@))
                ==> (r matches BuildPlan::Fail(e) && e matches BuildError::PathNotFound { variables }
                && variables@ == override_names(overrides@))
            &&& (sel is None && valid_paths(probes@).len() == 0 && !any_override_set(overrides@))
                ==> r matches BuildPlan::Skip
        }),
{
    let mut i: usize = 0;
    while i < probes.len()
        invariant
            0 <= i <= probes@.len(),
            first_accepted(probes@, *declared, 0) == first_accepted(probes@, *declared, i as int),
            forall|j: int| 0 <= j < i ==> !candidate_accepts(probes@[j], *declared),
        decreases probes@.len() - i,
    {
        let p = &probes[i];
        if p.marker_exists {
            match &p.header {
                Some(h) => {
                    match get_rocm_system_version(h.as_str()) {
                        Ok(v) => {
                            match compare(declared, &v) {
                                ReconciliationResult::Incompatible => {},
                                ReconciliationResult::Compatible => {
                                    return BuildPlan::Proceed {
                                        root: p.path.clone(),
                                        detected: v,
                                        drift: None,
                                    };
                                },
                                ReconciliationResult::CompatibleWithWarning(d) => {
                                    return BuildPlan::Proceed {
                                        root: p.path.clone(),
                                        detected: v,
                                        drift: Some(d),
                                    };
                                },
                            }
                        },
                        Err(_) => {},
                    }
                },
                None => {},
            }
        }
        proof {
            assert(!candidate_accepts(probes@[i as int], *declared));
        }
        i = i + 1;
    }
    let valid = collect_valid_paths(probes);
    if valid.len() > 0 {
        return BuildPlan::Fail(BuildError::AmbiguousCandidates { candidates: valid });
    }
    if any_override_set_exec(overrides) {
        let variables = collect_override_names(overrides);
        return BuildPlan::Fail(BuildError::PathNotFound { variables });
    }
    BuildPlan::Skip
}

} // verus!
