//! Candidate installation directories.
//!
//! The candidates come from named environment variables in priority
//! order, followed by one built-in default location.  A candidate is
//! kept only when a required marker sub-path exists beneath it; the
//! existence checks are made outside this crate and handed in as flags,
//! one per candidate, in the same order.

use vstd::prelude::*;

verus! {

/// The candidate values among the supplied variables, in order.
pub open spec fn spec_override_values(overrides: Seq<(Seq<char>, Option<Seq<char>>)>) -> Seq<
    Seq<char>,
>
    decreases overrides.len(),
{
    if overrides.len() == 0 {
        Seq::empty()
    } else {
        let rest = spec_override_values(overrides.drop_last());
        match overrides.last().1 {
            Some(v) => rest.push(v),
            None => rest,
        }
    }
}

/// What `resolve_candidates` returns: the value of each set variable in
/// order, then the default path.
pub open spec fn spec_candidates(
    overrides: Seq<(Seq<char>, Option<Seq<char>>)>,
    default_path: Seq<char>,
) -> Seq<Seq<char>> {
    spec_override_values(overrides).push(default_path)
}

/// Build the ordered candidate list from the environment variables
/// (name and value if set) and the built-in default location.
pub fn resolve_candidates(overrides: &Vec<(String, Option<String>)>, default_path: &str) -> (r:
    Vec<String>)
    ensures
        r.deep_view() == spec_candidates(overrides.deep_view(), default_path@),
        r@.len() >= 1,
{
    let mut out: Vec<String> = Vec::new();
    let mut i: usize = 0;
    while i < overrides.len()
        invariant
            0 <= i <= overrides@.len(),
            overrides.deep_view().len() == overrides@.len(),
            out.deep_view() == spec_override_values(overrides.deep_view().subrange(0, i as int)),
        decreases overrides@.len() - i,
    {
        proof {
            let dv = overrides.deep_view();
            assert(dv.subrange(0, i + 1).drop_last() =~= dv.subrange(0, i as int));
            assert(dv.subrange(0, i + 1).last() == dv[i as int]);
            assert(dv[i as int] == overrides@[i as int].deep_view());
        }
        match &overrides[i].1 {
            Some(v) => {
                out.push(v.clone());
            },
            None => {},
        }
        i = i + 1;
    }
    proof {
        assert(overrides.deep_view().subrange(0, overrides.deep_view().len() as int)
            =~= overrides.deep_view());
    }
    out.push(String::from_str(default_path));
    out
}

/// What `filter_candidates` returns: the candidates whose flag is set,
/// in order.
pub open spec fn spec_filter_candidates(candidates: Seq<String>, keep: Seq<bool>) -> Seq<String>
    recommends
        candidates.len() == keep.len(),
    decreases candidates.len(),
{
    if candidates.len() == 0 {
        Seq::empty()
    } else {
        let rest = spec_filter_candidates(candidates.drop_last(), keep.drop_last());
        if keep.len() >= 1 && keep.last() {
            rest.push(candidates.last())
        } else {
            rest
        }
    }
}

/// Keep the candidates whose marker sub-path exists, preserving order;
/// `marker_exists` holds one flag per candidate.
pub fn filter_candidates(candidates: &Vec<String>, marker_exists: &Vec<bool>) -> (r: Vec<String>)
    requires
        candidates@.len() == marker_exists@.len(),
    ensures
        r@ == spec_filter_candidates(candidates@, marker_exists@),
{
    let mut out: Vec<String> = Vec::new();
    let mut i: usize = 0;
    while i < candidates.len()
        invariant
            0 <= i <= candidates@.len() == marker_exists@.len(),
            out@ == spec_filter_candidates(
                candidates@.subrange(0, i as int),
                marker_exists@.subrange(0, i as int),
            ),
        decreases candidates@.len() - i,
    {
        proof {
            assert(candidates@.subrange(0, i + 1).drop_last() =~= candidates@.subrange(0, i as int));
            assert(marker_exists@.subrange(0, i + 1).drop_last() =~= marker_exists@.subrange(
                0,
                i as int,
            ));
            assert(candidates@.subrange(0, i + 1).last() == candidates@[i as int]);
            assert(marker_exists@.subrange(0, i + 1).last() == marker_exists@[i as int]);
        }
        if marker_exists[i] {
            out.push(candidates[i].clone());
        }
        i = i + 1;
    }
    proof {
        assert(candidates@.subrange(0, candidates@.len() as int) =~= candidates@);
        assert(marker_exists@.subrange(0, marker_exists@.len() as int) =~= marker_exists@);
    }
    out
}

} // verus!
