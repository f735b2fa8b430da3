//! The mapping from internal HIP header build numbers to official ROCm
//! patch release numbers.
//!
//! HIP headers report a monotonically increasing build number where a
//! release's patch level would be expected; the official release carries
//! a small patch number instead.  The table below records the known
//! pairs.  Unmapped build numbers pass through unchanged at the caller,
//! which then surfaces a non-fatal warning.

use vstd::prelude::*;

verus! {

/// The lookup table from header build numbers to release patch numbers.
pub struct PatchNumberMapper;

impl PatchNumberMapper {
    /// The table as pure data: the known pairs, and nothing for any
    /// other build number.
    pub open spec fn spec_map(raw_patch: u32) -> Option<u32> {
        if raw_patch == 41134 {
            Some(4)
        } else if raw_patch == 42131 {
            Some(0)
        } else {
            None
        }
    }

    /// Look up the official release patch number for a header build
    /// number; unknown build numbers map to nothing.
    pub fn map(raw_patch: u32) -> (r: Option<u32>)
        ensures
            r == Self::spec_map(raw_patch),
    {
        if raw_patch == 41134 {
            Some(4)
        } else if raw_patch == 42131 {
            Some(0)
        } else {
            None
        }
    }

    /// The release patch number under which a build is known, or the
    /// build number itself with a mark that it is unknown and that a
    /// warning is owed.
    pub fn normalize(raw_patch: u32) -> (r: (u32, bool))
        ensures
            match Self::spec_map(raw_patch) {
                Some(official) => r == (official, true),
                None => r == (raw_patch, false),
            },
    {
        match Self::map(raw_patch) {
            Some(official) => (official, true),
            None => (raw_patch, false),
        }
    }
}

} // verus!
