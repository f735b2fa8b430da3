//! The three-component release identifier used for both the SDK as a whole
//! and its HIP runtime subcomponent.

use vstd::prelude::*;

use crate::text::dec_str;
use crate::text::u32_to_string;

verus! {

/// The printable form of a version, `major.minor.patch`, each component
/// as a decimal numeral.
pub open spec fn spec_version_string(v: Version) -> Seq<char> {
    dec_str(v.major as nat) + seq!['.'] + dec_str(v.minor as nat) + seq!['.'] + dec_str(
        v.patch as nat,
    )
}

/// A release identifier `major.minor.patch`.
///
/// `major` and `minor` are small numbers; `patch` is wide because HIP
/// headers report an internal build number there (five digits and more).
#[derive(Clone, Copy, PartialEq, Eq, Structural, Debug)]
pub struct Version {
    pub major: u8,
    pub minor: u8,
    pub patch: u32,
}

impl Version {
    pub fn new(major: u8, minor: u8, patch: u32) -> (v: Version)
        ensures
            v == (Version { major, minor, patch }),
    {
        Version { major, minor, patch }
    }

    /// Write the version as `major.minor.patch`.
    pub fn to_version_string(&self) -> (r: String)
        ensures
            r@ == spec_version_string(*self),
    {
        let mut s = u32_to_string(self.major as u32);
        s.append(".");
        let minor = u32_to_string(self.minor as u32);
        s.append(minor.as_str());
        s.append(".");
        let patch = u32_to_string(self.patch);
        s.append(patch.as_str());
        proof {
            reveal_strlit(".");
            assert("."@ =~= seq!['.']);
            assert(s@ =~= spec_version_string(*self));
        }
        s
    }
}

} // verus!
