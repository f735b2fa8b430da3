//! The reconciliation of compile-time feature switches.
//!
//! A version selection is encoded in switch names of a known convention:
//! `<prefix><major>_<minor>_<patch>` for the SDK version as a whole, and
//! `<prefix><patch>` for the HIP runtime patch level.  A switch is
//! enabled when its value is the string `1`.  Within a category, exactly
//! one switch may be enabled; with none enabled, strict mode fails and
//! permissive mode falls back to the version detected on the host.

use vstd::prelude::*;

use crate::error::BuildError;
use crate::text::dec_str;
use crate::text::find_char;
use crate::text::find_char_from;
use crate::text::is_ascii_digit;
use crate::text::lemma_dec_str_val;
use crate::text::lemma_find_char_from;
use crate::text::lemma_find_char_from_is;
use crate::text::parse_u32;
use crate::text::parse_u8;
use crate::text::spec_parse_u32;
use crate::text::spec_parse_u8;
use crate::text::str_has_prefix;
use crate::version::Version;

verus! {

/// What to do when no switch of a category is enabled: fail, or fall
/// back to the version detected on the host.
///
/// Permissive is the default: with no switch enabled, the detected
/// version is adopted and re-encoded as if its switch had been set.
#[derive(Clone, Copy, PartialEq, Eq, Structural, Debug)]
pub enum ReconcileMode {
    Strict,
    Permissive,
}

impl Default for ReconcileMode {
    /// The default mode is permissive.
    fn default() -> (r: Self)
        ensures
            r == ReconcileMode::Permissive,
    {
        ReconcileMode::Permissive
    }
}

/// Is the switch `(name, value)` an enabled switch of the category
/// named by `prefix`?
pub open spec fn is_enabled(switch: (String, String), prefix: Seq<char>) -> bool {
    prefix.is_prefix_of(switch.0@) && switch.1@ == seq!['1']
}

/// The names of the enabled switches of the category, in input order.
pub open spec fn spec_enabled(switches: Seq<(String, String)>, prefix: Seq<char>) -> Seq<String>
    decreases switches.len(),
{
    if switches.len() == 0 {
        Seq::empty()
    } else {
        let rest = spec_enabled(switches.drop_last(), prefix);
        if is_enabled(switches.last(), prefix) {
            rest.push(switches.last().0)
        } else {
            rest
        }
    }
}

/// Collect the names of the enabled switches of the category named by
/// `prefix`, preserving input order.
pub fn collect_enabled(switches: &Vec<(String, String)>, prefix: &str) -> (r: Vec<String>)
    ensures
        r@ == spec_enabled(switches@, prefix@),
{
    let mut out: Vec<String> = Vec::new();
    let mut i: usize = 0;
    while i < switches.len()
        invariant
            0 <= i <= switches@.len(),
            out@ == spec_enabled(switches@.subrange(0, i as int), prefix@),
        decreases switches@.len() - i,
    {
        let pair = &switches[i];
        let on = str_has_prefix(pair.0.as_str(), prefix) && pair.1.as_str().unicode_len() == 1
            && pair.1.as_str().get_char(0) == '1';
        proof {
            if pair.1@.len() == 1 && pair.1@[0] == '1' {
                assert(pair.1@ =~= seq!['1']);
            }
            assert(on == is_enabled(switches@[i as int], prefix@));
            assert(switches@.subrange(0, i + 1).drop_last() =~= switches@.subrange(0, i as int));
            assert(switches@.subrange(0, i + 1).last() == switches@[i as int]);
        }
        if on {
            out.push(pair.0.clone());
        }
        i = i + 1;
    }
    proof {
        assert(switches@.subrange(0, switches@.len() as int) =~= switches@);
    }
    out
}

/// What decoding a runtime-patch switch name yields: the text after the
/// prefix read as a numeral.
pub open spec fn spec_decode_patch(name: Seq<char>, prefix: Seq<char>) -> Option<u32> {
    if prefix.is_prefix_of(name) {
        spec_parse_u32(name.subrange(prefix.len() as int, name.len() as int))
    } else {
        None
    }
}

/// Decode a runtime-patch switch name, `<prefix><patch>`.
pub fn decode_patch_switch(name: &str, prefix: &str) -> (r: Option<u32>)
    ensures
        r == spec_decode_patch(name@, prefix@),
{
    if !str_has_prefix(name, prefix) {
        return None;
    }
    let plen = prefix.unicode_len();
    let nlen = name.unicode_len();
    parse_u32(name.substring_char(plen, nlen))
}

/// What decoding an SDK-version switch name yields: the text after the
/// prefix split at its first two underscores into three numerals, the
/// first two of `u8` width, the third of `u32` width.  A missing
/// underscore, an empty part, a further underscore or any other
/// non-digit makes the name undecodable.
pub open spec fn spec_decode_sdk(name: Seq<char>, prefix: Seq<char>) -> Option<Version> {
    if !prefix.is_prefix_of(name) {
        None
    } else {
        let t = name.subrange(prefix.len() as int, name.len() as int);
        let u1 = find_char_from(t, 0, '_');
        let u2 = find_char_from(t, u1 + 1, '_');
        if u1 < t.len() && u2 < t.len() {
            let major = spec_parse_u8(t.subrange(0, u1));
            let minor = spec_parse_u8(t.subrange(u1 + 1, u2));
            let patch = spec_parse_u32(t.subrange(u2 + 1, t.len() as int));
            if major is Some && minor is Some && patch is Some {
                Some(Version { major: major->0, minor: minor->0, patch: patch->0 })
            } else {
                None
            }
        } else {
            None
        }
    }
}

/// Decode an SDK-version switch name, `<prefix><major>_<minor>_<patch>`.
pub fn decode_sdk_switch(name: &str, prefix: &str) -> (r: Option<Version>)
    ensures
        r == spec_decode_sdk(name@, prefix@),
{
    if !str_has_prefix(name, prefix) {
        return None;
    }
    let plen = prefix.unicode_len();
    let nlen = name.unicode_len();
    let t = name.substring_char(plen, nlen);
    let tlen = t.unicode_len();
    let u1 = find_char(t, 0, '_');
    proof {
        lemma_find_char_from(t@, 0, '_');
    }
    if u1 >= tlen {
        return None;
    }
    let u2 = find_char(t, u1 + 1, '_');
    proof {
        lemma_find_char_from(t@, u1 + 1, '_');
    }
    if u2 >= tlen {
        return None;
    }
    let major = parse_u8(t.substring_char(0, u1));
    let minor = parse_u8(t.substring_char(u1 + 1, u2));
    let patch = parse_u32(t.substring_char(u2 + 1, tlen));
    match (major, minor, patch) {
        (Some(major), Some(minor), Some(patch)) => Some(Version { major, minor, patch }),
        _ => None,
    }
}

/// The runtime-patch switch name that encodes a patch number.
pub open spec fn spec_encode_patch(prefix: Seq<char>, patch: u32) -> Seq<char> {
    prefix + dec_str(patch as nat)
}

/// The SDK-version switch name that encodes a version.
pub open spec fn spec_encode_sdk(prefix: Seq<char>, v: Version) -> Seq<char> {
    prefix + dec_str(v.major as nat) + seq!['_'] + dec_str(v.minor as nat) + seq!['_'] + dec_str(
        v.patch as nat,
    )
}

/// A patch number re-encoded as a switch name decodes back to itself:
/// the permissive fallback, which enables the switch of the detected
/// version, selects that version.
pub proof fn lemma_patch_switch_round_trip(prefix: Seq<char>, patch: u32)
    ensures
        spec_decode_patch(spec_encode_patch(prefix, patch), prefix) == Some(patch),
{
    let name = spec_encode_patch(prefix, patch);
    lemma_dec_str_val(patch as nat);
    assert(prefix =~= name.subrange(0, prefix.len() as int));
    assert(name.subrange(prefix.len() as int, name.len() as int) =~= dec_str(patch as nat));
}

/// A version re-encoded as an SDK switch name decodes back to itself.
pub proof fn lemma_sdk_switch_round_trip(prefix: Seq<char>, v: Version)
    ensures
        spec_decode_sdk(spec_encode_sdk(prefix, v), prefix) == Some(v),
{
    let ms = dec_str(v.major as nat);
    let ns = dec_str(v.minor as nat);
    let ps = dec_str(v.patch as nat);
    lemma_dec_str_val(v.major as nat);
    lemma_dec_str_val(v.minor as nat);
    lemma_dec_str_val(v.patch as nat);
    let name = spec_encode_sdk(prefix, v);
    assert(prefix =~= name.subrange(0, prefix.len() as int));
    let t = name.subrange(prefix.len() as int, name.len() as int);
    assert(t =~= ms + seq!['_'] + ns + seq!['_'] + ps);
    let a = ms.len() as int;
    let b = a + 1 + ns.len() as int;
    assert forall|j: int| 0 <= j < a implies t[j] != '_' by {
        assert(t[j] == ms[j] && is_ascii_digit(ms[j]));
    }
    assert(t[a] == '_');
    lemma_find_char_from_is(t, 0, '_', a);
    assert forall|j: int| a + 1 <= j < b implies t[j] != '_' by {
        assert(t[j] == ns[j - (a + 1)] && is_ascii_digit(ns[j - (a + 1)]));
    }
    assert(t[b] == '_');
    lemma_find_char_from_is(t, a + 1, '_', b);
    assert(t.subrange(0, a) =~= ms);
    assert(t.subrange(a + 1, b) =~= ns);
    assert(t.subrange(b + 1, t.len() as int) =~= ps);
}

/// Reconcile the runtime-patch feature category: the single enabled
/// switch decides; none enabled defers to the mode; several enabled is
/// an error naming them all.
pub fn reconcile_patch_feature(
    switches: &Vec<(String, String)>,
    prefix: &str,
    mode: ReconcileMode,
    detected: u32,
) -> (r: Result<u32, BuildError>)
    ensures
        ({
            let en = spec_enabled(switches@, prefix@);
            &&& en.len() == 1 ==> match spec_decode_patch(en[0]@, prefix@) {
                Some(v) => r matches Ok(res) && res == v,
                None => r matches Err(BuildError::FeatureDecodeError { switch }) && switch == en[0],
            }
            &&& (en.len() == 0 && mode == ReconcileMode::Strict) ==> (r matches Err(
                BuildError::FeatureCountError { enabled },
            ) && enabled@ == en)
            &&& (en.len() == 0 && mode == ReconcileMode::Permissive) ==> (r matches Ok(res) && res
                == detected)
            &&& en.len() >= 2 ==> (r matches Err(BuildError::FeatureCountError { enabled })
                && enabled@ == en)
        }),
{
    let enabled = collect_enabled(switches, prefix);
    if enabled.len() == 1 {
        let first = &enabled[0];
        match decode_patch_switch(first.as_str(), prefix) {
            Some(v) => Ok(v),
            None => Err(BuildError::FeatureDecodeError { switch: first.clone() }),
        }
    } else if enabled.len() == 0 {
        match mode {
            ReconcileMode::Strict => Err(BuildError::FeatureCountError { enabled }),
            ReconcileMode::Permissive => Ok(detected),
        }
    } else {
        Err(BuildError::FeatureCountError { enabled })
    }
}

/// Reconcile the SDK-version feature category: the single enabled
/// switch decides; none enabled defers to the mode; several enabled is
/// an error naming them all.
pub fn reconcile_sdk_feature(
    switches: &Vec<(String, String)>,
    prefix: &str,
    mode: ReconcileMode,
    detected: Version,
) -> (r: Result<Version, BuildError>)
    ensures
        ({
            let en = spec_enabled(switches@, prefix@);
            &&& en.len() == 1 ==> match spec_decode_sdk(en[0]@, prefix@) {
                Some(v) => r matches Ok(res) && res == v,
                None => r matches Err(BuildError::FeatureDecodeError { switch }) && switch == en[0],
            }
            &&& (en.len() == 0 && mode == ReconcileMode::Strict) ==> (r matches Err(
                BuildError::FeatureCountError { enabled },
            ) && enabled@ == en)
            &&& (en.len() == 0 && mode == ReconcileMode::Permissive) ==> (r matches Ok(res) && res
                == detected)
            &&& en.len() >= 2 ==> (r matches Err(BuildError::FeatureCountError { enabled })
                && enabled@ == en)
        }),
{
    let enabled = collect_enabled(switches, prefix);
    if enabled.len() == 1 {
        let first = &enabled[0];
        match decode_sdk_switch(first.as_str(), prefix) {
            Some(v) => Ok(v),
            None => Err(BuildError::FeatureDecodeError { switch: first.clone() }),
        }
    } else if enabled.len() == 0 {
        match mode {
            ReconcileMode::Strict => Err(BuildError::FeatureCountError { enabled }),
            ReconcileMode::Permissive => Ok(detected),
        }
    } else {
        Err(BuildError::FeatureCountError { enabled })
    }
}

} // verus!
