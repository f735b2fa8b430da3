//! The build directives emitted for a compatible installation.
//!
//! Exactly three link directives are produced: two dynamic-library link
//! requests for the fixed native library names, and one native search
//! path pointing at the installation's library subdirectory.  A fourth
//! kind of directive re-encodes a detected version as a feature switch
//! when permissive reconciliation fell back to it.

use vstd::prelude::*;

verus! {

/// The three link directives for the installation whose native library
/// directory is `ld_library_path`: the `hiprtc` and `amdhip64` dynamic
/// libraries, and the search path.
pub fn emit_link_directives(ld_library_path: &str) -> (r: Vec<String>)
    ensures
        r@.len() == 3,
        r@[0]@ == "cargo::rustc-link-lib=dylib=hiprtc"@,
        r@[1]@ == "cargo::rustc-link-lib=dylib=amdhip64"@,
        r@[2]@ == "cargo::rustc-link-search=native="@ + ld_library_path@,
{
    let mut out: Vec<String> = Vec::new();
    out.push(String::from_str("cargo::rustc-link-lib=dylib=hiprtc"));
    out.push(String::from_str("cargo::rustc-link-lib=dylib=amdhip64"));
    let mut search = String::from_str("cargo::rustc-link-search=native=");
    search.append(ld_library_path);
    out.push(search);
    out
}

/// The directive that enables the runtime-patch feature switch for a
/// detected version, used when no switch was enabled and permissive
/// reconciliation fell back to the host's version.
pub fn fallback_feature_directive(default_version: &str) -> (r: String)
    ensures
        r@ == "cargo:rustc-cfg=feature=\"hip_"@ + default_version@ + "\""@,
{
    let mut out = String::from_str("cargo:rustc-cfg=feature=\"hip_");
    out.append(default_version);
    out.append("\"");
    out
}

} // verus!
