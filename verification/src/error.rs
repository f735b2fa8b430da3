//! The error kinds of the reconciliation core.
//!
//! Every failure is reported as a value of one of these kinds; the
//! orchestrator alone decides that a kind is fatal.  The only non-fatal
//! outcomes are the drift advisories of the comparator, which are not
//! errors and do not appear here.

use vstd::prelude::*;

use crate::text::join_strings;
use crate::text::spec_join;
use crate::version::spec_version_string;
use crate::version::Version;

verus! {

/// The version component a header macro line belongs to.
#[derive(Clone, Copy, PartialEq, Eq, Structural, Debug)]
pub enum HeaderField {
    Major,
    Minor,
    Patch,
}

/// Why a header macro line could not be used.
#[derive(Clone, Copy, PartialEq, Eq, Structural, Debug)]
pub enum HeaderIssue {
    /// No line of the header starts with the macro prefix.
    MissingLine,
    /// The text after the prefix is not a numeral of the expected width.
    BadValue,
}

/// A failure of the reconciliation core.
#[derive(Debug)]
pub enum BuildError {
    /// No candidate directory satisfies the marker check, although at
    /// least one path variable was explicitly supplied.
    PathNotFound { variables: Vec<String> },
    /// Candidate directories were found, but none holds a compatible
    /// version.
    AmbiguousCandidates { candidates: Vec<String> },
    /// A version header misses a macro line or holds a bad value.
    HeaderParseError { field: HeaderField, issue: HeaderIssue },
    /// The external version-query tool reported a failure.
    ToolInvocationError { stderr: String },
    /// The external tool ran, but its output does not hold the expected
    /// pattern.
    ToolOutputParseError { output: String },
    /// Zero switches were enabled in strict mode, or more than one; the
    /// payload names the enabled switches.
    FeatureCountError { enabled: Vec<String> },
    /// A switch name does not decode into numerals of the expected shape.
    FeatureDecodeError { switch: String },
    /// The declared and the detected version differ in their major
    /// component.
    VersionIncompatible { declared: Version, detected: Version },
}

impl BuildError {
    /// The diagnostic owed for this error, naming the offending values.
    pub open spec fn spec_message(&self) -> Seq<char> {
        match self {
            BuildError::PathNotFound { variables } => "No SDK installation found: none of the configured path variables ("@
                + spec_join(variables.deep_view(), ", "@)
                + ") points at a directory holding the marker sub-path."@,
            BuildError::AmbiguousCandidates { candidates } => "Candidate installations were found, but none is version-compatible: "@
                + spec_join(candidates.deep_view(), ", "@),
            BuildError::HeaderParseError { field, issue } => match issue {
                HeaderIssue::MissingLine => "Invalid version header structure: "@ + match field {
                    HeaderField::Major => "Major"@,
                    HeaderField::Minor => "Minor"@,
                    HeaderField::Patch => "Patch"@,
                } + " version line not found."@,
                HeaderIssue::BadValue => "Invalid version header structure: Couldn't parse "@
                    + match field {
                    HeaderField::Major => "major"@,
                    HeaderField::Minor => "minor"@,
                    HeaderField::Patch => "patch"@,
                } + " version."@,
            },
            BuildError::ToolInvocationError { stderr } => "Error executing hipconfig. The process returned:\n"@
                + stderr@,
            BuildError::ToolOutputParseError { output } => "Could not parse hipconfig output '"@
                + output@ + "'."@,
            BuildError::FeatureCountError { enabled } => if enabled@.len() == 0 {
                "No version feature switch is enabled."@
            } else {
                "Multiple version feature switches are enabled: "@ + spec_join(
                    enabled.deep_view(),
                    ", "@,
                ) + ". Only one can be set."@
            },
            BuildError::FeatureDecodeError { switch } => "Could not decode a version from feature switch '"@
                + switch@ + "'."@,
            BuildError::VersionIncompatible { declared, detected } => "Declared version "@
                + spec_version_string(*declared) + " is incompatible with detected version "@
                + spec_version_string(*detected) + "."@,
        }
    }

    /// Render the diagnostic for this error.
    pub fn message(&self) -> (r: String)
        ensures
            r@ == self.spec_message(),
    {
        match self {
            BuildError::PathNotFound { variables } => {
                let mut out = String::from_str(
                    "No SDK installation found: none of the configured path variables (",
                );
                let joined = join_strings(variables, ", ");
                out.append(joined.as_str());
                out.append(") points at a directory holding the marker sub-path.");
                out
            },
            BuildError::AmbiguousCandidates { candidates } => {
                let mut out = String::from_str(
                    "Candidate installations were found, but none is version-compatible: ",
                );
                let joined = join_strings(candidates, ", ");
                out.append(joined.as_str());
                out
            },
            BuildError::HeaderParseError { field, issue } => match issue {
                HeaderIssue::MissingLine => {
                    let mut out = String::from_str("Invalid version header structure: ");
                    out.append(
                        match field {
                            HeaderField::Major => "Major",
                            HeaderField::Minor => "Minor",
                            HeaderField::Patch => "Patch",
                        },
                    );
                    out.append(" version line not found.");
                    out
                },
                HeaderIssue::BadValue => {
                    let mut out = String::from_str(
                        "Invalid version header structure: Couldn't parse ",
                    );
                    out.append(
                        match field {
                            HeaderField::Major => "major",
                            HeaderField::Minor => "minor",
                            HeaderField::Patch => "patch",
                        },
                    );
                    out.append(" version.");
                    out
                },
            },
            BuildError::ToolInvocationError { stderr } => {
                let mut out = String::from_str("Error executing hipconfig. The process returned:\n");
                out.append(stderr.as_str());
                out
            },
            BuildError::ToolOutputParseError { output } => {
                let mut out = String::from_str("Could not parse hipconfig output '");
                out.append(output.as_str());
                out.append("'.");
                out
            },
            BuildError::FeatureCountError { enabled } => {
                if enabled.len() == 0 {
                    String::from_str("No version feature switch is enabled.")
                } else {
                    let mut out = String::from_str(
                        "Multiple version feature switches are enabled: ",
                    );
                    let joined = join_strings(enabled, ", ");
                    out.append(joined.as_str());
                    out.append(". Only one can be set.");
                    out
                }
            },
            BuildError::FeatureDecodeError { switch } => {
                let mut out = String::from_str("Could not decode a version from feature switch '");
                out.append(switch.as_str());
                out.append("'.");
                out
            },
            BuildError::VersionIncompatible { declared, detected } => {
                let mut out = String::from_str("Declared version ");
                let d = declared.to_version_string();
                out.append(d.as_str());
                out.append(" is incompatible with detected version ");
                let t = detected.to_version_string();
                out.append(t.as_str());
                out.append(".");
                out
            },
        }
    }
}

} // verus!
