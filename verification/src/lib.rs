//! Discovery and reconciliation of a ROCm/HIP SDK installation.
//!
//! The crate holds the pure logic of a build-time version reconciliation:
//! parsing version triples out of vendor headers and `hipconfig` output,
//! mapping internal HIP build numbers to official patch releases,
//! reconciling compile-time feature switches, comparing declared and
//! detected versions, and producing the linker directives for a compatible
//! installation.  Everything that touches the filesystem, the environment
//! or an external process stays outside; every function here is a total
//! function of its arguments.

pub mod compare;
pub mod emit;
pub mod error;
pub mod features;
pub mod header;
pub mod hipconfig;
pub mod patch_map;
pub mod paths;
pub mod plan;
pub mod text;
pub mod version;

pub use compare::DriftComponent;
pub use compare::ReconciliationResult;
pub use error::BuildError;
pub use features::ReconcileMode;
pub use patch_map::PatchNumberMapper;
pub use plan::BuildPlan;
pub use plan::CandidateProbe;
pub use version::Version;
