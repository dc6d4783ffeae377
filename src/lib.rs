//! Signing orchestration for content provenance manifests: output planning,
//! manifest assembly decisions, signer selection and the per-run tally.

pub mod assembly;
pub mod extension;
pub mod path;
pub mod planner;
pub mod sign;
pub mod tally;

