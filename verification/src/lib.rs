//! Release orchestration engine: decides whether a requested version tag must
//! be bumped to a new patch version, resolves the branch a release is cut
//! from, and drives the create/delete/update sequence against release and tag
//! resources so that re-running for the same input converges.

pub mod error;
pub mod github_client;
pub mod openai_client;
pub mod orchestrator;
pub mod version;
