//! A verified orchestrator for a change-submission workflow.
//!
//! The library contains the decision logic of the pipeline: preflight
//! checks, branch resolution, diff-tier selection, commit-message
//! construction, and the linear pipeline state machine. External
//! commands (the version-control tool and the forge client) are run by
//! the surrounding application, which hands their outcomes back to the
//! library as plain values.

pub mod cmd;
pub mod diff;
pub mod guard;
pub mod outcome;
pub mod pipeline;
pub mod publish;
pub mod resolve;
pub mod submit;
pub mod sync;
pub mod text;
