//! Shared data types of the pipeline: log events, stages, per-stage
//! errors, and the outcome of a whole run.

use vstd::prelude::*;

verus! {

/// Severity of a log event handed to the caller's sink.
#[derive(Debug, Clone, Copy, PartialEq, Eq)]
pub enum Level {
    Info,
    Error,
    Success,
}

/// One message for the caller's append-only log sink.
#[derive(Debug, Clone, PartialEq, Eq)]
pub struct LogEvent {
    pub level: Level,
    pub message: String,
}

/// The pipeline stage in which a recoverable failure arose.
#[derive(Debug, Clone, Copy, PartialEq, Eq)]
pub enum Stage {
    Guard,
    Resolve,
    Sync,
    Diff,
    Commit,
    Push,
    Publish,
}

/// Result of a whole pipeline run.
#[derive(Debug, Clone, PartialEq, Eq)]
pub enum WorkflowOutcome {
    /// Every stage ran and the pull request was opened.
    Success,
    /// A stage failed; the pipeline halted there and later stages were
    /// not attempted. Work already done (such as a commit) is kept.
    RecoverableFailure { stage: Stage, reason: String },
    /// A precondition failed; the process must terminate.
    FatalFailure { reason: String },
}

/// Error of branch resolution.
#[derive(Debug, Clone, PartialEq, Eq)]
pub struct ResolutionError {
    /// The stable description of what failed.
    pub reason: String,
    /// The captured error stream of the failing command.
    pub detail: String,
}

/// Error of diff computation.
#[derive(Debug, Clone, PartialEq, Eq)]
pub struct DiffError {
    pub reason: String,
    pub detail: String,
}

/// Error of bringing the main branch up to date.
#[derive(Debug, Clone, PartialEq, Eq)]
pub struct SyncError {
    pub reason: String,
    pub detail: String,
}

/// Error of staging or committing.
#[derive(Debug, Clone, PartialEq, Eq)]
pub struct CommitError {
    pub reason: String,
    pub detail: String,
}

/// Error of pushing the branch.
#[derive(Debug, Clone, PartialEq, Eq)]
pub struct PushError {
    pub reason: String,
    pub detail: String,
}

/// Error of opening the pull request.
#[derive(Debug, Clone, PartialEq, Eq)]
pub struct PublishError {
    pub reason: String,
    pub detail: String,
}

} // verus!
