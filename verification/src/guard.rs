//! Preflight validation: repository presence, detached-head rejection,
//! and normalization of the working directory to the repository root.

use vstd::prelude::*;
use vstd::string::StringExecFns;

use crate::cmd::CmdOutput;
use crate::outcome::{Level, LogEvent};
use crate::text::{str_eq, trim_str, trimmed};

verus! {

/// The branch name that stands for a detached (headless) checkout.
pub open spec fn detached_sentinel() -> Seq<char> {
    "HEAD"@
}

/// The message logged and rendered when a detached head is found.
pub open spec fn detached_message() -> Seq<char> {
    "Detached HEAD state detected. Please check out a branch."@
}

/// What a preflight check decided: go on, or terminate the process.
#[derive(Debug, Clone, PartialEq, Eq)]
pub enum GuardDecision {
    /// The check passed; the pipeline continues.
    Proceed,
    /// The check failed. The caller must append `log` to its sink,
    /// show `message` to the operator where the check calls for it,
    /// and terminate with a non-zero status. No later stage may run.
    Fatal { log: LogEvent, message: String },
}

/// What the repository-presence check decides on a given outcome.
pub open spec fn check_in_repo_post(out: CmdOutput, r: GuardDecision) -> bool {
    if out.success {
        r is Proceed
    } else {
        r matches GuardDecision::Fatal { log, message } && log.level == Level::Error
            && log.message@ == "Not in a git repository."@ && message@
            == "Not in a git repository."@
    }
}

/// Decides on the outcome of the repository-presence check: proceed on
/// success, terminate (before any mutation) otherwise.
pub fn check_in_repo(out: &CmdOutput) -> (r: GuardDecision)
    ensures
        check_in_repo_post(*out, r),
{
    if out.success {
        GuardDecision::Proceed
    } else {
        GuardDecision::Fatal {
            log: LogEvent {
                level: Level::Error,
                message: String::from_str("Not in a git repository."),
            },
            message: String::from_str("Not in a git repository."),
        }
    }
}

/// What the detached-head check decides on a given branch name.
pub open spec fn ensure_not_detached_post(branch: Seq<char>, r: GuardDecision) -> bool {
    if branch == detached_sentinel() {
        r matches GuardDecision::Fatal { log, message } && log.level == Level::Error
            && log.message@ == detached_message() && message@ == detached_message()
    } else {
        r is Proceed
    }
}

/// Rejects the headless sentinel: on it, the process must terminate
/// after the fatal message is logged and rendered; on every other
/// branch name this is a no-op.
pub fn ensure_not_detached(branch: &str) -> (r: GuardDecision)
    ensures
        ensure_not_detached_post(branch@, r),
{
    if str_eq(branch, "HEAD") {
        GuardDecision::Fatal {
            log: LogEvent {
                level: Level::Error,
                message: String::from_str(
                    "Detached HEAD state detected. Please check out a branch.",
                ),
            },
            message: String::from_str("Detached HEAD state detected. Please check out a branch."),
        }
    } else {
        GuardDecision::Proceed
    }
}

/// What normalization decided: where to move the working directory,
/// and what to log. There is no failure variant: a failed top-level
/// lookup is only recorded, and the pipeline continues (an asymmetry
/// kept deliberately, unlike the two aborting checks above).
#[derive(Debug, Clone, PartialEq, Eq)]
pub struct NormalizeDecision {
    /// `Some(path)`: change the process working directory to `path`,
    /// once, before any later command runs. `None`: stay where we are.
    pub chdir_to: Option<String>,
    pub log: LogEvent,
}

/// What normalization decides on a given outcome.
pub open spec fn normalize_post(out: CmdOutput, r: NormalizeDecision) -> bool {
    if out.success {
        &&& r.chdir_to matches Some(p) && p@ == trimmed(out.stdout@)
        &&& r.log.level == Level::Info
        &&& r.log.message@ == "Changed directory to repo root: "@ + trimmed(out.stdout@)
    } else {
        &&& r.chdir_to is None
        &&& r.log.level == Level::Error
        &&& r.log.message@ == out.stderr@
    }
}

/// Decides on the outcome of the top-level-path lookup: on success the
/// trimmed path to move to, on failure only an error record.
pub fn normalize_to_root(out: &CmdOutput) -> (r: NormalizeDecision)
    ensures
        normalize_post(*out, r),
{
    if out.success {
        let path = trim_str(out.stdout.as_str());
        let mut msg = String::from_str("Changed directory to repo root: ");
        msg.append(path.as_str());
        NormalizeDecision {
            chdir_to: Some(path),
            log: LogEvent { level: Level::Info, message: msg },
        }
    } else {
        NormalizeDecision {
            chdir_to: None,
            log: LogEvent { level: Level::Error, message: out.stderr.clone() },
        }
    }
}

} // verus!
