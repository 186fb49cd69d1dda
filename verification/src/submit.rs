//! Change submission: the commit message built from a title and an
//! optional body, and the staging, commit and push decisions.

use vstd::prelude::*;
use vstd::string::StringExecFns;

use crate::cmd::CmdOutput;
use crate::outcome::{CommitError, Level, LogEvent, PushError};
use crate::text::{trim_str, trimmed};

verus! {

/// What is to be committed: a title and an optional body of details.
#[derive(Debug, Clone, PartialEq, Eq)]
pub struct CommitSpec {
    pub title: String,
    pub details: Option<String>,
}

/// The view of an optional string.
pub open spec fn opt_view(o: Option<String>) -> Option<Seq<char>> {
    match o {
        Some(s) => Some(s@),
        None => None,
    }
}

/// The commit message: the trimmed title alone, or the trimmed title,
/// a blank line, and the trimmed details.
pub open spec fn commit_message_spec(title: Seq<char>, details: Option<Seq<char>>) -> Seq<char> {
    match details {
        None => trimmed(title),
        Some(d) => trimmed(title) + seq!['\n', '\n'] + trimmed(d),
    }
}

impl CommitSpec {
    /// Builds the commit message from the title and the optional
    /// details.
    pub fn build_message(&self) -> (r: String)
        ensures
            r@ == commit_message_spec(self.title@, opt_view(self.details)),
    {
        let mut msg = trim_str(self.title.as_str());
        match &self.details {
            None => msg,
            Some(d) => {
                let body = trim_str(d.as_str());
                proof {
                    reveal_strlit("\n\n");
                    assert("\n\n"@ =~= seq!['\n', '\n']);
                }
                msg.append("\n\n");
                msg.append(body.as_str());
                msg
            },
        }
    }
}

/// What submission decides on the staging outcome.
pub open spec fn stage_post(out: CmdOutput, r: Result<LogEvent, CommitError>) -> bool {
    if out.success {
        r matches Ok(log) && log.level == Level::Info && log.message@ == "Staged all changes"@
    } else {
        r matches Err(error) && error.reason@ == "Failed to stage changes"@ && error.detail@
            == out.stderr@
    }
}

/// Decides on the outcome of staging all changes.
pub fn stage_after(out: &CmdOutput) -> (r: Result<LogEvent, CommitError>)
    ensures
        stage_post(*out, r),
{
    if out.success {
        Ok(LogEvent { level: Level::Info, message: String::from_str("Staged all changes") })
    } else {
        Err(
            CommitError {
                reason: String::from_str("Failed to stage changes"),
                detail: out.stderr.clone(),
            },
        )
    }
}

/// What submission decides on the commit outcome. A commit fails on a
/// genuine command failure, a no-op commit, or a rejecting hook — all
/// surfaced the same way, as a failed command.
pub open spec fn commit_post(out: CmdOutput, r: Result<LogEvent, CommitError>) -> bool {
    if out.success {
        r matches Ok(log) && log.level == Level::Info && log.message@
            == "Committed changes successfully"@
    } else {
        r matches Err(error) && error.reason@ == "Failed to commit changes"@ && error.detail@
            == out.stderr@
    }
}

/// Decides on the outcome of the commit command.
pub fn commit_after(out: &CmdOutput) -> (r: Result<LogEvent, CommitError>)
    ensures
        commit_post(*out, r),
{
    if out.success {
        Ok(
            LogEvent {
                level: Level::Info,
                message: String::from_str("Committed changes successfully"),
            },
        )
    } else {
        Err(
            CommitError {
                reason: String::from_str("Failed to commit changes"),
                detail: out.stderr.clone(),
            },
        )
    }
}

/// What submission decides on the push outcome.
pub open spec fn push_post(out: CmdOutput, branch: Seq<char>, r: Result<LogEvent, PushError>) -> bool {
    if out.success {
        r matches Ok(log) && log.level == Level::Info && log.message@ == "Pushed branch "@ + branch
            + " to origin"@
    } else {
        r matches Err(error) && error.reason@ == "Failed to push branch"@ && error.detail@
            == out.stderr@
    }
}

/// Decides on the outcome of pushing the named branch. A rejection
/// (non-fast-forward, authentication, network) is recoverable; the
/// commit already made is left intact.
pub fn push_after(out: &CmdOutput, branch: &String) -> (r: Result<LogEvent, PushError>)
    ensures
        push_post(*out, branch@, r),
{
    if out.success {
        let mut msg = String::from_str("Pushed branch ");
        msg.append(branch.as_str());
        msg.append(" to origin");
        Ok(LogEvent { level: Level::Info, message: msg })
    } else {
        Err(
            PushError {
                reason: String::from_str("Failed to push branch"),
                detail: out.stderr.clone(),
            },
        )
    }
}

} // verus!
