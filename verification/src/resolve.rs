//! Branch resolution: the canonical main branch (with a one-shot
//! remote auto-detection fallback) and the current branch.

use vstd::prelude::*;
use vstd::string::StringExecFns;

use crate::cmd::CmdOutput;
use crate::outcome::{Level, LogEvent, ResolutionError};
use crate::text::{strip_prefix, strip_prefix_str, trim_str, trimmed};

verus! {

/// The name a successful read of the remote's default-branch
/// reference resolves to: the trimmed output with exactly one leading
/// remote-name-and-slash prefix removed.
pub open spec fn resolved_main_name(stdout: Seq<char>) -> Seq<char> {
    strip_prefix(trimmed(stdout), "origin/"@)
}

/// Exactly one leading remote-name-and-slash prefix is stripped from
/// the resolved name: a name whose remainder begins with the prefix
/// again keeps that second occurrence.
pub proof fn lemma_resolved_main_strips_one_prefix(stdout: Seq<char>, rest: Seq<char>)
    requires
        trimmed(stdout) == "origin/"@ + rest,
    ensures
        resolved_main_name(stdout) == rest,
{
    let p = "origin/"@;
    let s = trimmed(stdout);
    assert(s.subrange(0, p.len() as int) =~= p);
    assert(s.skip(p.len() as int) =~= rest);
}

/// What resolution of the main branch decided after one read of the
/// remote's default-branch reference.
#[derive(Debug, Clone, PartialEq, Eq)]
pub enum ResolveStep {
    /// The read succeeded: the main branch is `name`.
    Resolved { name: String, log: LogEvent },
    /// The first read failed: run the auto-detect command, then read
    /// again. Issued at most once per resolution.
    RunAutoDetect { log: LogEvent },
    /// The retried read failed as well: resolution fails.
    Failed { error: ResolutionError },
}

/// What the resolver decides on a read outcome. `retried` says whether
/// this read already followed the auto-detect fallback.
pub open spec fn resolve_read_post(out: CmdOutput, retried: bool, r: ResolveStep) -> bool {
    if out.success {
        r matches ResolveStep::Resolved { name, log } && name@ == resolved_main_name(out.stdout@)
            && log.level == Level::Info && log.message@ == "Determined main branch: "@ + name@
    } else if !retried {
        r matches ResolveStep::RunAutoDetect { log } && log.level == Level::Info && log.message@
            == "Setting origin HEAD automatically..."@
    } else {
        r matches ResolveStep::Failed { error } && error.reason@
            == "Failed to determine main branch"@ && error.detail@ == out.stderr@
    }
}

/// Decides on the outcome of reading the remote's default-branch
/// reference. A failed first read triggers the fallback; a failed
/// retried read fails the resolution.
pub fn resolve_main_after_read(out: &CmdOutput, retried: bool) -> (r: ResolveStep)
    ensures
        resolve_read_post(*out, retried, r),
{
    if out.success {
        let name = strip_prefix_str(trim_str(out.stdout.as_str()).as_str(), "origin/");
        let mut msg = String::from_str("Determined main branch: ");
        msg.append(name.as_str());
        ResolveStep::Resolved { name, log: LogEvent { level: Level::Info, message: msg } }
    } else if !retried {
        ResolveStep::RunAutoDetect {
            log: LogEvent {
                level: Level::Info,
                message: String::from_str("Setting origin HEAD automatically..."),
            },
        }
    } else {
        ResolveStep::Failed {
            error: ResolutionError {
                reason: String::from_str("Failed to determine main branch"),
                detail: out.stderr.clone(),
            },
        }
    }
}

/// What the auto-detect fallback decided.
#[derive(Debug, Clone, PartialEq, Eq)]
pub enum AutoDetectStep {
    /// Auto-detection succeeded: read the default-branch reference
    /// once more.
    RetryRead,
    /// Auto-detection failed: resolution fails without a retry.
    Failed { error: ResolutionError },
}

/// What the resolver decides on the auto-detect outcome.
pub open spec fn auto_detect_post(out: CmdOutput, r: AutoDetectStep) -> bool {
    if out.success {
        r is RetryRead
    } else {
        r matches AutoDetectStep::Failed { error } && error.reason@ == "Failed to set origin HEAD"@
            && error.detail@ == out.stderr@
    }
}

/// Decides on the outcome of the auto-detect command: retry the read
/// on success, fail the resolution otherwise.
pub fn resolve_main_after_auto_detect(out: &CmdOutput) -> (r: AutoDetectStep)
    ensures
        auto_detect_post(*out, r),
{
    if out.success {
        AutoDetectStep::RetryRead
    } else {
        AutoDetectStep::Failed {
            error: ResolutionError {
                reason: String::from_str("Failed to set origin HEAD"),
                detail: out.stderr.clone(),
            },
        }
    }
}

/// What reading the current branch decides on a given outcome. The
/// headless sentinel is returned like any other name: detecting it is
/// the resolver's job, enforcement is the guard's.
pub open spec fn current_branch_post(
    out: CmdOutput,
    r: Result<(String, LogEvent), ResolutionError>,
) -> bool {
    if out.success {
        r matches Ok((name, log)) && name@ == trimmed(out.stdout@) && log.level == Level::Info
            && log.message@ == "Current branch: "@ + trimmed(out.stdout@)
    } else {
        r matches Err(error) && error.reason@ == "Failed to get current branch"@ && error.detail@
            == out.stderr@
    }
}

/// Decides on the outcome of reading the abbreviated current ref name.
pub fn resolve_current_branch(out: &CmdOutput) -> (r: Result<(String, LogEvent), ResolutionError>)
    ensures
        current_branch_post(*out, r),
{
    if out.success {
        let name = trim_str(out.stdout.as_str());
        let mut msg = String::from_str("Current branch: ");
        msg.append(name.as_str());
        Ok((name, LogEvent { level: Level::Info, message: msg }))
    } else {
        Err(
            ResolutionError {
                reason: String::from_str("Failed to get current branch"),
                detail: out.stderr.clone(),
            },
        )
    }
}

} // verus!
