//! Synchronization of the local view of the main branch: a full pull
//! when already on main, a narrow fetch into the local main ref
//! otherwise.

use vstd::prelude::*;
use vstd::string::StringExecFns;

use crate::cmd::{CmdOutput, CmdRequest};
use crate::outcome::{Level, LogEvent, SyncError};
use crate::text::str_eq;

verus! {

/// Which command synchronization issues: a pull exactly when the
/// current branch is the main branch, a fetch with the two-sided
/// `main:main` refspec otherwise.
pub open spec fn sync_choice_post(current: Seq<char>, main: Seq<char>, r: CmdRequest) -> bool {
    if current == main {
        r == CmdRequest::PullOrigin
    } else {
        r matches CmdRequest::FetchMain { main: m } && m@ == main
    }
}

/// Chooses the synchronization command. A pull fast-forwards the
/// checked-out main; the fetch updates the local main ref for diffing
/// without disturbing the current branch.
pub fn sync_request(current: &String, main: &String) -> (r: CmdRequest)
    ensures
        sync_choice_post(current@, main@, r),
{
    if str_eq(current.as_str(), main.as_str()) {
        CmdRequest::PullOrigin
    } else {
        CmdRequest::FetchMain { main: main.clone() }
    }
}

/// The message logged after a successful synchronization.
pub open spec fn sync_ok_message(current: Seq<char>, main: Seq<char>) -> Seq<char> {
    if current == main {
        "Pulled latest changes from origin"@
    } else {
        "Fetched latest "@ + main + " branch"@
    }
}

/// The stable description of a failed synchronization.
pub open spec fn sync_fail_reason(current: Seq<char>, main: Seq<char>) -> Seq<char> {
    if current == main {
        "Failed to pull from origin"@
    } else {
        "Failed to fetch main branch"@
    }
}

/// What synchronization decides on the command's outcome.
pub open spec fn sync_post(
    out: CmdOutput,
    current: Seq<char>,
    main: Seq<char>,
    r: Result<LogEvent, SyncError>,
) -> bool {
    if out.success {
        r matches Ok(log) && log.level == Level::Info && log.message@ == sync_ok_message(
            current,
            main,
        )
    } else {
        r matches Err(error) && error.reason@ == sync_fail_reason(current, main) && error.detail@
            == out.stderr@
    }
}

/// Decides on the outcome of the synchronization command. A failure
/// (network, authentication, non-fast-forward) aborts the remainder of
/// the pipeline but is recoverable by the caller, not process-fatal.
pub fn sync_after(out: &CmdOutput, current: &String, main: &String) -> (r: Result<
    LogEvent,
    SyncError,
>)
    ensures
        sync_post(*out, current@, main@, r),
{
    let on_main = str_eq(current.as_str(), main.as_str());
    if out.success {
        if on_main {
            Ok(
                LogEvent {
                    level: Level::Info,
                    message: String::from_str("Pulled latest changes from origin"),
                },
            )
        } else {
            let mut msg = String::from_str("Fetched latest ");
            msg.append(main.as_str());
            msg.append(" branch");
            Ok(LogEvent { level: Level::Info, message: msg })
        }
    } else {
        let reason = if on_main {
            String::from_str("Failed to pull from origin")
        } else {
            String::from_str("Failed to fetch main branch")
        };
        Err(SyncError { reason, detail: out.stderr.clone() })
    }
}

} // verus!
