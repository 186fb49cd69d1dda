//! Publication: the pull request opened through the forge client.

use vstd::prelude::*;
use vstd::string::StringExecFns;

use crate::cmd::CmdOutput;
use crate::outcome::{Level, LogEvent, PublishError};

verus! {

/// What is to be published: the pull request's title and body.
#[derive(Debug, Clone, PartialEq, Eq)]
pub struct PullRequestSpec {
    pub title: String,
    pub body: String,
}

/// What publication decides on the forge client's outcome. The client
/// fails when it is unavailable or unauthenticated, or when the forge
/// reports a conflict (such as an already existing pull request).
pub open spec fn publish_post(out: CmdOutput, r: Result<LogEvent, PublishError>) -> bool {
    if out.success {
        r matches Ok(log) && log.level == Level::Success && log.message@
            == "Pull request created successfully"@
    } else {
        r matches Err(error) && error.reason@ == "Failed to create pull request"@ && error.detail@
            == out.stderr@
    }
}

/// Decides on the outcome of the forge client's pull-request creation.
pub fn publish_after(out: &CmdOutput) -> (r: Result<LogEvent, PublishError>)
    ensures
        publish_post(*out, r),
{
    if out.success {
        Ok(
            LogEvent {
                level: Level::Success,
                message: String::from_str("Pull request created successfully"),
            },
        )
    } else {
        Err(
            PublishError {
                reason: String::from_str("Failed to create pull request"),
                detail: out.stderr.clone(),
            },
        )
    }
}

} // verus!
