//! Diff computation: the tiered selection over pending work (staged
//! changes first, then unstaged working-tree changes) and the
//! cross-branch comparison.

use vstd::prelude::*;
use vstd::string::StrSliceExecFns;
use vstd::string::StringExecFns;

use crate::cmd::CmdOutput;
use crate::outcome::DiffError;
use crate::text::{trim_str, trimmed};

verus! {

/// The diff text the pipeline hands to review. An empty diff is a
/// valid outcome (no pending changes), not an error.
#[derive(Debug, Clone, PartialEq, Eq)]
pub struct DiffResult {
    pub content: String,
    pub empty: bool,
}

/// Well-formedness of a diff result: the `empty` flag mirrors the
/// content.
pub open spec fn diff_wf(d: DiffResult) -> bool {
    d.empty <==> d.content@.len() == 0
}

/// What the tiered selection decided after the staged tier.
#[derive(Debug, Clone, PartialEq, Eq)]
pub enum DiffStep {
    /// The staged tier is non-empty after trimming: it is the result,
    /// and the working-tree tier is never computed.
    Done { diff: DiffResult },
    /// The staged tier is empty: fall back to the working-tree tier.
    TryWorkingTree,
    /// The command itself failed (a genuine failure, not "no
    /// changes").
    Failed { error: DiffError },
}

/// What the engine decides on the staged-tier outcome.
pub open spec fn diff_staged_post(out: CmdOutput, r: DiffStep) -> bool {
    if !out.success {
        r matches DiffStep::Failed { error } && error.reason@ == "Failed to get diff"@
            && error.detail@ == out.stderr@
    } else if trimmed(out.stdout@).len() == 0 {
        r is TryWorkingTree
    } else {
        r matches DiffStep::Done { diff } && diff.content@ == trimmed(out.stdout@) && diff.empty
            == false
    }
}

/// Decides on the outcome of the staged-changes diff: keep it when
/// non-empty after trimming, fall back to the working tree otherwise.
pub fn diff_after_staged(out: &CmdOutput) -> (r: DiffStep)
    ensures
        diff_staged_post(*out, r),
{
    if !out.success {
        DiffStep::Failed {
            error: DiffError {
                reason: String::from_str("Failed to get diff"),
                detail: out.stderr.clone(),
            },
        }
    } else {
        let content = trim_str(out.stdout.as_str());
        if content.as_str().unicode_len() == 0 {
            DiffStep::TryWorkingTree
        } else {
            DiffStep::Done { diff: DiffResult { content, empty: false } }
        }
    }
}

/// What the engine decides on the working-tree-tier outcome.
pub open spec fn diff_working_post(out: CmdOutput, r: Result<DiffResult, DiffError>) -> bool {
    if out.success {
        r matches Ok(diff) && diff.content@ == trimmed(out.stdout@) && (diff.empty <==> trimmed(
            out.stdout@,
        ).len() == 0)
    } else {
        r matches Err(error) && error.reason@ == "Failed to get diff"@ && error.detail@
            == out.stderr@
    }
}

/// Decides on the outcome of the unstaged working-tree diff, the
/// second and last tier of the uncommitted selection.
pub fn diff_after_working_tree(out: &CmdOutput) -> (r: Result<DiffResult, DiffError>)
    ensures
        diff_working_post(*out, r),
        r matches Ok(diff) ==> diff_wf(diff),
{
    if out.success {
        let content = trim_str(out.stdout.as_str());
        let empty = content.as_str().unicode_len() == 0;
        Ok(DiffResult { content, empty })
    } else {
        Err(
            DiffError {
                reason: String::from_str("Failed to get diff"),
                detail: out.stderr.clone(),
            },
        )
    }
}

/// What the engine decides on the cross-branch comparison outcome.
pub open spec fn diff_branches_post(out: CmdOutput, r: Result<DiffResult, DiffError>) -> bool {
    if out.success {
        r matches Ok(diff) && diff.content@ == trimmed(out.stdout@) && (diff.empty <==> trimmed(
            out.stdout@,
        ).len() == 0)
    } else {
        r matches Err(error) && error.reason@ == "Failed to get diff between branches"@
            && error.detail@ == out.stderr@
    }
}

/// Decides on the outcome of the merge-base-relative diff between the
/// main and the current branch.
pub fn diff_after_branches(out: &CmdOutput) -> (r: Result<DiffResult, DiffError>)
    ensures
        diff_branches_post(*out, r),
        r matches Ok(diff) ==> diff_wf(diff),
{
    if out.success {
        let content = trim_str(out.stdout.as_str());
        let empty = content.as_str().unicode_len() == 0;
        Ok(DiffResult { content, empty })
    } else {
        Err(
            DiffError {
                reason: String::from_str("Failed to get diff between branches"),
                detail: out.stderr.clone(),
            },
        )
    }
}

/// The diff text the two-tier uncommitted selection yields, given the
/// raw outputs of both tiers: the staged tier whenever it is non-empty
/// after trimming, the working-tree tier only otherwise.
pub open spec fn uncommitted_selection(staged: Seq<char>, working: Seq<char>) -> Seq<char> {
    if trimmed(staged).len() > 0 {
        trimmed(staged)
    } else {
        trimmed(working)
    }
}

/// Tier-selection law: when both commands succeed, the staged tier is
/// the result exactly when it is non-empty after trimming; the
/// working-tree tier is consulted only when the staged tier is empty,
/// and is then the result whatever it holds.
pub proof fn lemma_diff_tier_selection(
    staged_out: CmdOutput,
    working_out: CmdOutput,
    first: DiffStep,
    second: Result<DiffResult, DiffError>,
)
    requires
        staged_out.success,
        working_out.success,
        diff_staged_post(staged_out, first),
        diff_working_post(working_out, second),
    ensures
        trimmed(staged_out.stdout@).len() > 0 ==> (first matches DiffStep::Done { diff }
            && diff.content@ == uncommitted_selection(staged_out.stdout@, working_out.stdout@)),
        trimmed(staged_out.stdout@).len() == 0 ==> first is TryWorkingTree && (second matches Ok(
            diff,
        ) && diff.content@ == uncommitted_selection(staged_out.stdout@, working_out.stdout@)),
{
}

} // verus!
