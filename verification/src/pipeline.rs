//! The pipeline state machine: a strictly linear run from the
//! preflight checks to the published pull request.
//!
//! The driver is pure: [`step`] maps a phase and an observed event to
//! the next phase, the action the caller must perform, and the log
//! events to append to the sink. The caller loops: it performs the
//! action (runs a command, moves the working directory, obtains the
//! review, renders a fatal message) and feeds the resulting event
//! back. The whole transition relation is stated in [`transition`].

use vstd::prelude::*;
use vstd::pervasive::unreached;
use vstd::string::StringExecFns;

use crate::cmd::{CmdOutput, CmdRequest};
use crate::diff::{DiffResult, self};
use crate::guard::{self, detached_message, detached_sentinel, GuardDecision};
use crate::outcome::{Level, LogEvent, Stage, WorkflowOutcome};
use crate::publish::{self, PullRequestSpec};
use crate::resolve::{self, resolved_main_name, AutoDetectStep, ResolveStep};
use crate::submit::{self, commit_message_spec, opt_view, CommitSpec};
use crate::sync::{self, sync_choice_post, sync_fail_reason, sync_ok_message};
use crate::text::trimmed;

verus! {

/// Where the pipeline stands: which event it is waiting for, and what
/// it has resolved so far. Transitions are strictly linear; no phase
/// is re-entered.
#[derive(Debug, Clone, PartialEq, Eq)]
pub enum Phase {
    /// Nothing has run yet.
    Start,
    /// The repository-presence check is running.
    CheckingRepo,
    /// The top-level-path lookup is running.
    ResolvingRoot,
    /// The caller is moving the working directory to the root.
    AwaitingMove,
    /// The default-branch reference read is running; `retried` says
    /// whether it already follows the auto-detect fallback.
    ReadingOriginHead { retried: bool },
    /// The auto-detect fallback is running.
    AutoDetecting,
    /// The current-branch read is running.
    ReadingCurrentRef { main: String },
    /// The pull or fetch is running.
    Syncing { main: String, current: String },
    /// The staged-changes diff is running.
    DiffingStaged { main: String, current: String },
    /// The working-tree diff (the fallback tier) is running.
    DiffingWorkingTree { main: String, current: String },
    /// The cross-branch diff is running.
    DiffingBranches { main: String, current: String },
    /// The diff is out for review; a commit title and body are awaited.
    AwaitingReview { main: String, current: String, diff: DiffResult },
    /// Staging of all changes is running.
    Staging { current: String, commit: CommitSpec, pr: PullRequestSpec },
    /// The commit is running.
    Committing { current: String, pr: PullRequestSpec },
    /// The push is running.
    Pushing { current: String, pr: PullRequestSpec },
    /// The forge client is opening the pull request.
    Publishing,
    /// The run is over; no transition leaves this phase.
    Done { outcome: WorkflowOutcome },
}

/// What the caller observed and hands back to the driver.
#[derive(Debug, Clone, PartialEq, Eq)]
pub enum Event {
    /// Start the run.
    Begin,
    /// The requested command finished with this outcome.
    Cmd(CmdOutput),
    /// The working directory was moved (or the move was skipped).
    Moved,
    /// The review of the diff produced a commit title, optional
    /// details, and a pull-request body.
    Review { title: String, details: Option<String>, body: String },
}

/// What the caller must do next.
#[derive(Debug, Clone, PartialEq, Eq)]
pub enum Action {
    /// Run this command and feed back [`Event::Cmd`].
    Run { req: CmdRequest },
    /// Move the working directory to `path` if one is given (at most
    /// once per run, before any later command), then feed back
    /// [`Event::Moved`].
    MoveToRoot { path: Option<String> },
    /// Hand the diff to review and feed back [`Event::Review`].
    Review { diff: DiffResult },
    /// Render the fatal message to the operator, then terminate the
    /// process with a non-zero status. Nothing may be fed back.
    FatalRender { title: String, message: String },
    /// Terminate the process with a non-zero status, without
    /// rendering. Nothing may be fed back.
    Exit,
    /// The run is over with this outcome. Nothing may be fed back.
    Finish { outcome: WorkflowOutcome },
}

/// One driver step: the phase to move to, the action to perform, and
/// the log events to append, in order.
#[derive(Debug, Clone, PartialEq, Eq)]
pub struct StepResult {
    pub next: Phase,
    pub action: Action,
    pub logs: Vec<LogEvent>,
}

/// A step that ends the run recoverably: the failing command's error
/// stream is logged, and the outcome names the stage and the reason.
pub open spec fn recoverable_step(
    r: StepResult,
    stage: Stage,
    reason: Seq<char>,
    detail: Seq<char>,
) -> bool {
    &&& r.logs@.len() == 1
    &&& r.logs@[0].level == Level::Error
    &&& r.logs@[0].message@ == detail
    &&& r.next matches Phase::Done { outcome } && recoverable_outcome(outcome, stage, reason)
    &&& r.action matches Action::Finish { outcome } && recoverable_outcome(outcome, stage, reason)
}

/// A recoverable-failure outcome for `stage` with this reason.
pub open spec fn recoverable_outcome(o: WorkflowOutcome, stage: Stage, reason: Seq<char>) -> bool {
    o matches WorkflowOutcome::RecoverableFailure { stage: s, reason: why } && s == stage && why@
        == reason
}

/// A step that ends the run fatally: the message is logged as an
/// error, rendered to the operator when `render` holds, and the
/// process must terminate.
pub open spec fn fatal_step(r: StepResult, message: Seq<char>, render: bool) -> bool {
    &&& r.logs@.len() == 1
    &&& r.logs@[0].level == Level::Error
    &&& r.logs@[0].message@ == message
    &&& r.next matches Phase::Done { outcome } && (outcome matches WorkflowOutcome::FatalFailure {
        reason,
    } && reason@ == message)
    &&& if render {
        r.action matches Action::FatalRender { title, message: m } && title@ == "Error"@ && m@
            == message
    } else {
        r.action is Exit
    }
}

/// Which events a phase can take. The driver may only be stepped on a
/// pairing this admits; [`Phase::Done`] takes none.
pub open spec fn expects(pre: Phase, ev: Event) -> bool {
    match pre {
        Phase::Start => ev is Begin,
        Phase::AwaitingMove => ev is Moved,
        Phase::AwaitingReview { .. } => ev is Review,
        Phase::Done { .. } => false,
        _ => ev is Cmd,
    }
}

/// The full transition relation of the pipeline: what the driver's
/// step yields for every phase and admitted event.
pub open spec fn transition(pre: Phase, ev: Event, r: StepResult) -> bool {
    match pre {
        Phase::Start => {
            &&& ev is Begin
            &&& r.next is CheckingRepo
            &&& r.action == Action::Run { req: CmdRequest::CheckInRepo }
            &&& r.logs@.len() == 0
        },
        Phase::CheckingRepo => ev matches Event::Cmd(out) && {
            if out.success {
                &&& r.next is ResolvingRoot
                &&& r.action == Action::Run { req: CmdRequest::ShowToplevel }
                &&& r.logs@.len() == 0
            } else {
                fatal_step(r, "Not in a git repository."@, false)
            }
        },
        Phase::ResolvingRoot => ev matches Event::Cmd(out) && {
            &&& r.next is AwaitingMove
            &&& r.logs@.len() == 1
            &&& if out.success {
                &&& r.logs@[0].level == Level::Info
                &&& r.logs@[0].message@ == "Changed directory to repo root: "@ + trimmed(
                    out.stdout@,
                )
                &&& r.action matches Action::MoveToRoot { path } && (path matches Some(p) && p@
                    == trimmed(out.stdout@))
            } else {
                &&& r.logs@[0].level == Level::Error
                &&& r.logs@[0].message@ == out.stderr@
                &&& r.action matches Action::MoveToRoot { path } && path is None
            }
        },
        Phase::AwaitingMove => {
            &&& ev is Moved
            &&& r.next == Phase::ReadingOriginHead { retried: false }
            &&& r.action == Action::Run { req: CmdRequest::ReadOriginHead }
            &&& r.logs@.len() == 0
        },
        Phase::ReadingOriginHead { retried } => ev matches Event::Cmd(out) && {
            if out.success {
                &&& r.next matches Phase::ReadingCurrentRef { main } && main@ == resolved_main_name(
                    out.stdout@,
                )
                &&& r.action == Action::Run { req: CmdRequest::ReadCurrentRef }
                &&& r.logs@.len() == 1
                &&& r.logs@[0].level == Level::Info
                &&& r.logs@[0].message@ == "Determined main branch: "@ + resolved_main_name(
                    out.stdout@,
                )
            } else if !retried {
                &&& r.next is AutoDetecting
                &&& r.action == Action::Run { req: CmdRequest::AutoDetectOriginHead }
                &&& r.logs@.len() == 1
                &&& r.logs@[0].level == Level::Info
                &&& r.logs@[0].message@ == "Setting origin HEAD automatically..."@
            } else {
                recoverable_step(r, Stage::Resolve, "Failed to determine main branch"@, out.stderr@)
            }
        },
        Phase::AutoDetecting => ev matches Event::Cmd(out) && {
            if out.success {
                &&& r.next == Phase::ReadingOriginHead { retried: true }
                &&& r.action == Action::Run { req: CmdRequest::ReadOriginHead }
                &&& r.logs@.len() == 0
            } else {
                recoverable_step(r, Stage::Resolve, "Failed to set origin HEAD"@, out.stderr@)
            }
        },
        Phase::ReadingCurrentRef { main } => ev matches Event::Cmd(out) && {
            if !out.success {
                recoverable_step(r, Stage::Resolve, "Failed to get current branch"@, out.stderr@)
            } else if trimmed(out.stdout@) == detached_sentinel() {
                &&& r.logs@.len() == 2
                &&& r.logs@[0].level == Level::Info
                &&& r.logs@[0].message@ == "Current branch: "@ + trimmed(out.stdout@)
                &&& r.logs@[1].level == Level::Error
                &&& r.logs@[1].message@ == detached_message()
                &&& r.action matches Action::FatalRender { title, message } && title@ == "Error"@
                    && message@ == detached_message()
                &&& r.next matches Phase::Done { outcome } && (outcome
                    matches WorkflowOutcome::FatalFailure { reason } && reason@
                    == detached_message())
            } else {
                &&& r.logs@.len() == 1
                &&& r.logs@[0].level == Level::Info
                &&& r.logs@[0].message@ == "Current branch: "@ + trimmed(out.stdout@)
                &&& r.next matches Phase::Syncing { main: m, current: c } && m@ == main@ && c@
                    == trimmed(out.stdout@)
                &&& r.action matches Action::Run { req } && sync_choice_post(
                    trimmed(out.stdout@),
                    main@,
                    req,
                )
            }
        },
        Phase::Syncing { main, current } => ev matches Event::Cmd(out) && {
            if out.success {
                &&& r.logs@.len() == 1
                &&& r.logs@[0].level == Level::Info
                &&& r.logs@[0].message@ == sync_ok_message(current@, main@)
                &&& r.next matches Phase::DiffingStaged { main: m, current: c } && m@ == main@ && c@
                    == current@
                &&& r.action == Action::Run { req: CmdRequest::DiffStaged }
            } else {
                recoverable_step(r, Stage::Sync, sync_fail_reason(current@, main@), out.stderr@)
            }
        },
        Phase::DiffingStaged { main, current } => ev matches Event::Cmd(out) && {
            if !out.success {
                recoverable_step(r, Stage::Diff, "Failed to get diff"@, out.stderr@)
            } else if trimmed(out.stdout@).len() == 0 {
                &&& r.next matches Phase::DiffingWorkingTree { main: m, current: c } && m@ == main@
                    && c@ == current@
                &&& r.action == Action::Run { req: CmdRequest::DiffWorkingTree }
                &&& r.logs@.len() == 0
            } else {
                &&& r.logs@.len() == 0
                &&& r.action matches Action::Review { diff } && diff.content@ == trimmed(
                    out.stdout@,
                ) && diff.empty == false
                &&& r.next matches Phase::AwaitingReview { main: m, current: c, diff } && m@
                    == main@ && c@ == current@ && diff.content@ == trimmed(out.stdout@)
                    && diff.empty == false
            }
        },
        Phase::DiffingWorkingTree { main, current } => ev matches Event::Cmd(out) && {
            if !out.success {
                recoverable_step(r, Stage::Diff, "Failed to get diff"@, out.stderr@)
            } else if trimmed(out.stdout@).len() == 0 && current@ != main@ {
                &&& r.next matches Phase::DiffingBranches { main: m, current: c } && m@ == main@
                    && c@ == current@
                &&& r.action matches Action::Run { req } && (req matches CmdRequest::DiffBranches {
                    main: m,
                    current: c,
                } && m@ == main@ && c@ == current@)
                &&& r.logs@.len() == 0
            } else {
                &&& r.logs@.len() == 0
                &&& r.action matches Action::Review { diff } && diff.content@ == trimmed(
                    out.stdout@,
                ) && (diff.empty <==> trimmed(out.stdout@).len() == 0)
                &&& r.next matches Phase::AwaitingReview { main: m, current: c, diff } && m@
                    == main@ && c@ == current@ && diff.content@ == trimmed(out.stdout@) && (
                diff.empty <==> trimmed(out.stdout@).len() == 0)
            }
        },
        Phase::DiffingBranches { main, current } => ev matches Event::Cmd(out) && {
            if !out.success {
                recoverable_step(r, Stage::Diff, "Failed to get diff between branches"@, out.stderr@)
            } else {
                &&& r.logs@.len() == 0
                &&& r.action matches Action::Review { diff } && diff.content@ == trimmed(
                    out.stdout@,
                ) && (diff.empty <==> trimmed(out.stdout@).len() == 0)
                &&& r.next matches Phase::AwaitingReview { main: m, current: c, diff } && m@
                    == main@ && c@ == current@ && diff.content@ == trimmed(out.stdout@) && (
                diff.empty <==> trimmed(out.stdout@).len() == 0)
            }
        },
        Phase::AwaitingReview { main, current, diff } => ev matches Event::Review {
            title,
            details,
            body,
        } && {
            &&& r.next matches Phase::Staging { current: c, commit, pr } && c@ == current@
                && commit.title@ == title@ && opt_view(commit.details) == opt_view(details)
                && pr.title@ == title@ && pr.body@ == body@
            &&& r.action == Action::Run { req: CmdRequest::StageAll }
            &&& r.logs@.len() == 0
        },
        Phase::Staging { current, commit, pr } => ev matches Event::Cmd(out) && {
            if out.success {
                &&& r.logs@.len() == 1
                &&& r.logs@[0].level == Level::Info
                &&& r.logs@[0].message@ == "Staged all changes"@
                &&& r.action matches Action::Run { req } && (req matches CmdRequest::Commit {
                    message,
                } && message@ == commit_message_spec(commit.title@, opt_view(commit.details)))
                &&& r.next matches Phase::Committing { current: c, pr: p } && c@ == current@ && p.title@
                    == pr.title@ && p.body@ == pr.body@
            } else {
                recoverable_step(r, Stage::Commit, "Failed to stage changes"@, out.stderr@)
            }
        },
        Phase::Committing { current, pr } => ev matches Event::Cmd(out) && {
            if out.success {
                &&& r.logs@.len() == 1
                &&& r.logs@[0].level == Level::Info
                &&& r.logs@[0].message@ == "Committed changes successfully"@
                &&& r.action matches Action::Run { req } && (req matches CmdRequest::Push { branch }
                    && branch@ == current@)
                &&& r.next matches Phase::Pushing { current: c, pr: p } && c@ == current@ && p.title@
                    == pr.title@ && p.body@ == pr.body@
            } else {
                recoverable_step(r, Stage::Commit, "Failed to commit changes"@, out.stderr@)
            }
        },
        Phase::Pushing { current, pr } => ev matches Event::Cmd(out) && {
            if out.success {
                &&& r.logs@.len() == 1
                &&& r.logs@[0].level == Level::Info
                &&& r.logs@[0].message@ == "Pushed branch "@ + current@ + " to origin"@
                &&& r.action matches Action::Run { req } && (req
                    matches CmdRequest::CreatePullRequest { title, body } && title@ == pr.title@
                    && body@ == pr.body@)
                &&& r.next is Publishing
            } else {
                recoverable_step(r, Stage::Push, "Failed to push branch"@, out.stderr@)
            }
        },
        Phase::Publishing => ev matches Event::Cmd(out) && {
            if out.success {
                &&& r.logs@.len() == 1
                &&& r.logs@[0].level == Level::Success
                &&& r.logs@[0].message@ == "Pull request created successfully"@
                &&& r.next == Phase::Done { outcome: WorkflowOutcome::Success }
                &&& r.action == Action::Finish { outcome: WorkflowOutcome::Success }
            } else {
                recoverable_step(r, Stage::Publish, "Failed to create pull request"@, out.stderr@)
            }
        },
        Phase::Done { .. } => false,
    }
}

/// Whether a step asks the caller to run the auto-detect fallback.
pub open spec fn issues_auto_detect(r: StepResult) -> bool {
    r.action matches Action::Run { req } && req is AutoDetectOriginHead
}

/// How many steps of a run issued the auto-detect fallback.
pub open spec fn auto_detect_count(results: Seq<StepResult>) -> nat
    decreases results.len(),
{
    if results.len() == 0 {
        0
    } else {
        auto_detect_count(results.drop_last()) + if issues_auto_detect(results.last()) {
            1nat
        } else {
            0nat
        }
    }
}

/// Whether the auto-detect fallback lies behind this phase: from here
/// on, no step issues it again.
pub open spec fn past_auto_detect(p: Phase) -> bool {
    match p {
        Phase::Start => false,
        Phase::CheckingRepo => false,
        Phase::ResolvingRoot => false,
        Phase::AwaitingMove => false,
        Phase::ReadingOriginHead { retried } => retried,
        _ => true,
    }
}

/// How far along the linear pipeline a phase stands. The retried
/// reference read ranks past the fallback, so the one revisit of the
/// read is still forward motion.
pub open spec fn phase_rank(p: Phase) -> nat {
    match p {
        Phase::Start => 0,
        Phase::CheckingRepo => 1,
        Phase::ResolvingRoot => 2,
        Phase::AwaitingMove => 3,
        Phase::ReadingOriginHead { retried } => if retried {
            6
        } else {
            4
        },
        Phase::AutoDetecting => 5,
        Phase::ReadingCurrentRef { .. } => 7,
        Phase::Syncing { .. } => 8,
        Phase::DiffingStaged { .. } => 9,
        Phase::DiffingWorkingTree { .. } => 10,
        Phase::DiffingBranches { .. } => 11,
        Phase::AwaitingReview { .. } => 12,
        Phase::Staging { .. } => 13,
        Phase::Committing { .. } => 14,
        Phase::Pushing { .. } => 15,
        Phase::Publishing => 16,
        Phase::Done { .. } => 17,
    }
}

/// The pipeline is strictly linear: every admitted step moves the
/// phase strictly forward in rank, so no phase is ever re-entered and
/// every run reaches a terminal phase within the rank bound.
pub proof fn lemma_pipeline_strictly_linear(pre: Phase, ev: Event, r: StepResult)
    requires
        transition(pre, ev, r),
    ensures
        phase_rank(r.next) > phase_rank(pre),
{
}

/// No transition leaves the terminal phase: once the run is done, no
/// later stage can be reached.
pub proof fn lemma_done_is_terminal(outcome: WorkflowOutcome, ev: Event, r: StepResult)
    ensures
        !transition(Phase::Done { outcome }, ev, r),
{
}

/// A fatal outcome arises only from the two preflight checks: the
/// repository-presence check and the detached-head check. Every later
/// failure is recoverable.
pub proof fn lemma_fatal_only_from_preflight(pre: Phase, ev: Event, r: StepResult)
    requires
        transition(pre, ev, r),
    ensures
        (r.next matches Phase::Done { outcome } && outcome is FatalFailure) ==> (pre
            is CheckingRepo || pre matches Phase::ReadingCurrentRef { .. }),
{
}

/// A successful outcome arises only from the publish stage: the run
/// cannot end in success before every stage up to publication has
/// taken its turn.
pub proof fn lemma_success_only_from_publishing(pre: Phase, ev: Event, r: StepResult)
    requires
        transition(pre, ev, r),
    ensures
        (r.next matches Phase::Done { outcome } && outcome is Success) ==> pre is Publishing,
{
}

/// Along one step, the auto-detect fallback is issued only before the
/// fallback point, and crossing it is one-way.
proof fn lemma_auto_detect_step(pre: Phase, ev: Event, r: StepResult)
    requires
        transition(pre, ev, r),
    ensures
        issues_auto_detect(r) ==> !past_auto_detect(pre) && past_auto_detect(r.next),
        past_auto_detect(pre) ==> past_auto_detect(r.next),
{
}

/// The count of fallback issues of a run, bounded by where its last
/// phase stands relative to the fallback point.
proof fn lemma_auto_detect_bound(phases: Seq<Phase>, evs: Seq<Event>, results: Seq<StepResult>)
    requires
        evs.len() == results.len(),
        phases.len() == results.len() + 1,
        !past_auto_detect(phases[0]),
        forall|i: int|
            0 <= i < results.len() ==> transition(phases[i], evs[i], #[trigger] results[i])
                && results[i].next == phases[i + 1],
    ensures
        auto_detect_count(results) <= if past_auto_detect(phases[phases.len() - 1]) {
            1nat
        } else {
            0nat
        },
    decreases results.len(),
{
    if results.len() > 0 {
        let n = results.len() as int;
        lemma_auto_detect_bound(phases.drop_last(), evs.drop_last(), results.drop_last());
        lemma_auto_detect_step(phases[n - 1], evs[n - 1], results[n - 1]);
        assert(results.drop_last().len() == n - 1);
        assert(phases.drop_last()[0] == phases[0]);
    }
}

/// The auto-detect fallback runs at most once in any run of the
/// pipeline: over every sequence of steps the driver admits from the
/// start, at most one step issues the auto-detect command.
pub proof fn lemma_auto_detect_at_most_once(
    phases: Seq<Phase>,
    evs: Seq<Event>,
    results: Seq<StepResult>,
)
    requires
        evs.len() == results.len(),
        phases.len() == results.len() + 1,
        phases[0] == Phase::Start,
        forall|i: int|
            0 <= i < results.len() ==> transition(phases[i], evs[i], #[trigger] results[i])
                && results[i].next == phases[i + 1],
    ensures
        auto_detect_count(results) <= 1,
{
    lemma_auto_detect_bound(phases, evs, results);
}

/// Builds the step that ends the run recoverably.
fn recoverable(stage: Stage, reason: String, detail: String) -> (r: StepResult)
    ensures
        recoverable_step(r, stage, reason@, detail@),
{
    let reason_copy = reason.clone();
    let mut logs: Vec<LogEvent> = Vec::new();
    logs.push(LogEvent { level: Level::Error, message: detail });
    StepResult {
        next: Phase::Done {
            outcome: WorkflowOutcome::RecoverableFailure { stage, reason: reason_copy },
        },
        action: Action::Finish { outcome: WorkflowOutcome::RecoverableFailure { stage, reason } },
        logs,
    }
}

/// Drives the pipeline one step: from the phase `pre` and the observed
/// event, the next phase, the action to perform, and the logs to
/// append.
pub fn step(pre: Phase, ev: Event) -> (r: StepResult)
    requires
        expects(pre, ev),
    ensures
        transition(pre, ev, r),
{
    match pre {
        Phase::Start => {
            let mut logs: Vec<LogEvent> = Vec::new();
            StepResult {
                next: Phase::CheckingRepo,
                action: Action::Run { req: CmdRequest::CheckInRepo },
                logs,
            }
        },
        Phase::CheckingRepo => match ev {
            Event::Cmd(out) => match guard::check_in_repo(&out) {
                GuardDecision::Proceed => {
                    let mut logs: Vec<LogEvent> = Vec::new();
                    StepResult {
                        next: Phase::ResolvingRoot,
                        action: Action::Run { req: CmdRequest::ShowToplevel },
                        logs,
                    }
                },
                GuardDecision::Fatal { log, message } => {
                    let mut logs: Vec<LogEvent> = Vec::new();
                    logs.push(log);
                    StepResult {
                        next: Phase::Done {
                            outcome: WorkflowOutcome::FatalFailure { reason: message },
                        },
                        action: Action::Exit,
                        logs,
                    }
                },
            },
            _ => unreached(),
        },
        Phase::ResolvingRoot => match ev {
            Event::Cmd(out) => {
                let decision = guard::normalize_to_root(&out);
                let mut logs: Vec<LogEvent> = Vec::new();
                logs.push(decision.log);
                StepResult {
                    next: Phase::AwaitingMove,
                    action: Action::MoveToRoot { path: decision.chdir_to },
                    logs,
                }
            },
            _ => unreached(),
        },
        Phase::AwaitingMove => {
            let mut logs: Vec<LogEvent> = Vec::new();
            StepResult {
                next: Phase::ReadingOriginHead { retried: false },
                action: Action::Run { req: CmdRequest::ReadOriginHead },
                logs,
            }
        },
        Phase::ReadingOriginHead { retried } => match ev {
            Event::Cmd(out) => match resolve::resolve_main_after_read(&out, retried) {
                ResolveStep::Resolved { name, log } => {
                    let mut logs: Vec<LogEvent> = Vec::new();
                    logs.push(log);
                    StepResult {
                        next: Phase::ReadingCurrentRef { main: name },
                        action: Action::Run { req: CmdRequest::ReadCurrentRef },
                        logs,
                    }
                },
                ResolveStep::RunAutoDetect { log } => {
                    let mut logs: Vec<LogEvent> = Vec::new();
                    logs.push(log);
                    StepResult {
                        next: Phase::AutoDetecting,
                        action: Action::Run { req: CmdRequest::AutoDetectOriginHead },
                        logs,
                    }
                },
                ResolveStep::Failed { error } => recoverable(
                    Stage::Resolve,
                    error.reason,
                    error.detail,
                ),
            },
            _ => unreached(),
        },
        Phase::AutoDetecting => match ev {
            Event::Cmd(out) => match resolve::resolve_main_after_auto_detect(&out) {
                AutoDetectStep::RetryRead => {
                    let mut logs: Vec<LogEvent> = Vec::new();
                    StepResult {
                        next: Phase::ReadingOriginHead { retried: true },
                        action: Action::Run { req: CmdRequest::ReadOriginHead },
                        logs,
                    }
                },
                AutoDetectStep::Failed { error } => recoverable(
                    Stage::Resolve,
                    error.reason,
                    error.detail,
                ),
            },
            _ => unreached(),
        },
        Phase::ReadingCurrentRef { main } => match ev {
            Event::Cmd(out) => match resolve::resolve_current_branch(&out) {
                Err(error) => recoverable(Stage::Resolve, error.reason, error.detail),
                Ok((name, log)) => match guard::ensure_not_detached(name.as_str()) {
                    GuardDecision::Fatal { log: fatal_log, message } => {
                        let mut logs: Vec<LogEvent> = Vec::new();
                        logs.push(log);
                        logs.push(fatal_log);
                        StepResult {
                            next: Phase::Done {
                                outcome: WorkflowOutcome::FatalFailure { reason: message.clone() },
                            },
                            action: Action::FatalRender {
                                title: String::from_str("Error"),
                                message,
                            },
                            logs,
                        }
                    },
                    GuardDecision::Proceed => {
                        let req = sync::sync_request(&name, &main);
                        let mut logs: Vec<LogEvent> = Vec::new();
                        logs.push(log);
                        StepResult {
                            next: Phase::Syncing { main, current: name },
                            action: Action::Run { req },
                            logs,
                        }
                    },
                },
            },
            _ => unreached(),
        },
        Phase::Syncing { main, current } => match ev {
            Event::Cmd(out) => match sync::sync_after(&out, &current, &main) {
                Ok(log) => {
                    let mut logs: Vec<LogEvent> = Vec::new();
                    logs.push(log);
                    StepResult {
                        next: Phase::DiffingStaged { main, current },
                        action: Action::Run { req: CmdRequest::DiffStaged },
                        logs,
                    }
                },
                Err(error) => recoverable(Stage::Sync, error.reason, error.detail),
            },
            _ => unreached(),
        },
        Phase::DiffingStaged { main, current } => match ev {
            Event::Cmd(out) => match diff::diff_after_staged(&out) {
                diff::DiffStep::Failed { error } => recoverable(
                    Stage::Diff,
                    error.reason,
                    error.detail,
                ),
                diff::DiffStep::TryWorkingTree => {
                    let mut logs: Vec<LogEvent> = Vec::new();
                    StepResult {
                        next: Phase::DiffingWorkingTree { main, current },
                        action: Action::Run { req: CmdRequest::DiffWorkingTree },
                        logs,
                    }
                },
                diff::DiffStep::Done { diff } => {
                    let kept = DiffResult { content: diff.content.clone(), empty: diff.empty };
                    let mut logs: Vec<LogEvent> = Vec::new();
                    StepResult {
                        next: Phase::AwaitingReview { main, current, diff: kept },
                        action: Action::Review { diff },
                        logs,
                    }
                },
            },
            _ => unreached(),
        },
        Phase::DiffingWorkingTree { main, current } => match ev {
            Event::Cmd(out) => match diff::diff_after_working_tree(&out) {
                Err(error) => recoverable(Stage::Diff, error.reason, error.detail),
                Ok(diff) => {
                    if diff.empty && !crate::text::str_eq(current.as_str(), main.as_str()) {
                        let req = CmdRequest::DiffBranches {
                            main: main.clone(),
                            current: current.clone(),
                        };
                        let mut logs: Vec<LogEvent> = Vec::new();
                        StepResult {
                            next: Phase::DiffingBranches { main, current },
                            action: Action::Run { req },
                            logs,
                        }
                    } else {
                        let kept = DiffResult { content: diff.content.clone(), empty: diff.empty };
                        let mut logs: Vec<LogEvent> = Vec::new();
                        StepResult {
                            next: Phase::AwaitingReview { main, current, diff: kept },
                            action: Action::Review { diff },
                            logs,
                        }
                    }
                },
            },
            _ => unreached(),
        },
        Phase::DiffingBranches { main, current } => match ev {
            Event::Cmd(out) => match diff::diff_after_branches(&out) {
                Err(error) => recoverable(Stage::Diff, error.reason, error.detail),
                Ok(diff) => {
                    let kept = DiffResult { content: diff.content.clone(), empty: diff.empty };
                    let mut logs: Vec<LogEvent> = Vec::new();
                    StepResult {
                        next: Phase::AwaitingReview { main, current, diff: kept },
                        action: Action::Review { diff },
                        logs,
                    }
                },
            },
            _ => unreached(),
        },
        Phase::AwaitingReview { main, current, diff } => match ev {
            Event::Review { title, details, body } => {
                let commit = CommitSpec { title: title.clone(), details };
                let pr = PullRequestSpec { title, body };
                let mut logs: Vec<LogEvent> = Vec::new();
                StepResult {
                    next: Phase::Staging { current, commit, pr },
                    action: Action::Run { req: CmdRequest::StageAll },
                    logs,
                }
            },
            _ => unreached(),
        },
        Phase::Staging { current, commit, pr } => match ev {
            Event::Cmd(out) => match submit::stage_after(&out) {
                Ok(log) => {
                    let message = commit.build_message();
                    let mut logs: Vec<LogEvent> = Vec::new();
                    logs.push(log);
                    StepResult {
                        next: Phase::Committing { current, pr },
                        action: Action::Run { req: CmdRequest::Commit { message } },
                        logs,
                    }
                },
                Err(error) => recoverable(Stage::Commit, error.reason, error.detail),
            },
            _ => unreached(),
        },
        Phase::Committing { current, pr } => match ev {
            Event::Cmd(out) => match submit::commit_after(&out) {
                Ok(log) => {
                    let mut logs: Vec<LogEvent> = Vec::new();
                    logs.push(log);
                    let branch = current.clone();
                    StepResult {
                        next: Phase::Pushing { current, pr },
                        action: Action::Run { req: CmdRequest::Push { branch } },
                        logs,
                    }
                },
                Err(error) => recoverable(Stage::Commit, error.reason, error.detail),
            },
            _ => unreached(),
        },
        Phase::Pushing { current, pr } => match ev {
            Event::Cmd(out) => match submit::push_after(&out, &current) {
                Ok(log) => {
                    let mut logs: Vec<LogEvent> = Vec::new();
                    logs.push(log);
                    StepResult {
                        next: Phase::Publishing,
                        action: Action::Run {
                            req: CmdRequest::CreatePullRequest { title: pr.title, body: pr.body },
                        },
                        logs,
                    }
                },
                Err(error) => recoverable(Stage::Push, error.reason, error.detail),
            },
            _ => unreached(),
        },
        Phase::Publishing => match ev {
            Event::Cmd(out) => match publish::publish_after(&out) {
                Ok(log) => {
                    let mut logs: Vec<LogEvent> = Vec::new();
                    logs.push(log);
                    StepResult {
                        next: Phase::Done { outcome: WorkflowOutcome::Success },
                        action: Action::Finish { outcome: WorkflowOutcome::Success },
                        logs,
                    }
                },
                Err(error) => recoverable(Stage::Publish, error.reason, error.detail),
            },
            _ => unreached(),
        },
        Phase::Done { .. } => unreached(),
    }
}

} // verus!
