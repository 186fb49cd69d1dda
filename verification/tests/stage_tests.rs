use submitflow::cmd::{CmdOutput, CmdRequest};
use submitflow::diff::{diff_after_branches, diff_after_staged, diff_after_working_tree, DiffStep};
use submitflow::guard::{check_in_repo, ensure_not_detached, normalize_to_root, GuardDecision};
use submitflow::outcome::Level;
use submitflow::publish::publish_after;
use submitflow::resolve::{
    resolve_current_branch, resolve_main_after_auto_detect, resolve_main_after_read,
    AutoDetectStep, ResolveStep,
};
use submitflow::submit::{commit_after, push_after, stage_after, CommitSpec};
use submitflow::sync::{sync_after, sync_request};

fn ok(stdout: &str) -> CmdOutput {
    CmdOutput { success: true, stdout: stdout.to_string(), stderr: String::new() }
}

fn fail(stderr: &str) -> CmdOutput {
    CmdOutput { success: false, stdout: String::new(), stderr: stderr.to_string() }
}

#[test]
fn repo_check_passes_on_success() {
    assert_eq!(check_in_repo(&ok("true")), GuardDecision::Proceed);
}

#[test]
fn repo_check_is_fatal_on_failure() {
    match check_in_repo(&fail("fatal: not a git repository")) {
        GuardDecision::Fatal { log, message } => {
            assert_eq!(log.level, Level::Error);
            assert_eq!(log.message, "Not in a git repository.");
            assert_eq!(message, "Not in a git repository.");
        }
        other => panic!("expected a fatal decision, got {:?}", other),
    }
}

#[test]
fn detached_sentinel_is_fatal() {
    match ensure_not_detached("HEAD") {
        GuardDecision::Fatal { log, message } => {
            assert_eq!(log.level, Level::Error);
            assert_eq!(message, "Detached HEAD state detected. Please check out a branch.");
            assert_eq!(log.message, message);
        }
        other => panic!("expected a fatal decision, got {:?}", other),
    }
}

#[test]
fn ordinary_branch_is_no_op() {
    assert_eq!(ensure_not_detached("feature"), GuardDecision::Proceed);
    assert_eq!(ensure_not_detached("main"), GuardDecision::Proceed);
    assert_eq!(ensure_not_detached("HEADS"), GuardDecision::Proceed);
}

#[test]
fn normalize_moves_to_trimmed_root_on_success() {
    let d = normalize_to_root(&ok("/work/repo\n"));
    assert_eq!(d.chdir_to, Some("/work/repo".to_string()));
    assert_eq!(d.log.level, Level::Info);
    assert_eq!(d.log.message, "Changed directory to repo root: /work/repo");
}

#[test]
fn normalize_records_error_and_continues_on_failure() {
    let d = normalize_to_root(&fail("boom"));
    assert_eq!(d.chdir_to, None);
    assert_eq!(d.log.level, Level::Error);
    assert_eq!(d.log.message, "boom");
}

#[test]
fn main_branch_read_strips_remote_prefix() {
    match resolve_main_after_read(&ok("origin/main\n"), false) {
        ResolveStep::Resolved { name, log } => {
            assert_eq!(name, "main");
            assert_eq!(log.level, Level::Info);
            assert_eq!(log.message, "Determined main branch: main");
        }
        other => panic!("expected a resolution, got {:?}", other),
    }
}

#[test]
fn main_branch_read_strips_only_one_prefix() {
    match resolve_main_after_read(&ok("origin/origin/main\n"), true) {
        ResolveStep::Resolved { name, .. } => assert_eq!(name, "origin/main"),
        other => panic!("expected a resolution, got {:?}", other),
    }
}

#[test]
fn failed_first_read_triggers_auto_detect() {
    match resolve_main_after_read(&fail("unknown revision"), false) {
        ResolveStep::RunAutoDetect { log } => {
            assert_eq!(log.level, Level::Info);
            assert_eq!(log.message, "Setting origin HEAD automatically...");
        }
        other => panic!("expected the fallback, got {:?}", other),
    }
}

#[test]
fn failed_retried_read_fails_resolution() {
    match resolve_main_after_read(&fail("still unknown"), true) {
        ResolveStep::Failed { error } => {
            assert_eq!(error.reason, "Failed to determine main branch");
            assert_eq!(error.detail, "still unknown");
        }
        other => panic!("expected a failure, got {:?}", other),
    }
}

#[test]
fn successful_auto_detect_retries_the_read() {
    assert_eq!(resolve_main_after_auto_detect(&ok("")), AutoDetectStep::RetryRead);
}

#[test]
fn failed_auto_detect_fails_resolution() {
    match resolve_main_after_auto_detect(&fail("no remote")) {
        AutoDetectStep::Failed { error } => {
            assert_eq!(error.reason, "Failed to set origin HEAD");
            assert_eq!(error.detail, "no remote");
        }
        other => panic!("expected a failure, got {:?}", other),
    }
}

#[test]
fn current_branch_is_trimmed_stdout() {
    let (name, log) = resolve_current_branch(&ok("feature\n")).unwrap();
    assert_eq!(name, "feature");
    assert_eq!(log.level, Level::Info);
    assert_eq!(log.message, "Current branch: feature");
}

#[test]
fn current_branch_failure_is_reported() {
    let error = resolve_current_branch(&fail("bad ref")).unwrap_err();
    assert_eq!(error.reason, "Failed to get current branch");
    assert_eq!(error.detail, "bad ref");
}

#[test]
fn non_empty_staged_tier_wins() {
    match diff_after_staged(&ok("diff --git a/foo.txt b/foo.txt\n")) {
        DiffStep::Done { diff } => {
            assert_eq!(diff.content, "diff --git a/foo.txt b/foo.txt");
            assert!(!diff.empty);
        }
        other => panic!("expected the staged tier, got {:?}", other),
    }
}

#[test]
fn empty_staged_tier_falls_back() {
    assert_eq!(diff_after_staged(&ok("")), DiffStep::TryWorkingTree);
    assert_eq!(diff_after_staged(&ok("  \n")), DiffStep::TryWorkingTree);
}

#[test]
fn staged_tier_failure_is_a_diff_error() {
    match diff_after_staged(&fail("bad pathspec")) {
        DiffStep::Failed { error } => {
            assert_eq!(error.reason, "Failed to get diff");
            assert_eq!(error.detail, "bad pathspec");
        }
        other => panic!("expected a failure, got {:?}", other),
    }
}

#[test]
fn working_tree_tier_returns_trimmed_text() {
    let diff = diff_after_working_tree(&ok("diff --git a/bar.txt b/bar.txt\n")).unwrap();
    assert_eq!(diff.content, "diff --git a/bar.txt b/bar.txt");
    assert!(!diff.empty);
}

#[test]
fn empty_working_tree_tier_is_a_valid_outcome() {
    let diff = diff_after_working_tree(&ok(" \n")).unwrap();
    assert_eq!(diff.content, "");
    assert!(diff.empty);
}

#[test]
fn working_tree_failure_is_a_diff_error() {
    let error = diff_after_working_tree(&fail("boom")).unwrap_err();
    assert_eq!(error.reason, "Failed to get diff");
    assert_eq!(error.detail, "boom");
}

#[test]
fn branch_diff_returns_trimmed_text() {
    let diff = diff_after_branches(&ok("diff --git a/baz.txt b/baz.txt\n")).unwrap();
    assert_eq!(diff.content, "diff --git a/baz.txt b/baz.txt");
    assert!(!diff.empty);
}

#[test]
fn branch_diff_failure_names_the_comparison() {
    let error = diff_after_branches(&fail("unrelated histories")).unwrap_err();
    assert_eq!(error.reason, "Failed to get diff between branches");
    assert_eq!(error.detail, "unrelated histories");
}

#[test]
fn sync_pulls_when_on_main() {
    let req = sync_request(&"main".to_string(), &"main".to_string());
    assert_eq!(req, CmdRequest::PullOrigin);
}

#[test]
fn sync_fetches_refspec_when_not_on_main() {
    let req = sync_request(&"feature".to_string(), &"main".to_string());
    assert_eq!(req, CmdRequest::FetchMain { main: "main".to_string() });
    assert_eq!(req.argv(), vec!["git", "fetch", "origin", "main:main"]);
}

#[test]
fn sync_success_messages_follow_the_choice() {
    let log = sync_after(&ok(""), &"main".to_string(), &"main".to_string()).unwrap();
    assert_eq!(log.message, "Pulled latest changes from origin");
    let log = sync_after(&ok(""), &"feature".to_string(), &"main".to_string()).unwrap();
    assert_eq!(log.message, "Fetched latest main branch");
}

#[test]
fn sync_failure_reasons_follow_the_choice() {
    let error = sync_after(&fail("net down"), &"main".to_string(), &"main".to_string())
        .unwrap_err();
    assert_eq!(error.reason, "Failed to pull from origin");
    let error = sync_after(&fail("net down"), &"feature".to_string(), &"main".to_string())
        .unwrap_err();
    assert_eq!(error.reason, "Failed to fetch main branch");
    assert_eq!(error.detail, "net down");
}

#[test]
fn commit_message_is_trimmed_title_alone() {
    let spec = CommitSpec { title: " Fix bug \n".to_string(), details: None };
    assert_eq!(spec.build_message(), "Fix bug");
}

#[test]
fn commit_message_joins_title_and_details_with_blank_line() {
    let spec = CommitSpec {
        title: "Fix bug".to_string(),
        details: Some("Detail line".to_string()),
    };
    assert_eq!(spec.build_message(), "Fix bug\n\nDetail line");
}

#[test]
fn commit_message_trims_both_parts() {
    let spec = CommitSpec {
        title: "  Fix bug  ".to_string(),
        details: Some("\nDetail line\n".to_string()),
    };
    assert_eq!(spec.build_message(), "Fix bug\n\nDetail line");
}

#[test]
fn stage_outcomes() {
    assert_eq!(stage_after(&ok("")).unwrap().message, "Staged all changes");
    let error = stage_after(&fail("index locked")).unwrap_err();
    assert_eq!(error.reason, "Failed to stage changes");
    assert_eq!(error.detail, "index locked");
}

#[test]
fn commit_outcomes() {
    assert_eq!(commit_after(&ok("")).unwrap().message, "Committed changes successfully");
    let error = commit_after(&fail("hook rejected")).unwrap_err();
    assert_eq!(error.reason, "Failed to commit changes");
    assert_eq!(error.detail, "hook rejected");
}

#[test]
fn push_outcomes() {
    let log = push_after(&ok(""), &"feature".to_string()).unwrap();
    assert_eq!(log.message, "Pushed branch feature to origin");
    let error = push_after(&fail("non-fast-forward"), &"feature".to_string()).unwrap_err();
    assert_eq!(error.reason, "Failed to push branch");
    assert_eq!(error.detail, "non-fast-forward");
}

#[test]
fn publish_outcomes() {
    let log = publish_after(&ok("")).unwrap();
    assert_eq!(log.level, Level::Success);
    assert_eq!(log.message, "Pull request created successfully");
    let error = publish_after(&fail("a pull request already exists")).unwrap_err();
    assert_eq!(error.reason, "Failed to create pull request");
    assert_eq!(error.detail, "a pull request already exists");
}
