use submitflow::cmd::CmdRequest;

fn argv_of(req: CmdRequest) -> Vec<String> {
    req.argv()
}

#[test]
fn check_in_repo_argv() {
    assert_eq!(
        argv_of(CmdRequest::CheckInRepo),
        vec!["git", "rev-parse", "--is-inside-work-tree"]
    );
}

#[test]
fn show_toplevel_argv() {
    assert_eq!(argv_of(CmdRequest::ShowToplevel), vec!["git", "rev-parse", "--show-toplevel"]);
}

#[test]
fn read_origin_head_argv() {
    assert_eq!(
        argv_of(CmdRequest::ReadOriginHead),
        vec!["git", "rev-parse", "--abbrev-ref", "origin/HEAD"]
    );
}

#[test]
fn auto_detect_argv() {
    assert_eq!(
        argv_of(CmdRequest::AutoDetectOriginHead),
        vec!["git", "remote", "set-head", "origin", "--auto"]
    );
}

#[test]
fn read_current_ref_argv() {
    assert_eq!(
        argv_of(CmdRequest::ReadCurrentRef),
        vec!["git", "rev-parse", "--abbrev-ref", "HEAD"]
    );
}

#[test]
fn staged_diff_excludes_lock_files() {
    assert_eq!(
        argv_of(CmdRequest::DiffStaged),
        vec!["git", "diff", "--cached", "--", ".", ":!*.lock"]
    );
}

#[test]
fn working_tree_diff_excludes_lock_files() {
    assert_eq!(argv_of(CmdRequest::DiffWorkingTree), vec!["git", "diff", "--", ".", ":!*.lock"]);
}

#[test]
fn branch_diff_uses_triple_dot_range_and_excludes_lock_files() {
    assert_eq!(
        argv_of(CmdRequest::DiffBranches {
            main: "main".to_string(),
            current: "feature".to_string(),
        }),
        vec!["git", "diff", "main...feature", "--", ":!*.lock"]
    );
}

#[test]
fn pull_argv() {
    assert_eq!(argv_of(CmdRequest::PullOrigin), vec!["git", "pull", "origin"]);
}

#[test]
fn fetch_main_uses_two_sided_refspec() {
    assert_eq!(
        argv_of(CmdRequest::FetchMain { main: "main".to_string() }),
        vec!["git", "fetch", "origin", "main:main"]
    );
}

#[test]
fn stage_all_argv() {
    assert_eq!(argv_of(CmdRequest::StageAll), vec!["git", "add", "."]);
}

#[test]
fn commit_argv_carries_message() {
    assert_eq!(
        argv_of(CmdRequest::Commit { message: "Fix bug\n\nDetail line".to_string() }),
        vec!["git", "commit", "-m", "Fix bug\n\nDetail line"]
    );
}

#[test]
fn push_argv_names_branch() {
    assert_eq!(
        argv_of(CmdRequest::Push { branch: "feature".to_string() }),
        vec!["git", "push", "origin", "feature"]
    );
}

#[test]
fn create_pull_request_argv() {
    assert_eq!(
        argv_of(CmdRequest::CreatePullRequest {
            title: "Fix bug".to_string(),
            body: "Body".to_string(),
        }),
        vec!["gh", "pr", "create", "--title", "Fix bug", "--body", "Body"]
    );
}
