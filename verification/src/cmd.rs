//! The model of external command invocations: what the pipeline asks
//! the caller to run, and what the caller observed when running it.
//!
//! The library never spawns a process itself. Each request renders to
//! an exact argument vector (program name first); the caller runs it
//! and hands back a [`CmdOutput`].

use vstd::prelude::*;
use vstd::string::StringExecFns;

verus! {

/// The observed outcome of one external command: whether it exited
/// successfully, and its decoded output streams.
#[derive(Debug, Clone, PartialEq, Eq)]
pub struct CmdOutput {
    pub success: bool,
    pub stdout: String,
    pub stderr: String,
}

/// One external command the pipeline asks the caller to run.
#[derive(Debug, Clone, PartialEq, Eq)]
pub enum CmdRequest {
    /// Is the working directory inside a repository?
    CheckInRepo,
    /// Print the repository's top-level path.
    ShowToplevel,
    /// Read the remote's symbolic default-branch reference.
    ReadOriginHead,
    /// Auto-detect the remote's default branch.
    AutoDetectOriginHead,
    /// Read the abbreviated current branch name.
    ReadCurrentRef,
    /// Diff of staged changes, lock files excluded.
    DiffStaged,
    /// Diff of unstaged working-tree changes, lock files excluded.
    DiffWorkingTree,
    /// Merge-base-relative diff between two branches, lock files
    /// excluded.
    DiffBranches { main: String, current: String },
    /// Fast-forward pull of the current branch from the remote.
    PullOrigin,
    /// Fetch the remote main branch into the local ref of the same
    /// name, without a checkout.
    FetchMain { main: String },
    /// Stage all tracked and untracked changes.
    StageAll,
    /// Commit the staged changes with the given message.
    Commit { message: String },
    /// Push the named branch to the remote.
    Push { branch: String },
    /// Open a pull request with the given title and body.
    CreatePullRequest { title: String, body: String },
}

/// The merge-base-relative (triple-dot) range expression between two
/// branches.
pub open spec fn range_expr(main: Seq<char>, current: Seq<char>) -> Seq<char> {
    main + "..."@ + current
}

/// The two-sided refspec that fetches a remote branch into the local
/// ref of the same name.
pub open spec fn refspec(main: Seq<char>) -> Seq<char> {
    main + ":"@ + main
}

/// The views of an argument vector's elements.
pub open spec fn views_of(v: Seq<String>) -> Seq<Seq<char>> {
    v.map_values(|a: String| a@)
}

/// The exact argument vector of each request, program name first.
pub open spec fn spec_argv(req: CmdRequest) -> Seq<Seq<char>> {
    match req {
        CmdRequest::CheckInRepo => seq!["git"@, "rev-parse"@, "--is-inside-work-tree"@],
        CmdRequest::ShowToplevel => seq!["git"@, "rev-parse"@, "--show-toplevel"@],
        CmdRequest::ReadOriginHead => seq!["git"@, "rev-parse"@, "--abbrev-ref"@, "origin/HEAD"@],
        CmdRequest::AutoDetectOriginHead => seq![
            "git"@,
            "remote"@,
            "set-head"@,
            "origin"@,
            "--auto"@,
        ],
        CmdRequest::ReadCurrentRef => seq!["git"@, "rev-parse"@, "--abbrev-ref"@, "HEAD"@],
        CmdRequest::DiffStaged => seq!["git"@, "diff"@, "--cached"@, "--"@, "."@, ":!*.lock"@],
        CmdRequest::DiffWorkingTree => seq!["git"@, "diff"@, "--"@, "."@, ":!*.lock"@],
        CmdRequest::DiffBranches { main, current } => seq![
            "git"@,
            "diff"@,
            range_expr(main@, current@),
            "--"@,
            ":!*.lock"@,
        ],
        CmdRequest::PullOrigin => seq!["git"@, "pull"@, "origin"@],
        CmdRequest::FetchMain { main } => seq!["git"@, "fetch"@, "origin"@, refspec(main@)],
        CmdRequest::StageAll => seq!["git"@, "add"@, "."@],
        CmdRequest::Commit { message } => seq!["git"@, "commit"@, "-m"@, message@],
        CmdRequest::Push { branch } => seq!["git"@, "push"@, "origin"@, branch@],
        CmdRequest::CreatePullRequest { title, body } => seq![
            "gh"@,
            "pr"@,
            "create"@,
            "--title"@,
            title@,
            "--body"@,
            body@,
        ],
    }
}

/// Every diff request excludes lock-file paths: its final pathspec
/// argument is the lock-file exclusion, in the staged and working-tree
/// tiers as in the cross-branch comparison.
pub proof fn lemma_diff_requests_exclude_locks(main: String, current: String)
    ensures
        spec_argv(CmdRequest::DiffStaged).last() == ":!*.lock"@,
        spec_argv(CmdRequest::DiffWorkingTree).last() == ":!*.lock"@,
        spec_argv(CmdRequest::DiffBranches { main, current }).last() == ":!*.lock"@,
{
}

impl CmdRequest {
    /// Renders the request as the argument vector to run, program name
    /// first.
    pub fn argv(&self) -> (r: Vec<String>)
        ensures
            views_of(r@) == spec_argv(*self),
    {
        let mut v: Vec<String> = Vec::new();
        match self {
            CmdRequest::CheckInRepo => {
                v.push(String::from_str("git"));
                v.push(String::from_str("rev-parse"));
                v.push(String::from_str("--is-inside-work-tree"));
            },
            CmdRequest::ShowToplevel => {
                v.push(String::from_str("git"));
                v.push(String::from_str("rev-parse"));
                v.push(String::from_str("--show-toplevel"));
            },
            CmdRequest::ReadOriginHead => {
                v.push(String::from_str("git"));
                v.push(String::from_str("rev-parse"));
                v.push(String::from_str("--abbrev-ref"));
                v.push(String::from_str("origin/HEAD"));
            },
            CmdRequest::AutoDetectOriginHead => {
                v.push(String::from_str("git"));
                v.push(String::from_str("remote"));
                v.push(String::from_str("set-head"));
                v.push(String::from_str("origin"));
                v.push(String::from_str("--auto"));
            },
            CmdRequest::ReadCurrentRef => {
                v.push(String::from_str("git"));
                v.push(String::from_str("rev-parse"));
                v.push(String::from_str("--abbrev-ref"));
                v.push(String::from_str("HEAD"));
            },
            CmdRequest::DiffStaged => {
                v.push(String::from_str("git"));
                v.push(String::from_str("diff"));
                v.push(String::from_str("--cached"));
                v.push(String::from_str("--"));
                v.push(String::from_str("."));
                v.push(String::from_str(":!*.lock"));
            },
            CmdRequest::DiffWorkingTree => {
                v.push(String::from_str("git"));
                v.push(String::from_str("diff"));
                v.push(String::from_str("--"));
                v.push(String::from_str("."));
                v.push(String::from_str(":!*.lock"));
            },
            CmdRequest::DiffBranches { main, current } => {
                let mut range = main.clone();
                range.append("...");
                range.append(current.as_str());
                v.push(String::from_str("git"));
                v.push(String::from_str("diff"));
                v.push(range);
                v.push(String::from_str("--"));
                v.push(String::from_str(":!*.lock"));
            },
            CmdRequest::PullOrigin => {
                v.push(String::from_str("git"));
                v.push(String::from_str("pull"));
                v.push(String::from_str("origin"));
            },
            CmdRequest::FetchMain { main } => {
                let mut fetch_spec = main.clone();
                fetch_spec.append(":");
                fetch_spec.append(main.as_str());
                v.push(String::from_str("git"));
                v.push(String::from_str("fetch"));
                v.push(String::from_str("origin"));
                v.push(fetch_spec);
            },
            CmdRequest::StageAll => {
                v.push(String::from_str("git"));
                v.push(String::from_str("add"));
                v.push(String::from_str("."));
            },
            CmdRequest::Commit { message } => {
                v.push(String::from_str("git"));
                v.push(String::from_str("commit"));
                v.push(String::from_str("-m"));
                v.push(message.clone());
            },
            CmdRequest::Push { branch } => {
                v.push(String::from_str("git"));
                v.push(String::from_str("push"));
                v.push(String::from_str("origin"));
                v.push(branch.clone());
            },
            CmdRequest::CreatePullRequest { title, body } => {
                v.push(String::from_str("gh"));
                v.push(String::from_str("pr"));
                v.push(String::from_str("create"));
                v.push(String::from_str("--title"));
                v.push(title.clone());
                v.push(String::from_str("--body"));
                v.push(body.clone());
            },
        }
        proof {
            assert(views_of(v@) =~= spec_argv(*self));
        }
        v
    }
}

} // verus!
