use plg::git::{
    add_and_push, commit_message, init, init_accepts, pull, pull_accepts, push_accepts, push_refspec, readme,
    GitEvent, GitOp, GitStep, InitStage, PullStage, PushStage,
};
use plg::log::LogOptions;

fn failed(display: &str, message: &str) -> GitEvent {
    GitEvent::Failed { display: display.to_string(), message: message.to_string() }
}

fn perform<S>(step: GitStep<S, impl std::fmt::Debug>) -> (Vec<String>, GitOp, S) {
    match step {
        GitStep::Perform { logs, op, next } => (logs, op, next),
        GitStep::Finish { result, .. } => panic!("expected an operation, got the end: {:?}", result),
    }
}

fn finish<S, R>(step: GitStep<S, R>) -> (Vec<String>, Result<R, String>) {
    match step {
        GitStep::Finish { logs, result } => (logs, result),
        GitStep::Perform { .. } => panic!("expected the end"),
    }
}

fn op_name(op: &GitOp) -> String {
    match op {
        GitOp::OpenRepository => "open".into(),
        GitOp::InitRepository => "init".into(),
        GitOp::WriteFile { path, contents } => format!("write {path}: {contents}"),
        GitOp::OpenIndex => "index".into(),
        GitOp::AddAll { pathspec } => format!("add {pathspec}"),
        GitOp::WriteIndex => "write-index".into(),
        GitOp::WriteTree => "write-tree".into(),
        GitOp::FindTree => "find-tree".into(),
        GitOp::Signature => "signature".into(),
        GitOp::Commit { update_ref, message, with_parent } => format!("commit {update_ref} {message} {with_parent}"),
        GitOp::ReadHead => "head".into(),
        GitOp::FindBranch { name } => format!("branch {name}"),
        GitOp::RenameBranch { to, force } => format!("rename {to} {force}"),
        GitOp::SetHead { reference } => format!("set-head {reference}"),
        GitOp::CreateRemote { name, url } => format!("remote {name} {url}"),
        GitOp::FindRemote { name } => format!("find-remote {name}"),
        GitOp::Push { refspec } => format!("push {refspec}"),
        GitOp::SetUpstream { upstream } => format!("upstream {upstream}"),
        GitOp::Fetch { refspec } => format!("fetch {refspec}"),
        GitOp::ReadCommits { remote_branch, local_branch } => format!("commits {remote_branch} {local_branch}"),
        GitOp::CheckDescendant => "descendant".into(),
        GitOp::SetTarget { log_message } => format!("set-target {log_message}"),
        GitOp::CheckoutHead { force } => format!("checkout {force}"),
        GitOp::ReadHeadTree => "head-tree".into(),
        GitOp::DiffWithHead => "diff".into(),
        GitOp::IndexSize => "index-size".into(),
        GitOp::FindParent => "parent".into(),
    }
}

#[test]
fn readme_contents() {
    assert_eq!(readme(Some("My playlist")), "My playlist: Playlist with Git");
    assert_eq!(readme(None), "Playlist with Git");
}

#[test]
fn refspec_forced_only_when_asked() {
    assert_eq!(push_refspec(true), "+refs/heads/master:refs/heads/master");
    assert_eq!(push_refspec(false), "refs/heads/master:refs/heads/master");
}

#[test]
fn default_commit_message() {
    assert_eq!(commit_message(None), "No message supplied by the user.");
    assert_eq!(commit_message(Some("new songs".to_string())), "new songs");
}

fn run_init(
    force: bool,
    lo: LogOptions,
    head: Option<&str>,
    fail_at: Option<&str>,
) -> (Vec<String>, Vec<String>, Result<(), String>) {
    let mut ops = Vec::new();
    let mut logs_all = Vec::new();
    let mut stage = InitStage::Start;
    let mut event = GitEvent::Done;
    loop {
        match init(Some("Mix"), force, "https://example.org/p.git", lo, &stage, &event) {
            GitStep::Perform { logs, op, next } => {
                logs_all.extend(logs);
                let name = op_name(&op);
                event = if name == "open" {
                    failed("not found; class=Repository (6); code=NotFound (-3)", "not found")
                } else if fail_at.map_or(false, |f| name.starts_with(f)) {
                    failed("boom; class=Os (2)", "boom")
                } else if name == "head" {
                    GitEvent::Head { shorthand: head.map(|h| h.to_string()) }
                } else {
                    GitEvent::Done
                };
                ops.push(name);
                stage = next;
            }
            GitStep::Finish { logs, result } => {
                logs_all.extend(logs);
                return (ops, logs_all, result);
            }
        }
    }
}

#[test]
fn init_runs_every_step_and_renames_main() {
    let (ops, logs, result) = run_init(false, LogOptions::Verbose, Some("main"), None);
    assert_eq!(result, Ok(()));
    assert_eq!(
        ops,
        vec![
            "open",
            "init",
            "write README.md: Mix: Playlist with Git",
            "index",
            "add *",
            "write-index",
            "write-tree",
            "find-tree",
            "signature",
            "commit HEAD first commit false",
            "head",
            "branch main",
            "rename master true",
            "set-head refs/heads/master",
            "remote origin https://example.org/p.git",
            "find-remote origin",
            "push refs/heads/master:refs/heads/master",
            "branch master",
            "upstream origin/master",
        ]
    );
    assert_eq!(
        logs,
        vec![
            "Initializing Git repository...",
            "Initialized Git repository",
            "Writing to README.md...",
            "Wrote to README.md",
            "Adding files to Git repository...",
            "Added files to Git repository",
            "Committing files to Git repository...",
            "Committed files to Git repository",
            "Creating master branch...",
            "Created master branch",
            "Pushing to remote repository...",
            "Pushed to remote repository",
        ]
    );
}

#[test]
fn init_keeps_master_and_forces_push() {
    let (ops, logs, result) = run_init(true, LogOptions::Normal, Some("master"), None);
    assert_eq!(result, Ok(()));
    assert!(!ops.iter().any(|o| o.starts_with("rename")));
    assert!(ops.contains(&"push +refs/heads/master:refs/heads/master".to_string()));
    assert_eq!(logs, vec!["Pushing to remote repository...", "Pushed to remote repository"]);
}

#[test]
fn init_without_utf8_branch_name_skips_rename() {
    let (ops, _, result) = run_init(false, LogOptions::Quiet, None, None);
    assert_eq!(result, Ok(()));
    assert_eq!(ops[11], "set-head refs/heads/master");
}

#[test]
fn init_refuses_existing_repository() {
    let step = init(None, false, "r", LogOptions::Normal, &InitStage::CheckExisting, &GitEvent::Done);
    let (logs, result) = finish(step);
    assert!(logs.is_empty());
    assert_eq!(result, Err("Git repository already exists, try adding the `--reinit` flag".to_string()));
}

#[test]
fn init_failures_name_the_step() {
    let (_, _, result) = run_init(false, LogOptions::Normal, Some("main"), Some("init"));
    assert_eq!(result, Err("Failed to initialize repository: boom; class=Os (2)".to_string()));
    let (_, _, result) = run_init(false, LogOptions::Normal, Some("main"), Some("commit"));
    assert_eq!(result, Err("Failed to create commit: boom; class=Os (2)".to_string()));
    let (_, _, result) = run_init(false, LogOptions::Normal, Some("main"), Some("branch main"));
    assert_eq!(result, Err("Failed to find branch 'main': boom".to_string()));
    let (_, _, result) = run_init(false, LogOptions::Normal, Some("main"), Some("push"));
    assert_eq!(result, Err("Failed to push to origin: boom".to_string()));
    let (_, _, result) = run_init(false, LogOptions::Normal, Some("main"), Some("upstream"));
    assert_eq!(result, Err("Failed to set upstream: boom".to_string()));
}

#[test]
fn init_ignores_readme_failure() {
    let (ops, _, result) = run_init(false, LogOptions::Normal, Some("master"), Some("write README.md"));
    assert_eq!(result, Ok(()));
    assert_eq!(ops[3], "index");
}

fn pull_to_end(force: bool, same: bool, descends: bool) -> (Vec<String>, Vec<String>, Result<(), String>) {
    let mut ops = Vec::new();
    let mut logs_all = Vec::new();
    let mut stage = PullStage::Start;
    let mut event = GitEvent::Done;
    loop {
        match pull(force, LogOptions::Verbose, stage, &event) {
            GitStep::Perform { logs, op, next } => {
                logs_all.extend(logs);
                let name = op_name(&op);
                event = match op {
                    GitOp::ReadCommits { .. } => GitEvent::Commits {
                        local: vec![1, 2, 3],
                        remote: if same { vec![1, 2, 3] } else { vec![1, 2, 4] },
                    },
                    GitOp::CheckDescendant => GitEvent::Answer(descends),
                    _ => GitEvent::Done,
                };
                ops.push(name);
                stage = next;
            }
            GitStep::Finish { logs, result } => {
                logs_all.extend(logs);
                return (ops, logs_all, result);
            }
        }
    }
}

#[test]
fn pull_up_to_date() {
    let (ops, logs, result) = pull_to_end(false, true, false);
    assert_eq!(result, Ok(()));
    assert_eq!(ops, vec!["find-remote origin", "fetch master", "commits origin/master master"]);
    assert_eq!(logs, vec!["Fetching repository changes...", "Repository up-to-date"]);
}

#[test]
fn pull_fast_forwards() {
    let (ops, logs, result) = pull_to_end(false, false, true);
    assert_eq!(result, Ok(()));
    assert_eq!(
        ops,
        vec![
            "find-remote origin",
            "fetch master",
            "commits origin/master master",
            "descendant",
            "set-target Fast-forward",
            "set-head refs/heads/master",
            "checkout true",
        ]
    );
    assert_eq!(
        logs,
        vec![
            "Fetching repository changes...",
            "Repository not up-to-date",
            "Updating local repository...",
            "Updated local repository",
        ]
    );
}

#[test]
fn pull_refuses_diverged_branches() {
    let (ops, _, result) = pull_to_end(false, false, false);
    assert_eq!(result, Err("Local and remote branches have diverged".to_string()));
    assert!(!ops.iter().any(|o| o.starts_with("set-target")));
}

#[test]
fn forced_pull_overrides_local() {
    let (ops, _, result) = pull_to_end(true, false, false);
    assert_eq!(result, Ok(()));
    assert!(!ops.contains(&"descendant".to_string()));
    assert!(ops.contains(&"set-target Force pull".to_string()));
}

#[test]
fn pull_failure_reports_git_error() {
    let (logs, result) = finish(pull(false, LogOptions::Normal, PullStage::Fetch, &failed("net; code=Auth (-16)", "net")));
    assert!(logs.is_empty());
    assert_eq!(result, Err("net; code=Auth (-16)".to_string()));
}

fn push_to_end(head_tree: bool, count: usize, parent: bool, force: bool) -> (Vec<String>, Vec<String>, Result<bool, String>) {
    let mut ops = Vec::new();
    let mut logs_all = Vec::new();
    let mut stage = PushStage::Start;
    let mut event = GitEvent::Done;
    loop {
        match add_and_push("songs", force, LogOptions::Verbose, stage, &event) {
            GitStep::Perform { logs, op, next } => {
                logs_all.extend(logs);
                let name = op_name(&op);
                event = match op {
                    GitOp::ReadHeadTree => GitEvent::Answer(head_tree),
                    GitOp::DiffWithHead | GitOp::IndexSize => GitEvent::Count(count),
                    GitOp::FindParent => GitEvent::Answer(parent),
                    _ => GitEvent::Done,
                };
                ops.push(name);
                stage = next;
            }
            GitStep::Finish { logs, result } => {
                logs_all.extend(logs);
                return (ops, logs_all, result);
            }
        }
    }
}

#[test]
fn push_commits_and_publishes_changes() {
    let (ops, logs, result) = push_to_end(true, 2, true, false);
    assert_eq!(result, Ok(true));
    assert_eq!(
        ops,
        vec![
            "index",
            "add *",
            "write-index",
            "head-tree",
            "diff",
            "write-tree",
            "find-tree",
            "signature",
            "parent",
            "commit HEAD songs true",
            "find-remote origin",
            "push refs/heads/master:refs/heads/master",
        ]
    );
    assert_eq!(
        logs,
        vec![
            "Adding files...",
            "Added files",
            "Commititng changes...",
            "Commitied changes",
            "Pushing changes to the remote repository...",
            "Pushed changes to the remote repository",
        ]
    );
}

#[test]
fn push_without_changes_does_nothing() {
    let (ops, logs, result) = push_to_end(true, 0, true, false);
    assert_eq!(result, Ok(false));
    assert_eq!(ops.last().unwrap(), "diff");
    assert_eq!(logs.last().unwrap(), "No local changes");
}

#[test]
fn first_push_counts_the_index() {
    let (ops, _, result) = push_to_end(false, 3, false, true);
    assert_eq!(result, Ok(true));
    assert!(ops.contains(&"index-size".to_string()));
    assert!(ops.contains(&"commit HEAD songs false".to_string()));
    assert!(ops.contains(&"push +refs/heads/master:refs/heads/master".to_string()));
}

#[test]
fn push_failure_reports_git_error() {
    let (_, result) = finish(add_and_push("m", false, LogOptions::Normal, PushStage::Commit, &failed("locked", "l")));
    assert_eq!(result, Err("locked".to_string()));
    let (_, _, _) = perform(add_and_push("m", false, LogOptions::Normal, PushStage::Start, &GitEvent::Done));
}

#[test]
fn answers_must_fit_the_operation() {
    assert!(init_accepts(&InitStage::Start, &GitEvent::Count(3)));
    assert!(init_accepts(&InitStage::ReadHead, &GitEvent::Head { shorthand: None }));
    assert!(!init_accepts(&InitStage::ReadHead, &GitEvent::Done));
    assert!(init_accepts(&InitStage::Commit, &failed("d", "m")));
    assert!(!init_accepts(&InitStage::Commit, &GitEvent::Answer(true)));
    assert!(pull_accepts(PullStage::ReadCommits, &GitEvent::Commits { local: vec![1], remote: vec![2] }));
    assert!(!pull_accepts(PullStage::ReadCommits, &GitEvent::Done));
    assert!(pull_accepts(PullStage::CheckDescendant, &GitEvent::Answer(false)));
    assert!(!pull_accepts(PullStage::Fetch, &GitEvent::Count(0)));
    assert!(push_accepts(PushStage::ReadHeadTree, &GitEvent::Answer(true)));
    assert!(!push_accepts(PushStage::ReadHeadTree, &failed("d", "m")));
    assert!(push_accepts(PushStage::IndexSize, &GitEvent::Count(2)));
    assert!(!push_accepts(PushStage::IndexSize, &failed("d", "m")));
    assert!(push_accepts(PushStage::Diff, &failed("d", "m")));
    assert!(push_accepts(PushStage::Push, &GitEvent::Done));
}
