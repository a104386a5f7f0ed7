//! The Git side of a playlist: the operations that set up a repository,
//! bring it up to date and publish local changes, in the order they run,
//! with the reports and error messages that go with them.
//!
//! Each procedure is a step function. The caller performs the operation a
//! step names, then calls again with the stage the step gives and what
//! happened; the procedure ends with a `Finish` step.

use vstd::prelude::*;
use vstd::string::StringExecFns;
use crate::log::LogOptions;
use crate::text::{views, opt_view, same_text};

verus! {

/// The text of the README that `init` writes: the playlist's name, if it
/// has one, before the tool's name.
pub open spec fn readme_text(name: Option<Seq<char>>) -> Seq<char> {
    match name {
        Some(s) => s + ": Playlist with Git"@,
        None => "Playlist with Git"@,
    }
}

/// The contents of the README of a new playlist.
pub fn readme(name: Option<&str>) -> (r: String)
    ensures
        r@ == readme_text(match name {
            Some(s) => Some(s@),
            None => None,
        }),
{
    match name {
        Some(s) => {
            let mut r = s.to_owned();
            r.append(": Playlist with Git");
            r
        },
        None => "Playlist with Git".to_owned(),
    }
}

/// The refspec that publishes the local master branch: forced when local
/// changes are to replace the remote's.
pub open spec fn refspec_text(force: bool) -> Seq<char> {
    if force {
        "+refs/heads/master:refs/heads/master"@
    } else {
        "refs/heads/master:refs/heads/master"@
    }
}

/// The refspec of a push.
pub fn push_refspec(force: bool) -> (r: String)
    ensures
        r@ == refspec_text(force),
{
    if force {
        "+refs/heads/master:refs/heads/master".to_owned()
    } else {
        "refs/heads/master:refs/heads/master".to_owned()
    }
}

/// The commit message used when the user gives none.
pub open spec fn commit_message_text(msg: Option<Seq<char>>) -> Seq<char> {
    match msg {
        Some(m) => m,
        None => "No message supplied by the user."@,
    }
}

/// The message of a commit that publishes local changes.
pub fn commit_message(msg: Option<String>) -> (r: String)
    ensures
        r@ == commit_message_text(opt_view(msg)),
{
    match msg {
        Some(m) => m,
        None => "No message supplied by the user.".to_owned(),
    }
}

/// A Git operation for the caller to perform on the repository in the
/// current directory.
pub enum GitOp {
    /// Open the repository in `.git`.
    OpenRepository,
    /// Create a repository here.
    InitRepository,
    /// Write a file of the playlist; a failure is ignored.
    WriteFile { path: String, contents: String },
    /// Open the index.
    OpenIndex,
    /// Add every file that matches `pathspec` to the index.
    AddAll { pathspec: String },
    /// Write the index to disk.
    WriteIndex,
    /// Write the index as a tree.
    WriteTree,
    /// Look up that tree.
    FindTree,
    /// Make the user's signature from the Git configuration.
    Signature,
    /// Commit the tree to `update_ref` with `message`, on top of the
    /// current commit when `with_parent`.
    Commit { update_ref: String, message: String, with_parent: bool },
    /// Read HEAD and answer with the short name of the branch it names.
    ReadHead,
    /// Look up a local branch.
    FindBranch { name: String },
    /// Rename the branch found last.
    RenameBranch { to: String, force: bool },
    /// Point HEAD at a reference.
    SetHead { reference: String },
    /// Add a remote.
    CreateRemote { name: String, url: String },
    /// Look up a remote.
    FindRemote { name: String },
    /// Push to the remote found last.
    Push { refspec: String },
    /// Make the branch found last track `upstream`.
    SetUpstream { upstream: String },
    /// Fetch `refspec` from the remote found last.
    Fetch { refspec: String },
    /// Answer with the ids of the commits at the tips of the remote and
    /// the local branch.
    ReadCommits { remote_branch: String, local_branch: String },
    /// Answer whether the remote commit descends from the local one.
    CheckDescendant,
    /// Move the local branch to the remote commit.
    SetTarget { log_message: String },
    /// Check out HEAD, overwriting local files when `force`.
    CheckoutHead { force: bool },
    /// Answer whether HEAD leads to a tree.
    ReadHeadTree,
    /// Answer with the number of differences between HEAD's tree and the
    /// index.
    DiffWithHead,
    /// Answer with the number of entries in the index.
    IndexSize,
    /// Answer whether HEAD leads to a commit.
    FindParent,
}

/// A Git operation, seen as plain values.
pub ghost enum GitOpView {
    OpenRepository,
    InitRepository,
    WriteFile { path: Seq<char>, contents: Seq<char> },
    OpenIndex,
    AddAll { pathspec: Seq<char> },
    WriteIndex,
    WriteTree,
    FindTree,
    Signature,
    Commit { update_ref: Seq<char>, message: Seq<char>, with_parent: bool },
    ReadHead,
    FindBranch { name: Seq<char> },
    RenameBranch { to: Seq<char>, force: bool },
    SetHead { reference: Seq<char> },
    CreateRemote { name: Seq<char>, url: Seq<char> },
    FindRemote { name: Seq<char> },
    Push { refspec: Seq<char> },
    SetUpstream { upstream: Seq<char> },
    Fetch { refspec: Seq<char> },
    ReadCommits { remote_branch: Seq<char>, local_branch: Seq<char> },
    CheckDescendant,
    SetTarget { log_message: Seq<char> },
    CheckoutHead { force: bool },
    ReadHeadTree,
    DiffWithHead,
    IndexSize,
    FindParent,
}

impl View for GitOp {
    type V = GitOpView;

    open spec fn view(&self) -> GitOpView {
        match self {
            GitOp::OpenRepository => GitOpView::OpenRepository,
            GitOp::InitRepository => GitOpView::InitRepository,
            GitOp::WriteFile { path, contents } => GitOpView::WriteFile { path: path@, contents: contents@ },
            GitOp::OpenIndex => GitOpView::OpenIndex,
            GitOp::AddAll { pathspec } => GitOpView::AddAll { pathspec: pathspec@ },
            GitOp::WriteIndex => GitOpView::WriteIndex,
            GitOp::WriteTree => GitOpView::WriteTree,
            GitOp::FindTree => GitOpView::FindTree,
            GitOp::Signature => GitOpView::Signature,
            GitOp::Commit { update_ref, message, with_parent } => GitOpView::Commit {
                update_ref: update_ref@,
                message: message@,
                with_parent: *with_parent,
            },
            GitOp::ReadHead => GitOpView::ReadHead,
            GitOp::FindBranch { name } => GitOpView::FindBranch { name: name@ },
            GitOp::RenameBranch { to, force } => GitOpView::RenameBranch { to: to@, force: *force },
            GitOp::SetHead { reference } => GitOpView::SetHead { reference: reference@ },
            GitOp::CreateRemote { name, url } => GitOpView::CreateRemote { name: name@, url: url@ },
            GitOp::FindRemote { name } => GitOpView::FindRemote { name: name@ },
            GitOp::Push { refspec } => GitOpView::Push { refspec: refspec@ },
            GitOp::SetUpstream { upstream } => GitOpView::SetUpstream { upstream: upstream@ },
            GitOp::Fetch { refspec } => GitOpView::Fetch { refspec: refspec@ },
            GitOp::ReadCommits { remote_branch, local_branch } => GitOpView::ReadCommits {
                remote_branch: remote_branch@,
                local_branch: local_branch@,
            },
            GitOp::CheckDescendant => GitOpView::CheckDescendant,
            GitOp::SetTarget { log_message } => GitOpView::SetTarget { log_message: log_message@ },
            GitOp::CheckoutHead { force } => GitOpView::CheckoutHead { force: *force },
            GitOp::ReadHeadTree => GitOpView::ReadHeadTree,
            GitOp::DiffWithHead => GitOpView::DiffWithHead,
            GitOp::IndexSize => GitOpView::IndexSize,
            GitOp::FindParent => GitOpView::FindParent,
        }
    }
}

/// What happened to the operation the caller performed.
pub enum GitEvent {
    /// It succeeded.
    Done,
    /// It failed; `display` is the error as git2 displays it (with its
    /// class and code), `message` the bare message.
    Failed { display: String, message: String },
    /// HEAD was read; the short name of the branch, when it is UTF-8.
    Head { shorthand: Option<String> },
    /// The ids of the local and the remote commit.
    Commits { local: Vec<u8>, remote: Vec<u8> },
    /// A yes-or-no answer.
    Answer(bool),
    /// A number of entries.
    Count(usize),
}

/// An outcome, seen as plain values.
pub ghost enum GitEventView {
    Done,
    Failed { display: Seq<char>, message: Seq<char> },
    Head { shorthand: Option<Seq<char>> },
    Commits { local: Seq<u8>, remote: Seq<u8> },
    Answer(bool),
    Count(nat),
}

impl View for GitEvent {
    type V = GitEventView;

    open spec fn view(&self) -> GitEventView {
        match self {
            GitEvent::Done => GitEventView::Done,
            GitEvent::Failed { display, message } => GitEventView::Failed {
                display: display@,
                message: message@,
            },
            GitEvent::Head { shorthand } => GitEventView::Head { shorthand: opt_view(*shorthand) },
            GitEvent::Commits { local, remote } => GitEventView::Commits { local: local@, remote: remote@ },
            GitEvent::Answer(b) => GitEventView::Answer(*b),
            GitEvent::Count(n) => GitEventView::Count(*n as nat),
        }
    }
}

/// What to do next.
pub enum GitStep<S, R> {
    /// Report `logs`, in order, then perform `op` and call again with stage
    /// `next` and its outcome.
    Perform { logs: Vec<String>, op: GitOp, next: S },
    /// Report `logs`, in order; the procedure ends with `result`.
    Finish { logs: Vec<String>, result: Result<R, String> },
}

/// A step, seen as plain values.
pub ghost enum GitStepView<S, R> {
    Perform { logs: Seq<Seq<char>>, op: GitOpView, next: S },
    Finish { logs: Seq<Seq<char>>, result: Result<R, Seq<char>> },
}

/// An outcome, seen as plain values.
pub open spec fn result_view<R>(r: Result<R, String>) -> Result<R, Seq<char>> {
    match r {
        Ok(v) => Ok(v),
        Err(e) => Err(e@),
    }
}

impl<S: View, R> View for GitStep<S, R> {
    type V = GitStepView<S::V, R>;

    open spec fn view(&self) -> GitStepView<S::V, R> {
        match self {
            GitStep::Perform { logs, op, next } => GitStepView::Perform {
                logs: views(logs@),
                op: op@,
                next: next@,
            },
            GitStep::Finish { logs, result } => GitStepView::Finish {
                logs: views(logs@),
                result: result_view(*result),
            },
        }
    }
}

/// The reports of a step: `message` when the level shows it.
pub open spec fn shown(lo: LogOptions, verbose_only: bool, message: Seq<char>) -> Seq<Seq<char>> {
    if lo.shows(verbose_only) {
        seq![message]
    } else {
        Seq::empty()
    }
}

fn report(logs: &mut Vec<String>, lo: LogOptions, verbose_only: bool, message: &str)
    ensures
        views(final(logs)@) == views(old(logs)@) + shown(lo, verbose_only, message@),
{
    let ghost before = logs@;
    if lo.logs(verbose_only) {
        logs.push(message.to_owned());
        assert(views(logs@) =~= views(before) + shown(lo, verbose_only, message@));
    } else {
        assert(views(logs@) =~= views(before) + shown(lo, verbose_only, message@));
    }
}

fn no_logs() -> (r: Vec<String>)
    ensures
        views(r@) == Seq::<Seq<char>>::empty(),
{
    let r: Vec<String> = Vec::new();
    assert(views(r@) =~= Seq::<Seq<char>>::empty());
    r
}

fn joined(prefix: &str, detail: &str) -> (r: String)
    ensures
        r@ == prefix@ + detail@,
{
    let mut r = prefix.to_owned();
    r.append(detail);
    r
}

/// A step that performs `op` next.
pub open spec fn perform<S, R>(logs: Seq<Seq<char>>, op: GitOpView, next: S) -> GitStepView<S, R> {
    GitStepView::Perform { logs, op, next }
}

/// A step that ends the procedure with `result`.
pub open spec fn finish<S, R>(logs: Seq<Seq<char>>, result: Result<R, Seq<char>>) -> GitStepView<S, R> {
    GitStepView::Finish { logs, result }
}

/// Where `init` stands: the operation it asked for last.
pub enum InitStage {
    Start,
    CheckExisting,
    CreateRepository,
    WriteReadme,
    OpenIndex,
    AddFiles,
    WriteIndex,
    WriteTree,
    FindTree,
    Signature,
    Commit,
    ReadHead,
    /// Looking up the branch that HEAD names, to rename it.
    FindBranch(String),
    RenameBranch,
    SetHead,
    AddRemote,
    FindRemote,
    Push,
    FindMaster,
    SetUpstream,
}

/// Where `init` stands, as plain values.
pub ghost enum InitStageView {
    Start,
    CheckExisting,
    CreateRepository,
    WriteReadme,
    OpenIndex,
    AddFiles,
    WriteIndex,
    WriteTree,
    FindTree,
    Signature,
    Commit,
    ReadHead,
    FindBranch(Seq<char>),
    RenameBranch,
    SetHead,
    AddRemote,
    FindRemote,
    Push,
    FindMaster,
    SetUpstream,
}

impl View for InitStage {
    type V = InitStageView;

    open spec fn view(&self) -> InitStageView {
        match self {
            InitStage::Start => InitStageView::Start,
            InitStage::CheckExisting => InitStageView::CheckExisting,
            InitStage::CreateRepository => InitStageView::CreateRepository,
            InitStage::WriteReadme => InitStageView::WriteReadme,
            InitStage::OpenIndex => InitStageView::OpenIndex,
            InitStage::AddFiles => InitStageView::AddFiles,
            InitStage::WriteIndex => InitStageView::WriteIndex,
            InitStage::WriteTree => InitStageView::WriteTree,
            InitStage::FindTree => InitStageView::FindTree,
            InitStage::Signature => InitStageView::Signature,
            InitStage::Commit => InitStageView::Commit,
            InitStage::ReadHead => InitStageView::ReadHead,
            InitStage::FindBranch(b) => InitStageView::FindBranch(b@),
            InitStage::RenameBranch => InitStageView::RenameBranch,
            InitStage::SetHead => InitStageView::SetHead,
            InitStage::AddRemote => InitStageView::AddRemote,
            InitStage::FindRemote => InitStageView::FindRemote,
            InitStage::Push => InitStageView::Push,
            InitStage::FindMaster => InitStageView::FindMaster,
            InitStage::SetUpstream => InitStageView::SetUpstream,
        }
    }
}

/// The answers that an operation of `init` can give: a failure, or the
/// success that the operation names.
pub open spec fn init_event_fits(stage: InitStageView, event: GitEventView) -> bool {
    match stage {
        InitStageView::Start => true,
        InitStageView::WriteReadme => true,
        InitStageView::ReadHead => event is Failed || event is Head,
        _ => event is Failed || event is Done,
    }
}

/// Whether `event` is an answer that the operation of `stage` can give,
/// so that `init` may take it.
pub fn init_accepts(stage: &InitStage, event: &GitEvent) -> (r: bool)
    ensures
        r == init_event_fits(stage@, event@),
{
    match stage {
        InitStage::Start => true,
        InitStage::WriteReadme => true,
        InitStage::ReadHead => match event {
            GitEvent::Failed { .. } => true,
            GitEvent::Head { .. } => true,
            _ => false,
        },
        _ => match event {
            GitEvent::Failed { .. } => true,
            GitEvent::Done => true,
            _ => false,
        },
    }
}

/// The error that ends `init` when the operation of `stage` fails: what
/// failed, then the error as git2 displays it for the steps up to the
/// first commit, and its bare message after.
pub open spec fn init_failure(stage: InitStageView, display: Seq<char>, message: Seq<char>) -> Seq<char> {
    match stage {
        InitStageView::CreateRepository => "Failed to initialize repository: "@ + display,
        InitStageView::OpenIndex => "Failed to get index: "@ + display,
        InitStageView::AddFiles => "Failed to add files to index: "@ + display,
        InitStageView::WriteIndex => "Failed to write index: "@ + display,
        InitStageView::WriteTree => "Failed to write tree: "@ + display,
        InitStageView::FindTree => "Failed to find tree: "@ + display,
        InitStageView::Signature => "Failed to create signature: "@ + display,
        InitStageView::Commit => "Failed to create commit: "@ + display,
        InitStageView::ReadHead => "Failed to get HEAD: "@ + message,
        InitStageView::FindBranch(b) => "Failed to find branch '"@ + b + "': "@ + message,
        InitStageView::RenameBranch => "Failed to rename branch to master: "@ + message,
        InitStageView::SetHead => "Failed to set HEAD to master: "@ + message,
        InitStageView::AddRemote => "Failed to add remote 'origin': "@ + message,
        InitStageView::FindRemote => "Failed to find remote 'origin': "@ + message,
        InitStageView::Push => "Failed to push to origin: "@ + message,
        InitStageView::FindMaster => "Failed to find master branch: "@ + message,
        _ => "Failed to set upstream: "@ + message,
    }
}

/// The step of `init` after the operation of `stage` had outcome `event`.
///
/// `init` refuses to touch an existing repository; otherwise it creates
/// one, writes the README, adds and commits every file as the first
/// commit, makes sure the branch is called master, adds the remote
/// `origin`, pushes master to it (forced when asked) and makes master
/// track `origin/master`. The first failing operation ends it with an
/// error; a failure to write the README is ignored.
pub open spec fn init_next(
    name: Option<Seq<char>>,
    force: bool,
    remote: Seq<char>,
    lo: LogOptions,
    stage: InitStageView,
    event: GitEventView,
) -> GitStepView<InitStageView, ()> {
    let none = Seq::<Seq<char>>::empty();
    match stage {
        InitStageView::Start => perform(none, GitOpView::OpenRepository, InitStageView::CheckExisting),
        InitStageView::CheckExisting => if event is Failed {
            perform(
                shown(lo, true, "Initializing Git repository..."@),
                GitOpView::InitRepository,
                InitStageView::CreateRepository,
            )
        } else {
            finish(none, Err("Git repository already exists, try adding the `--reinit` flag"@))
        },
        InitStageView::WriteReadme => perform(
            shown(lo, true, "Wrote to README.md"@),
            GitOpView::OpenIndex,
            InitStageView::OpenIndex,
        ),
        _ => match event {
            GitEventView::Failed { display, message } => finish(none, Err(init_failure(stage, display, message))),
            _ => match stage {
                InitStageView::CreateRepository => perform(
                    shown(lo, true, "Initialized Git repository"@) + shown(lo, true, "Writing to README.md..."@),
                    GitOpView::WriteFile { path: "README.md"@, contents: readme_text(name) },
                    InitStageView::WriteReadme,
                ),
                InitStageView::OpenIndex => perform(
                    shown(lo, true, "Adding files to Git repository..."@),
                    GitOpView::AddAll { pathspec: "*"@ },
                    InitStageView::AddFiles,
                ),
                InitStageView::AddFiles => perform(
                    shown(lo, true, "Added files to Git repository"@) + shown(lo, true, "Committing files to Git repository..."@),
                    GitOpView::WriteIndex,
                    InitStageView::WriteIndex,
                ),
                InitStageView::WriteIndex => perform(none, GitOpView::WriteTree, InitStageView::WriteTree),
                InitStageView::WriteTree => perform(none, GitOpView::FindTree, InitStageView::FindTree),
                InitStageView::FindTree => perform(none, GitOpView::Signature, InitStageView::Signature),
                InitStageView::Signature => perform(
                    none,
                    GitOpView::Commit { update_ref: "HEAD"@, message: "first commit"@, with_parent: false },
                    InitStageView::Commit,
                ),
                InitStageView::Commit => perform(
                    shown(lo, true, "Committed files to Git repository"@) + shown(lo, true, "Creating master branch..."@),
                    GitOpView::ReadHead,
                    InitStageView::ReadHead,
                ),
                InitStageView::ReadHead => match event {
                    GitEventView::Head { shorthand: Some(b) } => if b != "master"@ {
                        perform(none, GitOpView::FindBranch { name: b }, InitStageView::FindBranch(b))
                    } else {
                        perform(none, GitOpView::SetHead { reference: "refs/heads/master"@ }, InitStageView::SetHead)
                    },
                    _ => perform(none, GitOpView::SetHead { reference: "refs/heads/master"@ }, InitStageView::SetHead),
                },
                InitStageView::FindBranch(_) => perform(
                    none,
                    GitOpView::RenameBranch { to: "master"@, force: true },
                    InitStageView::RenameBranch,
                ),
                InitStageView::RenameBranch => perform(
                    none,
                    GitOpView::SetHead { reference: "refs/heads/master"@ },
                    InitStageView::SetHead,
                ),
                InitStageView::SetHead => perform(
                    shown(lo, true, "Created master branch"@) + shown(lo, false, "Pushing to remote repository..."@),
                    GitOpView::CreateRemote { name: "origin"@, url: remote },
                    InitStageView::AddRemote,
                ),
                InitStageView::AddRemote => perform(none, GitOpView::FindRemote { name: "origin"@ }, InitStageView::FindRemote),
                InitStageView::FindRemote => perform(none, GitOpView::Push { refspec: refspec_text(force) }, InitStageView::Push),
                InitStageView::Push => perform(none, GitOpView::FindBranch { name: "master"@ }, InitStageView::FindMaster),
                InitStageView::FindMaster => perform(
                    none,
                    GitOpView::SetUpstream { upstream: "origin/master"@ },
                    InitStageView::SetUpstream,
                ),
                _ => finish(shown(lo, false, "Pushed to remote repository"@), Ok(())),
            },
        },
    }
}

fn init_failure_message(stage: &InitStage, display: &str, message: &str) -> (r: String)
    requires
        !(stage@ is Start),
        !(stage@ is CheckExisting),
        !(stage@ is WriteReadme),
    ensures
        r@ == init_failure(stage@, display@, message@),
{
    match stage {
        InitStage::CreateRepository => joined("Failed to initialize repository: ", display),
        InitStage::OpenIndex => joined("Failed to get index: ", display),
        InitStage::AddFiles => joined("Failed to add files to index: ", display),
        InitStage::WriteIndex => joined("Failed to write index: ", display),
        InitStage::WriteTree => joined("Failed to write tree: ", display),
        InitStage::FindTree => joined("Failed to find tree: ", display),
        InitStage::Signature => joined("Failed to create signature: ", display),
        InitStage::Commit => joined("Failed to create commit: ", display),
        InitStage::ReadHead => joined("Failed to get HEAD: ", message),
        InitStage::FindBranch(b) => {
            let mut r = joined("Failed to find branch '", b.as_str());
            r.append("': ");
            r.append(message);
            r
        },
        InitStage::RenameBranch => joined("Failed to rename branch to master: ", message),
        InitStage::SetHead => joined("Failed to set HEAD to master: ", message),
        InitStage::AddRemote => joined("Failed to add remote 'origin': ", message),
        InitStage::FindRemote => joined("Failed to find remote 'origin': ", message),
        InitStage::Push => joined("Failed to push to origin: ", message),
        InitStage::FindMaster => joined("Failed to find master branch: ", message),
        _ => joined("Failed to set upstream: ", message),
    }
}

/// Sets up the current directory as a playlist repository and publishes it
/// to `remote`, one Git operation at a time (see `init_next`). The caller
/// starts at `InitStage::Start`.
pub fn init(
    name: Option<&str>,
    force: bool,
    remote: &str,
    lo: LogOptions,
    stage: &InitStage,
    event: &GitEvent,
) -> (r: GitStep<InitStage, ()>)
    requires
        init_event_fits(stage@, event@),
    ensures
        r@ == init_next(
            match name {
                Some(s) => Some(s@),
                None => None,
            },
            force,
            remote@,
            lo,
            stage@,
            event@,
        ),
{
    match stage {
        InitStage::Start => {
            return GitStep::Perform { logs: no_logs(), op: GitOp::OpenRepository, next: InitStage::CheckExisting };
        },
        InitStage::CheckExisting => {
            if let GitEvent::Failed { .. } = event {
                let mut logs = no_logs();
                report(&mut logs, lo, true, "Initializing Git repository...");
                return GitStep::Perform { logs, op: GitOp::InitRepository, next: InitStage::CreateRepository };
            } else {
                return GitStep::Finish {
                    logs: no_logs(),
                    result: Err("Git repository already exists, try adding the `--reinit` flag".to_owned()),
                };
            }
        },
        InitStage::WriteReadme => {
            let mut logs = no_logs();
            report(&mut logs, lo, true, "Wrote to README.md");
            return GitStep::Perform { logs, op: GitOp::OpenIndex, next: InitStage::OpenIndex };
        },
        _ => {},
    }
    if let GitEvent::Failed { display, message } = event {
        return GitStep::Finish {
            logs: no_logs(),
            result: Err(init_failure_message(stage, display.as_str(), message.as_str())),
        };
    }
    let mut logs = no_logs();
    match stage {
        InitStage::CreateRepository => {
            report(&mut logs, lo, true, "Initialized Git repository");
            report(&mut logs, lo, true, "Writing to README.md...");
            GitStep::Perform {
                logs,
                op: GitOp::WriteFile { path: "README.md".to_owned(), contents: readme(name) },
                next: InitStage::WriteReadme,
            }
        },
        InitStage::OpenIndex => {
            report(&mut logs, lo, true, "Adding files to Git repository...");
            GitStep::Perform { logs, op: GitOp::AddAll { pathspec: "*".to_owned() }, next: InitStage::AddFiles }
        },
        InitStage::AddFiles => {
            report(&mut logs, lo, true, "Added files to Git repository");
            report(&mut logs, lo, true, "Committing files to Git repository...");
            GitStep::Perform { logs, op: GitOp::WriteIndex, next: InitStage::WriteIndex }
        },
        InitStage::WriteIndex => GitStep::Perform { logs, op: GitOp::WriteTree, next: InitStage::WriteTree },
        InitStage::WriteTree => GitStep::Perform { logs, op: GitOp::FindTree, next: InitStage::FindTree },
        InitStage::FindTree => GitStep::Perform { logs, op: GitOp::Signature, next: InitStage::Signature },
        InitStage::Signature => GitStep::Perform {
            logs,
            op: GitOp::Commit {
                update_ref: "HEAD".to_owned(),
                message: "first commit".to_owned(),
                with_parent: false,
            },
            next: InitStage::Commit,
        },
        InitStage::Commit => {
            report(&mut logs, lo, true, "Committed files to Git repository");
            report(&mut logs, lo, true, "Creating master branch...");
            GitStep::Perform { logs, op: GitOp::ReadHead, next: InitStage::ReadHead }
        },
        InitStage::ReadHead => {
            if let GitEvent::Head { shorthand: Some(b) } = event {
                if !same_text(b.as_str(), "master") {
                    return GitStep::Perform {
                        logs,
                        op: GitOp::FindBranch { name: b.clone() },
                        next: InitStage::FindBranch(b.clone()),
                    };
                }
            }
            GitStep::Perform {
                logs,
                op: GitOp::SetHead { reference: "refs/heads/master".to_owned() },
                next: InitStage::SetHead,
            }
        },
        InitStage::FindBranch(_) => GitStep::Perform {
            logs,
            op: GitOp::RenameBranch { to: "master".to_owned(), force: true },
            next: InitStage::RenameBranch,
        },
        InitStage::RenameBranch => GitStep::Perform {
            logs,
            op: GitOp::SetHead { reference: "refs/heads/master".to_owned() },
            next: InitStage::SetHead,
        },
        InitStage::SetHead => {
            report(&mut logs, lo, true, "Created master branch");
            report(&mut logs, lo, false, "Pushing to remote repository...");
            GitStep::Perform {
                logs,
                op: GitOp::CreateRemote { name: "origin".to_owned(), url: remote.to_owned() },
                next: InitStage::AddRemote,
            }
        },
        InitStage::AddRemote => GitStep::Perform {
            logs,
            op: GitOp::FindRemote { name: "origin".to_owned() },
            next: InitStage::FindRemote,
        },
        InitStage::FindRemote => GitStep::Perform {
            logs,
            op: GitOp::Push { refspec: push_refspec(force) },
            next: InitStage::Push,
        },
        InitStage::Push => GitStep::Perform {
            logs,
            op: GitOp::FindBranch { name: "master".to_owned() },
            next: InitStage::FindMaster,
        },
        InitStage::FindMaster => GitStep::Perform {
            logs,
            op: GitOp::SetUpstream { upstream: "origin/master".to_owned() },
            next: InitStage::SetUpstream,
        },
        _ => {
            report(&mut logs, lo, false, "Pushed to remote repository");
            GitStep::Finish { logs, result: Ok(()) }
        },
    }
}

/// Where `pull` stands: the operation it asked for last.
#[derive(Clone, Copy, Debug, PartialEq, Eq, Structural)]
pub enum PullStage {
    Start,
    FindRemote,
    Fetch,
    ReadCommits,
    CheckDescendant,
    SetTarget,
    SetHead,
    Checkout,
}

impl View for PullStage {
    type V = PullStage;

    open spec fn view(&self) -> PullStage {
        *self
    }
}

/// The answers that an operation of `pull` can give.
pub open spec fn pull_event_fits(stage: PullStage, event: GitEventView) -> bool {
    match stage {
        PullStage::Start => true,
        PullStage::ReadCommits => event is Failed || event is Commits,
        PullStage::CheckDescendant => event is Failed || event is Answer,
        _ => event is Failed || event is Done,
    }
}

/// Whether `event` is an answer that the operation of `stage` can give,
/// so that `pull` may take it.
pub fn pull_accepts(stage: PullStage, event: &GitEvent) -> (r: bool)
    ensures
        r == pull_event_fits(stage, event@),
{
    match stage {
        PullStage::Start => true,
        PullStage::ReadCommits => match event {
            GitEvent::Failed { .. } => true,
            GitEvent::Commits { .. } => true,
            _ => false,
        },
        PullStage::CheckDescendant => match event {
            GitEvent::Failed { .. } => true,
            GitEvent::Answer(_) => true,
            _ => false,
        },
        _ => match event {
            GitEvent::Failed { .. } => true,
            GitEvent::Done => true,
            _ => false,
        },
    }
}

/// The step of `pull` after the operation of `stage` had outcome `event`.
///
/// `pull` fetches master from `origin`. When the local master already is
/// the remote commit, nothing changes. Otherwise, when forced, the local
/// master is moved to the remote commit and the files are checked out
/// over local changes; unforced, this happens only as a fast-forward, when
/// the remote commit descends from the local one, and diverged branches
/// are an error. A failing operation ends it with the error as git2
/// displays it.
pub open spec fn pull_next(force: bool, lo: LogOptions, stage: PullStage, event: GitEventView) -> GitStepView<PullStage, ()> {
    let none = Seq::<Seq<char>>::empty();
    if stage == PullStage::Start {
        perform(
            shown(lo, true, "Fetching repository changes..."@),
            GitOpView::FindRemote { name: "origin"@ },
            PullStage::FindRemote,
        )
    } else {
        match event {
            GitEventView::Failed { display, .. } => finish(none, Err(display)),
            _ => match stage {
                PullStage::FindRemote => perform(none, GitOpView::Fetch { refspec: "master"@ }, PullStage::Fetch),
                PullStage::Fetch => perform(
                    none,
                    GitOpView::ReadCommits { remote_branch: "origin/master"@, local_branch: "master"@ },
                    PullStage::ReadCommits,
                ),
                PullStage::ReadCommits => match event {
                    GitEventView::Commits { local, remote } => if local == remote {
                        finish(shown(lo, false, "Repository up-to-date"@), Ok(()))
                    } else if force {
                        perform(
                            shown(lo, false, "Repository not up-to-date"@) + shown(lo, false, "Updating local repository..."@),
                            GitOpView::SetTarget { log_message: "Force pull"@ },
                            PullStage::SetTarget,
                        )
                    } else {
                        perform(
                            shown(lo, false, "Repository not up-to-date"@),
                            GitOpView::CheckDescendant,
                            PullStage::CheckDescendant,
                        )
                    },
                    _ => finish(none, Ok(())),
                },
                PullStage::CheckDescendant => if event == GitEventView::Answer(true) {
                    perform(
                        shown(lo, false, "Updating local repository..."@),
                        GitOpView::SetTarget { log_message: "Fast-forward"@ },
                        PullStage::SetTarget,
                    )
                } else {
                    finish(none, Err("Local and remote branches have diverged"@))
                },
                PullStage::SetTarget => perform(
                    none,
                    GitOpView::SetHead { reference: "refs/heads/master"@ },
                    PullStage::SetHead,
                ),
                PullStage::SetHead => perform(none, GitOpView::CheckoutHead { force: true }, PullStage::Checkout),
                _ => finish(shown(lo, false, "Updated local repository"@), Ok(())),
            },
        }
    }
}

fn bytes_eq(a: &Vec<u8>, b: &Vec<u8>) -> (r: bool)
    ensures
        r == (a@ == b@),
{
    if a.len() != b.len() {
        return false;
    }
    let mut i: usize = 0;
    while i < a.len()
        invariant
            a.len() == b.len(),
            i <= a.len(),
            forall|k: int| 0 <= k < i ==> a@[k] == b@[k],
        decreases a.len() - i,
    {
        if a[i] != b[i] {
            return false;
        }
        i = i + 1;
    }
    assert(a@ =~= b@);
    true
}

/// Brings the local master up to date with `origin`, one Git operation at
/// a time (see `pull_next`). The caller starts at `PullStage::Start`.
pub fn pull(force: bool, lo: LogOptions, stage: PullStage, event: &GitEvent) -> (r: GitStep<PullStage, ()>)
    requires
        pull_event_fits(stage, event@),
    ensures
        r@ == pull_next(force, lo, stage, event@),
{
    if stage == PullStage::Start {
        let mut logs = no_logs();
        report(&mut logs, lo, true, "Fetching repository changes...");
        return GitStep::Perform {
            logs,
            op: GitOp::FindRemote { name: "origin".to_owned() },
            next: PullStage::FindRemote,
        };
    }
    if let GitEvent::Failed { display, .. } = event {
        return GitStep::Finish { logs: no_logs(), result: Err(display.clone()) };
    }
    let mut logs = no_logs();
    match stage {
        PullStage::FindRemote => GitStep::Perform {
            logs,
            op: GitOp::Fetch { refspec: "master".to_owned() },
            next: PullStage::Fetch,
        },
        PullStage::Fetch => GitStep::Perform {
            logs,
            op: GitOp::ReadCommits { remote_branch: "origin/master".to_owned(), local_branch: "master".to_owned() },
            next: PullStage::ReadCommits,
        },
        PullStage::ReadCommits => match event {
            GitEvent::Commits { local, remote } => {
                if bytes_eq(local, remote) {
                    report(&mut logs, lo, false, "Repository up-to-date");
                    GitStep::Finish { logs, result: Ok(()) }
                } else if force {
                    report(&mut logs, lo, false, "Repository not up-to-date");
                    report(&mut logs, lo, false, "Updating local repository...");
                    GitStep::Perform {
                        logs,
                        op: GitOp::SetTarget { log_message: "Force pull".to_owned() },
                        next: PullStage::SetTarget,
                    }
                } else {
                    report(&mut logs, lo, false, "Repository not up-to-date");
                    GitStep::Perform { logs, op: GitOp::CheckDescendant, next: PullStage::CheckDescendant }
                }
            },
            _ => GitStep::Finish { logs, result: Ok(()) },
        },
        PullStage::CheckDescendant => {
            if let GitEvent::Answer(true) = event {
                report(&mut logs, lo, false, "Updating local repository...");
                GitStep::Perform {
                    logs,
                    op: GitOp::SetTarget { log_message: "Fast-forward".to_owned() },
                    next: PullStage::SetTarget,
                }
            } else {
                GitStep::Finish { logs, result: Err("Local and remote branches have diverged".to_owned()) }
            }
        },
        PullStage::SetTarget => GitStep::Perform {
            logs,
            op: GitOp::SetHead { reference: "refs/heads/master".to_owned() },
            next: PullStage::SetHead,
        },
        PullStage::SetHead => GitStep::Perform {
            logs,
            op: GitOp::CheckoutHead { force: true },
            next: PullStage::Checkout,
        },
        _ => {
            report(&mut logs, lo, false, "Updated local repository");
            GitStep::Finish { logs, result: Ok(()) }
        },
    }
}

/// Where `add_and_push` stands: the operation it asked for last.
#[derive(Clone, Copy, Debug, PartialEq, Eq, Structural)]
pub enum PushStage {
    Start,
    OpenIndex,
    AddFiles,
    WriteIndex,
    ReadHeadTree,
    Diff,
    IndexSize,
    WriteTree,
    FindTree,
    Signature,
    FindParent,
    Commit,
    FindRemote,
    Push,
}

impl View for PushStage {
    type V = PushStage;

    open spec fn view(&self) -> PushStage {
        *self
    }
}

/// The answers that an operation of `add_and_push` can give. Reading
/// HEAD's tree and HEAD's commit cannot fail: where HEAD leads nowhere the
/// answer is no.
pub open spec fn push_event_fits(stage: PushStage, event: GitEventView) -> bool {
    match stage {
        PushStage::Start => true,
        PushStage::ReadHeadTree => event is Answer,
        PushStage::FindParent => event is Answer,
        PushStage::Diff => event is Failed || event is Count,
        PushStage::IndexSize => event is Count,
        _ => event is Failed || event is Done,
    }
}

/// Whether `event` is an answer that the operation of `stage` can give,
/// so that `add_and_push` may take it.
pub fn push_accepts(stage: PushStage, event: &GitEvent) -> (r: bool)
    ensures
        r == push_event_fits(stage, event@),
{
    match stage {
        PushStage::Start => true,
        PushStage::ReadHeadTree | PushStage::FindParent => match event {
            GitEvent::Answer(_) => true,
            _ => false,
        },
        PushStage::Diff => match event {
            GitEvent::Failed { .. } => true,
            GitEvent::Count(_) => true,
            _ => false,
        },
        PushStage::IndexSize => match event {
            GitEvent::Count(_) => true,
            _ => false,
        },
        _ => match event {
            GitEvent::Failed { .. } => true,
            GitEvent::Done => true,
            _ => false,
        },
    }
}

/// The step of `add_and_push` after the operation of `stage` had outcome
/// `event`.
///
/// `add_and_push` adds every file to the index and writes it. There are
/// local changes when the index differs from HEAD's tree, or, without such
/// a tree, when the index has entries; without changes it ends with
/// `false`. Otherwise it commits the index with `message` on top of HEAD's
/// commit (if there is one), pushes master to `origin` (forced when asked)
/// and ends with `true`. A failing operation ends it with the error as
/// git2 displays it.
pub open spec fn push_next(
    message: Seq<char>,
    force: bool,
    lo: LogOptions,
    stage: PushStage,
    event: GitEventView,
) -> GitStepView<PushStage, bool> {
    let none = Seq::<Seq<char>>::empty();
    if stage == PushStage::Start {
        perform(shown(lo, true, "Adding files..."@), GitOpView::OpenIndex, PushStage::OpenIndex)
    } else {
        match event {
            GitEventView::Failed { display, .. } => finish(none, Err(display)),
            _ => match stage {
                PushStage::OpenIndex => perform(none, GitOpView::AddAll { pathspec: "*"@ }, PushStage::AddFiles),
                PushStage::AddFiles => perform(none, GitOpView::WriteIndex, PushStage::WriteIndex),
                PushStage::WriteIndex => perform(shown(lo, true, "Added files"@), GitOpView::ReadHeadTree, PushStage::ReadHeadTree),
                PushStage::ReadHeadTree => if event == GitEventView::Answer(true) {
                    perform(none, GitOpView::DiffWithHead, PushStage::Diff)
                } else {
                    perform(none, GitOpView::IndexSize, PushStage::IndexSize)
                },
                PushStage::Diff | PushStage::IndexSize => match event {
                    GitEventView::Count(n) => if n > 0 {
                        perform(shown(lo, true, "Commititng changes..."@), GitOpView::WriteTree, PushStage::WriteTree)
                    } else {
                        finish(shown(lo, false, "No local changes"@), Ok(false))
                    },
                    _ => finish(shown(lo, false, "No local changes"@), Ok(false)),
                },
                PushStage::WriteTree => perform(none, GitOpView::FindTree, PushStage::FindTree),
                PushStage::FindTree => perform(none, GitOpView::Signature, PushStage::Signature),
                PushStage::Signature => perform(none, GitOpView::FindParent, PushStage::FindParent),
                PushStage::FindParent => perform(
                    none,
                    GitOpView::Commit {
                        update_ref: "HEAD"@,
                        message,
                        with_parent: event == GitEventView::Answer(true),
                    },
                    PushStage::Commit,
                ),
                PushStage::Commit => perform(
                    shown(lo, true, "Commitied changes"@) + shown(lo, false, "Pushing changes to the remote repository..."@),
                    GitOpView::FindRemote { name: "origin"@ },
                    PushStage::FindRemote,
                ),
                PushStage::FindRemote => perform(none, GitOpView::Push { refspec: refspec_text(force) }, PushStage::Push),
                _ => finish(shown(lo, false, "Pushed changes to the remote repository"@), Ok(true)),
            },
        }
    }
}

/// Commits local changes with `message` and pushes them to `origin`, one
/// Git operation at a time (see `push_next`); ends with whether there was
/// anything to publish. The caller starts at `PushStage::Start`.
pub fn add_and_push(message: &str, force: bool, lo: LogOptions, stage: PushStage, event: &GitEvent) -> (r: GitStep<PushStage, bool>)
    requires
        push_event_fits(stage, event@),
    ensures
        r@ == push_next(message@, force, lo, stage, event@),
{
    if stage == PushStage::Start {
        let mut logs = no_logs();
        report(&mut logs, lo, true, "Adding files...");
        return GitStep::Perform { logs, op: GitOp::OpenIndex, next: PushStage::OpenIndex };
    }
    if let GitEvent::Failed { display, .. } = event {
        return GitStep::Finish { logs: no_logs(), result: Err(display.clone()) };
    }
    let mut logs = no_logs();
    match stage {
        PushStage::OpenIndex => GitStep::Perform {
            logs,
            op: GitOp::AddAll { pathspec: "*".to_owned() },
            next: PushStage::AddFiles,
        },
        PushStage::AddFiles => GitStep::Perform { logs, op: GitOp::WriteIndex, next: PushStage::WriteIndex },
        PushStage::WriteIndex => {
            report(&mut logs, lo, true, "Added files");
            GitStep::Perform { logs, op: GitOp::ReadHeadTree, next: PushStage::ReadHeadTree }
        },
        PushStage::ReadHeadTree => {
            if let GitEvent::Answer(true) = event {
                GitStep::Perform { logs, op: GitOp::DiffWithHead, next: PushStage::Diff }
            } else {
                GitStep::Perform { logs, op: GitOp::IndexSize, next: PushStage::IndexSize }
            }
        },
        PushStage::Diff | PushStage::IndexSize => {
            let changed = match event {
                GitEvent::Count(n) => *n > 0,
                _ => false,
            };
            if changed {
                report(&mut logs, lo, true, "Commititng changes...");
                GitStep::Perform { logs, op: GitOp::WriteTree, next: PushStage::WriteTree }
            } else {
                report(&mut logs, lo, false, "No local changes");
                GitStep::Finish { logs, result: Ok(false) }
            }
        },
        PushStage::WriteTree => GitStep::Perform { logs, op: GitOp::FindTree, next: PushStage::FindTree },
        PushStage::FindTree => GitStep::Perform { logs, op: GitOp::Signature, next: PushStage::Signature },
        PushStage::Signature => GitStep::Perform { logs, op: GitOp::FindParent, next: PushStage::FindParent },
        PushStage::FindParent => {
            let with_parent = match event {
                GitEvent::Answer(b) => *b,
                _ => false,
            };
            GitStep::Perform {
                logs,
                op: GitOp::Commit { update_ref: "HEAD".to_owned(), message: message.to_owned(), with_parent },
                next: PushStage::Commit,
            }
        },
        PushStage::Commit => {
            report(&mut logs, lo, true, "Commitied changes");
            report(&mut logs, lo, false, "Pushing changes to the remote repository...");
            GitStep::Perform {
                logs,
                op: GitOp::FindRemote { name: "origin".to_owned() },
                next: PushStage::FindRemote,
            }
        },
        PushStage::FindRemote => GitStep::Perform {
            logs,
            op: GitOp::Push { refspec: push_refspec(force) },
            next: PushStage::Push,
        },
        _ => {
            report(&mut logs, lo, false, "Pushed changes to the remote repository");
            GitStep::Finish { logs, result: Ok(true) }
        },
    }
}

/// `init` never touches an existing repository: when the repository in
/// `.git` opens, it ends at once with an error and performs nothing more.
pub proof fn lemma_init_refuses_existing(name: Option<Seq<char>>, force: bool, remote: Seq<char>, lo: LogOptions)
    ensures
        init_next(name, force, remote, lo, InitStageView::CheckExisting, GitEventView::Done) == finish::<
            InitStageView,
            (),
        >(Seq::empty(), Err("Git repository already exists, try adding the `--reinit` flag"@)),
{
}

/// `init` renames the branch that HEAD names exactly when it is not
/// already called master.
pub proof fn lemma_init_renames_only_other_branches(
    name: Option<Seq<char>>,
    force: bool,
    remote: Seq<char>,
    lo: LogOptions,
    branch: Seq<char>,
)
    ensures
        (init_next(name, force, remote, lo, InitStageView::ReadHead, GitEventView::Head { shorthand: Some(branch) })
            matches GitStepView::Perform { op: GitOpView::FindBranch { .. }, .. }) <==> branch != "master"@,
{
}

/// Every push is forced exactly when the caller asked for it: the refspec
/// that `init` and `add_and_push` push starts with `+` only then.
pub proof fn lemma_push_forced_only_when_asked(
    name: Option<Seq<char>>,
    message: Seq<char>,
    force: bool,
    remote: Seq<char>,
    lo: LogOptions,
    init_stage: InitStageView,
    push_stage: PushStage,
    event: GitEventView,
)
    ensures
        init_next(name, force, remote, lo, init_stage, event) matches GitStepView::Perform {
            op: GitOpView::Push { refspec },
            ..
        } ==> refspec == refspec_text(force),
        push_next(message, force, lo, push_stage, event) matches GitStepView::Perform {
            op: GitOpView::Push { refspec },
            ..
        } ==> refspec == refspec_text(force),
        (refspec_text(force)[0] == '+') <==> force,
{
    reveal_strlit("+refs/heads/master:refs/heads/master");
    reveal_strlit("refs/heads/master:refs/heads/master");
}

/// An unforced pull moves the local master only by fast-forward: it asks
/// to move the branch only right after hearing that the remote commit
/// descends from the local one.
pub proof fn lemma_pull_fast_forward_only(lo: LogOptions, stage: PullStage, event: GitEventView)
    ensures
        pull_next(false, lo, stage, event) matches GitStepView::Perform { op: GitOpView::SetTarget { .. }, .. }
            ==> stage == PullStage::CheckDescendant && event == GitEventView::Answer(true),
{
}

/// A pull that finds the same commit on both sides changes nothing and
/// succeeds.
pub proof fn lemma_pull_up_to_date(force: bool, lo: LogOptions, id: Seq<u8>)
    ensures
        pull_next(force, lo, PullStage::ReadCommits, GitEventView::Commits { local: id, remote: id }) == finish::<
            PullStage,
            (),
        >(shown(lo, false, "Repository up-to-date"@), Ok(())),
{
}

/// `add_and_push` commits and pushes nothing when the index holds no
/// change: it ends with `false`.
pub proof fn lemma_nothing_to_push(message: Seq<char>, force: bool, lo: LogOptions, stage: PushStage)
    requires
        stage == PushStage::Diff || stage == PushStage::IndexSize,
    ensures
        push_next(message, force, lo, stage, GitEventView::Count(0)) == finish::<PushStage, bool>(
            shown(lo, false, "No local changes"@),
            Ok(false),
        ),
{
}

/// A failed Git operation ends `pull` and `add_and_push` at once, with the
/// error as git2 displays it.
pub proof fn lemma_failure_stops(
    message: Seq<char>,
    force: bool,
    lo: LogOptions,
    pull_stage: PullStage,
    push_stage: PushStage,
    display: Seq<char>,
    detail: Seq<char>,
)
    requires
        pull_stage != PullStage::Start,
        push_stage != PushStage::Start,
    ensures
        pull_next(force, lo, pull_stage, GitEventView::Failed { display, message: detail }) == finish::<
            PullStage,
            (),
        >(Seq::empty(), Err(display)),
        push_next(message, force, lo, push_stage, GitEventView::Failed { display, message: detail }) == finish::<
            PushStage,
            bool,
        >(Seq::empty(), Err(display)),
{
}

/// `init` reports success only once master tracks `origin/master`, which
/// comes after the push; and it reports an error only when the repository
/// already exists or an operation failed.
pub proof fn lemma_init_success_only_at_end(
    name: Option<Seq<char>>,
    force: bool,
    remote: Seq<char>,
    lo: LogOptions,
    stage: InitStageView,
    event: GitEventView,
)
    requires
        init_event_fits(stage, event),
    ensures
        init_next(name, force, remote, lo, stage, event) matches GitStepView::Finish { result: Ok(_), .. } ==> stage
            == InitStageView::SetUpstream && event == GitEventView::Done,
        init_next(name, force, remote, lo, stage, event) matches GitStepView::Finish { result: Err(_), .. } ==> (
        stage == InitStageView::CheckExisting && event == GitEventView::Done) || event is Failed,
{
}

/// `add_and_push` reports that it published only after the push succeeded.
pub proof fn lemma_publish_only_after_push(
    message: Seq<char>,
    force: bool,
    lo: LogOptions,
    stage: PushStage,
    event: GitEventView,
)
    requires
        push_event_fits(stage, event),
    ensures
        push_next(message, force, lo, stage, event) matches GitStepView::Finish { result: Ok(true), .. } ==> stage
            == PushStage::Push && event == GitEventView::Done,
        push_next(message, force, lo, stage, event) matches GitStepView::Finish { result: Ok(false), .. } ==> (stage
            == PushStage::Diff || stage == PushStage::IndexSize) && event == GitEventView::Count(0),
{
}

/// `pull` reports success only when the commits were already the same or
/// after the files were checked out at the new commit.
pub proof fn lemma_pull_success(force: bool, lo: LogOptions, stage: PullStage, event: GitEventView)
    requires
        pull_event_fits(stage, event),
    ensures
        pull_next(force, lo, stage, event) matches GitStepView::Finish { result: Ok(_), .. } ==> (stage
            == PullStage::Checkout && event == GitEventView::Done) || (stage == PullStage::ReadCommits
            && (event matches GitEventView::Commits { local, remote } && local == remote)),
{
}

/// The answer of an operation in a session where there is no repository
/// yet, HEAD names `head`, and every operation succeeds.
pub open spec fn fresh_answer(op: GitOpView, head: Option<Seq<char>>) -> GitEventView {
    match op {
        GitOpView::OpenRepository => GitEventView::Failed { display: Seq::empty(), message: Seq::empty() },
        GitOpView::ReadHead => GitEventView::Head { shorthand: head },
        _ => GitEventView::Done,
    }
}

/// The operations that `init` performs from `stage` on, and how it ends,
/// in a session where there is no repository yet, HEAD names `head`, and
/// every operation succeeds (within `fuel` steps).
pub open spec fn init_fresh_run(
    name: Option<Seq<char>>,
    force: bool,
    remote: Seq<char>,
    lo: LogOptions,
    stage: InitStageView,
    event: GitEventView,
    head: Option<Seq<char>>,
    fuel: nat,
) -> (Seq<GitOpView>, Option<Result<(), Seq<char>>>)
    decreases fuel,
{
    if fuel == 0 {
        (Seq::empty(), None)
    } else {
        match init_next(name, force, remote, lo, stage, event) {
            GitStepView::Finish { result, .. } => (Seq::empty(), Some(result)),
            GitStepView::Perform { op, next, .. } => {
                let rest = init_fresh_run(name, force, remote, lo, next, fresh_answer(op, head), head, (fuel - 1) as nat);
                (seq![op] + rest.0, rest.1)
            },
        }
    }
}

/// The operations of a fresh `init` up to reading HEAD: open the
/// repository (which fails, as there is none), create it, write the
/// README, add and commit every file as the first commit, and read HEAD.
pub open spec fn init_setup_ops(name: Option<Seq<char>>) -> Seq<GitOpView> {
    seq![
        GitOpView::OpenRepository,
        GitOpView::InitRepository,
        GitOpView::WriteFile { path: "README.md"@, contents: readme_text(name) },
        GitOpView::OpenIndex,
        GitOpView::AddAll { pathspec: "*"@ },
        GitOpView::WriteIndex,
        GitOpView::WriteTree,
        GitOpView::FindTree,
        GitOpView::Signature,
        GitOpView::Commit { update_ref: "HEAD"@, message: "first commit"@, with_parent: false },
        GitOpView::ReadHead,
    ]
}

/// The operations that make the new branch master: when HEAD names another
/// branch, find it and rename it to master; else none.
pub open spec fn init_rename_ops(head: Option<Seq<char>>) -> Seq<GitOpView> {
    match head {
        Some(b) => if b != "master"@ {
            seq![GitOpView::FindBranch { name: b }, GitOpView::RenameBranch { to: "master"@, force: true }]
        } else {
            Seq::empty()
        },
        None => Seq::empty(),
    }
}

/// The operations that publish master: point HEAD at it, add `origin`,
/// push master to it and make master track `origin/master`.
pub open spec fn init_publish_ops(force: bool, remote: Seq<char>) -> Seq<GitOpView> {
    seq![
        GitOpView::SetHead { reference: "refs/heads/master"@ },
        GitOpView::CreateRemote { name: "origin"@, url: remote },
        GitOpView::FindRemote { name: "origin"@ },
        GitOpView::Push { refspec: refspec_text(force) },
        GitOpView::FindBranch { name: "master"@ },
        GitOpView::SetUpstream { upstream: "origin/master"@ },
    ]
}

/// A fresh `init` performs its setup and then goes on from reading HEAD.
proof fn lemma_init_fresh_setup(
    name: Option<Seq<char>>,
    force: bool,
    remote: Seq<char>,
    lo: LogOptions,
    head: Option<Seq<char>>,
    fuel: nat,
)
    requires
        fuel >= 11,
    ensures
        ({
            let rest = init_fresh_run(
                name,
                force,
                remote,
                lo,
                InitStageView::ReadHead,
                GitEventView::Head { shorthand: head },
                head,
                (fuel - 11) as nat,
            );
            init_fresh_run(name, force, remote, lo, InitStageView::Start, GitEventView::Done, head, fuel) == (
                init_setup_ops(name) + rest.0,
                rest.1,
            )
        }),
{
    let run = |stage: InitStageView, event: GitEventView, f: int| init_fresh_run(name, force, remote, lo, stage, event, head, f as nat);
    let done = GitEventView::Done;
    let failed = GitEventView::Failed { display: Seq::empty(), message: Seq::empty() };
    let head_read = GitEventView::Head { shorthand: head };
    assert(run(InitStageView::Start, done, fuel - 0) == (
        seq![GitOpView::OpenRepository] + run(InitStageView::CheckExisting, failed, fuel - 1).0,
        run(InitStageView::CheckExisting, failed, fuel - 1).1,
    ));
    assert(run(InitStageView::CheckExisting, failed, fuel - 1) == (
        seq![GitOpView::InitRepository] + run(InitStageView::CreateRepository, done, fuel - 2).0,
        run(InitStageView::CreateRepository, done, fuel - 2).1,
    ));
    assert(run(InitStageView::CreateRepository, done, fuel - 2) == (
        seq![GitOpView::WriteFile { path: "README.md"@, contents: readme_text(name) }] + run(InitStageView::WriteReadme, done, fuel - 3).0,
        run(InitStageView::WriteReadme, done, fuel - 3).1,
    ));
    assert(run(InitStageView::WriteReadme, done, fuel - 3) == (
        seq![GitOpView::OpenIndex] + run(InitStageView::OpenIndex, done, fuel - 4).0,
        run(InitStageView::OpenIndex, done, fuel - 4).1,
    ));
    assert(run(InitStageView::OpenIndex, done, fuel - 4) == (
        seq![GitOpView::AddAll { pathspec: "*"@ }] + run(InitStageView::AddFiles, done, fuel - 5).0,
        run(InitStageView::AddFiles, done, fuel - 5).1,
    ));
    assert(run(InitStageView::AddFiles, done, fuel - 5) == (
        seq![GitOpView::WriteIndex] + run(InitStageView::WriteIndex, done, fuel - 6).0,
        run(InitStageView::WriteIndex, done, fuel - 6).1,
    ));
    assert(run(InitStageView::WriteIndex, done, fuel - 6) == (
        seq![GitOpView::WriteTree] + run(InitStageView::WriteTree, done, fuel - 7).0,
        run(InitStageView::WriteTree, done, fuel - 7).1,
    ));
    assert(run(InitStageView::WriteTree, done, fuel - 7) == (
        seq![GitOpView::FindTree] + run(InitStageView::FindTree, done, fuel - 8).0,
        run(InitStageView::FindTree, done, fuel - 8).1,
    ));
    assert(run(InitStageView::FindTree, done, fuel - 8) == (
        seq![GitOpView::Signature] + run(InitStageView::Signature, done, fuel - 9).0,
        run(InitStageView::Signature, done, fuel - 9).1,
    ));
    assert(run(InitStageView::Signature, done, fuel - 9) == (
        seq![GitOpView::Commit { update_ref: "HEAD"@, message: "first commit"@, with_parent: false }] + run(InitStageView::Commit, done, fuel - 10).0,
        run(InitStageView::Commit, done, fuel - 10).1,
    ));
    assert(run(InitStageView::Commit, done, fuel - 10) == (
        seq![GitOpView::ReadHead] + run(InitStageView::ReadHead, head_read, fuel - 11).0,
        run(InitStageView::ReadHead, head_read, fuel - 11).1,
    ));
    let rest = run(InitStageView::ReadHead, head_read, fuel - 11).0;
    assert(init_setup_ops(name) + rest =~= seq![GitOpView::OpenRepository] + (seq![GitOpView::InitRepository] + (seq![GitOpView::WriteFile { path: "README.md"@, contents: readme_text(name) }] + (seq![GitOpView::OpenIndex] + (seq![GitOpView::AddAll { pathspec: "*"@ }] + (seq![GitOpView::WriteIndex] + (seq![GitOpView::WriteTree] + (seq![GitOpView::FindTree] + (seq![GitOpView::Signature] + (seq![GitOpView::Commit { update_ref: "HEAD"@, message: "first commit"@, with_parent: false }] + (seq![GitOpView::ReadHead] + (rest))))))))))));
}

/// From setting HEAD on, a fresh `init` publishes master and succeeds.
proof fn lemma_init_fresh_publish(
    name: Option<Seq<char>>,
    force: bool,
    remote: Seq<char>,
    lo: LogOptions,
    head: Option<Seq<char>>,
    fuel: nat,
)
    requires
        fuel >= 6,
    ensures
        init_fresh_run(name, force, remote, lo, InitStageView::SetHead, GitEventView::Done, head, fuel) == (
            init_publish_ops(force, remote).drop_first(),
            Some(Ok::<(), Seq<char>>(())),
        ),
{
    let run = |stage: InitStageView, event: GitEventView, f: int| init_fresh_run(name, force, remote, lo, stage, event, head, f as nat);
    let done = GitEventView::Done;
    assert(run(InitStageView::SetHead, done, fuel - 0) == (
        seq![GitOpView::CreateRemote { name: "origin"@, url: remote }] + run(InitStageView::AddRemote, done, fuel - 1).0,
        run(InitStageView::AddRemote, done, fuel - 1).1,
    ));
    assert(run(InitStageView::AddRemote, done, fuel - 1) == (
        seq![GitOpView::FindRemote { name: "origin"@ }] + run(InitStageView::FindRemote, done, fuel - 2).0,
        run(InitStageView::FindRemote, done, fuel - 2).1,
    ));
    assert(run(InitStageView::FindRemote, done, fuel - 2) == (
        seq![GitOpView::Push { refspec: refspec_text(force) }] + run(InitStageView::Push, done, fuel - 3).0,
        run(InitStageView::Push, done, fuel - 3).1,
    ));
    assert(run(InitStageView::Push, done, fuel - 3) == (
        seq![GitOpView::FindBranch { name: "master"@ }] + run(InitStageView::FindMaster, done, fuel - 4).0,
        run(InitStageView::FindMaster, done, fuel - 4).1,
    ));
    assert(run(InitStageView::FindMaster, done, fuel - 4) == (
        seq![GitOpView::SetUpstream { upstream: "origin/master"@ }] + run(InitStageView::SetUpstream, done, fuel - 5).0,
        run(InitStageView::SetUpstream, done, fuel - 5).1,
    ));
    assert(run(InitStageView::SetUpstream, done, fuel - 5) == (Seq::<GitOpView>::empty(), Some(Ok::<(), Seq<char>>(()))));
    assert(init_publish_ops(force, remote).drop_first() =~= seq![GitOpView::CreateRemote { name: "origin"@, url: remote }] + (seq![GitOpView::FindRemote { name: "origin"@ }] + (seq![GitOpView::Push { refspec: refspec_text(force) }] + (seq![GitOpView::FindBranch { name: "master"@ }] + (seq![GitOpView::SetUpstream { upstream: "origin/master"@ }] + (Seq::<GitOpView>::empty()))))));
}

/// When there is no repository yet and every operation succeeds, `init`
/// creates the repository, writes the README, commits every file as the
/// first commit, renames the branch that HEAD names to master when it has
/// another name, points HEAD at master, adds `origin`, pushes master to it
/// and makes master track `origin/master` — and then reports success;
/// whatever the default branch is called.
pub proof fn lemma_init_publishes_everything(
    name: Option<Seq<char>>,
    force: bool,
    remote: Seq<char>,
    lo: LogOptions,
    head: Option<Seq<char>>,
)
    ensures
        init_fresh_run(name, force, remote, lo, InitStageView::Start, GitEventView::Done, head, 20) == (
            init_setup_ops(name) + init_rename_ops(head) + init_publish_ops(force, remote),
            Some(Ok::<(), Seq<char>>(())),
        ),
        init_rename_ops(head).len() > 0 <==> (head matches Some(b) && b != "master"@),
{
    let run = |stage: InitStageView, event: GitEventView, f: nat| init_fresh_run(name, force, remote, lo, stage, event, head, f);
    let done = GitEventView::Done;
    let set_head = GitOpView::SetHead { reference: "refs/heads/master"@ };
    lemma_init_fresh_setup(name, force, remote, lo, head, 20);
    let h = run(InitStageView::ReadHead, GitEventView::Head { shorthand: head }, 9);
    let ops = init_publish_ops(force, remote);
    assert(ops =~= seq![ops[0]] + ops.drop_first());
    if head matches Some(b) && b != "master"@ {
        let b = head.unwrap();
        let found = run(InitStageView::FindBranch(b), done, 8);
        let renamed = run(InitStageView::RenameBranch, done, 7);
        let published = run(InitStageView::SetHead, done, 6);
        lemma_init_fresh_publish(name, force, remote, lo, head, 6);
        assert(h == (seq![GitOpView::FindBranch { name: b }] + found.0, found.1));
        assert(found == (seq![GitOpView::RenameBranch { to: "master"@, force: true }] + renamed.0, renamed.1));
        assert(renamed == (seq![set_head] + published.0, published.1));
    } else {
        let published = run(InitStageView::SetHead, done, 8);
        lemma_init_fresh_publish(name, force, remote, lo, head, 8);
        assert(h == (seq![set_head] + published.0, published.1));
    }
    assert(h.0 =~= init_rename_ops(head) + ops);
    assert(init_setup_ops(name) + h.0 =~= init_setup_ops(name) + init_rename_ops(head) + ops);
}

/// The answer of an operation in a session on a repository whose HEAD
/// commit exists and whose index differs from it in `changes` entries,
/// where every operation succeeds.
pub open spec fn changed_answer(op: GitOpView, changes: nat) -> GitEventView {
    match op {
        GitOpView::ReadHeadTree => GitEventView::Answer(true),
        GitOpView::FindParent => GitEventView::Answer(true),
        GitOpView::DiffWithHead => GitEventView::Count(changes),
        _ => GitEventView::Done,
    }
}

/// The operations that `add_and_push` performs from `stage` on, and how it
/// ends, in such a session (within `fuel` steps).
pub open spec fn push_changed_run(
    message: Seq<char>,
    force: bool,
    lo: LogOptions,
    stage: PushStage,
    event: GitEventView,
    changes: nat,
    fuel: nat,
) -> (Seq<GitOpView>, Option<Result<bool, Seq<char>>>)
    decreases fuel,
{
    if fuel == 0 {
        (Seq::empty(), None)
    } else {
        match push_next(message, force, lo, stage, event) {
            GitStepView::Finish { result, .. } => (Seq::empty(), Some(result)),
            GitStepView::Perform { op, next, .. } => {
                let rest = push_changed_run(message, force, lo, next, changed_answer(op, changes), changes, (fuel - 1) as nat);
                (seq![op] + rest.0, rest.1)
            },
        }
    }
}

/// When the index differs from HEAD and every operation succeeds,
/// `add_and_push` adds every file, commits them with `message` on top of
/// HEAD's commit, pushes master to `origin` and reports that it published.
#[verifier::rlimit(40)]
pub proof fn lemma_push_publishes_changes(message: Seq<char>, force: bool, lo: LogOptions, changes: nat)
    requires
        changes > 0,
    ensures
        push_changed_run(message, force, lo, PushStage::Start, GitEventView::Done, changes, 13) == (
        seq![
            GitOpView::OpenIndex,
            GitOpView::AddAll { pathspec: "*"@ },
            GitOpView::WriteIndex,
            GitOpView::ReadHeadTree,
            GitOpView::DiffWithHead,
            GitOpView::WriteTree,
            GitOpView::FindTree,
            GitOpView::Signature,
            GitOpView::FindParent,
            GitOpView::Commit { update_ref: "HEAD"@, message, with_parent: true },
            GitOpView::FindRemote { name: "origin"@ },
            GitOpView::Push { refspec: refspec_text(force) },
        ],
        Some(Ok::<bool, Seq<char>>(true)),
    ),
{
    reveal_with_fuel(push_changed_run, 14);
    let r = push_changed_run(message, force, lo, PushStage::Start, GitEventView::Done, changes, 13);
    assert(r.0 =~= seq![
        GitOpView::OpenIndex,
        GitOpView::AddAll { pathspec: "*"@ },
        GitOpView::WriteIndex,
        GitOpView::ReadHeadTree,
        GitOpView::DiffWithHead,
        GitOpView::WriteTree,
        GitOpView::FindTree,
        GitOpView::Signature,
        GitOpView::FindParent,
        GitOpView::Commit { update_ref: "HEAD"@, message, with_parent: true },
        GitOpView::FindRemote { name: "origin"@ },
        GitOpView::Push { refspec: refspec_text(force) },
    ]);
}

/// When the index does not differ from HEAD, `add_and_push` commits and
/// pushes nothing and reports that there was nothing to publish.
pub proof fn lemma_push_without_changes(message: Seq<char>, force: bool, lo: LogOptions)
    ensures
        push_changed_run(message, force, lo, PushStage::Start, GitEventView::Done, 0, 13) == (
        seq![
            GitOpView::OpenIndex,
            GitOpView::AddAll { pathspec: "*"@ },
            GitOpView::WriteIndex,
            GitOpView::ReadHeadTree,
            GitOpView::DiffWithHead,
        ],
        Some(Ok::<bool, Seq<char>>(false)),
    ),
{
    reveal_with_fuel(push_changed_run, 7);
    let r = push_changed_run(message, force, lo, PushStage::Start, GitEventView::Done, 0, 13);
    assert(r.0 =~= seq![
        GitOpView::OpenIndex,
        GitOpView::AddAll { pathspec: "*"@ },
        GitOpView::WriteIndex,
        GitOpView::ReadHeadTree,
        GitOpView::DiffWithHead,
    ]);
}

/// The answer of an operation in a session where the local commit is
/// `local`, the remote one `remote`, the remote commit descends from the
/// local one exactly when `descends`, and every operation succeeds.
pub open spec fn fetched_answer(op: GitOpView, local: Seq<u8>, remote: Seq<u8>, descends: bool) -> GitEventView {
    match op {
        GitOpView::ReadCommits { .. } => GitEventView::Commits { local, remote },
        GitOpView::CheckDescendant => GitEventView::Answer(descends),
        _ => GitEventView::Done,
    }
}

/// The operations that `pull` performs from `stage` on, and how it ends,
/// in such a session (within `fuel` steps).
pub open spec fn pull_run(
    force: bool,
    lo: LogOptions,
    stage: PullStage,
    event: GitEventView,
    local: Seq<u8>,
    remote: Seq<u8>,
    descends: bool,
    fuel: nat,
) -> (Seq<GitOpView>, Option<Result<(), Seq<char>>>)
    decreases fuel,
{
    if fuel == 0 {
        (Seq::empty(), None)
    } else {
        match pull_next(force, lo, stage, event) {
            GitStepView::Finish { result, .. } => (Seq::empty(), Some(result)),
            GitStepView::Perform { op, next, .. } => {
                let rest = pull_run(force, lo, next, fetched_answer(op, local, remote, descends), local, remote, descends, (fuel - 1) as nat);
                (seq![op] + rest.0, rest.1)
            },
        }
    }
}

/// An unforced pull whose remote commit is new and descends from the local
/// one fast-forwards master to it and checks it out; one whose branches
/// have diverged changes nothing and fails.
#[verifier::rlimit(40)]
pub proof fn lemma_pull_fast_forwards(lo: LogOptions, local: Seq<u8>, remote: Seq<u8>)
    requires
        local != remote,
    ensures
        pull_run(false, lo, PullStage::Start, GitEventView::Done, local, remote, true, 8) == (
        seq![
            GitOpView::FindRemote { name: "origin"@ },
            GitOpView::Fetch { refspec: "master"@ },
            GitOpView::ReadCommits { remote_branch: "origin/master"@, local_branch: "master"@ },
            GitOpView::CheckDescendant,
            GitOpView::SetTarget { log_message: "Fast-forward"@ },
            GitOpView::SetHead { reference: "refs/heads/master"@ },
            GitOpView::CheckoutHead { force: true },
        ],
        Some(Ok::<(), Seq<char>>(())),
    ),
        pull_run(false, lo, PullStage::Start, GitEventView::Done, local, remote, false, 8) == (
        seq![
            GitOpView::FindRemote { name: "origin"@ },
            GitOpView::Fetch { refspec: "master"@ },
            GitOpView::ReadCommits { remote_branch: "origin/master"@, local_branch: "master"@ },
            GitOpView::CheckDescendant,
        ],
        Some(Err::<(), Seq<char>>("Local and remote branches have diverged"@)),
    ),
{
    reveal_with_fuel(pull_run, 9);
    let r = pull_run(false, lo, PullStage::Start, GitEventView::Done, local, remote, true, 8);
    assert(r.0 =~= seq![
        GitOpView::FindRemote { name: "origin"@ },
        GitOpView::Fetch { refspec: "master"@ },
        GitOpView::ReadCommits { remote_branch: "origin/master"@, local_branch: "master"@ },
        GitOpView::CheckDescendant,
        GitOpView::SetTarget { log_message: "Fast-forward"@ },
        GitOpView::SetHead { reference: "refs/heads/master"@ },
        GitOpView::CheckoutHead { force: true },
    ]);
    let d = pull_run(false, lo, PullStage::Start, GitEventView::Done, local, remote, false, 8);
    assert(d.0 =~= seq![
        GitOpView::FindRemote { name: "origin"@ },
        GitOpView::Fetch { refspec: "master"@ },
        GitOpView::ReadCommits { remote_branch: "origin/master"@, local_branch: "master"@ },
        GitOpView::CheckDescendant,
    ]);
}

/// Every pull that moves master checks the files out over local changes:
/// whatever the force and the level, the step after setting HEAD checks
/// out with `force`.
pub proof fn lemma_pull_checkout_is_forced(force: bool, lo: LogOptions)
    ensures
        pull_next(force, lo, PullStage::SetHead, GitEventView::Done) matches GitStepView::Perform {
            op: GitOpView::CheckoutHead { force: checkout_forced },
            next: PullStage::Checkout,
            ..
        } && checkout_forced,
{
}

/// A forced pull whose remote commit differs from the local one, whether
/// or not it descends from it, moves master to the remote commit without
/// asking, checks the files out over local changes, and succeeds.
pub proof fn lemma_forced_pull_overrides(lo: LogOptions, local: Seq<u8>, remote: Seq<u8>, descends: bool)
    requires
        local != remote,
    ensures
        pull_run(true, lo, PullStage::Start, GitEventView::Done, local, remote, descends, 7) == (
            seq![
                GitOpView::FindRemote { name: "origin"@ },
                GitOpView::Fetch { refspec: "master"@ },
                GitOpView::ReadCommits { remote_branch: "origin/master"@, local_branch: "master"@ },
                GitOpView::SetTarget { log_message: "Force pull"@ },
                GitOpView::SetHead { reference: "refs/heads/master"@ },
                GitOpView::CheckoutHead { force: true },
            ],
            Some(Ok::<(), Seq<char>>(())),
        ),
{
    let run = |stage: PullStage, event: GitEventView, f: nat| pull_run(true, lo, stage, event, local, remote, descends, f);
    let done = GitEventView::Done;
    let checkout = run(PullStage::Checkout, done, 1);
    let set_head = run(PullStage::SetHead, done, 2);
    let set_target = run(PullStage::SetTarget, done, 3);
    let commits = run(PullStage::ReadCommits, GitEventView::Commits { local, remote }, 4);
    let fetch = run(PullStage::Fetch, done, 5);
    let find = run(PullStage::FindRemote, done, 6);
    let start = run(PullStage::Start, done, 7);
    assert(checkout == (Seq::<GitOpView>::empty(), Some(Ok::<(), Seq<char>>(()))));
    assert(set_head == (seq![GitOpView::CheckoutHead { force: true }] + checkout.0, checkout.1));
    assert(set_target == (seq![GitOpView::SetHead { reference: "refs/heads/master"@ }] + set_head.0, set_head.1));
    assert(commits == (seq![GitOpView::SetTarget { log_message: "Force pull"@ }] + set_target.0, set_target.1));
    assert(fetch == (
        seq![GitOpView::ReadCommits { remote_branch: "origin/master"@, local_branch: "master"@ }] + commits.0,
        commits.1,
    ));
    assert(find == (seq![GitOpView::Fetch { refspec: "master"@ }] + fetch.0, fetch.1));
    assert(start == (seq![GitOpView::FindRemote { name: "origin"@ }] + find.0, find.1));
    assert(start.0 =~= seq![
        GitOpView::FindRemote { name: "origin"@ },
        GitOpView::Fetch { refspec: "master"@ },
        GitOpView::ReadCommits { remote_branch: "origin/master"@, local_branch: "master"@ },
        GitOpView::SetTarget { log_message: "Force pull"@ },
        GitOpView::SetHead { reference: "refs/heads/master"@ },
        GitOpView::CheckoutHead { force: true },
    ]);
}

} // verus!
