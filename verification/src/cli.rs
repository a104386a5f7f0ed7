//! The commands of the tool, as the command line and the window give them:
//! turning the window's form into a command, and the process's exit code.

use vstd::prelude::*;
use crate::shortcut::{white_space, is_white_space};
use crate::text::{chars_of, views, opt_view, push_char};
use crate::git::{commit_message, commit_message_text};
use crate::log::LogOptions;

verus! {

/// The shells that completions can be generated for.
#[derive(Clone, Copy, Debug, PartialEq, Eq, Structural)]
pub enum CompletionShell {
    Bash,
    Elvish,
    Fish,
    PowerShell,
    Zsh,
}

/// A command of the tool, with its options.
#[allow(inconsistent_fields)]
pub enum Command {
    /// Update the playlist, download a song and publish the changes.
    Add { no_update: bool, force_update: bool, force_push: bool, msg: Option<String>, url: String },
    /// Make the current directory a playlist repository and publish it.
    Init { name: Option<String>, force_push: bool, reinit: bool, remote: String },
    /// Download a song only.
    Download { url: String },
    /// Update the playlist from the remote.
    Update { force: bool },
    /// Publish local changes.
    Push { no_update: bool, force_update: bool, force_push: bool, msg: Option<String> },
    /// Open the playlist in a player.
    Play { no_update: bool, force_update: bool, player: Option<String>, args: Vec<String> },
    /// Change settings.
    Cfg {
        default_player: Option<String>,
        update_cooldown_m: Option<u8>,
        update_cooldown_h: Option<u8>,
        disable_update_on_play: Option<bool>,
    },
    /// Put chosen settings back to their defaults.
    Reset { default_player: bool, update_cooldown: bool, disable_update_on_play: bool },
    /// Print the settings.
    ShowCfg,
    /// Put every setting back to its default.
    ResetAll,
    /// Print shell completions.
    Completions { shell: CompletionShell },
    /// Create a shortcut that opens the playlist.
    Shortcut { name: String, output_dir: Option<String> },
}

/// A command, seen as plain values.
#[allow(inconsistent_fields)]
pub ghost enum CommandView {
    Add { no_update: bool, force_update: bool, force_push: bool, msg: Option<Seq<char>>, url: Seq<char> },
    Init { name: Option<Seq<char>>, force_push: bool, reinit: bool, remote: Seq<char> },
    Download { url: Seq<char> },
    Update { force: bool },
    Push { no_update: bool, force_update: bool, force_push: bool, msg: Option<Seq<char>> },
    Play { no_update: bool, force_update: bool, player: Option<Seq<char>>, args: Seq<Seq<char>> },
    Cfg {
        default_player: Option<Seq<char>>,
        update_cooldown_m: Option<u8>,
        update_cooldown_h: Option<u8>,
        disable_update_on_play: Option<bool>,
    },
    Reset { default_player: bool, update_cooldown: bool, disable_update_on_play: bool },
    ShowCfg,
    ResetAll,
    Completions { shell: CompletionShell },
    Shortcut { name: Seq<char>, output_dir: Option<Seq<char>> },
}

impl View for Command {
    type V = CommandView;

    open spec fn view(&self) -> CommandView {
        match self {
            Command::Add { no_update, force_update, force_push, msg, url } => CommandView::Add {
                no_update: *no_update,
                force_update: *force_update,
                force_push: *force_push,
                msg: opt_view(*msg),
                url: url@,
            },
            Command::Init { name, force_push, reinit, remote } => CommandView::Init {
                name: opt_view(*name),
                force_push: *force_push,
                reinit: *reinit,
                remote: remote@,
            },
            Command::Download { url } => CommandView::Download { url: url@ },
            Command::Update { force } => CommandView::Update { force: *force },
            Command::Push { no_update, force_update, force_push, msg } => CommandView::Push {
                no_update: *no_update,
                force_update: *force_update,
                force_push: *force_push,
                msg: opt_view(*msg),
            },
            Command::Play { no_update, force_update, player, args } => CommandView::Play {
                no_update: *no_update,
                force_update: *force_update,
                player: opt_view(*player),
                args: views(args@),
            },
            Command::Cfg { default_player, update_cooldown_m, update_cooldown_h, disable_update_on_play } =>
                CommandView::Cfg {
                default_player: opt_view(*default_player),
                update_cooldown_m: *update_cooldown_m,
                update_cooldown_h: *update_cooldown_h,
                disable_update_on_play: *disable_update_on_play,
            },
            Command::Reset { default_player, update_cooldown, disable_update_on_play } => CommandView::Reset {
                default_player: *default_player,
                update_cooldown: *update_cooldown,
                disable_update_on_play: *disable_update_on_play,
            },
            Command::ShowCfg => CommandView::ShowCfg,
            Command::ResetAll => CommandView::ResetAll,
            Command::Completions { shell } => CommandView::Completions { shell: *shell },
            Command::Shortcut { name, output_dir } => CommandView::Shortcut {
                name: name@,
                output_dir: opt_view(*output_dir),
            },
        }
    }
}

/// The process's exit code for an error with the given OS error number:
/// that number when it fits in a byte, 255 when it does not, and 1 for an
/// error that has none.
pub fn exit_code(raw_os_error: Option<i32>) -> (r: u8)
    ensures
        r == (match raw_os_error {
            Some(v) => if 0 <= v <= 255 {
                v as int
            } else {
                255
            },
            None => 1,
        }),
{
    match raw_os_error {
        Some(v) => if 0 <= v && v <= 255 {
            v as u8
        } else {
            255
        },
        None => 1,
    }
}

/// The window's update choice as `(no_update, force_update)`: the second
/// entry skips the update, the third forces it, any other updates as
/// usual.
pub fn update_values(update_option: u8) -> (r: (bool, bool))
    ensures
        r == (if update_option == 1 {
            (true, false)
        } else if update_option == 2 {
            (false, true)
        } else {
            (false, false)
        }),
{
    if update_option == 1 {
        (true, false)
    } else if update_option == 2 {
        (false, true)
    } else {
        (false, false)
    }
}

/// An empty field counts as not given.
pub open spec fn given(s: Seq<char>) -> Option<Seq<char>> {
    if s.len() == 0 {
        None
    } else {
        Some(s)
    }
}

/// A text field's value, or nothing when it is empty.
pub fn non_empty(s: &String) -> (r: Option<String>)
    ensures
        opt_view(r) == given(s@),
{
    if s.as_str().is_empty() {
        None
    } else {
        Some(s.clone())
    }
}

/// The words of a text and the word still being read, scanning from the
/// start: white space ends a word.
pub open spec fn split_state(s: Seq<char>) -> (Seq<Seq<char>>, Seq<char>)
    decreases s.len(),
{
    if s.len() == 0 {
        (Seq::empty(), Seq::empty())
    } else {
        let prev = split_state(s.drop_last());
        let c = s.last();
        if white_space(c) {
            if prev.1.len() > 0 {
                (prev.0.push(prev.1), Seq::empty())
            } else {
                (prev.0, Seq::empty())
            }
        } else {
            (prev.0, prev.1.push(c))
        }
    }
}

/// The words of a text: its longest runs of characters other than white
/// space, in order.
pub open spec fn words(s: Seq<char>) -> Seq<Seq<char>> {
    let st = split_state(s);
    if st.1.len() > 0 {
        st.0.push(st.1)
    } else {
        st.0
    }
}

/// Splits a text into words at white space.
pub fn split_whitespace(s: &str) -> (r: Vec<String>)
    ensures
        views(r@) == words(s@),
{
    let cs = chars_of(s);
    let mut done: Vec<String> = Vec::new();
    let mut cur = String::new();
    let mut i: usize = 0;
    while i < cs.len()
        invariant
            cs@ == s@,
            i <= cs.len(),
            views(done@) == split_state(cs@.take(i as int)).0,
            cur@ == split_state(cs@.take(i as int)).1,
        decreases cs.len() - i,
    {
        let c = cs[i];
        assert(cs@.take(i + 1).drop_last() == cs@.take(i as int));
        let ghost before = done@;
        if is_white_space(c) {
            if !cur.as_str().is_empty() {
                let word = cur;
                cur = String::new();
                done.push(word);
                assert(views(done@) =~= views(before).push(word@));
            }
        } else {
            push_char(&mut cur, c);
        }
        i = i + 1;
    }
    assert(cs@.take(cs.len() as int) == cs@);
    if !cur.as_str().is_empty() {
        let ghost before = done@;
        done.push(cur);
        assert(views(done@) =~= views(before).push(split_state(cs@).1));
    }
    done
}

proof fn lemma_split_state_clean(s: Seq<char>)
    ensures
        forall|k: int| 0 <= k < split_state(s).0.len() ==> (#[trigger] split_state(s).0[k]).len() > 0,
        forall|k: int, j: int|
            0 <= k < split_state(s).0.len() && 0 <= j < split_state(s).0[k].len() ==> !white_space(
                #[trigger] split_state(s).0[k][j],
            ),
        forall|j: int| 0 <= j < split_state(s).1.len() ==> !white_space(#[trigger] split_state(s).1[j]),
    decreases s.len(),
{
    if s.len() > 0 {
        lemma_split_state_clean(s.drop_last());
        let prev = split_state(s.drop_last());
        let cur = split_state(s);
        if white_space(s.last()) && prev.1.len() > 0 {
            assert(cur.0 == prev.0.push(prev.1));
            assert forall|k: int| 0 <= k < cur.0.len() implies (#[trigger] cur.0[k]).len() > 0 by {
                if k < prev.0.len() {
                    assert(cur.0[k] == prev.0[k]);
                }
            }
            assert forall|k: int, j: int| 0 <= k < cur.0.len() && 0 <= j < cur.0[k].len() implies !white_space(
                #[trigger] cur.0[k][j],
            ) by {
                if k < prev.0.len() {
                    assert(cur.0[k] == prev.0[k]);
                    assert(prev.0[k][j] == cur.0[k][j]);
                } else {
                    assert(cur.0[k] == prev.1);
                    assert(prev.1[j] == cur.0[k][j]);
                }
            }
        }
    }
}

/// Every word is non-empty and holds no white space.
pub proof fn lemma_words_clean(s: Seq<char>)
    ensures
        forall|k: int| 0 <= k < words(s).len() ==> (#[trigger] words(s)[k]).len() > 0,
        forall|k: int, j: int|
            0 <= k < words(s).len() && 0 <= j < words(s)[k].len() ==> !white_space(#[trigger] words(s)[k][j]),
{
    lemma_split_state_clean(s);
}

/// What the window's form holds.
pub struct State {
    pub update_option: u8,
    pub force_push: bool,
    pub url: String,
    pub remote: String,
    pub name: String,
    pub message: String,
    pub player: String,
    pub args: String,
    pub default_player: String,
    pub update_cooldown_m: i32,
    pub update_cooldown_h: i32,
    pub disable_update_on_play: bool,
    pub reset_default_player: bool,
    pub reset_update_cooldown: bool,
    pub reset_disable_update_on_play: bool,
    pub reinit: bool,
    pub shortcut_name: String,
    pub output_dir: String,
}

impl Default for State {
    fn default() -> (s: State)
        ensures
            s.update_option == 0,
            !s.force_push,
            s.url@.len() == 0,
            s.remote@.len() == 0,
            s.name@.len() == 0,
            s.message@.len() == 0,
            s.player@.len() == 0,
            s.args@.len() == 0,
            s.default_player@.len() == 0,
            s.update_cooldown_m == 0,
            s.update_cooldown_h == 0,
            !s.disable_update_on_play,
            !s.reset_default_player,
            !s.reset_update_cooldown,
            !s.reset_disable_update_on_play,
            !s.reinit,
            s.shortcut_name@.len() == 0,
            s.output_dir@.len() == 0,
    {
        State {
            update_option: 0,
            force_push: false,
            url: String::new(),
            remote: String::new(),
            name: String::new(),
            message: String::new(),
            player: String::new(),
            args: String::new(),
            default_player: String::new(),
            update_cooldown_m: 0,
            update_cooldown_h: 0,
            disable_update_on_play: false,
            reset_default_player: false,
            reset_update_cooldown: false,
            reset_disable_update_on_play: false,
            reinit: false,
            shortcut_name: String::new(),
            output_dir: String::new(),
        }
    }
}

/// The command that a page of the window runs, built from the form: the
/// page is named by the kind of `page`, whose own options are not used.
/// Pages other than add, download, update, push, initialize, configure and
/// reset give none.
pub open spec fn form_command(page: CommandView, s: State) -> Option<CommandView> {
    let no_update = s.update_option == 1;
    let force_update = s.update_option == 2;
    match page {
        CommandView::Add { .. } => Some(CommandView::Add {
            no_update,
            force_update,
            force_push: s.force_push,
            msg: given(s.message@),
            url: s.url@,
        }),
        CommandView::Download { .. } => Some(CommandView::Download { url: s.url@ }),
        CommandView::Update { .. } => Some(CommandView::Update { force: force_update }),
        CommandView::Push { .. } => Some(CommandView::Push {
            no_update,
            force_update,
            force_push: s.force_push,
            msg: given(s.message@),
        }),
        CommandView::Init { .. } => Some(CommandView::Init {
            name: given(s.name@),
            force_push: s.force_push,
            reinit: s.reinit,
            remote: s.remote@,
        }),
        CommandView::Cfg { .. } => Some(CommandView::Cfg {
            default_player: given(s.default_player@),
            update_cooldown_m: Some(s.update_cooldown_m as u8),
            update_cooldown_h: Some(s.update_cooldown_h as u8),
            disable_update_on_play: Some(s.disable_update_on_play),
        }),
        CommandView::Reset { .. } => Some(CommandView::Reset {
            default_player: s.reset_default_player,
            update_cooldown: s.reset_update_cooldown,
            disable_update_on_play: s.reset_disable_update_on_play,
        }),
        _ => None,
    }
}

/// Builds the command of a page from the form.
pub fn action_command(page: &Command, state: &State) -> (r: Option<Command>)
    ensures
        match r {
            Some(c) => form_command(page@, *state) == Some(c@),
            None => form_command(page@, *state) is None,
        },
{
    let (no_update, force_update) = update_values(state.update_option);
    match page {
        Command::Add { .. } => Some(Command::Add {
            no_update,
            force_update,
            force_push: state.force_push,
            msg: non_empty(&state.message),
            url: state.url.clone(),
        }),
        Command::Download { .. } => Some(Command::Download { url: state.url.clone() }),
        Command::Update { .. } => Some(Command::Update { force: force_update }),
        Command::Push { .. } => Some(Command::Push {
            no_update,
            force_update,
            force_push: state.force_push,
            msg: non_empty(&state.message),
        }),
        Command::Init { .. } => Some(Command::Init {
            name: non_empty(&state.name),
            force_push: state.force_push,
            reinit: state.reinit,
            remote: state.remote.clone(),
        }),
        Command::Cfg { .. } => Some(Command::Cfg {
            default_player: non_empty(&state.default_player),
            update_cooldown_m: Some(state.update_cooldown_m as u8),
            update_cooldown_h: Some(state.update_cooldown_h as u8),
            disable_update_on_play: Some(state.disable_update_on_play),
        }),
        Command::Reset { .. } => Some(Command::Reset {
            default_player: state.reset_default_player,
            update_cooldown: state.reset_update_cooldown,
            disable_update_on_play: state.reset_disable_update_on_play,
        }),
        _ => None,
    }
}

/// The command of the play page's "Play in..." button: the chosen update,
/// the player field if it is filled in, and the arguments field split into
/// words.
pub fn play_command(state: &State) -> (r: Command)
    ensures
        r@ == (CommandView::Play {
            no_update: state.update_option == 1,
            force_update: state.update_option == 2,
            player: given(state.player@),
            args: words(state.args@),
        }),
{
    let (no_update, force_update) = update_values(state.update_option);
    Command::Play {
        no_update,
        force_update,
        player: non_empty(&state.player),
        args: split_whitespace(state.args.as_str()),
    }
}

/// The command of the shortcut page: the name and, if one was chosen, the
/// output folder.
pub fn shortcut_command(state: &State) -> (r: Command)
    ensures
        r@ == (CommandView::Shortcut { name: state.shortcut_name@, output_dir: given(state.output_dir@) }),
{
    Command::Shortcut { name: state.shortcut_name.clone(), output_dir: non_empty(&state.output_dir) }
}

/// Whether the window restarts after running a command: after changing or
/// resetting settings, so that it shows them.
pub fn restarts_after(command: &Command) -> (r: bool)
    ensures
        r == (command@ is Cfg || command@ is Reset),
{
    match command {
        Command::Cfg { .. } => true,
        Command::Reset { .. } => true,
        _ => false,
    }
}

/// One piece of the work of a command, for the caller to perform in order;
/// the first that fails ends the command with its error.
pub enum Task {
    /// Report this message.
    Report(String),
    /// Delete the repository in `.git`, ignoring a failure.
    RemoveRepository,
    /// Set the playlist up as a repository and publish it (`git::init`).
    Init { name: Option<String>, force_push: bool, remote: String },
    /// Open the playlist's repository; fail when there is none.
    OpenRepository,
    /// Load the settings, update from the remote ignoring the cooldown
    /// (`config::update`, `git::pull`), and save the settings.
    Update { force: bool },
    /// Download a song (`ytdlp::download`).
    Download { url: String },
    /// Commit local changes and push them (`git::add_and_push`).
    Publish { message: String, force_push: bool },
    /// Carry out a command whose work is a single step.
    Single(Command),
}

/// A task, seen as plain values.
pub ghost enum TaskView {
    Report(Seq<char>),
    RemoveRepository,
    Init { name: Option<Seq<char>>, force_push: bool, remote: Seq<char> },
    OpenRepository,
    Update { force: bool },
    Download { url: Seq<char> },
    Publish { message: Seq<char>, force_push: bool },
    Single(CommandView),
}

impl View for Task {
    type V = TaskView;

    open spec fn view(&self) -> TaskView {
        match self {
            Task::Report(m) => TaskView::Report(m@),
            Task::RemoveRepository => TaskView::RemoveRepository,
            Task::Init { name, force_push, remote } => TaskView::Init {
                name: opt_view(*name),
                force_push: *force_push,
                remote: remote@,
            },
            Task::OpenRepository => TaskView::OpenRepository,
            Task::Update { force } => TaskView::Update { force: *force },
            Task::Download { url } => TaskView::Download { url: url@ },
            Task::Publish { message, force_push } => TaskView::Publish { message: message@, force_push: *force_push },
            Task::Single(c) => TaskView::Single(c@),
        }
    }
}

/// The tasks of a sequence, seen as plain values.
pub open spec fn task_views(v: Seq<Task>) -> Seq<TaskView> {
    v.map_values(|t: Task| t@)
}

/// A verbose report, as a task, when the level shows it.
pub open spec fn verbose_report(lo: LogOptions, message: Seq<char>) -> Seq<TaskView> {
    if lo.shows(true) {
        seq![TaskView::Report(message)]
    } else {
        Seq::empty()
    }
}

/// Updating from the remote, when not declined.
pub open spec fn update_unless(no_update: bool, force: bool) -> Seq<TaskView> {
    if no_update {
        Seq::empty()
    } else {
        seq![TaskView::Update { force }]
    }
}

/// The work of a command, in order.
///
/// `add` opens the repository, updates it unless asked not to, downloads
/// the song, and publishes every change with the given or the default
/// message; `push` does the same without the download; `update` opens the
/// repository and updates it; `init` first deletes the old repository when
/// asked to start over. Every other command is a single step.
pub open spec fn plan_spec(command: CommandView, lo: LogOptions) -> Seq<TaskView> {
    match command {
        CommandView::Add { no_update, force_update, force_push, msg, url } => seq![TaskView::OpenRepository]
            + update_unless(no_update, force_update) + seq![
            TaskView::Download { url },
            TaskView::Publish { message: commit_message_text(msg), force_push },
        ],
        CommandView::Push { no_update, force_update, force_push, msg } => seq![TaskView::OpenRepository]
            + update_unless(no_update, force_update) + seq![
            TaskView::Publish { message: commit_message_text(msg), force_push },
        ],
        CommandView::Update { force } => seq![TaskView::OpenRepository, TaskView::Update { force }],
        CommandView::Init { name, force_push, reinit, remote } => (if reinit {
            verbose_report(lo, "Removing current Git repository..."@) + seq![TaskView::RemoveRepository]
                + verbose_report(lo, "Removed old Git repository"@)
        } else {
            Seq::empty()
        }) + verbose_report(lo, "Initializing playlist..."@) + seq![TaskView::Init { name, force_push, remote }]
            + verbose_report(lo, "Initialized playlist"@),
        CommandView::Download { url } => seq![TaskView::Download { url }],
        _ => seq![TaskView::Single(command)],
    }
}

fn push_verbose(tasks: &mut Vec<Task>, lo: LogOptions, message: &str)
    ensures
        task_views(final(tasks)@) == task_views(old(tasks)@) + verbose_report(lo, message@),
{
    let ghost before = tasks@;
    if lo.logs(true) {
        tasks.push(Task::Report(message.to_owned()));
    }
    assert(task_views(tasks@) =~= task_views(before) + verbose_report(lo, message@));
}

fn push_task(tasks: &mut Vec<Task>, task: Task)
    ensures
        task_views(final(tasks)@) == task_views(old(tasks)@).push(task@),
{
    let ghost before = tasks@;
    tasks.push(task);
    assert(task_views(tasks@) =~= task_views(before).push(task@));
}

/// Plans the work of a command.
pub fn plan(command: Command, lo: LogOptions) -> (r: Vec<Task>)
    ensures
        task_views(r@) == plan_spec(command@, lo),
{
    let ghost c = command@;
    let mut tasks: Vec<Task> = Vec::new();
    assert(task_views(tasks@) =~= Seq::<TaskView>::empty());
    match command {
        Command::Add { no_update, force_update, force_push, msg, url } => {
            push_task(&mut tasks, Task::OpenRepository);
            if !no_update {
                push_task(&mut tasks, Task::Update { force: force_update });
            }
            push_task(&mut tasks, Task::Download { url });
            push_task(&mut tasks, Task::Publish { message: commit_message(msg), force_push });
            assert(task_views(tasks@) =~= plan_spec(c, lo));
        },
        Command::Push { no_update, force_update, force_push, msg } => {
            push_task(&mut tasks, Task::OpenRepository);
            if !no_update {
                push_task(&mut tasks, Task::Update { force: force_update });
            }
            push_task(&mut tasks, Task::Publish { message: commit_message(msg), force_push });
            assert(task_views(tasks@) =~= plan_spec(c, lo));
        },
        Command::Update { force } => {
            push_task(&mut tasks, Task::OpenRepository);
            push_task(&mut tasks, Task::Update { force });
            assert(task_views(tasks@) =~= plan_spec(c, lo));
        },
        Command::Init { name, force_push, reinit, remote } => {
            if reinit {
                push_verbose(&mut tasks, lo, "Removing current Git repository...");
                push_task(&mut tasks, Task::RemoveRepository);
                push_verbose(&mut tasks, lo, "Removed old Git repository");
            }
            let ghost first = task_views(tasks@);
            push_verbose(&mut tasks, lo, "Initializing playlist...");
            push_task(&mut tasks, Task::Init { name, force_push, remote });
            push_verbose(&mut tasks, lo, "Initialized playlist");
            assert(task_views(tasks@) =~= plan_spec(c, lo));
        },
        Command::Download { url } => {
            push_task(&mut tasks, Task::Download { url });
            assert(task_views(tasks@) =~= plan_spec(c, lo));
        },
        other => {
            push_task(&mut tasks, Task::Single(other));
            assert(task_views(tasks@) =~= plan_spec(c, lo));
        },
    }
    tasks
}

/// Every command that updates or publishes opens the repository first, so
/// that it fails before any download or change when there is none; and a
/// declined update is never run.
pub proof fn lemma_repository_first(command: CommandView, lo: LogOptions)
    requires
        exists|i: int| 0 <= i < plan_spec(command, lo).len() && (plan_spec(command, lo)[i] is Update
            || plan_spec(command, lo)[i] is Publish),
    ensures
        plan_spec(command, lo)[0] == TaskView::OpenRepository,
        command matches CommandView::Add { no_update: true, .. } ==> forall|i: int|
            0 <= i < plan_spec(command, lo).len() ==> !(#[trigger] plan_spec(command, lo)[i] is Update),
{
    let p = plan_spec(command, lo);
    let i = choose|i: int| 0 <= i < p.len() && (p[i] is Update || p[i] is Publish);
    match command {
        CommandView::Init { reinit, .. } => {
            assert(!(p[i] is Update || p[i] is Publish));
        },
        CommandView::Download { .. } => {},
        CommandView::Add { .. } | CommandView::Push { .. } | CommandView::Update { .. } => {},
        _ => {},
    }
}

/// `add` and `push` update before they publish exactly when not told
/// otherwise: with `--no-update` no task updates; without it the one task
/// that updates comes right after opening the repository, forced exactly
/// when asked. Either way the last task publishes, the push forced exactly
/// when asked, and `add` downloads the song right before it.
pub proof fn lemma_update_only_when_not_declined(command: CommandView, lo: LogOptions)
    ensures
        ({
            let p = plan_spec(command, lo);
            match command {
                CommandView::Add { no_update, force_update, force_push, url, .. } => {
                    &&& no_update ==> forall|i: int| 0 <= i < p.len() ==> !(#[trigger] p[i] is Update)
                    &&& !no_update ==> p[1] == TaskView::Update { force: force_update } && forall|i: int|
                        0 <= i < p.len() && i != 1 ==> !(#[trigger] p[i] is Update)
                    &&& p.last() matches TaskView::Publish { force_push: f, .. } && f == force_push
                    &&& p[p.len() - 2] == TaskView::Download { url }
                },
                CommandView::Push { no_update, force_update, force_push, .. } => {
                    &&& no_update ==> forall|i: int| 0 <= i < p.len() ==> !(#[trigger] p[i] is Update)
                    &&& !no_update ==> p[1] == TaskView::Update { force: force_update } && forall|i: int|
                        0 <= i < p.len() && i != 1 ==> !(#[trigger] p[i] is Update)
                    &&& p.last() matches TaskView::Publish { force_push: f, .. } && f == force_push
                },
                _ => true,
            }
        }),
{
}

} // verus!
