use plg::cli::{
    action_command, exit_code, non_empty, play_command, restarts_after, shortcut_command, split_whitespace,
    update_values, Command, CompletionShell, State,
};
use plg::text::{decimal, signed_decimal};

#[test]
fn exit_codes() {
    assert_eq!(exit_code(None), 1);
    assert_eq!(exit_code(Some(2)), 2);
    assert_eq!(exit_code(Some(0)), 0);
    assert_eq!(exit_code(Some(255)), 255);
    assert_eq!(exit_code(Some(256)), 255);
    assert_eq!(exit_code(Some(-1)), 255);
}

#[test]
fn update_choices() {
    assert_eq!(update_values(0), (false, false));
    assert_eq!(update_values(1), (true, false));
    assert_eq!(update_values(2), (false, true));
    assert_eq!(update_values(7), (false, false));
}

#[test]
fn empty_fields_are_not_given() {
    assert_eq!(non_empty(&String::new()), None);
    assert_eq!(non_empty(&" ".to_string()), Some(" ".to_string()));
}

#[test]
fn words_split_at_white_space() {
    assert_eq!(split_whitespace("  --volume 50\t--loop\n"), vec!["--volume", "50", "--loop"]);
    assert!(split_whitespace("").is_empty());
    assert!(split_whitespace(" \u{3000} ").is_empty());
    assert_eq!(split_whitespace("a\u{a0}b"), vec!["a", "b"]);
}

#[test]
fn numbers_in_decimal() {
    assert_eq!(decimal(0), "0");
    assert_eq!(decimal(180), "180");
    assert_eq!(decimal(u64::MAX), u64::MAX.to_string());
    assert_eq!(signed_decimal(-42), "-42");
    assert_eq!(signed_decimal(i64::MIN), i64::MIN.to_string());
}

fn form() -> State {
    let mut s = State::default();
    s.update_option = 2;
    s.force_push = true;
    s.url = "https://example.org/s".to_string();
    s.remote = "git@example.org:p.git".to_string();
    s.message = "new".to_string();
    s.player = "vlc".to_string();
    s.args = "--fullscreen  --loop".to_string();
    s.update_cooldown_m = 30;
    s.update_cooldown_h = 2;
    s.disable_update_on_play = true;
    s.reset_update_cooldown = true;
    s
}

#[test]
fn add_page_command() {
    let page = Command::Add { no_update: false, force_update: false, force_push: false, msg: None, url: String::new() };
    match action_command(&page, &form()) {
        Some(Command::Add { no_update, force_update, force_push, msg, url }) => {
            assert!(!no_update);
            assert!(force_update);
            assert!(force_push);
            assert_eq!(msg.as_deref(), Some("new"));
            assert_eq!(url, "https://example.org/s");
        }
        _ => panic!("wrong command"),
    }
}

#[test]
fn init_page_command_without_name() {
    let page = Command::Init { name: None, force_push: false, reinit: false, remote: String::new() };
    match action_command(&page, &form()) {
        Some(Command::Init { name, force_push, reinit, remote }) => {
            assert_eq!(name, None);
            assert!(force_push);
            assert!(!reinit);
            assert_eq!(remote, "git@example.org:p.git");
        }
        _ => panic!("wrong command"),
    }
}

#[test]
fn configure_page_command() {
    let page = Command::Cfg {
        default_player: None,
        update_cooldown_m: None,
        update_cooldown_h: None,
        disable_update_on_play: None,
    };
    let cmd = action_command(&page, &form()).unwrap();
    assert!(restarts_after(&cmd));
    match cmd {
        Command::Cfg { default_player, update_cooldown_m, update_cooldown_h, disable_update_on_play } => {
            assert_eq!(default_player, None);
            assert_eq!(update_cooldown_m, Some(30));
            assert_eq!(update_cooldown_h, Some(2));
            assert_eq!(disable_update_on_play, Some(true));
        }
        _ => panic!("wrong command"),
    }
}

#[test]
fn reset_and_update_page_commands() {
    let page = Command::Reset { default_player: false, update_cooldown: false, disable_update_on_play: false };
    let cmd = action_command(&page, &form()).unwrap();
    assert!(restarts_after(&cmd));
    match cmd {
        Command::Reset { default_player, update_cooldown, disable_update_on_play } => {
            assert!(!default_player && update_cooldown && !disable_update_on_play);
        }
        _ => panic!("wrong command"),
    }
    match action_command(&Command::Update { force: false }, &form()) {
        Some(Command::Update { force }) => assert!(force),
        _ => panic!("wrong command"),
    }
    assert!(!restarts_after(&Command::Update { force: true }));
}

#[test]
fn pages_without_form_give_no_command() {
    assert!(action_command(&Command::ShowCfg, &form()).is_none());
    assert!(action_command(&Command::Completions { shell: CompletionShell::Bash }, &form()).is_none());
}

#[test]
fn play_button_command() {
    match play_command(&form()) {
        Command::Play { no_update, force_update, player, args } => {
            assert!(!no_update && force_update);
            assert_eq!(player.as_deref(), Some("vlc"));
            assert_eq!(args, vec!["--fullscreen", "--loop"]);
        }
        _ => panic!("wrong command"),
    }
    match play_command(&State::default()) {
        Command::Play { player, args, .. } => {
            assert_eq!(player, None);
            assert!(args.is_empty());
        }
        _ => panic!("wrong command"),
    }
}

#[test]
fn shortcut_page_command() {
    let mut s = State::default();
    s.shortcut_name = "Mix".to_string();
    match shortcut_command(&s) {
        Command::Shortcut { name, output_dir } => {
            assert_eq!(name, "Mix");
            assert_eq!(output_dir, None);
        }
        _ => panic!("wrong command"),
    }
    s.output_dir = "/tmp".to_string();
    match shortcut_command(&s) {
        Command::Shortcut { output_dir, .. } => assert_eq!(output_dir.as_deref(), Some("/tmp")),
        _ => panic!("wrong command"),
    }
}

use plg::cli::{plan, Task};
use plg::log::LogOptions;

fn describe(tasks: Vec<Task>) -> Vec<String> {
    tasks
        .into_iter()
        .map(|t| match t {
            Task::Report(m) => format!("report {m}"),
            Task::RemoveRepository => "remove".to_string(),
            Task::Init { name, force_push, remote } => format!("init {name:?} {force_push} {remote}"),
            Task::OpenRepository => "open".to_string(),
            Task::Update { force } => format!("update {force}"),
            Task::Download { url } => format!("download {url}"),
            Task::Publish { message, force_push } => format!("publish {message} {force_push}"),
            Task::Single(_) => "single".to_string(),
        })
        .collect()
}

#[test]
fn add_updates_downloads_and_publishes() {
    let add = Command::Add { no_update: false, force_update: true, force_push: false, msg: None, url: "u".into() };
    assert_eq!(
        describe(plan(add, LogOptions::Normal)),
        vec!["open", "update true", "download u", "publish No message supplied by the user. false"]
    );
    let add = Command::Add { no_update: true, force_update: false, force_push: true, msg: Some("m".into()), url: "u".into() };
    assert_eq!(describe(plan(add, LogOptions::Normal)), vec!["open", "download u", "publish m true"]);
}

#[test]
fn push_and_update_plans() {
    let push = Command::Push { no_update: false, force_update: false, force_push: true, msg: Some("m".into()) };
    assert_eq!(describe(plan(push, LogOptions::Quiet)), vec!["open", "update false", "publish m true"]);
    assert_eq!(describe(plan(Command::Update { force: true }, LogOptions::Quiet)), vec!["open", "update true"]);
    assert_eq!(describe(plan(Command::Download { url: "x".into() }, LogOptions::Quiet)), vec!["download x"]);
}

#[test]
fn init_plan_reinitializes_when_asked() {
    let init = Command::Init { name: Some("Mix".into()), force_push: false, reinit: true, remote: "r".into() };
    assert_eq!(
        describe(plan(init, LogOptions::Verbose)),
        vec![
            "report Removing current Git repository...",
            "remove",
            "report Removed old Git repository",
            "report Initializing playlist...",
            "init Some(\"Mix\") false r",
            "report Initialized playlist",
        ]
    );
    let init = Command::Init { name: None, force_push: true, reinit: false, remote: "r".into() };
    assert_eq!(describe(plan(init, LogOptions::Normal)), vec!["init None true r"]);
}

#[test]
fn other_commands_are_single_steps() {
    assert_eq!(describe(plan(Command::ShowCfg, LogOptions::Normal)), vec!["single"]);
    assert_eq!(describe(plan(Command::ResetAll, LogOptions::Normal)), vec!["single"]);
}
