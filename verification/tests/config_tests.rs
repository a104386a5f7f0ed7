use plg::clock::Timestamp;
use plg::config::{
    choose_player, configure, cooldown_label, cooldown_minutes, cooldown_notice, cooldown_parts,
    default_player_label, last_updated_label, play_update, record_update, reset, settle_update, update,
    update_on_play_label, Config,
    PlayUpdate, PlayerError, TimeOutOfRange, UpdatePlan, DEFAULT_COOLDOWN_MINUTES,
};

const NEW_YEAR_2024: i64 = 1_704_067_200;

fn at(secs: i64) -> Timestamp {
    Timestamp { secs, nanos: 0 }
}

fn updated_at(secs: i64) -> Config {
    Config { last_updated: Some(at(secs)), ..Config::default() }
}

#[test]
fn default_config_has_three_hour_cooldown() {
    let c = Config::default();
    assert_eq!(c.default_player, None);
    assert_eq!(c.last_updated, None);
    assert_eq!(c.update_cooldown_m, Some(180));
    assert_eq!(c.disable_update_on_play, None);
    assert_eq!(DEFAULT_COOLDOWN_MINUTES, 180);
}

#[test]
fn cooldown_from_hours_and_minutes() {
    assert_eq!(cooldown_minutes(Some(30), Some(2)), Some(150));
    assert_eq!(cooldown_minutes(Some(30), None), Some(30));
    assert_eq!(cooldown_minutes(None, Some(2)), Some(120));
    assert_eq!(cooldown_minutes(Some(0), None), Some(0));
    assert_eq!(cooldown_minutes(None, None), None);
    assert_eq!(cooldown_minutes(Some(255), Some(255)), Some(15555));
}

#[test]
fn cfg_sets_only_given_options() {
    let mut c = Config::default();
    configure(&mut c, Some("vlc".to_string()), None, Some(2), None);
    assert_eq!(c.default_player.as_deref(), Some("vlc"));
    assert_eq!(c.update_cooldown_m, Some(120));
    assert_eq!(c.disable_update_on_play, None);
    configure(&mut c, None, None, None, Some(true));
    assert_eq!(c.default_player.as_deref(), Some("vlc"));
    assert_eq!(c.update_cooldown_m, Some(120));
    assert_eq!(c.disable_update_on_play, Some(true));
}

#[test]
fn cfg_minutes_zero_disables_cooldown() {
    let mut c = Config::default();
    configure(&mut c, None, Some(0), None, None);
    assert_eq!(c.update_cooldown_m, Some(0));
}

#[test]
fn reset_restores_chosen_defaults() {
    let mut c = updated_at(NEW_YEAR_2024);
    configure(&mut c, Some("mpv".to_string()), Some(5), Some(1), Some(true));
    reset(&mut c, false, true, false);
    assert_eq!(c.update_cooldown_m, Some(180));
    assert_eq!(c.default_player.as_deref(), Some("mpv"));
    assert_eq!(c.disable_update_on_play, Some(true));
    reset(&mut c, true, true, true);
    assert_eq!(c.default_player, None);
    assert_eq!(c.update_cooldown_m, Some(180));
    assert_eq!(c.disable_update_on_play, None);
    assert_eq!(c.last_updated, Some(at(NEW_YEAR_2024)));
}

#[test]
fn update_skipped_within_three_hours() {
    let c = updated_at(NEW_YEAR_2024);
    let now = at(NEW_YEAR_2024 + 3 * 3600 - 1);
    assert_eq!(update(&c, now, false), Some(UpdatePlan::Skip));
    assert_eq!(
        UpdatePlan::Skip.message().as_deref(),
        Some("Skipping update. Force an update by using `plg update`.")
    );
}

#[test]
fn update_due_after_three_hours() {
    let c = updated_at(NEW_YEAR_2024);
    assert_eq!(update(&c, at(NEW_YEAR_2024 + 3 * 3600), false), Some(UpdatePlan::Pull));
    assert_eq!(update(&c, at(NEW_YEAR_2024 + 5 * 3600), false), Some(UpdatePlan::Pull));
    assert_eq!(UpdatePlan::Pull.message(), None);
}

#[test]
fn nanoseconds_count_in_the_cooldown() {
    let c = Config { last_updated: Some(Timestamp { secs: NEW_YEAR_2024, nanos: 500 }), ..Config::default() };
    let now = Timestamp { secs: NEW_YEAR_2024 + 3 * 3600, nanos: 499 };
    assert_eq!(update(&c, now, false), Some(UpdatePlan::Skip));
    let now = Timestamp { secs: NEW_YEAR_2024 + 3 * 3600, nanos: 500 };
    assert_eq!(update(&c, now, false), Some(UpdatePlan::Pull));
}

#[test]
fn forced_update_ignores_cooldown() {
    let c = updated_at(NEW_YEAR_2024);
    assert_eq!(update(&c, at(NEW_YEAR_2024 + 1), true), Some(UpdatePlan::Pull));
}

#[test]
fn no_cooldown_always_updates() {
    let mut c = updated_at(NEW_YEAR_2024);
    configure(&mut c, None, Some(0), None, None);
    assert_eq!(update(&c, at(NEW_YEAR_2024), false), Some(UpdatePlan::Pull));
    assert_eq!(update(&c, at(NEW_YEAR_2024 - 1), false), Some(UpdatePlan::Skip));
    let missing = Config { update_cooldown_m: None, ..updated_at(NEW_YEAR_2024) };
    assert_eq!(update(&missing, at(NEW_YEAR_2024 + 1), false), Some(UpdatePlan::Pull));
}

#[test]
fn never_updated_counts_from_epoch() {
    let c = Config::default();
    assert_eq!(update(&c, at(NEW_YEAR_2024), false), Some(UpdatePlan::Pull));
    assert_eq!(update(&c, at(60), false), Some(UpdatePlan::Skip));
}

#[test]
fn cooldown_before_earliest_time_is_an_overflow() {
    let c = Config::default();
    let earliest = at(-8_334_601_228_800);
    assert_eq!(update(&c, earliest, true), None);
    let c = Config { update_cooldown_m: Some(0), ..Config::default() };
    assert_eq!(update(&c, earliest, true), Some(UpdatePlan::Pull));
}

#[test]
fn play_update_choices() {
    let c = Config::default();
    assert_eq!(play_update(true, true, &c), PlayUpdate::Skip);
    assert_eq!(play_update(false, false, &c), PlayUpdate::NoRepository);
    assert_eq!(play_update(false, true, &c), PlayUpdate::Update);
    let disabled = Config { disable_update_on_play: Some(true), ..Config::default() };
    assert_eq!(play_update(false, true, &disabled), PlayUpdate::Disabled);
    let enabled = Config { disable_update_on_play: Some(false), ..Config::default() };
    assert_eq!(play_update(false, true, &enabled), PlayUpdate::Update);
    assert_eq!(PlayUpdate::Disabled.message().as_deref(), Some("Updates on play are disabled."));
    assert_eq!(
        PlayUpdate::NoRepository.message().as_deref(),
        Some("Repository not found. Skipping update.")
    );
    assert_eq!(PlayUpdate::Update.message(), None);
}

#[test]
fn explicit_player_wins() {
    let c = Config { default_player: Some("vlc".to_string()), ..Config::default() };
    assert_eq!(choose_player(Some("mpv".to_string()), &c), Ok("mpv".to_string()));
    assert_eq!(choose_player(None, &c), Ok("vlc".to_string()));
}

#[test]
fn no_player_is_an_error() {
    let c = Config::default();
    assert_eq!(choose_player(None, &c), Err(PlayerError::NotSpecified));
    assert_eq!(
        PlayerError::NotSpecified.message(),
        "Player not specified. Use `plg play <PLAYER>` to use it or `plg cfg --default-player <PLAYER>` to set it as a default player so you can only type `plg play`."
    );
}

#[test]
fn settings_labels() {
    let mut c = Config::default();
    assert_eq!(default_player_label(&c), "Default player: none");
    assert_eq!(last_updated_label(&c), "Last updated: never");
    assert_eq!(cooldown_label(&c), "Update cooldown: \"3 hours and 0 minutes\"");
    assert_eq!(update_on_play_label(&c), "Update on play is enabled");
    c.default_player = Some("vlc".to_string());
    c.update_cooldown_m = Some(150);
    c.disable_update_on_play = Some(false);
    c.last_updated = Some(Timestamp { secs: NEW_YEAR_2024, nanos: 0 });
    assert_eq!(default_player_label(&c), "Default player: \"vlc\"");
    assert_eq!(last_updated_label(&c), "Last updated: \"2024-01-01 00:00:00\"");
    assert_eq!(cooldown_label(&c), "Update cooldown: \"2 hours and 30 minutes\"");
    assert_eq!(update_on_play_label(&c), "Update on play is enabled");
    c.update_cooldown_m = None;
    c.disable_update_on_play = Some(true);
    assert_eq!(cooldown_label(&c), "Update cooldown: no cooldown");
    assert_eq!(update_on_play_label(&c), "Update on play is disabled");
}

#[test]
fn cooldown_parts_split_hours() {
    let c = Config { update_cooldown_m: Some(150), ..Config::default() };
    assert_eq!(cooldown_parts(&c), (2, 30));
    let c = Config { update_cooldown_m: None, ..Config::default() };
    assert_eq!(cooldown_parts(&c), (0, 0));
}

#[test]
fn notice_while_cooling_down() {
    let c = updated_at(NEW_YEAR_2024);
    let now = at(NEW_YEAR_2024 + 60 * 60);
    assert_eq!(
        cooldown_notice(&c, now),
        Ok(Some(
            "By default skipping update because of the update cooldown of 180 minutes. Use the update options to override this behavior. Next update will be available in 120 minutes."
                .to_string()
        ))
    );
    let almost = Timestamp { secs: NEW_YEAR_2024 + 3 * 3600 - 1, nanos: 0 };
    let text = cooldown_notice(&c, almost).unwrap().unwrap();
    assert!(text.ends_with("Next update will be available in 0 minutes."));
}

#[test]
fn no_notice_when_update_is_due() {
    let c = updated_at(NEW_YEAR_2024);
    assert_eq!(cooldown_notice(&c, at(NEW_YEAR_2024 + 3 * 3600)), Ok(None));
}

#[test]
fn notice_out_of_range() {
    let c = Config::default();
    assert_eq!(cooldown_notice(&c, at(-8_334_601_228_800)), Err(TimeOutOfRange));
    let late = Config { last_updated: Some(at(8_210_266_876_799)), ..Config::default() };
    assert_eq!(cooldown_notice(&late, at(NEW_YEAR_2024)), Err(TimeOutOfRange));
}

// 2015-06-30 23:59:59 UTC, the second before the leap second of that night.
const BEFORE_LEAP: i64 = 1_435_708_799;

#[test]
fn zero_cooldown_updates_inside_a_leap_second() {
    let now = Timestamp { secs: BEFORE_LEAP, nanos: 1_500_000_000 };
    let c = Config { last_updated: Some(now), update_cooldown_m: Some(0), ..Config::default() };
    assert_eq!(update(&c, now, false), Some(UpdatePlan::Pull));
}

#[test]
fn cooldown_counts_back_from_a_leap_second() {
    let now = Timestamp { secs: BEFORE_LEAP, nanos: 1_500_000_000 };
    let reached = Config {
        last_updated: Some(Timestamp { secs: BEFORE_LEAP - 59, nanos: 500_000_000 }),
        update_cooldown_m: Some(1),
        ..Config::default()
    };
    assert_eq!(update(&reached, now, false), Some(UpdatePlan::Pull));
    let not_reached = Config {
        last_updated: Some(Timestamp { secs: BEFORE_LEAP - 59, nanos: 500_000_001 }),
        update_cooldown_m: Some(1),
        ..Config::default()
    };
    assert_eq!(update(&not_reached, now, false), Some(UpdatePlan::Skip));
}

#[test]
fn recording_an_update_keeps_other_settings() {
    let mut c = Config { default_player: Some("mpv".to_string()), update_cooldown_m: Some(5), ..Config::default() };
    record_update(&mut c, at(NEW_YEAR_2024));
    assert_eq!(c.last_updated, Some(at(NEW_YEAR_2024)));
    assert_eq!(c.default_player.as_deref(), Some("mpv"));
    assert_eq!(c.update_cooldown_m, Some(5));
    assert_eq!(c.disable_update_on_play, None);
}

#[test]
fn successful_pull_records_the_time() {
    let mut c = updated_at(NEW_YEAR_2024);
    let r: Result<(), String> = settle_update(&mut c, Ok(()), at(NEW_YEAR_2024 + 7));
    assert_eq!(r, Ok(()));
    assert_eq!(c.last_updated, Some(at(NEW_YEAR_2024 + 7)));
    assert_eq!(c.update_cooldown_m, Some(DEFAULT_COOLDOWN_MINUTES));
}

#[test]
fn failed_pull_leaves_settings_alone() {
    let mut c = updated_at(NEW_YEAR_2024);
    let r = settle_update(&mut c, Err("network down".to_string()), at(NEW_YEAR_2024 + 7));
    assert_eq!(r, Err("network down".to_string()));
    assert_eq!(c.last_updated, Some(at(NEW_YEAR_2024)));
    assert_eq!(c.update_cooldown_m, Some(DEFAULT_COOLDOWN_MINUTES));
}

#[test]
fn notice_counts_a_leap_second() {
    let leap = Timestamp { secs: BEFORE_LEAP, nanos: 1_500_000_000 };
    let c = Config { last_updated: Some(leap), update_cooldown_m: Some(0), ..Config::default() };
    let text = cooldown_notice(&c, at(BEFORE_LEAP - 59)).unwrap().unwrap();
    assert!(text.ends_with("Next update will be available in 1 minutes."));
    let d = Config { last_updated: Some(leap), update_cooldown_m: Some(1), ..Config::default() };
    let text = cooldown_notice(&d, at(BEFORE_LEAP + 41)).unwrap().unwrap();
    assert!(text.ends_with("Next update will be available in 0 minutes."));
}

#[test]
fn label_of_a_time_chrono_cannot_hold_is_empty() {
    let c = Config { last_updated: Some(Timestamp { secs: 0, nanos: 1_500_000_000 }), ..Config::default() };
    assert_eq!(last_updated_label(&c), "Last updated: \"\"");
    let leap = Config { last_updated: Some(Timestamp { secs: 59, nanos: 1_500_000_000 }), ..Config::default() };
    assert_eq!(last_updated_label(&leap), "Last updated: \"1970-01-01 00:00:60.500\"");
}
