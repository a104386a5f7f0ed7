//! The global settings: their defaults, how `cfg` and `reset` change them,
//! when the playlist is due for an update, which player plays it, and how
//! the settings are described to the user.

use vstd::prelude::*;
use vstd::string::StringExecFns;
use crate::clock::{
    Timestamp, minus_minutes, moved_back, moved_forward, stamp, elapsed_nanos, plus_minutes, minutes_between, shown_time, sub_minutes,
    add_minutes, whole_minutes_between, display_datetime,
};
use crate::text::{opt_view, decimal, decimal_text, signed_decimal, signed_decimal_text};

verus! {

/// The cooldown that a fresh or reset configuration has: three hours.
pub const DEFAULT_COOLDOWN_MINUTES: u16 = 180;

/// The global settings.
#[derive(Debug)]
pub struct Config {
    /// The player that `play` opens when none is named.
    pub default_player: Option<String>,
    /// When the playlist was last updated from the remote.
    pub last_updated: Option<Timestamp>,
    /// How many minutes must pass between automatic updates.
    pub update_cooldown_m: Option<u16>,
    /// Whether `play` skips the automatic update.
    pub disable_update_on_play: Option<bool>,
}

/// The settings as plain values.
pub ghost struct ConfigView {
    pub default_player: Option<Seq<char>>,
    pub last_updated: Option<Timestamp>,
    pub update_cooldown_m: Option<u16>,
    pub disable_update_on_play: Option<bool>,
}

impl View for Config {
    type V = ConfigView;

    open spec fn view(&self) -> ConfigView {
        ConfigView {
            default_player: opt_view(self.default_player),
            last_updated: self.last_updated,
            update_cooldown_m: self.update_cooldown_m,
            disable_update_on_play: self.disable_update_on_play,
        }
    }
}

/// The default settings: no default player, never updated, a three-hour
/// cooldown, updates on play not disabled.
pub open spec fn default_config() -> ConfigView {
    ConfigView {
        default_player: None,
        last_updated: None,
        update_cooldown_m: Some(DEFAULT_COOLDOWN_MINUTES),
        disable_update_on_play: None,
    }
}

impl Default for Config {
    fn default() -> (c: Config)
        ensures
            c@ == default_config(),
    {
        Config {
            default_player: None,
            last_updated: None,
            update_cooldown_m: Some(DEFAULT_COOLDOWN_MINUTES),
            disable_update_on_play: None,
        }
    }
}

/// The cooldown that `cfg` sets from its minutes and hours options: none
/// when neither is given, else sixty per hour plus the minutes, a missing
/// one counting as zero.
pub open spec fn cooldown_total(minutes: Option<u8>, hours: Option<u8>) -> Option<u16> {
    if minutes is Some || hours is Some {
        let m: int = match minutes {
            Some(m) => m as int,
            None => 0,
        };
        let h: int = match hours {
            Some(h) => h as int,
            None => 0,
        };
        Some((60 * h + m) as u16)
    } else {
        None
    }
}

/// The settings after `cfg` with the given options: each option that is
/// given replaces its setting, the others are kept.
pub open spec fn configured(
    c: ConfigView,
    default_player: Option<Seq<char>>,
    minutes: Option<u8>,
    hours: Option<u8>,
    disable_update_on_play: Option<bool>,
) -> ConfigView {
    ConfigView {
        default_player: if default_player is Some {
            default_player
        } else {
            c.default_player
        },
        last_updated: c.last_updated,
        update_cooldown_m: if cooldown_total(minutes, hours) is Some {
            cooldown_total(minutes, hours)
        } else {
            c.update_cooldown_m
        },
        disable_update_on_play: if disable_update_on_play is Some {
            disable_update_on_play
        } else {
            c.disable_update_on_play
        },
    }
}

/// The settings after `reset` with the given switches: each chosen setting
/// goes back to its default, the others are kept.
pub open spec fn reset_config(
    c: ConfigView,
    default_player: bool,
    update_cooldown: bool,
    disable_update_on_play: bool,
) -> ConfigView {
    ConfigView {
        default_player: if default_player {
            None
        } else {
            c.default_player
        },
        last_updated: c.last_updated,
        update_cooldown_m: if update_cooldown {
            Some(DEFAULT_COOLDOWN_MINUTES)
        } else {
            c.update_cooldown_m
        },
        disable_update_on_play: if disable_update_on_play {
            None
        } else {
            c.disable_update_on_play
        },
    }
}

/// The cooldown that the `cfg` options set, if they set one.
pub fn cooldown_minutes(minutes: Option<u8>, hours: Option<u8>) -> (r: Option<u16>)
    ensures
        r == cooldown_total(minutes, hours),
{
    if minutes.is_some() || hours.is_some() {
        let m: u16 = match minutes {
            Some(m) => m as u16,
            None => 0,
        };
        let h: u16 = match hours {
            Some(h) => h as u16,
            None => 0,
        };
        Some(60 * h + m)
    } else {
        None
    }
}

/// Applies the options of `cfg` to the settings.
pub fn configure(
    cfg: &mut Config,
    default_player: Option<String>,
    update_cooldown_m: Option<u8>,
    update_cooldown_h: Option<u8>,
    disable_update_on_play: Option<bool>,
)
    ensures
        final(cfg)@ == configured(
            old(cfg)@,
            opt_view(default_player),
            update_cooldown_m,
            update_cooldown_h,
            disable_update_on_play,
        ),
{
    if let Some(player) = default_player {
        cfg.default_player = Some(player);
    }
    let cooldown = cooldown_minutes(update_cooldown_m, update_cooldown_h);
    if cooldown.is_some() {
        cfg.update_cooldown_m = cooldown;
    }
    if let Some(b) = disable_update_on_play {
        cfg.disable_update_on_play = Some(b);
    }
}

/// Applies the switches of `reset` to the settings.
pub fn reset(cfg: &mut Config, default_player: bool, update_cooldown: bool, disable_update_on_play: bool)
    ensures
        final(cfg)@ == reset_config(old(cfg)@, default_player, update_cooldown, disable_update_on_play),
{
    if default_player {
        cfg.default_player = None;
    }
    if update_cooldown {
        cfg.update_cooldown_m = Some(DEFAULT_COOLDOWN_MINUTES);
    }
    if disable_update_on_play {
        cfg.disable_update_on_play = None;
    }
}

/// The cooldown in effect: a missing one is no cooldown.
pub open spec fn cooldown_of(c: ConfigView) -> u16 {
    match c.update_cooldown_m {
        Some(m) => m,
        None => 0,
    }
}

/// The last update in effect: a missing one counts as the epoch.
pub open spec fn last_update_of(c: ConfigView) -> Timestamp {
    match c.last_updated {
        Some(t) => t,
        None => Timestamp::epoch_spec(),
    }
}

/// Whether an update is due at `now`: when the cooldown, counted back from
/// now, reaches to or past the last update, or when the cooldown is to be
/// ignored. `None` where counting back leaves chrono's range, or where
/// chrono cannot hold `now` at all.
pub open spec fn update_decision(c: ConfigView, now: Timestamp, ignore_cfg: bool) -> Option<bool> {
    match minus_minutes(now, cooldown_of(c)) {
        Some(start) => Some(start.at_or_after(last_update_of(c)) || ignore_cfg),
        None => None,
    }
}

/// What an update does.
#[derive(Clone, Copy, Debug, PartialEq, Eq, Structural)]
pub enum UpdatePlan {
    /// Pull from the remote, then record the time.
    Pull,
    /// Leave the repository as it is and say so.
    Skip,
}

impl UpdatePlan {
    /// The report that goes with the plan.
    pub fn message(&self) -> (r: Option<String>)
        ensures
            opt_view(r) == (match self {
                UpdatePlan::Pull => None,
                UpdatePlan::Skip => Some("Skipping update. Force an update by using `plg update`."@),
            }),
    {
        match self {
            UpdatePlan::Pull => None,
            UpdatePlan::Skip => Some("Skipping update. Force an update by using `plg update`.".to_owned()),
        }
    }
}

/// Decides whether to update the playlist at `now`; `ignore_cfg` forces
/// the update. `None` where the cooldown reaches before the earliest time
/// chrono can hold, where the tool cannot go on.
///
/// For every time chrono can hold, the start of the cooldown is `now`
/// moved back by it (leaving a leap second first), and an update is due
/// exactly when it is forced or when that start is at or after the last
/// update. Without a cooldown the start is `now` itself, so every update is
/// due unless the last one lies in the future. For times outside leap
/// seconds this is: at least the cooldown has passed since the last update
/// (with the default cooldown, an update is skipped when less than three
/// hours have passed).
pub fn update(cfg: &Config, now: Timestamp, ignore_cfg: bool) -> (r: Option<UpdatePlan>)
    ensures
        match update_decision(cfg@, now, ignore_cfg) {
            Some(true) => r == Some(UpdatePlan::Pull),
            Some(false) => r == Some(UpdatePlan::Skip),
            None => r is None,
        },
        now.is_valid() ==> r == (if moved_back(now, cooldown_of(cfg@) as int).0 >= crate::clock::min_secs() {
            Some(
                if ignore_cfg || stamp(moved_back(now, cooldown_of(cfg@) as int)).at_or_after(last_update_of(cfg@)) {
                    UpdatePlan::Pull
                } else {
                    UpdatePlan::Skip
                },
            )
        } else {
            None
        }),
        cooldown_of(cfg@) == 0 && now.is_valid() ==> r == Some(
            if ignore_cfg || now.at_or_after(last_update_of(cfg@)) {
                UpdatePlan::Pull
            } else {
                UpdatePlan::Skip
            },
        ),
        now.is_regular() && last_update_of(cfg@).is_regular()
            && now.secs - 60 * cooldown_of(cfg@) >= crate::clock::min_secs() ==> r == Some(
            if ignore_cfg || now.total_nanos() - last_update_of(cfg@).total_nanos() >= cooldown_of(cfg@)
                * 60_000_000_000 {
                UpdatePlan::Pull
            } else {
                UpdatePlan::Skip
            },
        ),
{
    let cooldown: u16 = match cfg.update_cooldown_m {
        Some(m) => m,
        None => 0,
    };
    let last = match cfg.last_updated {
        Some(t) => t,
        None => Timestamp::epoch(),
    };
    let shifted = sub_minutes(now, cooldown);
    proof {
        if now.is_regular() && last.is_regular() && now.secs - 60 * cooldown >= crate::clock::min_secs() {
            let start = shifted.unwrap();
            crate::clock::lemma_order_is_instant_order(start, last);
            crate::clock::lemma_shift_is_instant_shift(start, now, -(cooldown as int));
        }
    }
    match shifted {
        Some(start) => if start.is_at_or_after(&last) || ignore_cfg {
            Some(UpdatePlan::Pull)
        } else {
            Some(UpdatePlan::Skip)
        },
        None => None,
    }
}

/// Records that the playlist was updated at `at`; the other settings stay.
pub fn record_update(cfg: &mut Config, at: Timestamp)
    ensures
        final(cfg)@ == (ConfigView { last_updated: Some(at), ..old(cfg)@ }),
{
    cfg.last_updated = Some(at);
}

/// Settles a pull's outcome in the settings: after a pull that succeeded,
/// `at` (the time read after it) becomes the last update; after one that
/// failed the settings stay as they were, so that the next run tries again.
/// The outcome is handed back either way.
pub fn settle_update<E>(cfg: &mut Config, pulled: Result<(), E>, at: Timestamp) -> (r: Result<(), E>)
    ensures
        r == pulled,
        pulled is Ok ==> final(cfg)@ == (ConfigView { last_updated: Some(at), ..old(cfg)@ }),
        pulled is Err ==> final(cfg)@ == old(cfg)@,
{
    if pulled.is_ok() {
        record_update(cfg, at);
    }
    pulled
}

/// What `play` does about updating before it opens the player.
#[derive(Clone, Copy, Debug, PartialEq, Eq, Structural)]
pub enum PlayUpdate {
    /// The user asked for no update.
    Skip,
    /// Update, honouring the cooldown.
    Update,
    /// The settings disable updates on play; say so.
    Disabled,
    /// There is no repository here; say so.
    NoRepository,
}

impl PlayUpdate {
    /// The report that goes with the choice.
    pub fn message(&self) -> (r: Option<String>)
        ensures
            opt_view(r) == (match self {
                PlayUpdate::Disabled => Some("Updates on play are disabled."@),
                PlayUpdate::NoRepository => Some("Repository not found. Skipping update."@),
                _ => None,
            }),
    {
        match self {
            PlayUpdate::Disabled => Some("Updates on play are disabled.".to_owned()),
            PlayUpdate::NoRepository => Some("Repository not found. Skipping update.".to_owned()),
            _ => None,
        }
    }
}

/// Whether `play` updates first: not when asked not to, not without a
/// repository, not when the settings disable it.
pub open spec fn play_update_choice(no_update: bool, repo_found: bool, c: ConfigView) -> PlayUpdate {
    if no_update {
        PlayUpdate::Skip
    } else if !repo_found {
        PlayUpdate::NoRepository
    } else if c.disable_update_on_play == Some(true) {
        PlayUpdate::Disabled
    } else {
        PlayUpdate::Update
    }
}

/// Decides whether `play` updates first.
pub fn play_update(no_update: bool, repo_found: bool, cfg: &Config) -> (r: PlayUpdate)
    ensures
        r == play_update_choice(no_update, repo_found, cfg@),
{
    if no_update {
        PlayUpdate::Skip
    } else if !repo_found {
        PlayUpdate::NoRepository
    } else {
        match cfg.disable_update_on_play {
            Some(true) => PlayUpdate::Disabled,
            _ => PlayUpdate::Update,
        }
    }
}

/// Why `play` has no player to open.
#[derive(Clone, Copy, Debug, PartialEq, Eq, Structural)]
pub enum PlayerError {
    /// Neither the command nor the settings name a player.
    NotSpecified,
}

impl PlayerError {
    pub open spec fn text(self) -> Seq<char> {
        "Player not specified. Use `plg play <PLAYER>` to use it or `plg cfg --default-player <PLAYER>` to set it as a default player so you can only type `plg play`."@
    }

    /// The message that reports this error.
    pub fn message(&self) -> (r: String)
        ensures
            r@ == self.text(),
    {
        "Player not specified. Use `plg play <PLAYER>` to use it or `plg cfg --default-player <PLAYER>` to set it as a default player so you can only type `plg play`.".to_owned()
    }
}

/// The player that `play` opens: the one named on the command line, else
/// the default player of the settings, if either is there.
pub open spec fn chosen_player(player: Option<Seq<char>>, c: ConfigView) -> Option<Seq<char>> {
    if player is Some {
        player
    } else {
        c.default_player
    }
}

/// Chooses the player that `play` opens.
pub fn choose_player(player: Option<String>, cfg: &Config) -> (r: Result<String, PlayerError>)
    ensures
        match r {
            Ok(p) => chosen_player(opt_view(player), cfg@) == Some(p@),
            Err(e) => chosen_player(opt_view(player), cfg@) is None && e == PlayerError::NotSpecified,
        },
{
    match player {
        Some(p) => Ok(p),
        None => match &cfg.default_player {
            Some(p) => Ok(p.clone()),
            None => Err(PlayerError::NotSpecified),
        },
    }
}

/// The line that names the default player.
pub open spec fn default_player_text(c: ConfigView) -> Seq<char> {
    "Default player: "@ + match c.default_player {
        Some(p) => "\""@ + p + "\""@,
        None => "none"@,
    }
}

/// The line that tells when the playlist was last updated.
pub open spec fn last_updated_text(c: ConfigView) -> Seq<char> {
    "Last updated: "@ + match c.last_updated {
        Some(t) => "\""@ + shown_time(t) + "\""@,
        None => "never"@,
    }
}

/// The line that gives the cooldown in hours and minutes.
pub open spec fn cooldown_text(c: ConfigView) -> Seq<char> {
    "Update cooldown: "@ + match c.update_cooldown_m {
        Some(m) => "\""@ + decimal_text((m / 60) as nat) + " hours and "@ + decimal_text((m % 60) as nat)
            + " minutes\""@,
        None => "no cooldown"@,
    }
}

/// The line that tells whether `play` updates first: updates on play are
/// on unless the settings disable them.
pub open spec fn update_on_play_text(c: ConfigView) -> Seq<char> {
    if c.disable_update_on_play == Some(true) {
        "Update on play is disabled"@
    } else {
        "Update on play is enabled"@
    }
}

fn quoted(s: &str) -> (r: String)
    ensures
        r@ == "\""@ + s@ + "\""@,
{
    let mut r = "\"".to_owned();
    r.append(s);
    r.append("\"");
    r
}

/// Describes the default player.
pub fn default_player_label(cfg: &Config) -> (r: String)
    ensures
        r@ == default_player_text(cfg@),
{
    let mut r = "Default player: ".to_owned();
    match &cfg.default_player {
        Some(p) => {
            let q = quoted(p.as_str());
            r.append(q.as_str());
        },
        None => r.append("none"),
    }
    r
}

/// Describes the last update.
pub fn last_updated_label(cfg: &Config) -> (r: String)
    ensures
        r@ == last_updated_text(cfg@),
{
    let mut r = "Last updated: ".to_owned();
    match cfg.last_updated {
        Some(t) => {
            let d = display_datetime(t);
            let q = quoted(d.as_str());
            r.append(q.as_str());
        },
        None => r.append("never"),
    }
    r
}

/// Describes the cooldown.
pub fn cooldown_label(cfg: &Config) -> (r: String)
    ensures
        r@ == cooldown_text(cfg@),
{
    let mut r = "Update cooldown: ".to_owned();
    match cfg.update_cooldown_m {
        Some(m) => {
            r.append("\"");
            let h = decimal((m / 60) as u64);
            r.append(h.as_str());
            r.append(" hours and ");
            let mm = decimal((m % 60) as u64);
            r.append(mm.as_str());
            r.append(" minutes\"");
        },
        None => r.append("no cooldown"),
    }
    r
}

/// Describes whether `play` updates first.
pub fn update_on_play_label(cfg: &Config) -> (r: String)
    ensures
        r@ == update_on_play_text(cfg@),
{
    match cfg.disable_update_on_play {
        Some(true) => "Update on play is disabled".to_owned(),
        _ => "Update on play is enabled".to_owned(),
    }
}

/// The cooldown split into whole hours and remaining minutes, a missing
/// cooldown counting as none.
pub fn cooldown_parts(cfg: &Config) -> (r: (i32, i32))
    ensures
        r.0 == cooldown_of(cfg@) / 60,
        r.1 == cooldown_of(cfg@) % 60,
        60 * r.0 + r.1 == cooldown_of(cfg@),
{
    let m: u16 = match cfg.update_cooldown_m {
        Some(m) => m,
        None => 0,
    };
    ((m / 60) as i32, (m % 60) as i32)
}

/// A time that chrono cannot hold came up where the tool cannot go on.
#[derive(Clone, Copy, Debug, PartialEq, Eq, Structural)]
pub struct TimeOutOfRange;

/// The notice that an automatic update is being held back, with the
/// minutes until the next one.
pub open spec fn notice_text(cooldown: u16, minutes: i64) -> Seq<char> {
    "By default skipping update because of the update cooldown of "@ + decimal_text(cooldown as nat)
        + " minutes. Use the update options to override this behavior. Next update will be available in "@
        + signed_decimal_text(minutes as int) + " minutes."@
}

/// What the play page says about the cooldown at `now`: nothing when an
/// update is due, else the notice with the whole minutes from now until
/// the cooldown ends. An error where chrono's range is left.
pub open spec fn cooldown_notice_spec(c: ConfigView, now: Timestamp) -> Result<Option<Seq<char>>, TimeOutOfRange> {
    match minus_minutes(now, cooldown_of(c)) {
        None => Err(TimeOutOfRange),
        Some(start) => if start.at_or_after(last_update_of(c)) {
            Ok(None)
        } else {
            match plus_minutes(last_update_of(c), cooldown_of(c)) {
                None => Err(TimeOutOfRange),
                Some(end) => match minutes_between(end, now) {
                    None => Err(TimeOutOfRange),
                    Some(n) => Ok(Some(notice_text(cooldown_of(c), n))),
                },
            }
        },
    }
}

/// Times outside leap seconds, far enough inside chrono's range that the
/// cooldown can be counted from either of them.
pub open spec fn regular_window(c: ConfigView, now: Timestamp) -> bool {
    &&& now.is_regular()
    &&& last_update_of(c).is_regular()
    &&& now.secs - 60 * cooldown_of(c) >= crate::clock::min_secs()
    &&& last_update_of(c).secs + 60 * cooldown_of(c) <= crate::clock::max_secs()
}

/// For such times, the notice in plain arithmetic: none when at least the
/// cooldown has passed since the last update, else the whole minutes
/// (rounded toward zero) until it has.
pub open spec fn regular_notice(c: ConfigView, now: Timestamp) -> Option<Seq<char>> {
    let left = last_update_of(c).total_nanos() + cooldown_of(c) * 60_000_000_000 - now.total_nanos();
    if left <= 0 {
        None
    } else {
        Some(
            notice_text(
                cooldown_of(c),
                crate::clock::div_toward_zero(crate::clock::div_toward_zero(left, 1_000_000_000), 60) as i64,
            ),
        )
    }
}

/// For times chrono can hold, the notice as chrono's arithmetic gives it:
/// the cooldown counted back from now (`moved_back`); when that is not yet
/// the last update, the cooldown counted on from the last update
/// (`moved_forward`), and the whole minutes from now until then, counted
/// as `elapsed_nanos` says and rounded toward zero.
pub open spec fn valid_notice(c: ConfigView, now: Timestamp) -> Result<Option<Seq<char>>, TimeOutOfRange> {
    let minutes = cooldown_of(c) as int;
    let start = moved_back(now, minutes);
    let end = moved_forward(last_update_of(c), minutes);
    if start.0 < crate::clock::min_secs() {
        Err(TimeOutOfRange)
    } else if stamp(start).at_or_after(last_update_of(c)) {
        Ok(None)
    } else if end.0 > crate::clock::max_secs() {
        Err(TimeOutOfRange)
    } else {
        Ok(
            Some(
                notice_text(
                    cooldown_of(c),
                    crate::clock::div_toward_zero(
                        crate::clock::div_toward_zero(elapsed_nanos(stamp(end), now), 1_000_000_000),
                        60,
                    ) as i64,
                ),
            ),
        )
    }
}

/// Builds the cooldown notice of the play page.
pub fn cooldown_notice(cfg: &Config, now: Timestamp) -> (r: Result<Option<String>, TimeOutOfRange>)
    ensures
        match r {
            Ok(n) => cooldown_notice_spec(cfg@, now) == Ok::<Option<Seq<char>>, TimeOutOfRange>(opt_view(n)),
            Err(e) => cooldown_notice_spec(cfg@, now) == Err::<Option<Seq<char>>, TimeOutOfRange>(e),
        },
        now.is_valid() && last_update_of(cfg@).is_valid() ==> match r {
            Ok(n) => valid_notice(cfg@, now) == Ok::<Option<Seq<char>>, TimeOutOfRange>(opt_view(n)),
            Err(e) => valid_notice(cfg@, now) == Err::<Option<Seq<char>>, TimeOutOfRange>(e),
        },
        regular_window(cfg@, now) ==> (r matches Ok(n) && opt_view(n) == regular_notice(cfg@, now)),
{
    let ghost c = cfg@;
    let cooldown: u16 = match cfg.update_cooldown_m {
        Some(m) => m,
        None => 0,
    };
    let last = match cfg.last_updated {
        Some(t) => t,
        None => Timestamp::epoch(),
    };
    let start = match sub_minutes(now, cooldown) {
        Some(s) => s,
        None => return Err(TimeOutOfRange),
    };
    proof {
        if regular_window(c, now) {
            crate::clock::lemma_order_is_instant_order(start, last);
            crate::clock::lemma_shift_is_instant_shift(start, now, -(cooldown as int));
        }
    }
    if start.is_at_or_after(&last) {
        return Ok(None);
    }
    let end = match add_minutes(last, cooldown) {
        Some(e) => e,
        None => return Err(TimeOutOfRange),
    };
    let n = match whole_minutes_between(end, now) {
        Some(n) => n,
        None => return Err(TimeOutOfRange),
    };
    proof {
        if regular_window(c, now) {
            crate::clock::lemma_elapsed_is_instant_gap(end, now);
            crate::clock::lemma_shift_is_instant_shift(end, last, cooldown as int);
        }
    }
    let mut t = "By default skipping update because of the update cooldown of ".to_owned();
    let cd = decimal(cooldown as u64);
    t.append(cd.as_str());
    t.append(" minutes. Use the update options to override this behavior. Next update will be available in ");
    let ns = signed_decimal(n);
    t.append(ns.as_str());
    t.append(" minutes.");
    Ok(Some(t))
}

/// Resetting every setting keeps only the time of the last update and
/// otherwise gives the defaults.
pub proof fn lemma_reset_everything(c: ConfigView)
    ensures
        reset_config(c, true, true, true) == (ConfigView { last_updated: c.last_updated, ..default_config() }),
{
}

/// Resetting a setting undoes setting it: after `cfg` sets the cooldown,
/// `reset --update-cooldown` brings back the default cooldown, and likewise
/// for the default player and the update-on-play switch.
pub proof fn lemma_reset_undoes_configure(
    c: ConfigView,
    player: Seq<char>,
    minutes: Option<u8>,
    hours: Option<u8>,
    disable: bool,
)
    ensures
        reset_config(configured(c, Some(player), minutes, hours, Some(disable)), true, true, true)
            == reset_config(c, true, true, true),
{
}

/// `cfg` with hours and minutes sets a cooldown of sixty minutes per hour
/// plus the minutes; with only one of them the other counts as zero.
pub proof fn lemma_cooldown_from_options(c: ConfigView, minutes: Option<u8>, hours: Option<u8>)
    requires
        minutes is Some || hours is Some,
    ensures
        cooldown_of(configured(c, None, minutes, hours, None)) == 60 * (match hours {
            Some(h) => h as int,
            None => 0,
        }) + (match minutes {
            Some(m) => m as int,
            None => 0,
        }),
{
}

/// `cfg --default-player P` makes `play` without a player open P, while a
/// player named on the command line still wins.
pub proof fn lemma_default_player_used(c: ConfigView, p: Seq<char>, q: Seq<char>)
    ensures
        chosen_player(None, configured(c, Some(p), None, None, None)) == Some(p),
        chosen_player(Some(q), configured(c, Some(p), None, None, None)) == Some(q),
{
}

/// `cfg --disable-update-on-play true` stops `play` from updating;
/// `cfg --disable-update-on-play false` and `reset --disable-update-on-play`
/// let it update again (when a repository is there and no update was
/// declined).
pub proof fn lemma_update_on_play_switch(c: ConfigView)
    ensures
        play_update_choice(false, true, configured(c, None, None, None, Some(true))) == PlayUpdate::Disabled,
        play_update_choice(false, true, configured(c, None, None, None, Some(false))) == PlayUpdate::Update,
        play_update_choice(false, true, reset_config(c, false, false, true)) == PlayUpdate::Update,
{
}

/// The settings page says updates on play are enabled exactly when `play`
/// (with a repository, and no update declined) would update; the default
/// settings show them enabled.
pub proof fn lemma_update_on_play_label_matches(c: ConfigView)
    ensures
        (update_on_play_text(c) == "Update on play is enabled"@) <==> (play_update_choice(false, true, c)
            == PlayUpdate::Update),
        update_on_play_text(default_config()) == "Update on play is enabled"@,
{
    reveal_strlit("Update on play is enabled");
    reveal_strlit("Update on play is disabled");
    assert("Update on play is disabled"@[19] != "Update on play is enabled"@[19]);
}

/// The play page shows the cooldown notice exactly when an update that
/// honours the cooldown would be skipped: no notice means the update is
/// due, and where the update cannot be decided neither can the notice.
pub proof fn lemma_notice_matches_update(c: ConfigView, now: Timestamp)
    ensures
        (cooldown_notice_spec(c, now) == Ok::<Option<Seq<char>>, TimeOutOfRange>(None)) <==> (update_decision(c, now, false)
            == Some(true)),
        update_decision(c, now, false) is None ==> cooldown_notice_spec(c, now) is Err,
        (cooldown_notice_spec(c, now) matches Ok(Some(_))) ==> update_decision(c, now, false) == Some(false),
{
}

/// `cfg` changes only the settings whose options are given: an option left
/// out keeps its setting, a given one replaces it, and the time of the last
/// update is never touched. So `cfg --default-player` after
/// `cfg --disable-update-on-play true` leaves updates on play disabled.
pub proof fn lemma_configure_changes_only_given_options(
    c: ConfigView,
    default_player: Option<Seq<char>>,
    minutes: Option<u8>,
    hours: Option<u8>,
    disable_update_on_play: Option<bool>,
    b: bool,
    p: Seq<char>,
)
    ensures
        ({
            let n = configured(c, default_player, minutes, hours, disable_update_on_play);
            &&& n.last_updated == c.last_updated
            &&& default_player is None ==> n.default_player == c.default_player
            &&& default_player is Some ==> n.default_player == default_player
            &&& minutes is None && hours is None ==> n.update_cooldown_m == c.update_cooldown_m
            &&& disable_update_on_play is None ==> n.disable_update_on_play == c.disable_update_on_play
            &&& disable_update_on_play is Some ==> n.disable_update_on_play == disable_update_on_play
        }),
        configured(configured(c, None, None, None, Some(b)), Some(p), None, None, None).disable_update_on_play
            == Some(b),
        configured(configured(c, None, None, None, Some(b)), Some(p), None, None, None).default_player == Some(p),
{
}

/// `reset` puts back to its default exactly the settings chosen for it:
/// each chosen one gets its default, each other one keeps its value, and
/// the time of the last update is never touched.
pub proof fn lemma_reset_changes_only_chosen(
    c: ConfigView,
    default_player: bool,
    update_cooldown: bool,
    disable_update_on_play: bool,
)
    ensures
        ({
            let n = reset_config(c, default_player, update_cooldown, disable_update_on_play);
            &&& n.last_updated == c.last_updated
            &&& n.default_player == (if default_player { default_config().default_player } else { c.default_player })
            &&& n.update_cooldown_m == (if update_cooldown {
                default_config().update_cooldown_m
            } else {
                c.update_cooldown_m
            })
            &&& n.disable_update_on_play == (if disable_update_on_play {
                default_config().disable_update_on_play
            } else {
                c.disable_update_on_play
            })
        }),
        reset_config(c, false, false, false) == c,
{
}

} // verus!
