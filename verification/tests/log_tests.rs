use plg::log::{append_output, log_line, log_options, log_route, LogOptions, LogRoute};

#[test]
fn get_flag_matches_yt_dlp_flags() {
    assert_eq!(LogOptions::Quiet.get_flag(), Some("--quiet"));
    assert_eq!(LogOptions::Normal.get_flag(), None);
    assert_eq!(LogOptions::Verbose.get_flag(), Some("--verbose"));
}

#[test]
fn levels_are_ordered() {
    assert_eq!(LogOptions::Quiet.rank(), 0);
    assert_eq!(LogOptions::Normal.rank(), 1);
    assert_eq!(LogOptions::Verbose.rank(), 2);
}

#[test]
fn normal_messages_hidden_only_when_quiet() {
    assert!(!LogOptions::Quiet.logs(false));
    assert!(LogOptions::Normal.logs(false));
    assert!(LogOptions::Verbose.logs(false));
}

#[test]
fn verbose_messages_only_when_verbose() {
    assert!(!LogOptions::Quiet.logs(true));
    assert!(!LogOptions::Normal.logs(true));
    assert!(LogOptions::Verbose.logs(true));
}

#[test]
fn quiet_switch_wins_over_verbose() {
    assert_eq!(log_options(true, true), LogOptions::Quiet);
    assert_eq!(log_options(true, false), LogOptions::Quiet);
    assert_eq!(log_options(false, true), LogOptions::Verbose);
    assert_eq!(log_options(false, false), LogOptions::Normal);
}

#[test]
fn reports_go_to_the_sink_when_one_is_installed() {
    assert_eq!(log_route(LogOptions::Quiet, true), LogRoute::Sink);
    assert_eq!(log_route(LogOptions::Normal, true), LogRoute::Sink);
    assert_eq!(log_route(LogOptions::Normal, false), LogRoute::Stdout);
    assert_eq!(log_route(LogOptions::Verbose, false), LogRoute::Stdout);
    assert_eq!(log_route(LogOptions::Quiet, false), LogRoute::Discard);
}

#[test]
fn log_line_ends_with_a_line_break() {
    assert_eq!(log_line("Downloading..."), "Downloading...\n");
    assert_eq!(log_line(""), "\n");
}

#[test]
fn plain_output_is_appended() {
    let mut out = String::from("abc\n");
    append_output(&mut out, "def");
    assert_eq!(out, "abc\ndef");
}

#[test]
fn carriage_return_rewinds_to_line_start() {
    let mut out = String::from("done\n 10%");
    append_output(&mut out, "\r 20%");
    assert_eq!(out, "done\n 20%");
}

#[test]
fn carriage_return_without_line_break_clears() {
    let mut out = String::from(" 10%");
    append_output(&mut out, "\r 55%\r 60%");
    assert_eq!(out, " 60%");
}

#[test]
fn carriage_return_right_after_line_break_keeps_it() {
    let mut out = String::from("a\n");
    append_output(&mut out, "\rb");
    assert_eq!(out, "a\nb");
}

#[test]
fn chunks_may_be_cut_anywhere() {
    let whole = "[download]  1%\r[download] 50%\r[download] 100%\nDone\r";
    let mut at_once = String::from("start\n");
    append_output(&mut at_once, whole);
    for cut in 0..whole.len() {
        if !whole.is_char_boundary(cut) {
            continue;
        }
        let mut piecewise = String::from("start\n");
        append_output(&mut piecewise, &whole[..cut]);
        append_output(&mut piecewise, &whole[cut..]);
        assert_eq!(piecewise, at_once);
    }
    assert_eq!(at_once, "start\n[download] 100%\n");
}

#[test]
fn transcript_never_gains_carriage_returns() {
    let mut out = String::new();
    append_output(&mut out, "x\ry\r\nz\r");
    assert!(!out.contains('\r'));
    assert_eq!(out, "\n");
}

#[test]
fn multibyte_characters_survive() {
    let mut out = String::from("Žlender\n");
    append_output(&mut out, "ü\rö");
    assert_eq!(out, "Žlender\nö");
}
