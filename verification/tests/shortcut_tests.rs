use plg::shortcut::{
    batch_script, create_shortcut, desktop_entry, escape, is_blank, launcher_for, shortcut_name_accepted,
    shortcut_name_is_valid,
    Escape, LauncherKind, ShortcutError,
};

#[test]
fn simple_names_are_valid() {
    assert!(shortcut_name_is_valid("My playlist"));
    assert!(shortcut_name_is_valid("mix.2024"));
}

#[test]
fn unusable_names_are_rejected() {
    assert!(!shortcut_name_is_valid(""));
    assert!(!shortcut_name_is_valid("   "));
    assert!(!shortcut_name_is_valid("\t\u{3000}"));
    assert!(!shortcut_name_is_valid("."));
    assert!(!shortcut_name_is_valid(".."));
    assert!(!shortcut_name_is_valid("a/b"));
    assert!(!shortcut_name_is_valid("dir/"));
    assert!(!shortcut_name_is_valid("/"));
}

#[test]
fn acceptance_given_the_component() {
    assert!(shortcut_name_accepted("x", Some("x")));
    assert!(!shortcut_name_accepted("x/", Some("x")));
    assert!(!shortcut_name_accepted("..", None));
    assert!(!shortcut_name_accepted(" ", Some(" ")));
}

#[test]
fn blank_follows_unicode_white_space() {
    assert!(is_blank(""));
    assert!(is_blank(" \n\r\t\u{85}\u{a0}\u{2028}"));
    assert!(!is_blank(" a "));
    assert!(!is_blank("\u{200b}"));
}

#[test]
fn escaping() {
    assert_eq!(escape("a\nb\rc", Escape::Value), "a b c");
    assert_eq!(escape("/opt/$x/`y`/\"z\"\\", Escape::Exec), "/opt/\\$x/\\`y\\`/\\\"z\\\"\\\\");
    assert_eq!(escape("C:\\a\"b", Escape::Batch), "C:\\a\"\"b");
}

#[test]
fn desktop_entry_contents() {
    assert_eq!(
        desktop_entry("Mix\n", "/usr/bin/plg", "/home/u/music"),
        "[Desktop Entry]\nType=Application\nName=Mix \nComment=Open playlist with PLG\nExec=\"/usr/bin/plg\" play\nPath=/home/u/music\nIcon=plg\nTerminal=false\n"
    );
}

#[test]
fn batch_script_contents() {
    assert_eq!(
        batch_script("C:\\Music", "C:\\bin\\plg.exe"),
        "@echo off\ncd /d \"C:\\Music\"\n\"C:\\bin\\plg.exe\" play\n"
    );
}

#[test]
fn shortcut_launchers() {
    let l = create_shortcut("Mix", "/usr/bin/plg", "/m", LauncherKind::DesktopEntry).ok().unwrap();
    assert_eq!(l.file_name, "Mix.desktop");
    assert_eq!(l.contents, desktop_entry("Mix", "/usr/bin/plg", "/m"));
    let l = create_shortcut("Mix", "plg.exe", "M", LauncherKind::BatchScript).ok().unwrap();
    assert_eq!(l.file_name, "Mix.bat");
    assert_eq!(l.contents, batch_script("M", "plg.exe"));
}

#[test]
fn invalid_shortcut_name_is_refused() {
    match create_shortcut("a/b", "x", "y", LauncherKind::DesktopEntry) {
        Err(e) => {
            assert_eq!(e, ShortcutError::InvalidName);
            assert_eq!(e.message(), "Shortcut name must be a simple file name.");
        }
        Ok(_) => panic!("accepted"),
    }
}

#[test]
fn names_with_dots_and_accents_are_valid() {
    assert!(shortcut_name_is_valid("my.playlist"));
    assert!(shortcut_name_is_valid("Música"));
    assert!(shortcut_name_is_valid(".hidden"));
    let l = create_shortcut("my.playlist", "/usr/bin/plg", "/m", LauncherKind::DesktopEntry).ok().unwrap();
    assert_eq!(l.file_name, "my.playlist.desktop");
    let l = create_shortcut("Música", "plg.exe", "M", LauncherKind::BatchScript).ok().unwrap();
    assert_eq!(l.file_name, "Música.bat");
}

#[test]
fn launcher_follows_the_component() {
    let l = launcher_for("Mix", Some("Mix"), "/usr/bin/plg", "/m", LauncherKind::DesktopEntry).ok().unwrap();
    assert_eq!(l.file_name, "Mix.desktop");
    assert_eq!(
        l.contents,
        "[Desktop Entry]\nType=Application\nName=Mix\nComment=Open playlist with PLG\nExec=\"/usr/bin/plg\" play\nPath=/m\nIcon=plg\nTerminal=false\n"
    );
    assert!(matches!(
        launcher_for("a\\b", Some("b"), "x", "y", LauncherKind::BatchScript),
        Err(ShortcutError::InvalidName)
    ));
    assert!(matches!(launcher_for("Mix", None, "x", "y", LauncherKind::BatchScript), Err(ShortcutError::InvalidName)));
    assert!(matches!(launcher_for("  ", Some("  "), "x", "y", LauncherKind::BatchScript), Err(ShortcutError::InvalidName)));
    assert!(matches!(launcher_for("..", Some(".."), "x", "y", LauncherKind::BatchScript), Err(ShortcutError::InvalidName)));
}
