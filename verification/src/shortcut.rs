//! Shortcuts that open the playlist: which names are acceptable, and the
//! launcher files written for them.

use vstd::prelude::*;
use vstd::string::StringExecFns;
use crate::text::{chars_of, opt_view, push_char, same_text};

verus! {

/// Unicode's White_Space property, which `char::is_whitespace` and
/// `str::trim` go by.
pub open spec fn white_space(c: char) -> bool {
    let v = c as u32;
    ||| 0x09 <= v <= 0x0D
    ||| v == 0x20
    ||| v == 0x85
    ||| v == 0xA0
    ||| v == 0x1680
    ||| 0x2000 <= v <= 0x200A
    ||| v == 0x2028
    ||| v == 0x2029
    ||| v == 0x202F
    ||| v == 0x205F
    ||| v == 0x3000
}

/// Whether a character is white space.
pub fn is_white_space(c: char) -> (r: bool)
    ensures
        r == white_space(c),
{
    let v = c as u32;
    (0x09 <= v && v <= 0x0D) || v == 0x20 || v == 0x85 || v == 0xA0 || v == 0x1680 || (0x2000 <= v
        && v <= 0x200A) || v == 0x2028 || v == 0x2029 || v == 0x202F || v == 0x205F || v == 0x3000
}

/// Whether a text is empty once white space is trimmed from both ends,
/// that is, whether it holds nothing but white space.
pub open spec fn blank(s: Seq<char>) -> bool {
    forall|i: int| 0 <= i < s.len() ==> white_space(#[trigger] s[i])
}

/// Whether a text holds nothing but white space.
pub fn is_blank(s: &str) -> (r: bool)
    ensures
        r == blank(s@),
{
    let cs = chars_of(s);
    let mut i: usize = 0;
    while i < cs.len()
        invariant
            cs@ == s@,
            i <= cs.len(),
            forall|k: int| 0 <= k < i ==> white_space(#[trigger] cs@[k]),
        decreases cs.len() - i,
    {
        if !is_white_space(cs[i]) {
            return false;
        }
        i = i + 1;
    }
    true
}

/// A name with none of the characters that a platform reads as a
/// separator or a prefix: `/` separates components everywhere, a backslash
/// also does on Windows, and a Windows prefix needs a `:` or a leading
/// backslash.
pub open spec fn no_separator(s: Seq<char>) -> bool {
    &&& !s.contains('/')
    &&& !s.contains('\\')
    &&& !s.contains(':')
}

/// What `std::path::Path::file_name` gives for `name`, as text: the last
/// component of `name` read as a path by the rules of the platform that
/// the program is built for.
pub uninterp spec fn path_file_name(name: Seq<char>) -> Option<Seq<char>>;

/// The last component of `name` read as a path, as text.
///
/// Trusted: calls `std::path::Path::file_name` and converts the result to
/// a string. The result is named `path_file_name`. Which characters
/// separate components depends on the platform, so the contract states
/// only what holds everywhere: the component is not empty and holds no
/// `/`, a path that ends in `..` has none, and a name that is not empty,
/// not `.` or `..`, and has no separator is a single component, its own
/// last one. For a name with a backslash or a `:` the result is left
/// unsaid beyond its name.
#[verifier::external_body]
fn final_component(name: &str) -> (r: Option<String>)
    ensures
        opt_view(r) == path_file_name(name@),
        r is Some ==> r.unwrap()@.len() > 0 && !r.unwrap()@.contains('/'),
        name@ == ".."@ ==> r is None,
        name@.len() > 0 && no_separator(name@) && name@ != "."@ && name@ != ".."@ ==> r is Some
            && r.unwrap()@ == name@,
{
    let f = std::path::Path::new(name).file_name()?;
    f.to_str().map(String::from)
}

/// Whether `name` is accepted as a shortcut's name, given `component`, the
/// last component of `name` read as a path: it must not be blank, nor `.`
/// or `..`, and it must be that whole component.
pub open spec fn accepted_name(name: Seq<char>, component: Option<Seq<char>>) -> bool {
    &&& !blank(name)
    &&& name != "."@
    &&& name != ".."@
    &&& component == Some(name)
}

/// Whether `name` is accepted as a shortcut's name, given the last
/// component of `name` read as a path.
pub fn shortcut_name_accepted(name: &str, component: Option<&str>) -> (r: bool)
    ensures
        r == accepted_name(name@, match component {
            Some(c) => Some(c@),
            None => None,
        }),
{
    if is_blank(name) || same_text(name, ".") || same_text(name, "..") {
        return false;
    }
    match component {
        Some(c) => same_text(c, name),
        None => false,
    }
}

/// Whether `name` is a simple file name, fit for a shortcut: not blank,
/// not `.` or `..`, and a single path component on this platform. An
/// accepted name never holds a `/`; a name without separators is accepted
/// exactly when it is not blank, `.` or `..`.
pub fn shortcut_name_is_valid(name: &str) -> (r: bool)
    ensures
        r == accepted_name(name@, path_file_name(name@)),
        r ==> !blank(name@) && name@ != "."@ && name@ != ".."@ && !name@.contains('/'),
        no_separator(name@) ==> (r <==> !blank(name@) && name@ != "."@ && name@ != ".."@),
{
    proof {
        reveal_strlit(".");
        reveal_strlit("..");
    }
    let component = final_component(name);
    match &component {
        Some(c) => shortcut_name_accepted(name, Some(c.as_str())),
        None => shortcut_name_accepted(name, None),
    }
}

/// A character of a desktop-entry value: line breaks become spaces.
pub open spec fn value_char(c: char) -> Seq<char> {
    if c == '\n' || c == '\r' {
        seq![' ']
    } else {
        seq![c]
    }
}

/// A character of a desktop entry's command: backslash, double quote,
/// dollar and backquote get a backslash before them.
pub open spec fn exec_char(c: char) -> Seq<char> {
    if c == '\\' || c == '"' || c == '$' || c == '`' {
        seq!['\\', c]
    } else {
        seq![c]
    }
}

/// A character of a batch-file argument: a double quote is doubled.
pub open spec fn batch_char(c: char) -> Seq<char> {
    if c == '"' {
        seq!['"', '"']
    } else {
        seq![c]
    }
}

/// The characters of `s`, each written by `f`.
pub open spec fn expand(s: Seq<char>, f: spec_fn(char) -> Seq<char>) -> Seq<char>
    decreases s.len(),
{
    if s.len() == 0 {
        Seq::empty()
    } else {
        expand(s.drop_last(), f) + f(s.last())
    }
}

/// Which escaping a text gets.
#[derive(Clone, Copy, Debug, PartialEq, Eq, Structural)]
pub enum Escape {
    Value,
    Exec,
    Batch,
}

pub open spec fn escape_fn(e: Escape) -> spec_fn(char) -> Seq<char> {
    match e {
        Escape::Value => |c: char| value_char(c),
        Escape::Exec => |c: char| exec_char(c),
        Escape::Batch => |c: char| batch_char(c),
    }
}

/// A text escaped for a launcher file.
pub fn escape(s: &str, e: Escape) -> (r: String)
    ensures
        r@ == expand(s@, escape_fn(e)),
{
    let cs = chars_of(s);
    let mut r = String::new();
    let mut i: usize = 0;
    while i < cs.len()
        invariant
            cs@ == s@,
            i <= cs.len(),
            r@ == expand(cs@.take(i as int), escape_fn(e)),
        decreases cs.len() - i,
    {
        let c = cs[i];
        assert(cs@.take(i + 1).drop_last() == cs@.take(i as int));
        let ghost before = r@;
        match e {
            Escape::Value => {
                if c == '\n' || c == '\r' {
                    push_char(&mut r, ' ');
                } else {
                    push_char(&mut r, c);
                }
            },
            Escape::Exec => {
                if c == '\\' || c == '"' || c == '$' || c == '`' {
                    push_char(&mut r, '\\');
                }
                push_char(&mut r, c);
            },
            Escape::Batch => {
                if c == '"' {
                    push_char(&mut r, '"');
                }
                push_char(&mut r, c);
            },
        }
        assert(r@ =~= before + escape_fn(e)(c));
        i = i + 1;
    }
    assert(cs@.take(cs.len() as int) == cs@);
    r
}

/// The desktop entry that opens the playlist in `playlist_dir` with the
/// program at `executable`.
pub open spec fn desktop_entry_text(name: Seq<char>, executable: Seq<char>, playlist_dir: Seq<char>) -> Seq<char> {
    "[Desktop Entry]\nType=Application\nName="@ + expand(name, escape_fn(Escape::Value))
        + "\nComment=Open playlist with PLG\nExec=\""@ + expand(executable, escape_fn(Escape::Exec))
        + "\" play\nPath="@ + expand(playlist_dir, escape_fn(Escape::Value))
        + "\nIcon=plg\nTerminal=false\n"@
}

/// The contents of a desktop entry for the playlist.
pub fn desktop_entry(name: &str, executable: &str, playlist_dir: &str) -> (r: String)
    ensures
        r@ == desktop_entry_text(name@, executable@, playlist_dir@),
{
    let mut r = "[Desktop Entry]\nType=Application\nName=".to_owned();
    let n = escape(name, Escape::Value);
    r.append(n.as_str());
    r.append("\nComment=Open playlist with PLG\nExec=\"");
    let x = escape(executable, Escape::Exec);
    r.append(x.as_str());
    r.append("\" play\nPath=");
    let p = escape(playlist_dir, Escape::Value);
    r.append(p.as_str());
    r.append("\nIcon=plg\nTerminal=false\n");
    r
}

/// A batch-file argument in double quotes.
pub open spec fn batch_quoted(s: Seq<char>) -> Seq<char> {
    "\""@ + expand(s, escape_fn(Escape::Batch)) + "\""@
}

/// The batch script that opens the playlist in `playlist_dir` with the
/// program at `executable`.
pub open spec fn batch_script_text(playlist_dir: Seq<char>, executable: Seq<char>) -> Seq<char> {
    "@echo off\ncd /d "@ + batch_quoted(playlist_dir) + "\n"@ + batch_quoted(executable) + " play\n"@
}

/// The contents of a batch script for the playlist.
pub fn batch_script(playlist_dir: &str, executable: &str) -> (r: String)
    ensures
        r@ == batch_script_text(playlist_dir@, executable@),
{
    let mut r = "@echo off\ncd /d ".to_owned();
    r.append("\"");
    let d = escape(playlist_dir, Escape::Batch);
    r.append(d.as_str());
    r.append("\"");
    r.append("\n");
    r.append("\"");
    let x = escape(executable, Escape::Batch);
    r.append(x.as_str());
    r.append("\"");
    r.append(" play\n");
    r
}

/// Which kind of launcher a platform uses.
#[derive(Clone, Copy, Debug, PartialEq, Eq, Structural)]
pub enum LauncherKind {
    /// A `.desktop` entry.
    DesktopEntry,
    /// A `.bat` script.
    BatchScript,
}

/// The file name of a shortcut.
pub open spec fn shortcut_file_text(name: Seq<char>, kind: LauncherKind) -> Seq<char> {
    match kind {
        LauncherKind::DesktopEntry => name + ".desktop"@,
        LauncherKind::BatchScript => name + ".bat"@,
    }
}

/// Why a shortcut is not created.
#[derive(Clone, Copy, Debug, PartialEq, Eq, Structural)]
pub enum ShortcutError {
    /// The name is not a simple file name.
    InvalidName,
}

impl ShortcutError {
    pub open spec fn text(self) -> Seq<char> {
        "Shortcut name must be a simple file name."@
    }

    /// The message that reports this error.
    pub fn message(&self) -> (r: String)
        ensures
            r@ == self.text(),
    {
        "Shortcut name must be a simple file name.".to_owned()
    }
}

/// A launcher to write: its file name and contents.
pub struct Launcher {
    pub file_name: String,
    pub contents: String,
}

/// The contents of the launcher of the given kind.
pub open spec fn launcher_text(
    name: Seq<char>,
    executable: Seq<char>,
    playlist_dir: Seq<char>,
    kind: LauncherKind,
) -> Seq<char> {
    match kind {
        LauncherKind::DesktopEntry => desktop_entry_text(name, executable, playlist_dir),
        LauncherKind::BatchScript => batch_script_text(playlist_dir, executable),
    }
}

/// The launcher for a shortcut called `name`, given `component`, the last
/// component of `name` read as a path; or the refusal of an unacceptable
/// name. A desktop entry is named `<name>.desktop`, a batch script
/// `<name>.bat`.
pub fn launcher_for(
    name: &str,
    component: Option<&str>,
    executable: &str,
    playlist_dir: &str,
    kind: LauncherKind,
) -> (r: Result<Launcher, ShortcutError>)
    ensures
        r is Ok <==> accepted_name(name@, match component {
            Some(c) => Some(c@),
            None => None,
        }),
        r matches Ok(l) ==> l.file_name@ == shortcut_file_text(name@, kind) && l.contents@ == launcher_text(
            name@,
            executable@,
            playlist_dir@,
            kind,
        ),
        r matches Err(e) ==> e == ShortcutError::InvalidName,
{
    if !shortcut_name_accepted(name, component) {
        return Err(ShortcutError::InvalidName);
    }
    let mut file_name = name.to_owned();
    match kind {
        LauncherKind::DesktopEntry => {
            file_name.append(".desktop");
            Ok(Launcher { file_name, contents: desktop_entry(name, executable, playlist_dir) })
        },
        LauncherKind::BatchScript => {
            file_name.append(".bat");
            Ok(Launcher { file_name, contents: batch_script(playlist_dir, executable) })
        },
    }
}

/// The launcher for a shortcut called `name`, or the refusal of a name
/// that is not a simple file name on this platform. An accepted name is
/// not blank, `.` or `..` and holds no `/`; a name without separators is
/// accepted exactly when it is not blank, `.` or `..`.
pub fn create_shortcut(
    name: &str,
    executable: &str,
    playlist_dir: &str,
    kind: LauncherKind,
) -> (r: Result<Launcher, ShortcutError>)
    ensures
        r matches Ok(l) ==> l.file_name@ == shortcut_file_text(name@, kind) && l.contents@ == launcher_text(
            name@,
            executable@,
            playlist_dir@,
            kind,
        ),
        r is Ok <==> accepted_name(name@, path_file_name(name@)),
        r is Ok ==> !blank(name@) && name@ != "."@ && name@ != ".."@ && !name@.contains('/'),
        no_separator(name@) ==> (r is Ok <==> !blank(name@) && name@ != "."@ && name@ != ".."@),
        r matches Err(e) ==> e == ShortcutError::InvalidName,
{
    proof {
        reveal_strlit(".");
        reveal_strlit("..");
    }
    let component = final_component(name);
    match &component {
        Some(c) => launcher_for(name, Some(c.as_str()), executable, playlist_dir, kind),
        None => launcher_for(name, None, executable, playlist_dir, kind),
    }
}

/// A value escaped for a desktop entry holds no line break, so that it
/// cannot start a new key; and the escaping keeps the length.
pub proof fn lemma_value_single_line(s: Seq<char>)
    ensures
        !expand(s, escape_fn(Escape::Value)).contains('\n'),
        !expand(s, escape_fn(Escape::Value)).contains('\r'),
        expand(s, escape_fn(Escape::Value)).len() == s.len(),
    decreases s.len(),
{
    if s.len() > 0 {
        lemma_value_single_line(s.drop_last());
        let prev = expand(s.drop_last(), escape_fn(Escape::Value));
        let cur = expand(s, escape_fn(Escape::Value));
        assert(cur == prev + value_char(s.last()));
        assert forall|k: int| 0 <= k < cur.len() implies cur[k] != '\n' && cur[k] != '\r' by {
            if k < prev.len() {
                assert(cur[k] == prev[k]);
                assert(!prev.contains('\n'));
                assert(!prev.contains('\r'));
            }
        }
    }
}

/// In a command escaped for a desktop entry, every double quote, dollar
/// and backquote has a backslash right before it, so it cannot end the
/// quoted program path or start a substitution.
pub proof fn lemma_exec_quotes_escaped(s: Seq<char>)
    ensures
        ({
            let e = expand(s, escape_fn(Escape::Exec));
            forall|k: int| 0 <= k < e.len() && (#[trigger] e[k] == '"' || e[k] == '$' || e[k] == '`') ==> k > 0 && e[k - 1] == '\\'
        }),
    decreases s.len(),
{
    if s.len() > 0 {
        lemma_exec_quotes_escaped(s.drop_last());
        let prev = expand(s.drop_last(), escape_fn(Escape::Exec));
        let cur = expand(s, escape_fn(Escape::Exec));
        assert(cur == prev + exec_char(s.last()));
        assert forall|k: int| 0 <= k < cur.len() && (#[trigger] cur[k] == '"' || cur[k] == '$' || cur[k] == '`') implies k > 0
            && cur[k - 1] == '\\' by {
            if k < prev.len() {
                assert(cur[k] == prev[k]);
                assert(cur[k - 1] == prev[k - 1]);
            }
        }
    }
}

} // verus!
