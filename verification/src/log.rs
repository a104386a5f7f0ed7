//! How much the tool reports, where a report goes, and how a growing
//! transcript of process output absorbs carriage returns.

use vstd::prelude::*;
use crate::text::{chars_of, string_of, push_char};

verus! {

/// How much the tool reports: nothing, the usual progress, or everything.
#[derive(Clone, Copy, Debug, PartialEq, Eq, Structural, PartialOrd, Ord, Hash)]
pub enum LogOptions {
    Quiet,
    Normal,
    Verbose,
}

impl LogOptions {
    /// The rank of a level: quiet below normal below verbose.
    pub open spec fn level(self) -> int {
        match self {
            LogOptions::Quiet => 0,
            LogOptions::Normal => 1,
            LogOptions::Verbose => 2,
        }
    }

    /// The yt-dlp flag that selects the same amount of output, if any.
    pub open spec fn flag(self) -> Option<Seq<char>> {
        match self {
            LogOptions::Quiet => Some("--quiet"@),
            LogOptions::Normal => None,
            LogOptions::Verbose => Some("--verbose"@),
        }
    }

    /// Whether a message is shown at this level: a verbose-only message
    /// only at `Verbose`, any other message at every level but `Quiet`.
    pub open spec fn shows(self, verbose_only: bool) -> bool {
        if verbose_only {
            self == LogOptions::Verbose
        } else {
            self.level() > 0
        }
    }

    /// The yt-dlp command-line flag for this level.
    pub fn get_flag(&self) -> (r: Option<&'static str>)
        ensures
            match r {
                Some(s) => self.flag() == Some(s@),
                None => self.flag() is None,
            },
    {
        match self {
            LogOptions::Quiet => Some("--quiet"),
            LogOptions::Normal => None,
            LogOptions::Verbose => Some("--verbose"),
        }
    }

    /// The rank of this level, as a number.
    pub fn rank(&self) -> (r: u8)
        ensures
            r == self.level(),
    {
        match self {
            LogOptions::Quiet => 0,
            LogOptions::Normal => 1,
            LogOptions::Verbose => 2,
        }
    }

    /// Whether a message of the given kind is shown at this level.
    pub fn logs(&self, verbose_only: bool) -> (r: bool)
        ensures
            r == self.shows(verbose_only),
    {
        if verbose_only {
            *self == LogOptions::Verbose
        } else {
            self.rank() > 0
        }
    }
}

/// The level chosen by the command-line switches: `--quiet` wins over
/// `--verbose`, and neither gives the normal level.
pub fn log_options(quiet: bool, verbose: bool) -> (lo: LogOptions)
    ensures
        lo == (if quiet {
            LogOptions::Quiet
        } else if verbose {
            LogOptions::Verbose
        } else {
            LogOptions::Normal
        }),
{
    if quiet {
        LogOptions::Quiet
    } else if verbose {
        LogOptions::Verbose
    } else {
        LogOptions::Normal
    }
}

/// Where a report goes.
#[derive(Clone, Copy, Debug, PartialEq, Eq, Structural)]
pub enum LogRoute {
    /// To the installed sink (the window's transcript).
    Sink,
    /// To standard output.
    Stdout,
    /// Nowhere.
    Discard,
}

/// Where a report at `level` goes: to the sink whenever one is installed,
/// else to standard output unless the level is quiet.
pub fn log_route(level: LogOptions, has_sink: bool) -> (r: LogRoute)
    ensures
        r == (if has_sink {
            LogRoute::Sink
        } else if level.level() > 0 {
            LogRoute::Stdout
        } else {
            LogRoute::Discard
        }),
{
    if has_sink {
        LogRoute::Sink
    } else if level.rank() > 0 {
        LogRoute::Stdout
    } else {
        LogRoute::Discard
    }
}

/// A report as it is written: the message and a line break.
pub fn log_line(message: &str) -> (r: String)
    ensures
        r@ == message@.push('\n'),
{
    let mut r = message.to_owned();
    push_char(&mut r, '\n');
    r
}

/// What a carriage return leaves of a transcript: everything up to and
/// including the last line break, or nothing when there is none.
pub open spec fn line_start(out: Seq<char>) -> Seq<char>
    decreases out.len(),
{
    if out.len() == 0 {
        out
    } else if out.last() == '\n' {
        out
    } else {
        line_start(out.drop_last())
    }
}

/// The transcript after one more character: a carriage return rewinds to
/// the start of the current line, any other character is appended.
pub open spec fn feed_char(out: Seq<char>, c: char) -> Seq<char> {
    if c == '\r' {
        line_start(out)
    } else {
        out.push(c)
    }
}

/// The transcript after a chunk of characters, taken in order.
pub open spec fn feed(out: Seq<char>, chunk: Seq<char>) -> Seq<char>
    decreases chunk.len(),
{
    if chunk.len() == 0 {
        out
    } else {
        feed_char(feed(out, chunk.drop_last()), chunk.last())
    }
}

/// Adds a chunk of process output to the transcript shown in the window.
pub fn append_output(output: &mut String, chunk: &str)
    ensures
        final(output)@ == feed(old(output)@, chunk@),
{
    let mut v = chars_of(output.as_str());
    let cs = chars_of(chunk);
    let ghost start = v@;
    let mut i: usize = 0;
    while i < cs.len()
        invariant
            i <= cs.len(),
            cs@ == chunk@,
            v@ == feed(start, cs@.take(i as int)),
        decreases cs.len() - i,
    {
        let c = cs[i];
        assert(cs@.take(i + 1).drop_last() == cs@.take(i as int));
        if c == '\r' {
            let ghost before = v@;
            while v.len() > 0 && v[v.len() - 1] != '\n'
                invariant
                    line_start(v@) == line_start(before),
                decreases v.len(),
            {
                let ghost prev = v@;
                v.pop();
                assert(v@ == prev.drop_last());
            }
        } else {
            v.push(c);
        }
        i = i + 1;
    }
    assert(cs@.take(cs.len() as int) == cs@);
    *output = string_of(&v);
}

/// Feeding two chunks one after the other gives the same transcript as
/// feeding them joined: the transcript does not depend on where the
/// process output happened to be cut into chunks.
pub proof fn lemma_feed_concat(out: Seq<char>, a: Seq<char>, b: Seq<char>)
    ensures
        feed(out, a + b) == feed(feed(out, a), b),
    decreases b.len(),
{
    if b.len() == 0 {
        assert(a + b == a);
    } else {
        lemma_feed_concat(out, a, b.drop_last());
        assert((a + b).drop_last() == a + b.drop_last());
        assert((a + b).last() == b.last());
    }
}

/// Text without carriage returns is appended as it is.
pub proof fn lemma_feed_plain(out: Seq<char>, s: Seq<char>)
    requires
        !s.contains('\r'),
    ensures
        feed(out, s) == out + s,
    decreases s.len(),
{
    if s.len() > 0 {
        assert(!s.drop_last().contains('\r')) by {
            if s.drop_last().contains('\r') {
                let k = choose|k: int| 0 <= k < s.drop_last().len() && s.drop_last()[k] == '\r';
                assert(s[k] == '\r');
            }
        }
        assert(s[s.len() - 1] != '\r');
        lemma_feed_plain(out, s.drop_last());
        assert(out + s.drop_last() + seq![s.last()] == out + s);
    }
}

proof fn lemma_line_start_clean(out: Seq<char>)
    requires
        !out.contains('\r'),
    ensures
        !line_start(out).contains('\r'),
        line_start(out).len() <= out.len(),
        line_start(out) == out.take(line_start(out).len() as int),
    decreases out.len(),
{
    if out.len() > 0 && out.last() != '\n' {
        assert(!out.drop_last().contains('\r')) by {
            if out.drop_last().contains('\r') {
                let k = choose|k: int| 0 <= k < out.drop_last().len() && out.drop_last()[k] == '\r';
                assert(out[k] == '\r');
            }
        }
        lemma_line_start_clean(out.drop_last());
        assert(out.drop_last().take(line_start(out).len() as int) == out.take(line_start(out).len() as int));
    } else {
        assert(out.take(out.len() as int) == out);
    }
}

/// A transcript without carriage returns stays without them, whatever
/// output is fed to it.
pub proof fn lemma_feed_clean(out: Seq<char>, chunk: Seq<char>)
    requires
        !out.contains('\r'),
    ensures
        !feed(out, chunk).contains('\r'),
    decreases chunk.len(),
{
    if chunk.len() > 0 {
        lemma_feed_clean(out, chunk.drop_last());
        let prev = feed(out, chunk.drop_last());
        if chunk.last() == '\r' {
            lemma_line_start_clean(prev);
        } else {
            assert(!prev.push(chunk.last()).contains('\r')) by {
                if prev.push(chunk.last()).contains('\r') {
                    let k = choose|k: int| 0 <= k < prev.push(chunk.last()).len() && prev.push(chunk.last())[k] == '\r';
                    if k < prev.len() {
                        assert(prev[k] == '\r');
                    }
                }
            }
        }
    }
}

/// A carriage return followed by text replaces the current line: after
/// `"\r"` and a line without breaks or returns, the transcript is the part
/// before the current line followed by that text.
pub proof fn lemma_carriage_return_overwrites(out: Seq<char>, line: Seq<char>)
    requires
        !line.contains('\r'),
    ensures
        feed(out, seq!['\r'] + line) == line_start(out) + line,
{
    lemma_feed_concat(out, seq!['\r'], line);
    assert(seq!['\r'].drop_last() == Seq::<char>::empty());
    assert(feed(out, Seq::<char>::empty()) == out);
    assert(feed(out, seq!['\r']) == line_start(out));
    lemma_feed_plain(line_start(out), line);
}

} // verus!
