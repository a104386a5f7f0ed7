//! Downloading a song with yt-dlp: the arguments of each run, the order of
//! the runs and what their exit statuses mean, and how a chunk of the
//! process's output becomes text.

use vstd::prelude::*;
use vstd::utf8::{valid_utf8, decode_utf8};
use crate::log::LogOptions;
use crate::text::{views, opt_view};

verus! {

/// The arguments that update yt-dlp itself, at the given level.
pub open spec fn update_arg_list(lo: LogOptions) -> Seq<Seq<char>> {
    match lo.flag() {
        Some(f) => seq!["-U"@, f],
        None => seq!["-U"@],
    }
}

/// The arguments that download the audio of `url` as an mp3 named after
/// the title, with its metadata; at the normal level yt-dlp runs quietly.
pub open spec fn download_arg_list(lo: LogOptions, url: Seq<char>) -> Seq<Seq<char>> {
    let level = match lo.flag() {
        Some(f) => f,
        None => "--quiet"@,
    };
    seq![
        level,
        "--cookies-from-browser"@,
        "firefox"@,
        "-f"@,
        "ba"@,
        "-x"@,
        "--audio-format"@,
        "mp3"@,
        "--no-write-subs"@,
        "--no-write-thumbnail"@,
        "--add-metadata"@,
        "--embed-metadata"@,
        "-o"@,
        "%(title)s.%(ext)s"@,
        url
    ]
}

/// The arguments of the run that updates yt-dlp.
pub fn update_args(lo: LogOptions) -> (r: Vec<String>)
    ensures
        views(r@) == update_arg_list(lo),
{
    let mut r: Vec<String> = Vec::new();
    r.push("-U".to_owned());
    match lo.get_flag() {
        Some(f) => r.push(f.to_owned()),
        None => {},
    }
    assert(views(r@) =~= update_arg_list(lo));
    r
}

/// The arguments of the run that downloads `url`.
pub fn download_args(lo: LogOptions, url: &str) -> (r: Vec<String>)
    ensures
        views(r@) == download_arg_list(lo, url@),
{
    let mut r: Vec<String> = Vec::new();
    match lo.get_flag() {
        Some(f) => r.push(f.to_owned()),
        None => r.push("--quiet".to_owned()),
    }
    r.push("--cookies-from-browser".to_owned());
    r.push("firefox".to_owned());
    r.push("-f".to_owned());
    r.push("ba".to_owned());
    r.push("-x".to_owned());
    r.push("--audio-format".to_owned());
    r.push("mp3".to_owned());
    r.push("--no-write-subs".to_owned());
    r.push("--no-write-thumbnail".to_owned());
    r.push("--add-metadata".to_owned());
    r.push("--embed-metadata".to_owned());
    r.push("-o".to_owned());
    r.push("%(title)s.%(ext)s".to_owned());
    r.push(url.to_owned());
    assert(views(r@) =~= download_arg_list(lo, url@));
    r
}

/// Why a download did not complete.
#[derive(Clone, Copy, Debug, PartialEq, Eq, Structural)]
pub enum DownloadError {
    /// yt-dlp could not update itself.
    UpdateFailed,
    /// yt-dlp did not download the song.
    DownloadFailed,
}

impl DownloadError {
    pub open spec fn text(self) -> Seq<char> {
        match self {
            DownloadError::UpdateFailed => "yt-dlp update failed"@,
            DownloadError::DownloadFailed => "yt-dlp download failed"@,
        }
    }

    /// The message that reports this error.
    pub fn message(&self) -> (r: String)
        ensures
            r@ == self.text(),
    {
        match self {
            DownloadError::UpdateFailed => "yt-dlp update failed".to_owned(),
            DownloadError::DownloadFailed => "yt-dlp download failed".to_owned(),
        }
    }
}

/// Where a download session stands.
#[derive(Clone, Copy, Debug, PartialEq, Eq, Structural)]
pub enum DownloadStage {
    /// Nothing has run yet.
    Start,
    /// The update run has been started.
    Updating,
    /// The download run has been started.
    Fetching,
}

/// What to do next in a download session.
pub enum DownloadStep {
    /// Report `announce` if it is there, run yt-dlp with `args`, and come
    /// back at stage `next` with whether that run succeeded.
    Run { announce: Option<String>, args: Vec<String>, next: DownloadStage },
    /// Report `announce` if it is there; the session ends with `outcome`.
    Finish { announce: Option<String>, outcome: Result<(), DownloadError> },
}

/// A download step, seen as plain values.
pub ghost enum DownloadStepView {
    Run { announce: Option<Seq<char>>, args: Seq<Seq<char>>, next: DownloadStage },
    Finish { announce: Option<Seq<char>>, outcome: Result<(), DownloadError> },
}

impl DownloadStep {
    pub open spec fn view(self) -> DownloadStepView {
        match self {
            DownloadStep::Run { announce, args, next } => DownloadStepView::Run {
                announce: opt_view(announce),
                args: views(args@),
                next,
            },
            DownloadStep::Finish { announce, outcome } => DownloadStepView::Finish {
                announce: opt_view(announce),
                outcome,
            },
        }
    }
}

/// A progress report that is shown at every level but quiet.
pub open spec fn announce_at(lo: LogOptions, message: Seq<char>) -> Option<Seq<char>> {
    if lo.shows(false) {
        Some(message)
    } else {
        None
    }
}

/// The step of a download session at `stage`, given whether the last run
/// succeeded (ignored at the start): update yt-dlp, then download, and stop
/// at the first run that fails.
pub open spec fn download_plan(
    url: Seq<char>,
    lo: LogOptions,
    stage: DownloadStage,
    succeeded: bool,
) -> DownloadStepView {
    match stage {
        DownloadStage::Start => DownloadStepView::Run {
            announce: None,
            args: update_arg_list(lo),
            next: DownloadStage::Updating,
        },
        DownloadStage::Updating => if succeeded {
            DownloadStepView::Run {
                announce: announce_at(lo, "Downloading..."@),
                args: download_arg_list(lo, url),
                next: DownloadStage::Fetching,
            }
        } else {
            DownloadStepView::Finish { announce: None, outcome: Err(DownloadError::UpdateFailed) }
        },
        DownloadStage::Fetching => if succeeded {
            DownloadStepView::Finish { announce: announce_at(lo, "Downloaded"@), outcome: Ok(()) }
        } else {
            DownloadStepView::Finish { announce: None, outcome: Err(DownloadError::DownloadFailed) }
        },
    }
}

fn announce(lo: LogOptions, message: &str) -> (r: Option<String>)
    ensures
        opt_view(r) == announce_at(lo, message@),
{
    if lo.logs(false) {
        Some(message.to_owned())
    } else {
        None
    }
}

/// Downloads the audio of `url` with yt-dlp, one step at a time: the caller
/// starts at `DownloadStage::Start`, performs each `Run` and calls again
/// with the stage it names and whether the run exited successfully.
pub fn download(url: &str, lo: LogOptions, stage: DownloadStage, succeeded: bool) -> (r: DownloadStep)
    ensures
        r.view() == download_plan(url@, lo, stage, succeeded),
{
    match stage {
        DownloadStage::Start => DownloadStep::Run {
            announce: None,
            args: update_args(lo),
            next: DownloadStage::Updating,
        },
        DownloadStage::Updating => if succeeded {
            DownloadStep::Run {
                announce: announce(lo, "Downloading..."),
                args: download_args(lo, url),
                next: DownloadStage::Fetching,
            }
        } else {
            DownloadStep::Finish { announce: None, outcome: Err(DownloadError::UpdateFailed) }
        },
        DownloadStage::Fetching => if succeeded {
            DownloadStep::Finish { announce: announce(lo, "Downloaded"), outcome: Ok(()) }
        } else {
            DownloadStep::Finish { announce: None, outcome: Err(DownloadError::DownloadFailed) }
        },
    }
}

/// What a whole download session does, given the exit status of each run
/// in the order the runs happen: the argument lists of the runs it starts
/// and how it ends.
pub open spec fn download_session(
    url: Seq<char>,
    lo: LogOptions,
    stage: DownloadStage,
    succeeded: bool,
    statuses: Seq<bool>,
) -> (Seq<Seq<Seq<char>>>, Option<Result<(), DownloadError>>)
    decreases statuses.len(),
{
    match download_plan(url, lo, stage, succeeded) {
        DownloadStepView::Finish { outcome, .. } => (Seq::empty(), Some(outcome)),
        DownloadStepView::Run { args, next, .. } => if statuses.len() == 0 {
            (seq![args], None)
        } else {
            let rest = download_session(url, lo, next, statuses[0], statuses.drop_first());
            (seq![args] + rest.0, rest.1)
        },
    }
}

/// A download session first updates yt-dlp and then downloads, never the
/// other way round; it downloads only after a successful update, and it
/// ends in success exactly when both runs exit successfully.
pub proof fn lemma_download_session(url: Seq<char>, lo: LogOptions, update_ok: bool, download_ok: bool)
    ensures
        ({
            let s = download_session(url, lo, DownloadStage::Start, true, seq![update_ok, download_ok]);
            &&& s.0[0] == update_arg_list(lo)
            &&& s.0.len() == (if update_ok { 2int } else { 1int })
            &&& update_ok ==> s.0[1] == download_arg_list(lo, url)
            &&& s.1 == Some(
                if !update_ok {
                    Err(DownloadError::UpdateFailed)
                } else if !download_ok {
                    Err(DownloadError::DownloadFailed)
                } else {
                    Ok(())
                },
            )
        }),
{
    let st = seq![update_ok, download_ok];
    assert(st[0] == update_ok);
    assert(st.drop_first() =~= seq![download_ok]);
    assert(seq![download_ok].drop_first() =~= Seq::<bool>::empty());
    let inner = download_session(url, lo, DownloadStage::Fetching, download_ok, Seq::<bool>::empty());
    let mid = download_session(url, lo, DownloadStage::Updating, update_ok, seq![download_ok]);
    let all = download_session(url, lo, DownloadStage::Start, true, st);
    assert(all.0 == seq![update_arg_list(lo)] + mid.0);
    assert(all.1 == mid.1);
    if update_ok {
        assert(seq![download_ok][0] == download_ok);
        assert(mid.0 == seq![download_arg_list(lo, url)] + inner.0);
        assert(inner.0 =~= Seq::<Seq<Seq<char>>>::empty());
        assert(mid.0 =~= seq![download_arg_list(lo, url)]);
        assert(all.0 =~= seq![update_arg_list(lo), download_arg_list(lo, url)]);
    } else {
        assert(mid.0 =~= Seq::<Seq<Seq<char>>>::empty());
        assert(all.0 =~= seq![update_arg_list(lo)]);
    }
}

/// What `String::from_utf8_lossy` makes of a sequence of bytes.
pub uninterp spec fn utf8_lossy(bytes: Seq<u8>) -> Seq<char>;

/// Decodes bytes as UTF-8, replacing what is not valid UTF-8.
///
/// Trusted: calls `String::from_utf8_lossy`. Its result is named
/// `utf8_lossy`; of it the contract states only what the documentation
/// says plainly: valid UTF-8 is decoded as it is.
#[verifier::external_body]
fn decode_lossy(bytes: &[u8]) -> (r: String)
    ensures
        r@ == utf8_lossy(bytes@),
        valid_utf8(bytes@) ==> r@ == decode_utf8(bytes@),
{
    String::from_utf8_lossy(bytes).into_owned()
}

/// What one read of a process's output stream gives: nothing more when the
/// read returned no bytes (the stream has ended), else the bytes read,
/// decoded as text.
pub fn forward_process_output(buffer: &[u8], count: usize) -> (r: Option<String>)
    requires
        count <= buffer@.len(),
    ensures
        count == 0 ==> r is None,
        count > 0 ==> (r matches Some(s) && s@ == utf8_lossy(buffer@.take(count as int))),
        count > 0 && valid_utf8(buffer@.take(count as int)) ==> (r matches Some(s) && s@ == decode_utf8(buffer@.take(count as int))),
{
    if count == 0 {
        None
    } else {
        let (read, _) = buffer.split_at(count);
        assert(read@ == buffer@.take(count as int));
        Some(decode_lossy(read))
    }
}

/// The texts that a stream of reads gives, in order: each read that
/// returned bytes gives those bytes decoded; the first read that returned
/// none ends the stream, and the reads after it give nothing.
pub open spec fn stream_texts(reads: Seq<Seq<u8>>) -> Seq<Seq<char>>
    decreases reads.len(),
{
    if reads.len() == 0 || reads[0].len() == 0 {
        Seq::empty()
    } else {
        seq![utf8_lossy(reads[0])] + stream_texts(reads.drop_first())
    }
}

/// Whether a stream of reads has ended: one of them returned no bytes.
pub open spec fn stream_ended(reads: Seq<Seq<u8>>) -> bool {
    exists|i: int| 0 <= i < reads.len() && #[trigger] reads[i].len() == 0
}

/// One more read adds its decoded bytes to the texts of a stream that has
/// not ended and that it does not end, and nothing otherwise.
pub proof fn lemma_stream_one_more_read(reads: Seq<Seq<u8>>, read: Seq<u8>)
    ensures
        stream_texts(reads.push(read)) == (if stream_ended(reads) || read.len() == 0 {
            stream_texts(reads)
        } else {
            stream_texts(reads).push(utf8_lossy(read))
        }),
        stream_ended(reads.push(read)) <==> stream_ended(reads) || read.len() == 0,
    decreases reads.len(),
{
    let longer = reads.push(read);
    if stream_ended(reads) {
        let i = choose|i: int| 0 <= i < reads.len() && #[trigger] reads[i].len() == 0;
        assert(longer[i].len() == 0);
    }
    if read.len() == 0 {
        assert(longer[reads.len() as int].len() == 0);
    }
    if stream_ended(longer) && !stream_ended(reads) {
        let i = choose|i: int| 0 <= i < longer.len() && #[trigger] longer[i].len() == 0;
        if i < reads.len() {
            assert(reads[i].len() == 0);
        }
    }
    if reads.len() > 0 {
        assert(longer[0] == reads[0]);
        assert(longer.drop_first() =~= reads.drop_first().push(read));
        lemma_stream_one_more_read(reads.drop_first(), read);
        if reads[0].len() > 0 {
            if stream_ended(reads.drop_first()) {
                let i = choose|i: int| 0 <= i < reads.drop_first().len() && #[trigger] reads.drop_first()[i].len() == 0;
                assert(reads[i + 1].len() == 0);
            }
            if stream_ended(reads) {
                let i = choose|i: int| 0 <= i < reads.len() && #[trigger] reads[i].len() == 0;
                assert(reads.drop_first()[i - 1].len() == 0);
            }
            assert((seq![utf8_lossy(reads[0])] + stream_texts(reads.drop_first())).push(utf8_lossy(read))
                =~= seq![utf8_lossy(reads[0])] + stream_texts(reads.drop_first()).push(utf8_lossy(read)));
        } else {
            assert(reads[0].len() == 0);
        }
    } else {
        assert(longer[0] == read);
        assert(longer.drop_first() =~= Seq::<Seq<u8>>::empty());
        assert(stream_texts(Seq::<Seq<u8>>::empty()) == Seq::<Seq<char>>::empty());
        assert(seq![utf8_lossy(read)] + Seq::<Seq<char>>::empty() =~= Seq::<Seq<char>>::empty().push(utf8_lossy(read)));
    }
}

/// Over a whole stream whose reads return the non-empty `chunks` and then
/// no bytes: the texts are the chunks decoded, one per chunk and in order,
/// and the stream has ended there; whatever is read after it gives nothing.
pub proof fn lemma_stream_of_reads(chunks: Seq<Seq<u8>>, rest: Seq<Seq<u8>>)
    requires
        forall|i: int| 0 <= i < chunks.len() ==> #[trigger] chunks[i].len() > 0,
    ensures
        stream_texts(chunks + seq![Seq::<u8>::empty()] + rest) == chunks.map_values(|c: Seq<u8>| utf8_lossy(c)),
        !stream_ended(chunks),
        stream_ended(chunks.push(Seq::<u8>::empty())),
    decreases chunks.len(),
{
    let all = chunks + seq![Seq::<u8>::empty()] + rest;
    assert(chunks.push(Seq::<u8>::empty())[chunks.len() as int].len() == 0);
    if chunks.len() == 0 {
        assert(all[0] == Seq::<u8>::empty());
        assert(chunks.map_values(|c: Seq<u8>| utf8_lossy(c)) =~= Seq::<Seq<char>>::empty());
    } else {
        let tail = chunks.drop_first();
        assert forall|i: int| 0 <= i < tail.len() implies #[trigger] tail[i].len() > 0 by {
            assert(tail[i] == chunks[i + 1]);
        }
        lemma_stream_of_reads(tail, rest);
        assert(all[0] == chunks[0]);
        assert(all.drop_first() =~= tail + seq![Seq::<u8>::empty()] + rest);
        assert(chunks.map_values(|c: Seq<u8>| utf8_lossy(c)) =~= seq![utf8_lossy(chunks[0])]
            + tail.map_values(|c: Seq<u8>| utf8_lossy(c)));
    }
}

/// A process's output read chunk by chunk: the reads so far, the texts
/// handed out for them, and whether the stream has ended.
pub struct OutputStream {
    ended: bool,
    reads: Ghost<Seq<Seq<u8>>>,
    texts: Ghost<Seq<Seq<char>>>,
}

impl OutputStream {
    /// The bytes of each read so far.
    pub closed spec fn reads(&self) -> Seq<Seq<u8>> {
        self.reads@
    }

    /// The texts handed out so far.
    pub closed spec fn texts(&self) -> Seq<Seq<char>> {
        self.texts@
    }

    /// Whether a read has returned no bytes.
    pub closed spec fn ended(&self) -> bool {
        self.ended
    }

    /// What has been handed out is the stream's texts.
    #[verifier::type_invariant]
    spec fn consistent(self) -> bool {
        &&& self.texts@ == stream_texts(self.reads@)
        &&& self.ended == stream_ended(self.reads@)
    }

    /// A stream before its first read.
    pub fn new() -> (s: OutputStream)
        ensures
            s.reads() == Seq::<Seq<u8>>::empty(),
            s.texts() == Seq::<Seq<char>>::empty(),
            !s.ended(),
    {
        OutputStream { ended: false, reads: Ghost(Seq::empty()), texts: Ghost(Seq::empty()) }
    }

    /// Whether a read has returned no bytes.
    pub fn is_ended(&self) -> (r: bool)
        ensures
            r == self.ended(),
    {
        self.ended
    }

    /// Takes the next read, `count` bytes at the start of `buffer`: the
    /// text to hand out, when the stream has not ended and the read
    /// returned bytes. What has been handed out is always the texts of the
    /// whole stream of reads so far.
    pub fn feed(&mut self, buffer: &[u8], count: usize) -> (r: Option<String>)
        requires
            count <= buffer@.len(),
        ensures
            final(self).reads() == old(self).reads().push(buffer@.take(count as int)),
            final(self).ended() <==> old(self).ended() || count == 0,
            r is Some <==> !old(self).ended() && count > 0,
            r matches Some(s) ==> s@ == utf8_lossy(buffer@.take(count as int)),
            valid_utf8(buffer@.take(count as int)) ==> (r matches Some(s) ==> s@ == decode_utf8(buffer@.take(count as int))),
            final(self).texts() == (match r {
                Some(s) => old(self).texts().push(s@),
                None => old(self).texts(),
            }),
            final(self).texts() == stream_texts(final(self).reads()),
            final(self).ended() == stream_ended(final(self).reads()),
    {
        proof {
            use_type_invariant(&*self);
            lemma_stream_one_more_read(self.reads@, buffer@.take(count as int));
        }
        let r = if self.ended {
            None
        } else {
            forward_process_output(buffer, count)
        };
        let ghost reads = self.reads@.push(buffer@.take(count as int));
        let ghost texts = match r {
            Some(ref s) => self.texts@.push(s@),
            None => self.texts@,
        };
        *self = OutputStream { ended: self.ended || count == 0, reads: Ghost(reads), texts: Ghost(texts) };
        r
    }
}

/// The download run's arguments differ between levels only in the first,
/// which sets yt-dlp's own level (`--quiet` at the normal level); at every
/// level the audio is extracted as mp3 into a file named after the title,
/// and the URL comes last, once.
pub proof fn lemma_download_args_at_every_level(lo: LogOptions, other: LogOptions, url: Seq<char>)
    ensures
        ({
            let args = download_arg_list(lo, url);
            &&& args.len() == download_arg_list(other, url).len()
            &&& args.drop_first() == download_arg_list(other, url).drop_first()
            &&& args[0] == (match lo.flag() {
                Some(f) => f,
                None => "--quiet"@,
            })
            &&& args.last() == url
            &&& exists|i: int|
                0 <= i && i + 2 < args.len() && #[trigger] args[i] == "-x"@ && args[i + 1] == "--audio-format"@
                    && args[i + 2] == "mp3"@
            &&& exists|i: int| 0 <= i && i + 1 < args.len() && #[trigger] args[i] == "-o"@ && args[i + 1] == "%(title)s.%(ext)s"@
        }),
{
    let args = download_arg_list(lo, url);
    assert(args[5] == "-x"@ && args[6] == "--audio-format"@ && args[7] == "mp3"@);
    assert(args[12] == "-o"@ && args[13] == "%(title)s.%(ext)s"@);
    assert(args.drop_first() =~= download_arg_list(other, url).drop_first());
}

} // verus!
