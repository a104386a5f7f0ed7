use plg::log::LogOptions;
use plg::ytdlp::{
    download, download_args, forward_process_output, update_args, OutputStream, DownloadError, DownloadStage,
    DownloadStep,
};

#[test]
fn update_args_per_level() {
    assert_eq!(update_args(LogOptions::Quiet), vec!["-U", "--quiet"]);
    assert_eq!(update_args(LogOptions::Normal), vec!["-U"]);
    assert_eq!(update_args(LogOptions::Verbose), vec!["-U", "--verbose"]);
}

#[test]
fn download_args_for_normal_level_are_quiet() {
    let url = "https://www.youtube.com/watch?v=JatTfrdDgn0";
    assert_eq!(
        download_args(LogOptions::Normal, url),
        vec![
            "--quiet",
            "--cookies-from-browser",
            "firefox",
            "-f",
            "ba",
            "-x",
            "--audio-format",
            "mp3",
            "--no-write-subs",
            "--no-write-thumbnail",
            "--add-metadata",
            "--embed-metadata",
            "-o",
            "%(title)s.%(ext)s",
            url,
        ]
    );
    assert_eq!(download_args(LogOptions::Verbose, url)[0], "--verbose");
    assert_eq!(download_args(LogOptions::Quiet, url)[0], "--quiet");
}

fn run(step: DownloadStep) -> (Option<String>, Vec<String>, DownloadStage) {
    match step {
        DownloadStep::Run { announce, args, next } => (announce, args, next),
        DownloadStep::Finish { .. } => panic!("expected a run"),
    }
}

fn finish(step: DownloadStep) -> (Option<String>, Result<(), DownloadError>) {
    match step {
        DownloadStep::Finish { announce, outcome } => (announce, outcome),
        DownloadStep::Run { .. } => panic!("expected the end"),
    }
}

#[test]
fn download_session_succeeds() {
    let url = "https://example.org/song";
    let lo = LogOptions::Normal;
    let (announce, args, next) = run(download(url, lo, DownloadStage::Start, true));
    assert_eq!(announce, None);
    assert_eq!(args, update_args(lo));
    assert_eq!(next, DownloadStage::Updating);
    let (announce, args, next) = run(download(url, lo, next, true));
    assert_eq!(announce.as_deref(), Some("Downloading..."));
    assert_eq!(args, download_args(lo, url));
    assert_eq!(next, DownloadStage::Fetching);
    let (announce, outcome) = finish(download(url, lo, next, true));
    assert_eq!(announce.as_deref(), Some("Downloaded"));
    assert_eq!(outcome, Ok(()));
}

#[test]
fn failed_update_stops_before_download() {
    let (announce, outcome) = finish(download("u", LogOptions::Normal, DownloadStage::Updating, false));
    assert_eq!(announce, None);
    assert_eq!(outcome, Err(DownloadError::UpdateFailed));
    assert_eq!(DownloadError::UpdateFailed.message(), "yt-dlp update failed");
}

#[test]
fn failed_download_is_reported() {
    let (announce, outcome) = finish(download("u", LogOptions::Verbose, DownloadStage::Fetching, false));
    assert_eq!(announce, None);
    assert_eq!(outcome, Err(DownloadError::DownloadFailed));
    assert_eq!(DownloadError::DownloadFailed.message(), "yt-dlp download failed");
}

#[test]
fn quiet_download_announces_nothing() {
    let (announce, _, _) = run(download("u", LogOptions::Quiet, DownloadStage::Updating, true));
    assert_eq!(announce, None);
    let (announce, outcome) = finish(download("u", LogOptions::Quiet, DownloadStage::Fetching, true));
    assert_eq!(announce, None);
    assert_eq!(outcome, Ok(()));
}

#[test]
fn end_of_stream_forwards_nothing() {
    let buffer = [0u8; 16];
    assert_eq!(forward_process_output(&buffer, 0), None);
}

#[test]
fn output_chunk_is_decoded() {
    let mut buffer = [0u8; 16];
    buffer[..5].copy_from_slice(b"hello");
    assert_eq!(forward_process_output(&buffer, 5).as_deref(), Some("hello"));
    let bytes = "ü!".as_bytes();
    assert_eq!(forward_process_output(bytes, bytes.len()).as_deref(), Some("ü!"));
}

#[test]
fn invalid_utf8_is_replaced() {
    let buffer = [b'a', 0xff, b'b'];
    assert_eq!(forward_process_output(&buffer, 3).as_deref(), Some("a\u{FFFD}b"));
    assert_eq!(forward_process_output(&buffer, 1).as_deref(), Some("a"));
}

#[test]
fn stream_hands_out_each_read_until_the_first_empty_one() {
    let mut stream = OutputStream::new();
    let mut buffer = [0_u8; 16];
    buffer[..3].copy_from_slice(b"abc");
    assert_eq!(stream.feed(&buffer, 3).as_deref(), Some("abc"));
    buffer[..2].copy_from_slice(&[0xC3, 0xBC]);
    assert_eq!(stream.feed(&buffer, 2).as_deref(), Some("ü"));
    buffer[0] = 0xFF;
    assert_eq!(stream.feed(&buffer, 1).as_deref(), Some("\u{FFFD}"));
    assert!(!stream.is_ended());
    assert_eq!(stream.feed(&buffer, 0), None);
    assert!(stream.is_ended());
    buffer[..2].copy_from_slice(b"zz");
    assert_eq!(stream.feed(&buffer, 2), None);
    assert!(stream.is_ended());
}
