//! Playlists with Git: the decisions behind syncing a music folder with a
//! Git remote, downloading songs with yt-dlp, and managing the settings.

pub mod text;
pub mod log;
pub mod ytdlp;
pub mod clock;
pub mod config;
pub mod git;
pub mod shortcut;
pub mod cli;
