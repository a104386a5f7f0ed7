# plg — Playlists with Git

A tool that keeps a folder of music files in sync with a Git remote:
`init` publishes a folder, `add` downloads a song with yt-dlp and
publishes it, `update` and `play` bring the folder up to date (honouring a
cooldown), and `cfg`/`reset` manage the settings.

- `src/` is the verified library. Every decision of the tool lives there
  with its contract: the log levels and the output transcript (`log`), the
  yt-dlp download session and the stream of its output (`ytdlp`), the Git
  procedures as step functions (`git`), the settings and the update
  cooldown (`config`, `clock`), the shortcut names and launchers, and the
  blank-field test that enables the window's buttons (`shortcut`), and the
  commands (`cli`).
- `app/` is the program around it: command-line parsing, the settings
  file, the Git and process work that the library's steps ask for, and the
  Qt window. The window's module stands behind `cfg(feature = "qt")`, a
  feature that this manifest does not declare: the `qtrs` bindings need a
  Qt installation to build, so the window is left out of the build here and
  the command-line program is built without it.
- `tests/` runs the library on concrete values.
