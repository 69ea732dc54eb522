# mm-dlp-core

Media metadata extraction and download planning, with its logic verified
by Verus.

- `src/` is the verified library: URL recognition for nine platforms, the
  payload readers of the YouTube, YouTube Music, SoundCloud and Spotify
  extractors, manifest parsing, chunk and segment planning, in-order
  flushing, file naming, playlist checks, plugin signature checks and the
  conversions exchanged with a host application, and the QuickJS sandbox
  that runs deciphering scripts. Calls into `serde_json`, `regex`,
  `urlencoding`, `url`, `ed25519-dalek`, `hex`, `memmap2` and `rquickjs`
  stand behind small trusted wrappers whose contracts are listed with them.
- `app/` is the command line and everything that performs I/O: HTTP
  requests, files, ffmpeg, tagging with `lofty`, the background pool and
  JSON/XML playlist files.
- `tests/` exercises the library on concrete inputs.
