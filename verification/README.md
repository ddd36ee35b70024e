# yt_download

The logic of a desktop YouTube downloader, verified with Verus: what is asked
of YouTube and when, how yt-dlp's output and errors are read, which formats and
resolutions are offered, and how the download queue moves.

## Layout

- `src/` — the verified library.
  - `text` — character-level helpers and their specifications (trimming,
    lower case, decimal rendering and parsing).
  - `youtube_url` — which URLs are YouTube links and which video they name
    (URL parsing by the `url` crate).
  - `access`, `failure`, `analysis` — access strategies, the classification
    of yt-dlp's errors into safe messages, and the order of automatic
    analysis attempts.
  - `youtube_access` — the network turn, the spacing of requests, the local
    cooldown, and the cache of analysed videos.
  - `batch` — the triage of a batch of URLs and the order of the local checks
    before any network access.
  - `worker` — what a download worker does after an attempt and when the
    network turn is refused.
  - `formats` — usable formats, resolutions and their labels, and the choice
    of a download source that keeps a requested height exactly.
  - `download` — requests, jobs and the download queue.
  - `commands` — the command lines of yt-dlp and of the token provider.
  - `output` — yt-dlp's output lines, ffprobe's report, and history entries.
  - `engine` — bundled engines, the token provider's endpoint, and the
    diagnostic log.
- `tests/` — tests of the library on concrete values.
- `app/` — the Tauri application around the library: windows, processes,
  files, SQLite history, locks and threads.
