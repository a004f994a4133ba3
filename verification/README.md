# depot_downloader_gpui

The logic of a desktop front end for DepotDownloader, written in Verus: every
function of the library states what it returns or changes, and Verus proves it.

- `src/depot_downloader/`: DepotDownloader itself. Its command lines
  (`process`, `list`), its console output (`lines`, `scan`, `parser`), its
  `-json` events (`event`), the progress of a download (`percent`, `progress`),
  the bytes it writes (`child`), and where it is installed (`provisioning`).
- `src/steam/`: app ids, what Steam's public services say of an app and its DLC,
  library folders, and the files that tell Steam what is installed.
- `src/app/`: a session in `-json` mode. The lists of apps and branches
  (`catalog`, `session`, `selection`), downloads (`download`, `reported`,
  `process_events`, `user_apps`), and what is shown (`form`, `status`,
  `qr_code`, `speed_history`).
- `src/console.rs`: a session over plain console output.
- `src/ui/`: numbers and times as they are shown.
- `src/text.rs`, `src/decimal.rs`, `src/rounding.rs`, `src/paths.rs`,
  `src/json.rs`, `src/config.rs`: what the rest is built on.
- `app/`: the window, processes, files and the network around the library.

What holds across functions stands in proof functions of its own, most of them in
files named after the module they belong to (`parser_laws`, `progress_laws`,
`format_laws`, `app/laws`).

Sizes and percentages that are shown in floating point are computed in integers,
with the same rounding: `rounding` says what a floating point operation gives.
Speeds, the remaining time and the chart's axes are divided as floating point
numbers in `app/measure.rs`, outside what is proved; the library says what they
are divided from.
