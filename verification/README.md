# yalmp

A desktop music player's core, verified with Verus.

- `src/playlist.rs`: the player's bookkeeping (queue, position, playback-loop
  counters) and the queue commands.
- `src/play.rs`: the decisions of the playback loop, one call per event.
- `src/devices.rs`: which output devices a switch request selects.
- `src/scan.rs`: the library scan as a state machine that asks for files to
  read and rows to insert, numbering discs and tracks and linking rows to
  their parents; the start of a scan from the album-list file.
- `src/scan_run.rs`: whole runs of the scan and what a successful run stores.
- `src/json.rs`: the trusted call into `serde_json`.
- `src/laws.rs`: properties of the library that span several operations.
- `app/`: the program around it: database, audio output, device enumeration
  and the loops that perform what the library asks.
