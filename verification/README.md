# ccometixline (verified core)

The logic of a status line for a coding assistant's terminal, written in
Verus and proved against its contracts.

- `src/config.rs` - the configuration model (segments, colours, options) and
  the session data read from standard input.
- `src/cli_custom.rs` - syncing the custom segments named on the command line
  into the configuration, with the laws that it keeps every other segment and
  that applying the same commands twice changes nothing more.
- `src/segments/` - the usage segment (rate-limit utilization from the OAuth
  usage API) and custom segments (the first line a shell command prints).
  Each refresh is a small state machine: the caller performs the reads,
  writes, command runs and HTTP requests that it asks for, and reports what
  came back, with the clock reading at each step. Cache freshness is judged
  with chrono's parser and arithmetic; reset times are shown on the local
  clock, whose UTC offsets the caller reads.
- `src/utils/` - the OAuth token search, the debug log's switch, line format
  and rotation, text helpers (decimal rendering, whitespace trimming, first
  lines) and the time functions from chrono.
- `app/` - the program around the library: file, process and network I/O,
  JSON on disk, the system clock and time zone, and the floating-point
  utilization figures.
- `tests/` - scenarios on concrete values, run against the compiled library.
