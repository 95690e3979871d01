# SpeedTest

A multi-connection download speed test with a terminal dashboard (ratatui) and
a plain-text mode. The decisions it makes are written in Verus and proved
against their contracts; the program around them does the networking, the
terminal and the clock.

## Layout

- `src/` — the verified library `speedtest`
  - `cli` — the command-line grammar (`Args::try_parse_from`), stated as a
    function on the argument strings
  - `startup` — the checks before measuring (`--concurrency`, `--url`) and the
    choice between dashboard and plain text
  - `servers` — the server groups, the measuring plan, probe latencies and the
    choice of the quickest server
  - `transfer` — what download and upload workers do with each response
  - `clock` — when a sample is taken
  - `dashboard` — exact rates, the sample history, the peak, and the texts
    the dashboard shows around the figures the caller writes out
  - `text` — whole numbers in decimal and as two-digit clock fields
  - `keys` — the keys that end the dashboard
- `app/` — `main`: argument intake, the HTTP client, the worker tasks, the
  sampling loop and the ratatui drawing. The library's grammar reads the
  command line; when it refuses a line, or help or the version is asked for,
  clap (with the options declared as the program always declared them)
  writes what is shown and ends the program.
- `tests/` — tests of the library

The library keeps rates exact (bytes over nanoseconds). Writing them out in
`MB/s`, `Mbps` and `GB` is floating-point work done in `app/figures.rs`: a rate
becomes bytes per second as an `f64` (bytes over the window in seconds) and is
formatted with `{:.2}` (`{:.3}` for GB); the library places those figures in
its texts. The units are decimal: 1 MB = 1,000,000 bytes, 1 Mbps = 1,000,000
bits per second.

The retry count shown is the number of failed download tasks handled; failed
uploads are retried without being counted.
