# sandstorm

A monitoring and management client for a SOCKS5 proxy server that speaks the Sandstorm
protocol. It can list and change the server's sockets, users, authentication methods and
buffer size, stream the server's logs, and run an interactive terminal monitor (`-i`) that
shows the live logs beside the server's metrics.

## Layout

- `src/` is the library, written in Verus and verified: argument parsing, the bookkeeping of
  the requests awaiting an answer, the text printed for each outcome, and the logic of the
  terminal interface (layout of the main view, the log list and its scrolling, text wrapping,
  text entry, the popups' decisions, the usage history and the metrics). Calls into
  `dust-devil-core`, `time`, `ratatui` and parts of `std` go through small trusted wrappers
  whose contracts say what those functions do.
- `app/` is the program around it: reading the command line and the environment, resolving
  addresses, the network connection, and the terminal. It hands the library plain values and
  does what the library answers.
- `tests/` holds the tests, which run the library with the real outside crates.
