# wakezilla

The core of Wakezilla, a wake-on-LAN proxy, as a Verus library: every
function in `src/` carries a contract that Verus proves.

- `src/access_log.rs`: the per-service access log, capped per key.
- `src/forward.rs`: inactivity monitoring and turn-off requests, and what the
  proxy does with an accepted connection (recording it, waking the machine).
- `src/usage.rs`: the usage chart of a machine, accesses per service and day.
- `src/detail.rs`, `src/validation.rs`, `src/ip.rs`, `src/parse.rs`: the
  machine detail page of the web frontend, its form checks, IP address and
  number syntax.
- `src/tui.rs`: the terminal client's tabs, notifications, forms and keys.
- `src/screens.rs`: the terminal client's machine list, scanner and detail
  screens, and the client that applies keys and server replies to them.
- `src/tray.rs`: the desktop tray: menu actions, messages, service commands,
  autostart files and the icon.
- `src/laws.rs`: properties that relate several operations.
- `app/`: the I/O around the library (files, HTTP, TCP forwarding, JSON).
- `tests/`: tests of the library on concrete values.

Calls into other crates (`chrono`, `png`, `base64`, and `std` where Verus
has no specification) go through small wrappers marked
`#[verifier::external_body]`, whose contracts are trusted.
