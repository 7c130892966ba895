# mousebridge

Share one mouse and keyboard across several computers on a local network.

This crate is the verified core. Its functions under `src/` are checked by
Verus against their `requires`/`ensures` contracts; the laws the library
keeps (the release sequence of any held state returns it to clean, a file
whose text declares a newer version is refused rather than reset, a clipboard
copy crosses once, control never rests on a departed machine, the peer
listing is determined by its entries) are stated as public proof functions
beside the code they are about.

Five small wrappers around outside code (`sha2`'s SHA-256, `Path::join`,
`Path::parent`, a `toml` parse of one top-level key, and the text of an
`io::Error`) carry contracts that Verus takes on trust. The two traits that
backends implement, `InputInject` and `InputSink`, state their contracts
only for implementations that declare them (`keeps_accounts`,
`follows_decision`); implementations written in ordinary Rust (the platform
backends, the router, the test doubles) declare nothing, and what is proved
through the traits then holds whatever they return.

The networked engine (sessions, pairing, screen layout and hand-off between
machines) is not part of this crate: it is built on the transport, security
and topology libraries, which this crate does not include. Its decisions that
stand on their own (routing, hand-off classification, the peer set and
registry, announcement framing) are here.

- `src/` — the library: input events and state tracking, the macOS and
  Windows key tables and the interpretation of their hook events, routing and
  hand-off, the peer set, clipboard synchronisation, configuration and
  migration decisions, discovery (beacon framing, manual addresses, broadcast
  targets, the peer registry).
- `tests/` — ordinary Rust tests against the library.
- `app/` — the command-line front end and what must stay outside the verified
  core: file and network I/O, logging setup, and the floating-point
  conversions of scroll and pointer values.

Floating-point values travel through the library as their IEEE-754 bit
patterns; arithmetic on them happens in `app/`.
