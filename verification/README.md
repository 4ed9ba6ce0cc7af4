# dc

The verified core of a small WebRTC toolkit: an interactive client that
offers or answers a call through a signaling server, a log reader for that
server, and three programs that answer calls over and over (waiter, slave,
and a camera that streams RTP video from a local UDP source).

Layout:

- `src/` — the library, verified with Verus.
  - `util.rs`: trimming of console input, UTF-8 text of data-channel
    messages, Base64 encoding and decoding of text.
  - `report.rs`: what the peer-connection event handlers show and which
    signal they raise for each state change.
  - `channel.rs`: the data-channel watcher loops as a state machine.
  - `session.rs`: each program's signaling session as a state machine
    (setup, offer/answer exchange, end of call, closing), the decision to
    run again, and the lines shown along the way.
  - `config.rs`: ICE servers, the signaling server, prompts and defaults,
    banners, the local bind address.
  - `rtp.rs`: parsing of RTP datagrams and re-stamping with the track's
    SSRC for forwarding.
- `tests/` — tests of the library.
- `app/` — the programs: console, WebRTC and signaling I/O, driving the
  library's state machines.
