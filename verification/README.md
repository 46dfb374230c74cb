# RemoteMic

RemoteMic turns a phone or another computer into a microphone for a Linux
desktop: the browser captures audio, sends it over WebRTC (Opus), and the
server decodes it into the pipe of a PulseAudio `module-pipe-source`.

The crate is written in Verus. Its layout:

- `src/` — the verified library. Its functions carry contracts that Verus
  proves; the few small wrappers that call `rand`, `base64`, `rcgen` or a std
  function Verus has no specification for carry contracts that Verus takes on
  trust, each stated in the wrapper's doc comment.
  - `text` — string and byte helpers with specifications (splitting, trimming,
    decimal and hexadecimal text, path joining).
  - `audio` — quality presets, `pactl` arguments, recognising stale pipe
    sources, module-index parsing, private-directory checks, per-user paths.
  - `queue` — the bounded live audio queue (newest frame replaces the oldest).
  - `session` — the single streaming slot and session ids.
  - `metrics` — per-session stream counters and the hub that reports only the
    active session.
  - `rtp` — packet ordering, loss counting and packet-loss concealment.
  - `signaling` — the phases of one signaling connection, from offer to end.
  - `writer` — the decisions of the loop that writes frames into the pipe.
  - `server` — the rendered page, the token check, session tokens, peer states.
  - `ice` — the UDP addresses ICE listens on, with IPv6 text formatting.
  - `tls` — certificate directory, CA file consistency, certificate names, PEM
    decoding, and CA / server certificate issuance through `rcgen`.
  - `cli`, `preflight` — the port and quality options, startup messages, the
    `pactl` probe.
- `tests/` — tests of the library on concrete values.
- `app/` — the program around the library: HTTP and WebSocket serving, WebRTC,
  Opus decoding and resampling, processes, files and signals.
