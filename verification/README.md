# rairstream

An AirPlay / RAOP audio sender whose protocol core is written in Verus and
proved against its contracts.

## Layout

- `src/` — the verified library.
  - `bytes`, `text`: byte and character helpers (big-endian encoding, UTF-8
    text, decimal parsing, trimming, splitting) with exact contracts.
  - `packet`, `sink`, `timing`, `codec`: RTP audio and sync packets, packet
    pacing, NTP timestamps and the RAOP timing reply.
  - `rtsp`, `reader`: RTSP requests and responses, the RAOP request builders,
    the SETUP reply, and reading a response line by line.
  - `model`, `error`, `session`: receivers, session descriptors, errors, the
    RAOP session and its handshake as a state machine, keep-alive requests.
  - `tlv`, `pairing`, `pair_verify`, `plist_body`, `crypto`, `modern`,
    `legacy`: AirPlay 2 authentication — pairing TLVs, pair-verify (both
    flavours), auth-setup, and first-time PIN pairing — each step a
    function from the receiver's reply to the next request. The
    cryptographic primitives are calls into RustCrypto and dalek crates
    behind small trusted wrappers whose results are named, not re-derived.
  - `config`, `ui_state`, `controller`, `menu`, `tray`, `tray_menu`,
    `worker`: settings, the tray's menu model and its lines, its controller,
    texts, run-time phases, receiver submenus, and the worker that turns
    menu commands into application calls and events.
- `app/` — ordinary Rust around the library: sockets, threads, the system
  locale and the floating-point audio conversion. It makes no protocol
  decision of its own.
- `tests/` — tests of the library, including full pairing and
  authentication exchanges against a simulated receiver.
