# proofsheet

Exact-pixel store screenshots and deterministic browser runs, with the
decisions proved correct by Verus.

Store requirements are stated in output pixels; a preset keeps the output
size and derives the CSS viewport as `output / scale`, and a preset whose
output does not divide by its scale is rejected. A capture run drives a
headless Chromium over the DevTools Protocol, one fresh browser per device,
applies the device metrics and emulates the device's platform (User-Agent,
Client Hints, touch points) before navigating, waits for the page to settle,
records the layout the page ended up with, and checks the size of the PNG it
gets back.

## Layout

- `src/` — the verified library:
  - `device`, `presets`: presets, their validation and the built-in table;
  - `cli`: command-line arguments and device selection, shared by the
    command line and the language bindings;
  - `capture`: the command plan of one capture and the record of its result;
  - `determinism`: the preamble that freezes the clock and seeds randomness;
  - `run`: the bookkeeping of a capture matrix as a state machine;
  - `cdp`: browser arguments, DevTools port discovery, the steps of reading
    an HTTP response, command framing and reply classification;
  - `ws`: WebSocket framing, message reassembly and the opening handshake;
  - `png`: the image size a PNG declares;
  - `install`: the steps of installing a managed browser as a state
    machine, with platform slugs, download locations, the version manifest
    and the continuity check;
  - `progress`: outcomes, tallies and the progress bar;
  - `text`, `codec`, `error`: text helpers, hashing and encodings, errors.
- `app/` — the command-line program and the Node.js and Python bindings:
  process, socket, file system and clock, driving the library.
- `tests/` — tests of the library.
