# mio-compositor

The decision logic of Mio, a Wayland compositor and tiling window manager
whose windows live in one continuous two-dimensional world seen through a
camera, written in Verus and proved against its contracts.

## Layout

- `src/` — the verified library.
  - Configuration: `config_doc` (the document model and its accessors),
    `kdl_source` (reading KDL text with the `kdl` crate, `include` nodes and
    include cycles), `config_sections`, `config_rules`, `bindings`, `keys`
    (the sections, rules, bindings and key chords), `config_read` (reading a
    whole document), `config_check` (range checks), `config_locate` (line
    hints for errors), `config_manager` (loading and reloading).
  - Input: `pointer`, `mouse`, `button_events`, `button_step` (the pointer
    button state machine), `gestures`, `shortcuts`.
  - Shell and presentation: `shell`, `focus`, `rules`, `render`, `effects`,
    `geometry`, `backend`.
  - Control: `cli` (command lines of `mio-compositor` and `mioctl`), `ipc`
    (requests, framing, responses), `ipc_json` (JSON answers).
- `tests/` — tests of the library on concrete values.
- `app/` — the command-line program: options, configuration files and their
  includes, libxkbcommon's answers to the library's keysym queries,
  floating-point range checks, and the `mioctl` socket client (when run under that name).

The Wayland session itself (Smithay backends, GL rendering and the
`mio-core` world model) is not part of this crate.
