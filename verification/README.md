# dshare

KVM-style sharing of mouse, keyboard and clipboard between machines
(Windows ↔ Linux) over TCP.

`src/` is a Verus-verified library:

- `codec` — the `[u32 length BE][payload]` framing of the peer stream over
  `bytes::BytesMut` (`buffer` gives the buffer's contract), with the
  round-trip, partial-frame and size-cap laws;
- `keycode`, `win32`, `linux` — the Win32 VK ↔ evdev key tables, the
  decisions of the Windows hooks and `SendInput`, and the events and
  capabilities of the Linux `uinput` device;
- `layout` — the screen layout and the edge-crossing rule, with its laws;
- `clipboard` — what a clipboard poll broadcasts and what an inbound update
  applies, with echo suppression;
- `config`, `peer`, `protocol` — the configuration model, the opening
  `Hello`, and the message types.

`app/` is the program around it: command line, TOML config files, bincode
payloads, the tokio session, the clipboard backend, the Linux input backend
and the egui configuration GUI. The Win32 side of the Windows input backend
(hook thread, `SendInput`) is not part of it; its decisions are in
`src/win32`.
