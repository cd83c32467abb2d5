# audio_locker

A Windows tray application that keeps every audio session at the volume level
stored for it in a JSON configuration file (`settings.json`). Sessions seen for
the first time are added to the file with the default level; sessions marked
`IsManual` are left alone.

Layout:

- `src/` — the verified library (Verus): the configuration model and the
  registration of sessions, the per-device session manager that decides which
  volume corrections to make, the device registry, the routing of device and
  session notifications, the UTF-16 encoding of device identifiers, the naming
  of sessions and processes (through `sysinfo`), and the decisions of the tray
  menu, the start-up registry entry and the configuration location.
- `app/` — the Windows program around it: COM calls into the audio API, the
  background threads and channels, file and registry access, JSON through
  `serde_json`, logging, and the tray icon event loop.
- `tests/` — tests of the library.

Devices, sessions and their settings are keyed by name. The library keeps such
maps as lists of entries with distinct names (`src/named_map.rs`), whose model
is a `Map` from names to values: with `String` keys, vstd's specification of
`std::collections::HashMap` gave nothing that the proofs could use.
