# trayd

A system tray daemon for the StatusNotifierItem (SNI) protocol, with a small
line-delimited JSON IPC interface for bars and scripts.

## Layout

- `src/` — the library, each function with its contract and proof:
  - `host.rs`: the tray host's item state, viewed as a map from item id to
    item, keeping first-insertion order;
  - `dbus/watcher.rs`: how `RegisterStatusNotifierItem` strings are split and
    registered; `dbus/menu.rs`: DBusMenu layout parsing from plain values;
    `dbus/item.rs`: scroll mapping and pixmap choice;
  - `ipc/`: the wire models, line framing, the daemon's answers to each
    command, the `subscribe` pacing state machine, and the CLI's rendering
    of replies;
  - `model.rs`, `error.rs`, `config.rs`, `client.rs`, `cli.rs`: shared types.
- `app/` — the binary: D-Bus plumbing (zbus), the tokio socket server and
  client, serde and clap types, each calling into the library for its
  decisions.
- `tests/` — tests of the library.
