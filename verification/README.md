# spool

The settings, dependency checks and lifecycle decisions of Spool, a
tray-resident game library and save-sync manager, written in Verus: each
public function states what it returns in its contract and Verus proves it.

- `src/` — the verified library
  - `text.rs`: trimming, prefixes and suffixes, line splitting over chars
  - `config/`: the `config.json` model and defaults (`mod.rs`), load-time
    migrations (`migrations.rs`), device identity (`identity.rs`), settings
    saves (`update.rs`) and the laws that hold across them (`laws.rs`)
  - `diagnostics.rs`: dependency status, install hints, os-release parsing
  - `guided_install.rs`: drive-letter choice and the guided-install run,
    step by step
  - `lifecycle.rs`: startup launch queue, `debug.log` rotation, attached
    launch exit, library change announcements
- `tests/` — tests of the library on concrete values
- `app/` — the runtime around it: file and D-Bus I/O, JSON forms of the
  settings, logging, and the loops that perform what the library decides

`verus` checks `src/`; the tests and `app/` build against it as ordinary Rust.
