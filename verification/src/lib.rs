//! The settings, dependency checks and lifecycle decisions behind Spool, a
//! tray-resident game library and save-sync manager.
//!
//! Modules:
//!   - [`text`]           — character-level string helpers (trim, lines, …)
//!   - [`config`]         — the settings record, its defaults, load-time setup
//!                          and migrations, and settings updates
//!   - [`diagnostics`]    — dependency status and distro detection
//!   - [`guided_install`] — drive-letter and install-folder choices for the
//!                          guided Windows-installer flow
//!   - [`lifecycle`]      — startup launch queue, log rotation, attached-launch
//!                          exit and library change announcements
//!
//! File, process, D-Bus and window work is done by the caller; these
//! modules decide what it should be and state it in their contracts.
use vstd::prelude::*;

pub mod text;
pub mod config;
pub mod diagnostics;
pub mod guided_install;
pub mod lifecycle;

verus! {
} // verus!
