//! The load-time migrations of older `config.json` files, and the
//! executable stamp and umu-run detection that run beside them.
use vstd::prelude::*;
use crate::text::{
    chars_eq, chars_of, has_suffix, string_of, strip_suffix_chars, sub_chars, trim, trim_chars,
    trim_end_char, trim_end_char_chars,
};
use super::{
    backup_leaf_chars, backup_leaf_spec, default_base_chars, default_base_spec, has_default_folder,
    CloudConfig, ConfigData, LanConfig, LaunchConfig, LibraryFolder,
};

verus! {

// ── Cloud base path migration ───────────────────────────────────────────────

/// `s` without the `/ludusavi-backup` leaf when it ends with it.
pub open spec fn strip_backup_leaf(s: Seq<char>) -> Seq<char> {
    if has_suffix(s, backup_leaf_spec()) {
        s.take(s.len() - backup_leaf_spec().len())
    } else {
        s
    }
}

/// The base folder a legacy config is migrated onto, or `None` when the
/// config is left alone: there is no legacy path, the base was set
/// explicitly (it no longer trims to `Spool`), the legacy path is the
/// default `Spool/ludusavi-backup`, or the derived base is empty or `Spool`.
pub open spec fn migrated_cloud_base(base_path: Seq<char>, path: Seq<char>) -> Option<Seq<char>> {
    let old_path = trim_end_char(trim(path), '/');
    let base = trim_end_char(strip_backup_leaf(old_path), '/');
    if old_path.len() == 0 || trim(base_path) != default_base_spec() {
        None
    } else if old_path == default_base_spec() + backup_leaf_spec() {
        None
    } else if base.len() == 0 || base == default_base_spec() {
        None
    } else {
        Some(base)
    }
}

/// How `migrate_cloud_base_path` relates the config before (`a`) and after
/// (`b`) and the flag it returns: when a migrated base exists and the
/// config does not already hold it (base and canonical path), both are
/// written and the flag is set; otherwise nothing changes.
pub open spec fn cloud_base_step(a: ConfigData, b: ConfigData, changed: bool) -> bool {
    match migrated_cloud_base(a.cloud.base_path@, a.cloud.path@) {
        Some(base) => if a.cloud.base_path@ == base && a.cloud.path@ == base + backup_leaf_spec() {
            !changed && b == a
        } else {
            &&& changed
            &&& b.cloud.base_path@ == base
            &&& b.cloud.path@ == base + backup_leaf_spec()
            &&& b == (ConfigData {
                cloud: CloudConfig { base_path: b.cloud.base_path, path: b.cloud.path, ..a.cloud },
                ..a
            })
        },
        None => !changed && b == a,
    }
}

/// Migrates a pre-`cloud_base_path` config: when the base is still the
/// default `Spool` but the legacy `cloud_path` names another folder, the
/// base is derived from `cloud_path` (dropping the `/ludusavi-backup` leaf)
/// and `cloud_path` is rewritten to `<base>/ludusavi-backup`. A config that
/// already holds exactly those values is left as it is. Returns true if
/// anything changed.
pub fn migrate_cloud_base_path(data: &mut ConfigData) -> (changed: bool)
    ensures
        cloud_base_step(*old(data), *final(data), changed),
{
    let path_chars = chars_of(data.cloud.path.as_str());
    let trimmed = trim_chars(&path_chars);
    let old_path = trim_end_char_chars(&trimmed, '/');
    let base_chars = chars_of(data.cloud.base_path.as_str());
    let base_trimmed = trim_chars(&base_chars);
    let default_base = default_base_chars();
    if old_path.len() == 0 || !chars_eq(&base_trimmed, &default_base) {
        return false;
    }
    let leaf = backup_leaf_chars();
    let mut canonical = default_base_chars();
    let mut leaf_copy = backup_leaf_chars();
    canonical.append(&mut leaf_copy);
    if chars_eq(&old_path, &canonical) {
        return false;
    }
    let stripped = match strip_suffix_chars(&old_path, &leaf) {
        Some(p) => p,
        None => old_path,
    };
    let base = trim_end_char_chars(&stripped, '/');
    if base.len() == 0 || chars_eq(&base, &default_base) {
        return false;
    }
    let mut new_path = sub_chars(&base, 0, base.len());
    let mut leaf2 = backup_leaf_chars();
    new_path.append(&mut leaf2);
    assert(new_path@ =~= base@ + backup_leaf_spec());
    if chars_eq(&base_chars, &base) && chars_eq(&path_chars, &new_path) {
        return false;
    }
    data.cloud.base_path = string_of(&base);
    data.cloud.path = string_of(&new_path);
    true
}

// ── Legacy LAN install dir migration ────────────────────────────────────────

/// `"LAN downloads"`, the label given to a folder made from the legacy dir.
pub open spec fn lan_downloads_label_spec() -> Seq<char> {
    seq!['L', 'A', 'N', ' ', 'd', 'o', 'w', 'n', 'l', 'o', 'a', 'd', 's']
}

/// Index of the first folder whose path is `dir`, if any.
pub open spec fn first_folder_with_path(folders: Seq<LibraryFolder>, dir: Seq<char>) -> Option<int> {
    if exists|k: int| 0 <= k < folders.len() && #[trigger] folders[k].path@ == dir {
        Some(
            choose|k: int|
                0 <= k < folders.len() && folders[k].path@ == dir && forall|m: int|
                    0 <= m < k ==> #[trigger] folders[m].path@ != dir,
        )
    } else {
        None
    }
}

proof fn lemma_first_folder_with_path(folders: Seq<LibraryFolder>, dir: Seq<char>, i: int)
    requires
        0 <= i < folders.len(),
        folders[i].path@ == dir,
        forall|m: int| 0 <= m < i ==> #[trigger] folders[m].path@ != dir,
    ensures
        first_folder_with_path(folders, dir) == Some(i),
{
    let j = choose|k: int|
        0 <= k < folders.len() && folders[k].path@ == dir && forall|m: int|
            0 <= m < k ==> #[trigger] folders[m].path@ != dir;
    assert(0 <= j < folders.len() && folders[j].path@ == dir && forall|m: int|
            0 <= m < j ==> #[trigger] folders[m].path@ != dir);
    if j < i {
        assert(folders[j].path@ != dir);
    } else if j > i {
        assert(folders[i].path@ != dir);
    }
}

/// How `migrate_lan_install_dir` relates the config before (`a`) and after
/// (`b`) and the flag it returns.
pub open spec fn lan_dir_step(a: ConfigData, b: ConfigData, changed: bool) -> bool {
    &&& b.lan.install_dir@.len() == 0
    &&& b == (ConfigData {
        library_folders: b.library_folders,
        lan: LanConfig { install_dir: b.lan.install_dir, ..a.lan },
        ..a
    })
    &&& {
        let dir = trim(a.lan.install_dir@);
        let folders = a.library_folders@;
        let no_default_yet = !has_default_folder(folders);
        if dir.len() == 0 {
            &&& changed == (a.lan.install_dir@.len() != 0)
            &&& b.library_folders == a.library_folders
        } else {
            &&& changed
            &&& match first_folder_with_path(folders, dir) {
                Some(i) => b.library_folders@ == folders.update(
                    i,
                    LibraryFolder {
                        default_install: folders[i].default_install || no_default_yet,
                        ..folders[i]
                    },
                ),
                None => {
                    &&& b.library_folders@.len() == folders.len() + 1
                    &&& b.library_folders@.take(folders.len() as int) == folders
                    &&& b.library_folders@.last().path@ == dir
                    &&& b.library_folders@.last().label matches Some(l) && l@
                        == lan_downloads_label_spec()
                    &&& b.library_folders@.last().default_install == no_default_yet
                },
            }
        }
    }
}

pub proof fn lemma_first_folder_props(folders: Seq<LibraryFolder>, dir: Seq<char>)
    ensures
        first_folder_with_path(folders, dir) matches Some(i) ==> 0 <= i < folders.len()
            && folders[i].path@ == dir,
{
    if exists|k: int| 0 <= k < folders.len() && #[trigger] folders[k].path@ == dir {
        let k0 = choose|k: int| 0 <= k < folders.len() && #[trigger] folders[k].path@ == dir;
        lemma_least_folder_with_path(folders, dir, k0);
    }
}

/// Some least index with path `dir` exists once any index has it.
proof fn lemma_least_folder_with_path(folders: Seq<LibraryFolder>, dir: Seq<char>, k0: int)
    requires
        0 <= k0 < folders.len(),
        folders[k0].path@ == dir,
    ensures
        exists|k: int|
            0 <= k < folders.len() && folders[k].path@ == dir && forall|m: int|
                0 <= m < k ==> #[trigger] folders[m].path@ != dir,
    decreases k0,
{
    if exists|m: int| 0 <= m < k0 && #[trigger] folders[m].path@ == dir {
        let m0 = choose|m: int| 0 <= m < k0 && #[trigger] folders[m].path@ == dir;
        lemma_least_folder_with_path(folders, dir, m0);
    } else {
        assert(forall|m: int| 0 <= m < k0 ==> #[trigger] folders[m].path@ != dir);
    }
}

fn lan_downloads_label() -> (r: String)
    ensures
        r@ == lan_downloads_label_spec(),
{
    let v = vec!['L', 'A', 'N', ' ', 'd', 'o', 'w', 'n', 'l', 'o', 'a', 'd', 's'];
    assert(v@ =~= lan_downloads_label_spec());
    string_of(&v)
}

/// Converts a legacy `lan_install_dir` into a library folder. An empty (or
/// blank) dir migrates to nothing. Otherwise the trimmed dir becomes a
/// library folder: an existing folder with that path gets the
/// `default_install` flag (when no folder has it yet), else a new folder
/// labelled "LAN downloads" is appended, flagged when no folder has the flag.
/// The legacy field is cleared either way. Returns true if anything changed.
pub fn migrate_lan_install_dir(data: &mut ConfigData) -> (changed: bool)
    ensures
        lan_dir_step(*old(data), *final(data), changed),
{
    let raw = chars_of(data.lan.install_dir.as_str());
    let dir = trim_chars(&raw);
    if dir.len() == 0 {
        let changed = raw.len() != 0;
        data.lan.install_dir = String::new();
        return changed;
    }
    let ghost folders = data.library_folders@;
    let mut no_default_yet = true;
    let mut k: usize = 0;
    while k < data.library_folders.len()
        invariant
            k <= data.library_folders@.len(),
            data.library_folders@ == folders,
            no_default_yet == forall|m: int| 0 <= m < k ==> !(#[trigger] folders[m]).default_install,
        decreases data.library_folders.len() - k,
    {
        if data.library_folders[k].default_install {
            no_default_yet = false;
        }
        k = k + 1;
    }
    assert(no_default_yet == !has_default_folder(folders));
    let mut found: Option<usize> = None;
    let mut i: usize = 0;
    while i < data.library_folders.len() && found.is_none()
        invariant
            i <= data.library_folders@.len(),
            data.library_folders@ == folders,
            found is None ==> forall|m: int| 0 <= m < i ==> #[trigger] folders[m].path@ != dir@,
            found matches Some(j) ==> {
                &&& j < folders.len()
                &&& folders[j as int].path@ == dir@
                &&& forall|m: int| 0 <= m < j ==> #[trigger] folders[m].path@ != dir@
            },
        decreases data.library_folders.len() - i,
    {
        let p = chars_of(data.library_folders[i].path.as_str());
        if chars_eq(&p, &dir) {
            found = Some(i);
        }
        i = i + 1;
    }
    match found {
        Some(i) => {
            proof {
                lemma_first_folder_with_path(folders, dir@, i as int);
            }
            if no_default_yet {
                data.library_folders[i].default_install = true;
            }
            assert(data.library_folders@ =~= folders.update(
                i as int,
                LibraryFolder {
                    default_install: folders[i as int].default_install || no_default_yet,
                    ..folders[i as int]
                },
            ));
        },
        None => {
            let folder = LibraryFolder {
                path: string_of(&dir),
                label: Some(lan_downloads_label()),
                default_install: no_default_yet,
            };
            data.library_folders.push(folder);
            assert(data.library_folders@.take(folders.len() as int) =~= folders);
        },
    }
    data.lan.install_dir = String::new();
    true
}

// ── Save retention floor ────────────────────────────────────────────────────

/// `save_retention_full` pulled into the safe range 3..=10.
pub open spec fn clamped_retention(v: u32) -> u32 {
    if v < 3 {
        3
    } else if v > 10 {
        10
    } else {
        v
    }
}

/// How `migrate_retention_floor` relates the config before and after.
pub open spec fn retention_step(a: ConfigData, b: ConfigData, changed: bool) -> bool {
    &&& b == (ConfigData { save_retention_full: clamped_retention(a.save_retention_full), ..a })
    &&& changed == (clamped_retention(a.save_retention_full) != a.save_retention_full)
}

/// `u32::clamp(v, 3, 10)`.
pub fn clamp_retention(v: u32) -> (r: u32)
    ensures
        r == clamped_retention(v),
{
    if v < 3 {
        3
    } else if v > 10 {
        10
    } else {
        v
    }
}

/// Raises a low `save_retention_full` to the floor of 3 (and pulls a stray
/// high value down to 10). Returns true if the value changed.
pub fn migrate_retention_floor(data: &mut ConfigData) -> (changed: bool)
    ensures
        retention_step(*old(data), *final(data), changed),
{
    let clamped = clamp_retention(data.save_retention_full);
    if clamped != data.save_retention_full {
        data.save_retention_full = clamped;
        return true;
    }
    false
}

// ── Onboarding flag ─────────────────────────────────────────────────────────

/// What `serde_json` makes of `json`: whether it parses to a JSON object
/// that has the top-level key `key`.
pub uninterp spec fn json_object_has_key(json: Seq<char>, key: Seq<char>) -> bool;

/// Parses `json` with `serde_json::from_str::<serde_json::Value>` and tells
/// whether the result is an object containing `key`; `false` when the text
/// is not valid JSON or not an object. The result is believed to equal
/// `json_object_has_key(json@, key@)`: it depends on the two strings alone.
#[verifier::external_body]
fn json_has_top_level_key(json: &str, key: &str) -> (r: bool)
    ensures
        r == json_object_has_key(json@, key@),
{
    serde_json::from_str::<serde_json::Value>(json).ok().and_then(
        |v| v.as_object().map(|o| o.contains_key(key)),
    ).unwrap_or(false)
}

/// How the onboarding migration relates the config before and after, given
/// whether a config file existed and whether its JSON has the key.
pub open spec fn onboarding_step(
    a: ConfigData,
    b: ConfigData,
    file_present: bool,
    key_present: bool,
    changed: bool,
) -> bool {
    &&& changed == (!a.onboarding_completed && file_present && !key_present)
    &&& b == (ConfigData { onboarding_completed: a.onboarding_completed || changed, ..a })
}

/// Decides the onboarding migration once the file's key presence is known:
/// a config that was read from disk (`file_present`) but lacks the
/// `onboarding_completed` key is a returning user, so the flag is set.
/// Returns true if it changed the flag.
pub fn settle_onboarding(data: &mut ConfigData, file_present: bool, key_present: bool) -> (changed: bool)
    ensures
        onboarding_step(*old(data), *final(data), file_present, key_present, changed),
{
    if data.onboarding_completed || !file_present || key_present {
        return false;
    }
    data.onboarding_completed = true;
    true
}

/// Marks a pre-existing config as having finished onboarding: when the raw
/// JSON read from disk has no `onboarding_completed` key the flag is set.
/// No file (`None`) is a genuine first run and is left alone. Returns true
/// if it changed anything.
pub fn migrate_onboarding_completed(raw_json: Option<&str>, data: &mut ConfigData) -> (changed: bool)
    ensures
        onboarding_step(
            *old(data),
            *final(data),
            raw_json is Some,
            raw_json matches Some(j) && json_object_has_key(j@, "onboarding_completed"@),
            changed,
        ),
{
    if data.onboarding_completed {
        return false;
    }
    match raw_json {
        None => false,
        Some(json) => {
            let key_present = json_has_top_level_key(json, "onboarding_completed");
            settle_onboarding(data, true, key_present)
        },
    }
}

// ── Executable stamp and umu-run detection ──────────────────────────────────

/// How `stamp_current_exe` relates the config before and after.
pub open spec fn exe_stamp_step(a: ConfigData, b: ConfigData, exe: Option<String>, changed: bool) -> bool {
    match exe {
        Some(e) if e@ != a.spool_exe@ => {
            &&& changed
            &&& b == (ConfigData { spool_exe: e, ..a })
        },
        _ => !changed && b == a,
    }
}

/// Records the running executable's path (`exe`, when it could be found)
/// in `spool_exe`. Returns true if the stored path changed.
pub fn stamp_current_exe(data: &mut ConfigData, exe: Option<String>) -> (changed: bool)
    ensures
        exe_stamp_step(*old(data), *final(data), exe, changed),
{
    match exe {
        Some(e) => {
            let e_chars = chars_of(e.as_str());
            let cur = chars_of(data.spool_exe.as_str());
            if !chars_eq(&e_chars, &cur) {
                data.spool_exe = e;
                true
            } else {
                false
            }
        },
        None => false,
    }
}

/// What the caller found out about `umu-run` on this machine.
#[derive(Debug, Clone)]
pub struct UmuRunLookup {
    /// Running on Windows, where Proton launch is not used.
    pub is_windows: bool,
    /// The configured `umu_run_path` names an existing file.
    pub configured_is_file: bool,
    /// Where `umu-run` was found (`/usr/bin/umu-run`, then `PATH`), if anywhere.
    pub resolved: Option<String>,
}

/// How `auto_detect_umu_run` relates the config before and after.
pub open spec fn umu_detect_step(a: ConfigData, b: ConfigData, look: UmuRunLookup, changed: bool) -> bool {
    if look.is_windows || (a.launch.umu_run_path@.len() > 0 && look.configured_is_file) {
        !changed && b == a
    } else {
        match look.resolved {
            Some(p) => changed && b == (ConfigData {
                launch: LaunchConfig { umu_run_path: p, ..a.launch },
                ..a
            }),
            None => !changed && b == a,
        }
    }
}

/// Fills `umu_run_path` from the lookup unless on Windows or the configured
/// path already names a file. Returns true if a path was set.
pub fn auto_detect_umu_run(data: &mut ConfigData, look: UmuRunLookup) -> (changed: bool)
    ensures
        umu_detect_step(*old(data), *final(data), look, changed),
{
    if look.is_windows {
        return false;
    }
    let configured = chars_of(data.launch.umu_run_path.as_str());
    if configured.len() > 0 && look.configured_is_file {
        return false;
    }
    match look.resolved {
        Some(p) => {
            data.launch.umu_run_path = p;
            true
        },
        None => false,
    }
}

/// What on-demand detection reports: the stored path when it is non-empty
/// and names a file, else the empty string.
pub fn detected_umu_run_path(path: &str, is_file: bool) -> (r: String)
    ensures
        r@ == (if path@.len() > 0 && is_file { path@ } else { Seq::empty() }),
{
    let chars = chars_of(path);
    if chars.len() > 0 && is_file {
        string_of(&chars)
    } else {
        String::new()
    }
}

} // verus!
