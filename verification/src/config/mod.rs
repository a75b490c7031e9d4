//! Application settings: the on-disk `config.json` model, its defaults,
//! where new installs land, and loading, which runs the one-time setup
//! and migrations of the submodules.
//!
//! Reading and writing the file, and the JSON (de)serialisation of these
//! types, happen outside this crate; everything here works on values.
use vstd::prelude::*;
use crate::text::{chars_of, has_prefix, has_suffix, string_of};
use self::identity::{device_identity_step, ensure_device_identity, HostEnv};
use self::migrations::{
    auto_detect_umu_run, cloud_base_step, exe_stamp_step, json_object_has_key, lan_dir_step,
    migrate_cloud_base_path, migrate_lan_install_dir, migrate_onboarding_completed,
    migrate_retention_floor, onboarding_step, retention_step, stamp_current_exe, umu_detect_step,
    UmuRunLookup,
};

pub mod identity;
pub mod laws;
pub mod migrations;
pub mod update;

verus! {

/// UI density / layout mode. `Auto` resolves at runtime to `desktop` or
/// `touch`; `Desktop` / `Touch` force it.
#[derive(Debug, Clone, Copy, PartialEq, Eq, Structural)]
pub enum UiMode {
    Auto,
    Desktop,
    Touch,
}

impl Default for UiMode {
    fn default() -> (r: Self)
        ensures
            r == UiMode::Auto,
    {
        UiMode::Auto
    }
}

/// One user-managed install root. `default_install` marks the folder new
/// installs land in; when none carries it the first folder acts as default.
#[derive(Debug, Clone)]
pub struct LibraryFolder {
    pub path: String,
    pub label: Option<String>,
    pub default_install: bool,
}

/// One user-defined game collection: a stable id, a display name, an accent
/// colour and the ids of its member games.
#[derive(Debug, Clone)]
pub struct Collection {
    pub id: String,
    pub name: String,
    pub accent: String,
    pub games: Vec<String>,
}

/// Cloud-save and rclone settings.
#[derive(Debug, Clone)]
pub struct CloudConfig {
    pub provider: String,
    pub remote: String,
    /// Base folder on the remote; ludusavi saves go to `<base_path>/ludusavi-backup`.
    pub base_path: String,
    /// Legacy exact ludusavi subpath, superseded by `base_path`.
    pub path: String,
    pub rclone_args: String,
    pub webdav_url: String,
    pub webdav_username: String,
}

/// LAN game-sharing settings.
#[derive(Debug, Clone)]
pub struct LanConfig {
    pub share_enabled: bool,
    pub share_port: u16,
    /// Legacy LAN install dir, converted into a library folder on load.
    pub install_dir: String,
    /// Max aggregate LAN download throughput in Mbps, as the IEEE-754 bit
    /// pattern of the `f64` stored on disk (`0` bits is `0.0`, unlimited).
    pub download_max_mbps_bits: u64,
}

/// Proton / Linux launch settings.
#[derive(Debug, Clone)]
pub struct LaunchConfig {
    /// Path to `umu-run`; empty means autodetect.
    pub umu_run_path: String,
    /// Default Proton build directory; empty means the newest discovered.
    pub default_proton_path: String,
}

/// The whole settings record as stored in `config.json`.
#[derive(Debug, Clone)]
pub struct ConfigData {
    pub steamgriddb_enabled: bool,
    pub steamgriddb_api_key: String,
    pub spool_exe: String,
    pub device_id: String,
    pub device_name: String,
    pub ui_mode: UiMode,
    pub tray_intro_seen: bool,
    pub onboarding_completed: bool,
    pub decky_update_notified_version: String,
    /// Full save revisions ludusavi keeps per game; kept within 3..=10.
    pub save_retention_full: u32,
    pub library_folders: Vec<LibraryFolder>,
    pub collections: Vec<Collection>,
    pub offline_mode: bool,
    pub cloud: CloudConfig,
    pub lan: LanConfig,
    pub launch: LaunchConfig,
}

// ── Fixed strings ───────────────────────────────────────────────────────────

/// `"Spool"`, the default cloud base folder.
pub open spec fn default_base_spec() -> Seq<char> {
    seq!['S', 'p', 'o', 'o', 'l']
}

/// `"/ludusavi-backup"`, the leaf ludusavi saves live under.
pub open spec fn backup_leaf_spec() -> Seq<char> {
    seq!['/', 'l', 'u', 'd', 'u', 's', 'a', 'v', 'i', '-', 'b', 'a', 'c', 'k', 'u', 'p']
}

fn default_base_chars() -> (r: Vec<char>)
    ensures
        r@ == default_base_spec(),
{
    let r = vec!['S', 'p', 'o', 'o', 'l'];
    assert(r@ =~= default_base_spec());
    r
}

fn backup_leaf_chars() -> (r: Vec<char>)
    ensures
        r@ == backup_leaf_spec(),
{
    let r = vec!['/', 'l', 'u', 'd', 'u', 's', 'a', 'v', 'i', '-', 'b', 'a', 'c', 'k', 'u', 'p'];
    assert(r@ =~= backup_leaf_spec());
    r
}

// ── Defaults ────────────────────────────────────────────────────────────────

/// `"--fast-list --ignore-checksum"`, the default extra rclone arguments.
pub open spec fn default_rclone_args_spec() -> Seq<char> {
    "--fast-list --ignore-checksum"@
}

impl Default for LibraryFolder {
    fn default() -> (r: Self)
        ensures
            r.path@.len() == 0,
            r.label is None,
            !r.default_install,
    {
        LibraryFolder { path: String::new(), label: None, default_install: false }
    }
}

impl Default for Collection {
    fn default() -> (r: Self)
        ensures
            r.id@.len() == 0,
            r.name@.len() == 0,
            r.accent@.len() == 0,
            r.games@.len() == 0,
    {
        Collection { id: String::new(), name: String::new(), accent: String::new(), games: Vec::new() }
    }
}

impl Default for CloudConfig {
    fn default() -> (r: Self)
        ensures
            r.provider@.len() == 0,
            r.remote@.len() == 0,
            r.base_path@ == default_base_spec(),
            r.path@ == default_base_spec() + backup_leaf_spec(),
            r.rclone_args@ == default_rclone_args_spec(),
            r.webdav_url@.len() == 0,
            r.webdav_username@.len() == 0,
    {
        let base = String::from_str("Spool");
        let path = String::from_str("Spool/ludusavi-backup");
        proof {
            reveal_strlit("Spool");
            reveal_strlit("Spool/ludusavi-backup");
            assert(base@ =~= default_base_spec());
            assert(path@ =~= default_base_spec() + backup_leaf_spec());
        }
        CloudConfig {
            provider: String::new(),
            remote: String::new(),
            base_path: base,
            path,
            rclone_args: String::from_str("--fast-list --ignore-checksum"),
            webdav_url: String::new(),
            webdav_username: String::new(),
        }
    }
}

impl Default for LanConfig {
    fn default() -> (r: Self)
        ensures
            r.share_enabled,
            r.share_port == 47632,
            r.install_dir@.len() == 0,
            r.download_max_mbps_bits == 0,
    {
        LanConfig {
            share_enabled: true,
            share_port: 47632,
            install_dir: String::new(),
            download_max_mbps_bits: 0,
        }
    }
}

impl Default for LaunchConfig {
    fn default() -> (r: Self)
        ensures
            r.umu_run_path@.len() == 0,
            r.default_proton_path@.len() == 0,
    {
        LaunchConfig { umu_run_path: String::new(), default_proton_path: String::new() }
    }
}

/// The values a fresh install starts from.
pub open spec fn is_default_config(r: ConfigData) -> bool {
    &&& !r.steamgriddb_enabled
    &&& r.steamgriddb_api_key@.len() == 0
    &&& r.spool_exe@.len() == 0
    &&& r.device_id@.len() == 0
    &&& r.device_name@.len() == 0
    &&& r.ui_mode == UiMode::Auto
    &&& !r.tray_intro_seen
    &&& !r.onboarding_completed
    &&& r.decky_update_notified_version@.len() == 0
    &&& r.save_retention_full == 5
    &&& r.library_folders@.len() == 0
    &&& r.collections@.len() == 0
    &&& !r.offline_mode
    &&& r.cloud.provider@.len() == 0
    &&& r.cloud.remote@.len() == 0
    &&& r.cloud.base_path@ == default_base_spec()
    &&& r.cloud.path@ == default_base_spec() + backup_leaf_spec()
    &&& r.cloud.rclone_args@ == default_rclone_args_spec()
    &&& r.cloud.webdav_url@.len() == 0
    &&& r.cloud.webdav_username@.len() == 0
    &&& r.lan.share_enabled
    &&& r.lan.share_port == 47632
    &&& r.lan.install_dir@.len() == 0
    &&& r.lan.download_max_mbps_bits == 0
    &&& r.launch.umu_run_path@.len() == 0
    &&& r.launch.default_proton_path@.len() == 0
}

impl Default for ConfigData {
    fn default() -> (r: Self)
        ensures
            is_default_config(r),
    {
        ConfigData {
            steamgriddb_enabled: false,
            steamgriddb_api_key: String::new(),
            spool_exe: String::new(),
            device_id: String::new(),
            device_name: String::new(),
            ui_mode: UiMode::default(),
            tray_intro_seen: false,
            onboarding_completed: false,
            decky_update_notified_version: String::new(),
            save_retention_full: 5,
            library_folders: Vec::new(),
            collections: Vec::new(),
            offline_mode: false,
            cloud: CloudConfig::default(),
            lan: LanConfig::default(),
            launch: LaunchConfig::default(),
        }
    }
}

// ── Install folder resolution ───────────────────────────────────────────────

/// Some folder already carries the `default_install` flag.
pub open spec fn has_default_folder(folders: Seq<LibraryFolder>) -> bool {
    exists|k: int| 0 <= k < folders.len() && #[trigger] folders[k].default_install
}


/// Index of the folder new installs land in: the first flagged
/// `default_install`, else the first folder; `None` when there are none.
pub open spec fn default_folder_index(folders: Seq<LibraryFolder>) -> Option<int> {
    if has_default_folder(folders) {
        Some(
            choose|k: int|
                0 <= k < folders.len() && folders[k].default_install && forall|m: int|
                    0 <= m < k ==> !(#[trigger] folders[m]).default_install,
        )
    } else if folders.len() > 0 {
        Some(0)
    } else {
        None
    }
}

pub proof fn lemma_default_folder_index(folders: Seq<LibraryFolder>, i: int)
    requires
        0 <= i < folders.len(),
        folders[i].default_install,
        forall|m: int| 0 <= m < i ==> !(#[trigger] folders[m]).default_install,
    ensures
        default_folder_index(folders) == Some(i),
{
    let j = choose|k: int|
        0 <= k < folders.len() && folders[k].default_install && forall|m: int|
            0 <= m < k ==> !(#[trigger] folders[m]).default_install;
    assert(0 <= j < folders.len() && folders[j].default_install && forall|m: int|
            0 <= m < j ==> !(#[trigger] folders[m]).default_install);
    if j < i {
        assert(!folders[j].default_install);
    } else if j > i {
        assert(!folders[i].default_install);
    }
}

/// `\\?\`, the Windows verbatim path prefix, under which joining
/// normalises the whole path.
pub open spec fn verbatim_prefix_spec() -> Seq<char> {
    seq!['\\', '\\', '?', '\\']
}

/// A single path component: non-empty, without separators or a drive colon.
pub open spec fn is_plain_component(s: Seq<char>) -> bool {
    s.len() > 0 && forall|i: int| 0 <= i < s.len() ==> #[trigger] s[i] != '/' && s[i] != '\\' && s[i] != ':'
}

/// Unless `base` has a verbatim prefix, `joined` is `base`, at most one
/// separator character, then `leaf`.
pub open spec fn joined_after_separator(base: Seq<char>, leaf: Seq<char>, joined: Seq<char>) -> bool {
    !has_prefix(base, verbatim_prefix_spec()) ==> exists|sep: Seq<char>|
        sep.len() <= 1 && #[trigger] (base + sep + leaf) == joined
}

/// `base` ends in a path separator (`/` or `\`) or a drive colon.
pub open spec fn ends_in_separator(base: Seq<char>) -> bool {
    base.len() > 0 && (base.last() == '/' || base.last() == '\\' || base.last() == ':')
}

/// When `base` is non-empty, has no verbatim prefix and does not end in a
/// separator or a drive colon, `joined` is `base`, exactly one separator
/// (`/` or `\`, as the platform writes it), then `leaf`.
pub open spec fn joined_with_separator(base: Seq<char>, leaf: Seq<char>, joined: Seq<char>) -> bool {
    (base.len() > 0 && !has_prefix(base, verbatim_prefix_spec()) && !ends_in_separator(base)) ==> (
    joined == base + seq!['/'] + leaf || joined == base + seq!['\\'] + leaf)
}

/// `leaf` joined onto `base` as a file-system path (`Path::join`, then
/// back to text). A relative component that is neither `.` nor `..` is
/// appended after at most one separator: exactly one when `base` is
/// non-empty and does not already end in one (or in a drive colon), which
/// one depending on the platform. Under a Windows verbatim prefix the path
/// may also be normalised, so there only the ending is stated.
#[verifier::external_body]
fn join_path(base: &str, leaf: &str) -> (r: String)
    requires
        is_plain_component(leaf@),
        leaf@ != seq!['.'],
        leaf@ != seq!['.', '.'],
    ensures
        has_suffix(r@, leaf@),
        joined_after_separator(base@, leaf@, r@),
        joined_with_separator(base@, leaf@, r@),
{
    std::path::Path::new(base).join(leaf).to_string_lossy().to_string()
}

/// `"lan-games"`, the folder under app data used when no library folder exists.
pub open spec fn lan_games_spec() -> Seq<char> {
    "lan-games"@
}

impl ConfigData {
    /// The library folder new installs land in: the one flagged
    /// `default_install`, else the first configured folder; `None` when no
    /// library folders exist.
    pub fn default_install_folder(&self) -> (r: Option<&LibraryFolder>)
        ensures
            r == (match default_folder_index(self.library_folders@) {
                Some(i) => Some(&self.library_folders@[i]),
                None => None,
            }),
    {
        let mut i: usize = 0;
        while i < self.library_folders.len()
            invariant
                i <= self.library_folders@.len(),
                forall|m: int| 0 <= m < i ==> !(#[trigger] self.library_folders@[m]).default_install,
            decreases self.library_folders.len() - i,
        {
            if self.library_folders[i].default_install {
                proof {
                    lemma_default_folder_index(self.library_folders@, i as int);
                }
                return Some(&self.library_folders[i]);
            }
            i = i + 1;
        }
        if self.library_folders.len() > 0 {
            Some(&self.library_folders[0])
        } else {
            None
        }
    }

    /// Where new LAN installs land: the default-install library folder's
    /// path, falling back to `<app_data_dir>/lan-games` (joined with the
    /// platform's separator) when no library folders are configured.
    pub fn lan_install_root(&self, app_data_dir: &str) -> (r: String)
        ensures
            match default_folder_index(self.library_folders@) {
                Some(i) => r@ == self.library_folders@[i].path@,
                None => {
                    &&& has_suffix(r@, lan_games_spec())
                    &&& joined_after_separator(app_data_dir@, lan_games_spec(), r@)
                    &&& joined_with_separator(app_data_dir@, lan_games_spec(), r@)
                },
            },
    {
        match self.default_install_folder() {
            Some(folder) => {
                let p = chars_of(folder.path.as_str());
                string_of(&p)
            },
            None => {
                proof {
                    reveal_strlit("lan-games");
                }
                join_path(app_data_dir, "lan-games")
            },
        }
    }
}

// ── Loading ─────────────────────────────────────────────────────────────────

/// Settings plus the one-time setup run when they are loaded.
#[derive(Debug)]
pub struct Config {
    pub data: ConfigData,
}

impl Default for Config {
    fn default() -> (r: Self)
        ensures
            is_default_config(r.data),
    {
        Config { data: ConfigData::default() }
    }
}

/// The seven load-time steps, in order, take `start` through the states in
/// `mid` to `end`; `flags` holds what each step returned.
pub open spec fn load_setup_chain(
    start: ConfigData,
    end: ConfigData,
    mid: Seq<ConfigData>,
    flags: Seq<bool>,
    raw_json: Option<&str>,
    env: HostEnv,
    umu: UmuRunLookup,
    exe: Option<String>,
) -> bool {
    &&& mid.len() == 8
    &&& flags.len() == 7
    &&& mid[0] == start
    &&& mid[7] == end
    &&& device_identity_step(mid[0], mid[1], env, flags[0])
    &&& umu_detect_step(mid[1], mid[2], umu, flags[1])
    &&& exe_stamp_step(mid[2], mid[3], exe, flags[2])
    &&& cloud_base_step(mid[3], mid[4], flags[3])
    &&& onboarding_step(
        mid[4],
        mid[5],
        raw_json is Some,
        raw_json matches Some(j) && json_object_has_key(j@, "onboarding_completed"@),
        flags[4],
    )
    &&& retention_step(mid[5], mid[6], flags[5])
    &&& lan_dir_step(mid[6], mid[7], flags[6])
}

/// Picks the settings a load starts from. `parsed` is `config.json` as
/// parsed when the file was read (`None` when it was missing, unreadable or
/// malformed), `file_read` whether it was read, and `backup` the parsed
/// `config.json.bak`. A parsed file wins; a file that was read but did not
/// parse falls back to the backup; otherwise the defaults are used.
pub fn settle_loaded_data(parsed: Option<ConfigData>, file_read: bool, backup: Option<ConfigData>) -> (r: ConfigData)
    ensures
        match parsed {
            Some(d) => r == d,
            None => match backup {
                Some(d) if file_read => r == d,
                _ => is_default_config(r),
            },
        },
{
    match parsed {
        Some(d) => d,
        None => if file_read {
            match backup {
                Some(d) => d,
                None => ConfigData::default(),
            }
        } else {
            ConfigData::default()
        },
    }
}

impl Config {
    /// Finishes loading settings read from disk (`raw_json` is the file's
    /// text, `None` when there was no file): assigns the device identity,
    /// detects umu-run, stamps the executable path and runs the cloud-base,
    /// onboarding, retention and LAN-dir migrations, in that order. The flag
    /// is true when any step changed something, so the file should be saved.
    pub fn finish_load(
        data: ConfigData,
        raw_json: Option<&str>,
        env: &HostEnv,
        umu: UmuRunLookup,
        exe: Option<String>,
    ) -> (r: (Config, bool))
        ensures
            exists|mid: Seq<ConfigData>, flags: Seq<bool>|
                #[trigger] load_setup_chain(data, r.0.data, mid, flags, raw_json, *env, umu, exe)
                    && r.1 == flags.contains(true),
    {
        let mut data = data;
        let ghost d0 = data;
        let c0 = ensure_device_identity(&mut data, env);
        let ghost d1 = data;
        let c1 = auto_detect_umu_run(&mut data, umu);
        let ghost d2 = data;
        let c2 = stamp_current_exe(&mut data, exe);
        let ghost d3 = data;
        let c3 = migrate_cloud_base_path(&mut data);
        let ghost d4 = data;
        let c4 = migrate_onboarding_completed(raw_json, &mut data);
        let ghost d5 = data;
        let c5 = migrate_retention_floor(&mut data);
        let ghost d6 = data;
        let c6 = migrate_lan_install_dir(&mut data);
        let changed = c0 || c1 || c2 || c3 || c4 || c5 || c6;
        let ghost mid = seq![d0, d1, d2, d3, d4, d5, d6, data];
        let ghost flags = seq![c0, c1, c2, c3, c4, c5, c6];
        proof {
            assert(load_setup_chain(d0, data, mid, flags, raw_json, *env, umu, exe));
            if changed {
                if c0 { assert(flags[0]); }
                if c1 { assert(flags[1]); }
                if c2 { assert(flags[2]); }
                if c3 { assert(flags[3]); }
                if c4 { assert(flags[4]); }
                if c5 { assert(flags[5]); }
                if c6 { assert(flags[6]); }
            } else {
                assert(!flags.contains(true)) by {
                    assert forall|k: int| 0 <= k < flags.len() implies flags[k] != true by {}
                }
            }
        }
        (Config { data }, changed)
    }
}

} // verus!
