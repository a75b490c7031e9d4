//! What holds of the settings across calls: migrations settle, loads leave
//! a complete identity, and saves never touch collections.
use vstd::prelude::*;
use crate::text::{
    char_pred, is_ws, lemma_trim_end_is_prefix, lemma_trim_end_stop, lemma_trim_first, lemma_trim_noop,
    trim, trim_end_char,
};
use super::identity::{
    default_device_name_spec, device_identity_step, first_env_value, hostname_choice, HostEnv,
};
use super::migrations::{
    first_folder_with_path, lan_dir_step, lemma_first_folder_props,
    cloud_base_step, migrated_cloud_base, onboarding_step, retention_step, strip_backup_leaf, umu_detect_step,
    UmuRunLookup,
};
use super::update::{planned_update, same_collection, ConfigUpdate};
use super::{
    backup_leaf_spec, default_base_spec, default_folder_index, has_default_folder,
    lemma_default_folder_index, load_setup_chain, ConfigData, LanConfig, LaunchConfig, LibraryFolder,
};

verus! {

// ── Laws ────────────────────────────────────────────────────────────────────

/// The cloud base migration fires at most once: whatever the first run did,
/// a second run on its result reports no change and leaves the config as it
/// is, so a later load never moves the user's remote folder again.
pub proof fn law_cloud_base_migration_is_stable(a: ConfigData, b: ConfigData, c1: bool, b2: ConfigData, c2: bool)
    requires
        cloud_base_step(a, b, c1),
        cloud_base_step(b, b2, c2),
    ensures
        !c2,
        b2 == b,
{
    if c1 {
        lemma_migrated_base_is_fixed(a.cloud.base_path@, a.cloud.path@);
    }
}

/// The base a migration settles on is a fixed point: migrating that base
/// with its canonical path either yields nothing or the same base.
proof fn lemma_migrated_base_is_fixed(base_path: Seq<char>, path: Seq<char>)
    requires
        migrated_cloud_base(base_path, path) is Some,
    ensures
        ({
            let b = migrated_cloud_base(base_path, path)->0;
            match migrated_cloud_base(b, b + backup_leaf_spec()) {
                Some(b2) => b2 == b,
                None => true,
            }
        }),
{
    let b = migrated_cloud_base(base_path, path)->0;
    let t = trim(path);
    let old_path = trim_end_char(t, '/');
    let stripped = strip_backup_leaf(old_path);
    let leaf = backup_leaf_spec();
    // `b` is a non-empty prefix of `trim(path)` that does not end in '/'.
    lemma_trim_first(path);
    lemma_trim_end_is_prefix(t, char_pred('/'));
    lemma_trim_end_is_prefix(stripped, char_pred('/'));
    assert(stripped.len() <= old_path.len());
    assert(stripped == old_path.take(stripped.len() as int));
    assert(b[0] == stripped[0]);
    assert(stripped[0] == old_path[0]);
    assert(old_path[0] == t[0]);
    assert(!is_ws(b[0]));
    assert(b.last() != '/');
    // The rewritten path is already trimmed and ends in the leaf.
    let p2 = b + leaf;
    assert(p2[0] == b[0]);
    assert(p2.last() == 'p');
    lemma_trim_noop(p2);
    lemma_trim_end_stop(p2, char_pred('/'));
    assert(p2.skip(p2.len() - leaf.len()) =~= leaf);
    assert(p2.take(p2.len() - leaf.len()) =~= b);
    assert(strip_backup_leaf(p2) == b);
    lemma_trim_end_stop(b, char_pred('/'));
    if p2 == default_base_spec() + leaf {
        assert(p2.take(p2.len() - leaf.len()) =~= default_base_spec());
    }
}

/// A fresh install's cloud settings (`Spool`, `Spool/ludusavi-backup`) are
/// left alone.
pub proof fn law_cloud_base_migration_inert_for_defaults()
    ensures
        migrated_cloud_base(default_base_spec(), default_base_spec() + backup_leaf_spec()) is None,
{
    let p = default_base_spec() + backup_leaf_spec();
    assert(p[0] == 'S');
    assert(p.last() == 'p');
    lemma_trim_noop(p);
    lemma_trim_end_stop(p, char_pred('/'));
    lemma_trim_noop(default_base_spec());
}

/// The retention migration leaves a value in 3..=10, and running it again
/// changes nothing.
pub proof fn law_retention_migration_settles(a: ConfigData, b: ConfigData, c1: bool, b2: ConfigData, c2: bool)
    requires
        retention_step(a, b, c1),
        retention_step(b, b2, c2),
    ensures
        3 <= b.save_retention_full <= 10,
        !c2,
        b2 == b,
{
}

/// The LAN-dir migration runs once: afterwards the legacy field is empty,
/// so a second run reports no change and leaves the config as it is.
pub proof fn law_lan_dir_migration_runs_once(a: ConfigData, b: ConfigData, c1: bool, b2: ConfigData, c2: bool)
    requires
        lan_dir_step(a, b, c1),
        lan_dir_step(b, b2, c2),
    ensures
        !c2,
        b2.library_folders == b.library_folders,
        b2.lan.install_dir@ == b.lan.install_dir@,
        b2 == (ConfigData { lan: LanConfig { install_dir: b2.lan.install_dir, ..b.lan }, ..b }),
{
    assert(b.lan.install_dir@ =~= Seq::<char>::empty());
    assert(trim(b.lan.install_dir@) =~= Seq::<char>::empty());
}

/// A legacy LAN dir keeps where LAN installs land: when no folder was the
/// install default, after the migration the default-install folder is the
/// one with the (trimmed) legacy path.
pub proof fn law_lan_dir_becomes_install_root(a: ConfigData, b: ConfigData, c: bool)
    requires
        lan_dir_step(a, b, c),
        trim(a.lan.install_dir@).len() > 0,
        !has_default_folder(a.library_folders@),
    ensures
        default_folder_index(b.library_folders@) matches Some(i) && b.library_folders@[i].path@ == trim(
            a.lan.install_dir@,
        ),
{
    let dir = trim(a.lan.install_dir@);
    let folders = a.library_folders@;
    let nf = b.library_folders@;
    lemma_first_folder_props(folders, dir);
    match first_folder_with_path(folders, dir) {
        Some(i) => {
            assert(nf[i].default_install);
            assert(nf[i].path@ == dir);
            assert forall|m: int| 0 <= m < i implies !(#[trigger] nf[m]).default_install by {
                assert(nf[m] == folders[m]);
                assert(!folders[m].default_install);
            }
            lemma_default_folder_index(nf, i);
        },
        None => {
            let last = folders.len() as int;
            assert(nf[last] == nf.last());
            assert forall|m: int| 0 <= m < last implies !(#[trigger] nf[m]).default_install by {
                assert(nf.take(last)[m] == nf[m]);
                assert(!folders[m].default_install);
            }
            lemma_default_folder_index(nf, last);
        },
    }
}

/// Number of folders flagged `default_install`.
pub open spec fn default_folder_count(folders: Seq<LibraryFolder>) -> nat
    decreases folders.len(),
{
    if folders.len() == 0 {
        0
    } else {
        default_folder_count(folders.drop_last()) + if folders.last().default_install {
            1nat
        } else {
            0nat
        }
    }
}

proof fn lemma_default_count_zero(folders: Seq<LibraryFolder>)
    requires
        !has_default_folder(folders),
    ensures
        default_folder_count(folders) == 0,
    decreases folders.len(),
{
    if folders.len() > 0 {
        assert(!folders[folders.len() - 1].default_install);
        assert forall|k: int| 0 <= k < folders.drop_last().len() implies !(
        #[trigger] folders.drop_last()[k]).default_install by {
            assert(folders.drop_last()[k] == folders[k]);
        }
        lemma_default_count_zero(folders.drop_last());
    }
}

proof fn lemma_default_count_positive(folders: Seq<LibraryFolder>, k: int)
    requires
        0 <= k < folders.len(),
        folders[k].default_install,
    ensures
        default_folder_count(folders) > 0,
    decreases folders.len(),
{
    if k < folders.len() - 1 {
        assert(folders.drop_last()[k] == folders[k]);
        lemma_default_count_positive(folders.drop_last(), k);
    }
}

/// Flipping one unflagged folder to flagged adds one to the count.
proof fn lemma_default_count_flag_one(folders: Seq<LibraryFolder>, i: int, f: LibraryFolder)
    requires
        0 <= i < folders.len(),
        !folders[i].default_install,
        f.default_install,
    ensures
        default_folder_count(folders.update(i, f)) == default_folder_count(folders) + 1,
    decreases folders.len(),
{
    let u = folders.update(i, f);
    if i == folders.len() - 1 {
        assert(u.drop_last() =~= folders.drop_last());
    } else {
        assert(u.drop_last() =~= folders.drop_last().update(i, f));
        lemma_default_count_flag_one(folders.drop_last(), i, f);
    }
}

/// At most one folder carries the install default, and the LAN-dir
/// migration keeps it that way.
pub proof fn law_lan_dir_keeps_one_default(a: ConfigData, b: ConfigData, c: bool)
    requires
        lan_dir_step(a, b, c),
        default_folder_count(a.library_folders@) <= 1,
    ensures
        default_folder_count(b.library_folders@) <= 1,
{
    let dir = trim(a.lan.install_dir@);
    let folders = a.library_folders@;
    let nf = b.library_folders@;
    if dir.len() > 0 {
        lemma_first_folder_props(folders, dir);
        let no_default_yet = !has_default_folder(folders);
        if no_default_yet {
            lemma_default_count_zero(folders);
        }
        match first_folder_with_path(folders, dir) {
            Some(i) => {
                if no_default_yet {
                    assert(!folders[i].default_install);
                    lemma_default_count_flag_one(folders, i, nf[i]);
                } else {
                    assert(nf =~= folders) by {
                        assert(folders[i].default_install || no_default_yet == folders[i].default_install);
                    }
                }
            },
            None => {
                assert(nf.drop_last() =~= folders);
            },
        }
    }
}

/// The onboarding migration never un-completes onboarding, and once it has
/// set the flag a second run does nothing.
pub proof fn law_onboarding_is_monotone(
    a: ConfigData,
    b: ConfigData,
    file_present: bool,
    key_present: bool,
    c1: bool,
    b2: ConfigData,
    file_present2: bool,
    key_present2: bool,
    c2: bool,
)
    requires
        onboarding_step(a, b, file_present, key_present, c1),
        onboarding_step(b, b2, file_present2, key_present2, c2),
    ensures
        a.onboarding_completed ==> b.onboarding_completed,
        c1 ==> !c2 && b2 == b,
{
}

/// Every host-name choice is non-empty and already trimmed.
pub proof fn law_hostname_never_empty(os: Seq<char>, env: HostEnv)
    ensures
        hostname_choice(os, env).len() > 0,
        trim(hostname_choice(os, env)) == hostname_choice(os, env),
{
    lemma_trim_first(os);
    if trim(os).len() > 0 {
        lemma_trim_noop(trim(os));
    } else {
        match first_env_value(env) {
            Some(v) => {
                lemma_trim_first(v);
                if trim(v).len() > 0 {
                    lemma_trim_noop(trim(v));
                } else {
                    lemma_trim_noop(default_device_name_spec());
                }
            },
            None => {
                lemma_trim_noop(default_device_name_spec());
            },
        }
    }
}

/// The OS host name comes first: whenever it has non-blank text, the device
/// name is exactly that text trimmed, whatever the environment holds; the
/// environment variables, then `"Spool device"`, are used only when it is
/// blank, and a set, non-blank variable is then used trimmed.
pub proof fn law_hostname_prefers_os_name(os: Seq<char>, env: HostEnv, other_env: HostEnv)
    ensures
        trim(os).len() > 0 ==> hostname_choice(os, env) == trim(os),
        trim(os).len() > 0 ==> hostname_choice(os, env) == hostname_choice(os, other_env),
        trim(os).len() == 0 && env.computername is Some && trim(env.computername->0@).len() > 0
            ==> hostname_choice(os, env) == trim(env.computername->0@),
        trim(os).len() == 0 && env.computername is None && env.hostname is Some && trim(
            env.hostname->0@,
        ).len() > 0 ==> hostname_choice(os, env) == trim(env.hostname->0@),
        trim(os).len() == 0 && env.computername is None && env.hostname is None && env.host is None
            ==> hostname_choice(os, env) == default_device_name_spec(),
{
}

/// After `ensure_device_identity` the device id is non-empty and has no
/// surrounding whitespace, and the device name is non-empty.
pub proof fn law_device_identity_is_complete(a: ConfigData, b: ConfigData, env: HostEnv, c: bool)
    requires
        device_identity_step(a, b, env, c),
    ensures
        b.device_id@.len() > 0,
        trim(b.device_id@) == b.device_id@,
        b.device_name@.len() > 0,
{
    lemma_trim_first(a.device_id@);
    if trim(a.device_id@).len() > 0 {
        lemma_trim_noop(trim(a.device_id@));
    } else {
        assert(b.device_id@[35] == b.device_id@.last());
        assert(!is_ws(b.device_id@[0]));
        lemma_trim_noop(b.device_id@);
    }
    if !(a.device_name@.len() > 0 && a.device_name@ != default_device_name_spec()) {
        let os = choose|os: Seq<char>| b.device_name@ == hostname_choice(os, env);
        law_hostname_never_empty(os, env);
    }
}

/// What every load leaves behind: a complete device identity, a retention
/// in 3..=10 and no legacy LAN dir.
pub proof fn law_loaded_config_is_settled(
    start: ConfigData,
    end: ConfigData,
    mid: Seq<ConfigData>,
    flags: Seq<bool>,
    raw_json: Option<&str>,
    env: HostEnv,
    umu: UmuRunLookup,
    exe: Option<String>,
)
    requires
        load_setup_chain(start, end, mid, flags, raw_json, env, umu, exe),
    ensures
        end.device_id@.len() > 0,
        trim(end.device_id@) == end.device_id@,
        end.device_name@.len() > 0,
        3 <= end.save_retention_full <= 10,
        end.lan.install_dir@.len() == 0,
{
    law_device_identity_is_complete(mid[0], mid[1], env, flags[0]);
    assert(mid[2].device_id == mid[1].device_id && mid[2].device_name == mid[1].device_name);
    assert(mid[3].device_id == mid[2].device_id && mid[3].device_name == mid[2].device_name);
    assert(mid[4].device_id == mid[3].device_id && mid[4].device_name == mid[3].device_name);
    assert(mid[5].device_id == mid[4].device_id && mid[5].device_name == mid[4].device_name);
    assert(mid[6].device_id == mid[5].device_id && mid[6].device_name == mid[5].device_name);
    assert(mid[7].device_id == mid[6].device_id && mid[7].device_name == mid[6].device_name);
    assert(mid[7].save_retention_full == mid[6].save_retention_full);
}

/// A settings save never changes the collections and always stores a
/// retention in 3..=10.
pub proof fn law_update_keeps_collections(
    current: ConfigData,
    incoming: ConfigData,
    current_base: Seq<char>,
    incoming_base: Seq<char>,
    r: ConfigUpdate,
)
    requires
        planned_update(current, incoming, current_base, incoming_base, r),
    ensures
        r.data.collections@.len() == current.collections@.len(),
        forall|i: int|
            0 <= i < current.collections@.len() ==> #[trigger] r.data.collections@[i].id
                == current.collections@[i].id && r.data.collections@[i].games@
                == current.collections@[i].games@,
        3 <= r.data.save_retention_full <= 10,
{
    assert forall|i: int| 0 <= i < current.collections@.len() implies #[trigger] r.data.collections@[i].id
        == current.collections@[i].id && r.data.collections@[i].games@ == current.collections@[i].games@ by {
        assert(same_collection(r.data.collections@[i], current.collections@[i]));
    }
}

/// A save that leaves the cloud settings and the retention as they were
/// (say, a UI-mode toggle) projects nothing into ludusavi's config.
pub proof fn law_plain_toggle_projects_nothing(
    current: ConfigData,
    incoming: ConfigData,
    base: Seq<char>,
    r: ConfigUpdate,
)
    requires
        planned_update(current, incoming, base, base, r),
        incoming.cloud.provider@ == current.cloud.provider@,
        incoming.cloud.remote@ == current.cloud.remote@,
        incoming.cloud.rclone_args@ == current.cloud.rclone_args@,
        incoming.save_retention_full == current.save_retention_full,
        3 <= current.save_retention_full <= 10,
    ensures
        !r.cloud_changed,
        !r.retention_changed,
{
}

/// A settings save projects the cloud settings into ludusavi's config
/// whenever any one of the provider, the remote, the rclone arguments or
/// the remote base folder differs from the current one, and only then; the
/// retention is projected exactly when the stored value changes; ludusavi's
/// remote subpath is always the new base folder's `ludusavi-backup` leaf.
pub proof fn law_update_projects_each_cloud_change(
    current: ConfigData,
    incoming: ConfigData,
    current_base: Seq<char>,
    incoming_base: Seq<char>,
    r: ConfigUpdate,
)
    requires
        planned_update(current, incoming, current_base, incoming_base, r),
    ensures
        incoming.cloud.provider@ != current.cloud.provider@ ==> r.cloud_changed,
        incoming.cloud.remote@ != current.cloud.remote@ ==> r.cloud_changed,
        incoming.cloud.rclone_args@ != current.cloud.rclone_args@ ==> r.cloud_changed,
        incoming_base != current_base ==> r.cloud_changed,
        r.cloud_changed ==> (incoming.cloud.provider@ != current.cloud.provider@
            || incoming.cloud.remote@ != current.cloud.remote@
            || incoming.cloud.rclone_args@ != current.cloud.rclone_args@ || incoming_base != current_base),
        r.retention_changed <==> r.data.save_retention_full != current.save_retention_full,
        r.data.cloud == incoming.cloud,
        r.ludusavi_remote_path@.take(incoming_base.len() as int) == incoming_base,
        r.ludusavi_remote_path@.skip(incoming_base.len() as int) == backup_leaf_spec(),
{
    assert(r.ludusavi_remote_path@.take(incoming_base.len() as int) =~= incoming_base);
    assert(r.ludusavi_remote_path@.skip(incoming_base.len() as int) =~= backup_leaf_spec());
}

/// Outside Windows, a configured umu-run path that is empty or no longer
/// names a file is replaced by the resolved umu-run location, when one was
/// found, and reported as a change; a configured path naming a file, or
/// any path on Windows, is kept. Nothing but the umu-run path ever changes.
pub proof fn law_umu_run_detection(a: ConfigData, b: ConfigData, look: UmuRunLookup, c: bool)
    requires
        umu_detect_step(a, b, look, c),
    ensures
        !look.is_windows && !(a.launch.umu_run_path@.len() > 0 && look.configured_is_file)
            && look.resolved is Some ==> c && b.launch.umu_run_path == look.resolved->0,
        !look.is_windows && !look.configured_is_file && look.resolved is Some ==> c
            && b.launch.umu_run_path == look.resolved->0,
        look.is_windows ==> !c && b.launch.umu_run_path == a.launch.umu_run_path,
        a.launch.umu_run_path@.len() > 0 && look.configured_is_file ==> !c && b.launch.umu_run_path
            == a.launch.umu_run_path,
        look.resolved is None ==> !c && b.launch.umu_run_path == a.launch.umu_run_path,
        b == (ConfigData {
            launch: LaunchConfig { umu_run_path: b.launch.umu_run_path, ..a.launch },
            ..a
        }),
{
}

} // verus!
