//! Saving settings edited in the UI: the record to store and which
//! derived configuration has to follow.
use vstd::prelude::*;
use crate::text::{chars_eq, chars_of, string_of};
use super::migrations::{clamp_retention, clamped_retention};
use super::{backup_leaf_chars, backup_leaf_spec, Collection, ConfigData};

verus! {

// ── Settings updates ────────────────────────────────────────────────────────

/// `a` and `b` hold the same collection: same id, name, accent and games.
pub open spec fn same_collection(a: Collection, b: Collection) -> bool {
    &&& a.id == b.id
    &&& a.name == b.name
    &&& a.accent == b.accent
    &&& a.games@ == b.games@
}

/// `a` and `b` hold the same collections in the same order.
pub open spec fn same_collections(a: Seq<Collection>, b: Seq<Collection>) -> bool {
    &&& a.len() == b.len()
    &&& forall|i: int| 0 <= i < a.len() ==> same_collection(#[trigger] a[i], b[i])
}

/// A copy of one collection (`Clone`, field by field).
pub fn copy_collection(c: &Collection) -> (r: Collection)
    ensures
        same_collection(r, *c),
{
    let games = c.games.clone();
    assert(games@ =~= c.games@);
    Collection { id: c.id.clone(), name: c.name.clone(), accent: c.accent.clone(), games }
}

/// A copy of a list of collections.
pub fn copy_collections(v: &Vec<Collection>) -> (r: Vec<Collection>)
    ensures
        same_collections(r@, v@),
{
    let mut r: Vec<Collection> = Vec::new();
    let mut i: usize = 0;
    while i < v.len()
        invariant
            i <= v@.len(),
            r@.len() == i,
            forall|k: int| 0 <= k < i ==> same_collection(#[trigger] r@[k], v@[k]),
        decreases v.len() - i,
    {
        r.push(copy_collection(&v[i]));
        i = i + 1;
    }
    r
}

/// What a settings save does: the incoming record with the current
/// collections kept and the retention clamped, whether the cloud settings
/// or the retention differ from the current ones (and so must be projected
/// into ludusavi's config), and ludusavi's remote subpath.
#[derive(Debug)]
pub struct ConfigUpdate {
    pub data: ConfigData,
    pub cloud_changed: bool,
    pub retention_changed: bool,
    pub ludusavi_remote_path: String,
}

/// What `plan_config_update` promises of its result `r`.
pub open spec fn planned_update(
    current: ConfigData,
    incoming: ConfigData,
    current_base: Seq<char>,
    incoming_base: Seq<char>,
    r: ConfigUpdate,
) -> bool {
    &&& same_collections(r.data.collections@, current.collections@)
    &&& r.data == (ConfigData {
        collections: r.data.collections,
        save_retention_full: clamped_retention(incoming.save_retention_full),
        ..incoming
    })
    &&& r.cloud_changed == (current.cloud.provider@ != incoming.cloud.provider@
        || current.cloud.remote@ != incoming.cloud.remote@ || current.cloud.rclone_args@
        != incoming.cloud.rclone_args@ || current_base != incoming_base)
    &&& r.retention_changed == (current.save_retention_full != clamped_retention(
        incoming.save_retention_full,
    ))
    &&& r.ludusavi_remote_path@ == incoming_base + backup_leaf_spec()
}

/// Plans replacing `current` by `incoming` (the full record the settings
/// UI sent back). Collections are owned by their own API, so the current
/// ones are kept whatever `incoming` holds; the retention is clamped to
/// 3..=10. `current_base` and `incoming_base` are the normalised remote
/// base folders of the two records.
pub fn plan_config_update(
    current: &ConfigData,
    incoming: ConfigData,
    current_base: &str,
    incoming_base: &str,
) -> (r: ConfigUpdate)
    ensures
        planned_update(*current, incoming, current_base@, incoming_base@, r),
{
    let mut data = incoming;
    data.collections = copy_collections(&current.collections);
    data.save_retention_full = clamp_retention(data.save_retention_full);
    let cloud_changed = !chars_eq(&chars_of(current.cloud.provider.as_str()), &chars_of(data.cloud.provider.as_str()))
        || !chars_eq(&chars_of(current.cloud.remote.as_str()), &chars_of(data.cloud.remote.as_str()))
        || !chars_eq(&chars_of(current.cloud.rclone_args.as_str()), &chars_of(data.cloud.rclone_args.as_str()))
        || !chars_eq(&chars_of(current_base), &chars_of(incoming_base));
    let retention_changed = current.save_retention_full != data.save_retention_full;
    let mut remote = chars_of(incoming_base);
    let mut leaf = backup_leaf_chars();
    remote.append(&mut leaf);
    assert(remote@ =~= incoming_base@ + backup_leaf_spec());
    ConfigUpdate {
        data,
        cloud_changed,
        retention_changed,
        ludusavi_remote_path: string_of(&remote),
    }
}

} // verus!
