//! The device's identity: a stable id (a trimmed id, or a fresh UUID) and
//! a device name derived from the host name unless the user chose one.
use vstd::prelude::*;
use crate::text::{chars_eq, chars_of, is_ws, lemma_trim_first, lemma_trim_noop, string_of, trim, trim_chars};
use super::ConfigData;

verus! {

// ── Device identity ─────────────────────────────────────────────────────────

/// `"Spool device"`, the last-resort device name.
pub open spec fn default_device_name_spec() -> Seq<char> {
    seq!['S', 'p', 'o', 'o', 'l', ' ', 'd', 'e', 'v', 'i', 'c', 'e']
}

fn default_device_name() -> (r: Vec<char>)
    ensures
        r@ == default_device_name_spec(),
{
    let r = vec!['S', 'p', 'o', 'o', 'l', ' ', 'd', 'e', 'v', 'i', 'c', 'e'];
    assert(r@ =~= default_device_name_spec());
    r
}

/// The host-name environment variables, read by the caller:
/// `COMPUTERNAME`, `HOSTNAME` and `HOST`, `None` where unset.
#[derive(Debug, Clone)]
pub struct HostEnv {
    pub computername: Option<String>,
    pub hostname: Option<String>,
    pub host: Option<String>,
}

/// The first of the three variables that is set, in that order.
pub open spec fn first_env_value(env: HostEnv) -> Option<Seq<char>> {
    match env.computername {
        Some(v) => Some(v@),
        None => match env.hostname {
            Some(v) => Some(v@),
            None => match env.host {
                Some(v) => Some(v@),
                None => None,
            },
        },
    }
}

/// The device name chosen from the OS host name `os` and the environment:
/// the trimmed OS name when non-empty; else the first set variable, trimmed,
/// when non-empty; else `"Spool device"`.
pub open spec fn hostname_choice(os: Seq<char>, env: HostEnv) -> Seq<char> {
    if trim(os).len() > 0 {
        trim(os)
    } else {
        match first_env_value(env) {
            Some(v) => if trim(v).len() > 0 {
                trim(v)
            } else {
                default_device_name_spec()
            },
            None => default_device_name_spec(),
        }
    }
}

/// The OS host name (`gethostname::gethostname`), converted lossily to
/// UTF-8. Nothing is stated of the result: it is whatever the machine is
/// called.
#[verifier::external_body]
fn os_hostname() -> (r: String) {
    gethostname::gethostname().to_string_lossy().to_string()
}

/// Chooses the device name from an OS host name already read and the
/// host-name environment variables.
pub fn hostname_from(os: &str, env: &HostEnv) -> (r: String)
    ensures
        r@ == hostname_choice(os@, *env),
{
    let os_chars = chars_of(os);
    let from_os = trim_chars(&os_chars);
    if from_os.len() > 0 {
        return string_of(&from_os);
    }
    let first: Option<&String> = match &env.computername {
        Some(v) => Some(v),
        None => match &env.hostname {
            Some(v) => Some(v),
            None => match &env.host {
                Some(v) => Some(v),
                None => None,
            },
        },
    };
    match first {
        Some(v) => {
            let v_chars = chars_of(v.as_str());
            let t = trim_chars(&v_chars);
            if t.len() > 0 {
                string_of(&t)
            } else {
                string_of(&default_device_name())
            }
        },
        None => string_of(&default_device_name()),
    }
}

/// The device name: the OS host name when it has one, then the
/// environment, then `"Spool device"`, so it is never empty.
pub fn hostname(env: &HostEnv) -> (r: String)
    ensures
        exists|os: Seq<char>| r@ == hostname_choice(os, *env),
{
    let os = os_hostname();
    hostname_from(os.as_str(), env)
}

/// Text in the shape `uuid` prints a UUID: 36 characters, lowercase hex
/// digits with `-` at positions 8, 13, 18 and 23.
pub open spec fn is_uuid_text(s: Seq<char>) -> bool {
    &&& s.len() == 36
    &&& forall|i: int|
        0 <= i < 36 ==> if i == 8 || i == 13 || i == 18 || i == 23 {
            #[trigger] s[i] == '-'
        } else {
            ('0' <= s[i] && s[i] <= '9') || ('a' <= s[i] && s[i] <= 'f')
        }
}

/// A fresh random device id: `uuid::Uuid::new_v4()` printed in its
/// hyphenated lowercase form. Only the shape is stated; the value is random.
#[verifier::external_body]
fn new_device_id() -> (r: String)
    ensures
        is_uuid_text(r@),
{
    uuid::Uuid::new_v4().to_string()
}

/// How `ensure_device_identity` relates the config before and after: the
/// id is trimmed, or replaced by a fresh UUID when blank; the name is kept
/// when the user set one, else it becomes a host name choice; the flag tells
/// whether either changed.
pub open spec fn device_identity_step(a: ConfigData, b: ConfigData, env: HostEnv, changed: bool) -> bool {
    &&& b == (ConfigData { device_id: b.device_id, device_name: b.device_name, ..a })
    &&& if trim(a.device_id@).len() > 0 {
        b.device_id@ == trim(a.device_id@)
    } else {
        is_uuid_text(b.device_id@)
    }
    &&& if a.device_name@.len() > 0 && a.device_name@ != default_device_name_spec() {
        b.device_name == a.device_name
    } else {
        exists|os: Seq<char>| b.device_name@ == hostname_choice(os, env)
    }
    &&& changed == (b.device_id@ != a.device_id@ || b.device_name@ != a.device_name@)
}

/// Assigns a stable device id (trimmed; a fresh UUID when blank) and a
/// device name (the host name when the stored one is empty or still the
/// `"Spool device"` fallback). Returns true if anything was written.
pub fn ensure_device_identity(data: &mut ConfigData, env: &HostEnv) -> (changed: bool)
    ensures
        device_identity_step(*old(data), *final(data), *env, changed),
{
    let mut changed = false;
    let id_chars = chars_of(data.device_id.as_str());
    let trimmed = trim_chars(&id_chars);
    if !chars_eq(&trimmed, &id_chars) {
        data.device_id = string_of(&trimmed);
        changed = true;
    }
    if trimmed.len() == 0 {
        let fresh = new_device_id();
        proof {
            assert(fresh@ != old(data).device_id@) by {
                if fresh@ == old(data).device_id@ {
                    lemma_trim_first(old(data).device_id@);
                    assert(!is_ws(fresh@[0]));
                    lemma_trim_noop(fresh@);
                    assert(fresh@[35] == fresh@.last());
                }
            }
        }
        data.device_id = fresh;
        changed = true;
    }
    let name_chars = chars_of(data.device_name.as_str());
    let fallback = default_device_name();
    if name_chars.len() == 0 || chars_eq(&name_chars, &fallback) {
        let name = hostname(env);
        let new_chars = chars_of(name.as_str());
        if !chars_eq(&new_chars, &name_chars) {
            data.device_name = name;
            changed = true;
        }
    }
    changed
}

} // verus!
