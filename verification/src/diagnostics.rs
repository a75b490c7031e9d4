//! Dependency health checks: whether umu-run, ludusavi and rclone are
//! reachable and where each was found, plus a per-distro install hint for
//! anything missing. The file-system probes are made by the caller; this
//! module turns their results into the reported status.
use vstd::prelude::*;
use crate::text::{
    after_first_line, chars_eq, chars_of, contains_chars, contains_seq, first_line, has_prefix, lemma_line_len_bound,
    lowercased, next_line, string_of, strip_prefix_chars, to_lowercase, trim_char, trim_char_chars,
};

verus! {

/// Where a dependency was resolved from.
#[derive(Debug, Clone, PartialEq, Eq, Structural)]
pub enum DepSource {
    /// Bundled sidecar shipped next to the executable.
    Bundled,
    /// Found on the system `PATH` or a well-known path.
    System,
    /// Not found anywhere.
    Missing,
}

/// Status of one dependency as shown in Settings → Compatibility.
#[derive(Debug, Clone)]
pub struct DepStatus {
    pub name: String,
    pub found: bool,
    /// Where the binary was found, or empty if missing.
    pub path: String,
    pub source: DepSource,
    /// Suggested install command when missing; empty otherwise.
    pub install_hint: String,
    /// Docs page with full install instructions, when one exists.
    pub install_docs_url: String,
}

/// The Linux distribution family, for install hints.
#[derive(Debug, Clone, Copy, PartialEq, Eq, Structural)]
pub enum Distro {
    /// Valve's SteamOS 3: Arch-based but with a read-only root.
    SteamOS,
    /// Arch, CachyOS, Manjaro, EndeavourOS.
    Arch,
    /// Fedora, Nobara, RHEL, CentOS.
    Fedora,
    /// Debian, Ubuntu, Pop!_OS.
    Debian,
    /// openSUSE.
    Suse,
    Other,
}

/// `"https://spool.kinzett.io/guides/installing-umu/"`, the umu-launcher install guide.
pub open spec fn umu_docs_url_spec() -> Seq<char> {
    "https://spool.kinzett.io/guides/installing-umu/"@
}

/// `"/usr/bin/umu-run"`, the well-known umu-run location.
pub open spec fn well_known_umu_run_spec() -> Seq<char> {
    "/usr/bin/umu-run"@
}

/// A status for a dependency found at `path`.
pub fn found(name: &str, path: &str, source: DepSource) -> (r: DepStatus)
    ensures
        r.name@ == name@,
        r.found,
        r.path@ == path@,
        r.source == source,
        r.install_hint@.len() == 0,
        r.install_docs_url@.len() == 0,
{
    DepStatus {
        name: string_of(&chars_of(name)),
        found: true,
        path: string_of(&chars_of(path)),
        source,
        install_hint: String::new(),
        install_docs_url: String::new(),
    }
}

/// A status for a dependency that was not found.
pub fn missing(name: &str, install_hint: String) -> (r: DepStatus)
    ensures
        r.name@ == name@,
        !r.found,
        r.path@.len() == 0,
        r.source == DepSource::Missing,
        r.install_hint == install_hint,
        r.install_docs_url@.len() == 0,
{
    DepStatus {
        name: string_of(&chars_of(name)),
        found: false,
        path: String::new(),
        source: DepSource::Missing,
        install_hint,
        install_docs_url: String::new(),
    }
}

/// The install hint for umu-launcher on `distro`; on aarch64 every distro
/// gets the note that Windows games are not supported on ARM yet.
pub open spec fn umu_hint_spec(distro: Distro, on_aarch64: bool) -> Seq<char> {
    if on_aarch64 {
        "# Windows games aren't supported on ARM yet — see the guide below"@
    } else {
        match distro {
            Distro::SteamOS => "# SteamOS root is read-only — see the guide below"@,
            Distro::Arch => "paru -S umu-launcher"@,
            Distro::Fedora => "sudo dnf install umu-launcher"@,
            Distro::Debian => "# Not in apt yet — see the guide below"@,
            Distro::Suse => "sudo zypper install umu-launcher"@,
            Distro::Other => "# See the guide below"@,
        }
    }
}

/// The install hint for umu-launcher on `distro` (`on_aarch64`: the build
/// targets 64-bit ARM).
pub fn install_hint_umu(distro: &Distro, on_aarch64: bool) -> (r: String)
    ensures
        r@ == umu_hint_spec(*distro, on_aarch64),
{
    if on_aarch64 {
        return String::from_str("# Windows games aren't supported on ARM yet — see the guide below");
    }
    match distro {
        Distro::SteamOS => String::from_str("# SteamOS root is read-only — see the guide below"),
        Distro::Arch => String::from_str("paru -S umu-launcher"),
        Distro::Fedora => String::from_str("sudo dnf install umu-launcher"),
        Distro::Debian => String::from_str("# Not in apt yet — see the guide below"),
        Distro::Suse => String::from_str("sudo zypper install umu-launcher"),
        Distro::Other => String::from_str("# See the guide below"),
    }
}

/// What the caller found when looking for umu-run, in resolution order.
#[derive(Debug, Clone)]
pub struct UmuRunProbe {
    /// The configured path is non-empty and names a file.
    pub configured_is_file: bool,
    /// `/usr/bin/umu-run` is a file.
    pub well_known_is_file: bool,
    /// Where a `PATH` search found `umu-run`, if it did.
    pub on_path: Option<String>,
}

/// umu-run's status: the configured override, then `/usr/bin/umu-run`,
/// then `PATH`; when all fail it is missing, with the distro's install hint
/// and the install guide's URL.
pub fn check_umu_run(configured: &str, distro: &Distro, probe: &UmuRunProbe, on_aarch64: bool) -> (r: DepStatus)
    ensures
        r.name@ == "umu-run"@,
        r.found == (configured@.len() > 0 && probe.configured_is_file || probe.well_known_is_file
            || probe.on_path is Some),
        r.found ==> r.source == DepSource::System && r.install_hint@.len() == 0
            && r.install_docs_url@.len() == 0,
        configured@.len() > 0 && probe.configured_is_file ==> r.path@ == configured@,
        !(configured@.len() > 0 && probe.configured_is_file) && probe.well_known_is_file ==> r.path@
            == well_known_umu_run_spec(),
        !(configured@.len() > 0 && probe.configured_is_file) && !probe.well_known_is_file ==> (
        match probe.on_path {
            Some(p) => r.path@ == p@,
            None => {
                &&& r.source == DepSource::Missing
                &&& r.path@.len() == 0
                &&& r.install_hint@ == umu_hint_spec(*distro, on_aarch64)
                &&& r.install_docs_url@ == umu_docs_url_spec()
            },
        }),
{
    let configured_chars = chars_of(configured);
    if configured_chars.len() > 0 && probe.configured_is_file {
        return found("umu-run", configured, DepSource::System);
    }
    if probe.well_known_is_file {
        return found("umu-run", "/usr/bin/umu-run", DepSource::System);
    }
    match &probe.on_path {
        Some(p) => found("umu-run", p.as_str(), DepSource::System),
        None => {
            let mut status = missing("umu-run", install_hint_umu(distro, on_aarch64));
            status.install_docs_url = String::from_str("https://spool.kinzett.io/guides/installing-umu/");
            status
        },
    }
}

/// A bundled sidecar's status: found at `sidecar` when it resolved, else
/// missing with no hint.
fn check_sidecar(name: &str, sidecar: &Option<String>) -> (r: DepStatus)
    ensures
        r.name@ == name@,
        r.found == sidecar is Some,
        match sidecar {
            Some(p) => r.path@ == p@ && r.source == DepSource::Bundled,
            None => r.source == DepSource::Missing && r.path@.len() == 0,
        },
        r.install_hint@.len() == 0,
        r.install_docs_url@.len() == 0,
{
    match sidecar {
        Some(p) => found(name, p.as_str(), DepSource::Bundled),
        None => missing(name, String::new()),
    }
}

/// ludusavi's status, from where its bundled sidecar resolved (if it did).
pub fn check_ludusavi(_distro: &Distro, sidecar: &Option<String>) -> (r: DepStatus)
    ensures
        r.name@ == "ludusavi"@,
        r.found == sidecar is Some,
        match sidecar {
            Some(p) => r.path@ == p@ && r.source == DepSource::Bundled,
            None => r.source == DepSource::Missing && r.path@.len() == 0,
        },
        r.install_hint@.len() == 0,
        r.install_docs_url@.len() == 0,
{
    check_sidecar("ludusavi", sidecar)
}

/// rclone's status, from where its bundled sidecar resolved (if it did).
pub fn check_rclone(_distro: &Distro, sidecar: &Option<String>) -> (r: DepStatus)
    ensures
        r.name@ == "rclone"@,
        r.found == sidecar is Some,
        match sidecar {
            Some(p) => r.path@ == p@ && r.source == DepSource::Bundled,
            None => r.source == DepSource::Missing && r.path@.len() == 0,
        },
        r.install_hint@.len() == 0,
        r.install_docs_url@.len() == 0,
{
    check_sidecar("rclone", sidecar)
}

// ── os-release parsing ──────────────────────────────────────────────────────

/// The value of the first line of `content` that starts with `key_eq`
/// (`KEY=`), with surrounding `"` removed; empty when no line does.
pub open spec fn field_value(content: Seq<char>, key_eq: Seq<char>) -> Seq<char>
    decreases content.len(),
{
    if content.len() == 0 {
        Seq::empty()
    } else {
        let line = first_line(content);
        if has_prefix(line, key_eq) {
            trim_char(line.skip(key_eq.len() as int), '"')
        } else {
            proof {
                lemma_line_len_bound(content);
            }
            field_value(after_first_line(content), key_eq)
        }
    }
}

/// The value of `key` in os-release style `content`: the first line of the
/// form `KEY=value`, with surrounding double quotes removed; empty if none.
pub fn extract_field(content: &str, key: &str) -> (r: String)
    ensures
        r@ == field_value(content@, key@.push('=')),
{
    let v = chars_of(content);
    let mut key_eq = chars_of(key);
    key_eq.push('=');
    assert(key_eq@ == key@.push('='));
    assert(v@.skip(0) =~= v@);
    let mut pos: usize = 0;
    while pos < v.len()
        invariant
            pos <= v@.len(),
            v@ == content@,
            key_eq@ == key@.push('='),
            field_value(v@, key_eq@) == field_value(v@.skip(pos as int), key_eq@),
        decreases v.len() - pos,
    {
        let (line, next) = next_line(&v, pos);
        assert(v@.skip(pos as int).len() > 0);
        match strip_prefix_chars(&line, &key_eq) {
            Some(rest) => {
                let value = trim_char_chars(&rest, '"');
                proof {
                    let tail = v@.skip(pos as int);
                    assert(has_prefix(first_line(tail), key_eq@));
                    assert(field_value(tail, key_eq@) == trim_char(
                        first_line(tail).skip(key_eq@.len() as int),
                        '"',
                    ));
                }
                return string_of(&value);
            },
            None => {},
        }
        pos = next;
    }
    assert(v@.skip(pos as int) =~= Seq::<char>::empty());
    String::new()
}

/// The distro family `field` names, if any, checked in order: Arch
/// (arch, cachyos, manjaro), Fedora (fedora, rhel, centos), Debian (debian,
/// ubuntu), SUSE (suse, opensuse).
pub open spec fn family_of(field: Seq<char>) -> Option<Distro> {
    if contains_seq(field, "arch"@) || contains_seq(field, "cachyos"@) || contains_seq(field, "manjaro"@) {
        Some(Distro::Arch)
    } else if contains_seq(field, "fedora"@) || contains_seq(field, "rhel"@) || contains_seq(field, "centos"@) {
        Some(Distro::Fedora)
    } else if contains_seq(field, "debian"@) || contains_seq(field, "ubuntu"@) {
        Some(Distro::Debian)
    } else if contains_seq(field, "suse"@) || contains_seq(field, "opensuse"@) {
        Some(Distro::Suse)
    } else {
        None
    }
}

/// The distro from lowercased `ID_LIKE` and `ID`: SteamOS by its exact
/// `ID` first (it reports `ID_LIKE=arch`), then the family named by
/// `ID_LIKE`, then by `ID`, else `Other`.
pub open spec fn classify_spec(id_like: Seq<char>, id: Seq<char>) -> Distro {
    if id == "steamos"@ {
        Distro::SteamOS
    } else {
        match family_of(id_like) {
            Some(d) => d,
            None => match family_of(id) {
                Some(d) => d,
                None => Distro::Other,
            },
        }
    }
}

fn family_of_chars(field: &[char]) -> (r: Option<Distro>)
    ensures
        r == family_of(field@),
{
    if contains_chars(field, &chars_of("arch")) || contains_chars(field, &chars_of("cachyos"))
        || contains_chars(field, &chars_of("manjaro")) {
        Some(Distro::Arch)
    } else if contains_chars(field, &chars_of("fedora")) || contains_chars(field, &chars_of("rhel"))
        || contains_chars(field, &chars_of("centos")) {
        Some(Distro::Fedora)
    } else if contains_chars(field, &chars_of("debian")) || contains_chars(field, &chars_of("ubuntu")) {
        Some(Distro::Debian)
    } else if contains_chars(field, &chars_of("suse")) || contains_chars(field, &chars_of("opensuse")) {
        Some(Distro::Suse)
    } else {
        None
    }
}

/// Classifies already-lowercased `ID_LIKE` and `ID` values.
pub fn classify_distro(id_like: &str, id: &str) -> (r: Distro)
    ensures
        r == classify_spec(id_like@, id@),
{
    let id_chars = chars_of(id);
    if chars_eq(&id_chars, &chars_of("steamos")) {
        return Distro::SteamOS;
    }
    match family_of_chars(&chars_of(id_like)) {
        Some(d) => d,
        None => match family_of_chars(&id_chars) {
            Some(d) => d,
            None => Distro::Other,
        },
    }
}

/// The distro described by the text of `/etc/os-release` (empty when the
/// file could not be read): `ID_LIKE` and `ID` are extracted, lowercased
/// and classified.
pub fn detect_distro(os_release: &str) -> (r: Distro)
    ensures
        r == classify_spec(
            lowercased(field_value(os_release@, "ID_LIKE"@.push('='))),
            lowercased(field_value(os_release@, "ID"@.push('='))),
        ),
{
    let id_like = to_lowercase(extract_field(os_release, "ID_LIKE").as_str());
    let id = to_lowercase(extract_field(os_release, "ID").as_str());
    classify_distro(id_like.as_str(), id.as_str())
}

/// A lowercased field names a family word: Arch (arch, cachyos,
/// manjaro), Fedora (fedora, rhel, centos), Debian (debian, ubuntu) or SUSE
/// (suse, opensuse).
pub open spec fn names_any_family(field: Seq<char>) -> bool {
    contains_seq(field, "arch"@) || contains_seq(field, "cachyos"@) || contains_seq(field, "manjaro"@)
        || contains_seq(field, "fedora"@) || contains_seq(field, "rhel"@) || contains_seq(field, "centos"@)
        || contains_seq(field, "debian"@) || contains_seq(field, "ubuntu"@) || contains_seq(field, "suse"@)
        || contains_seq(field, "opensuse"@)
}

/// How the distro is told from lowercased `ID_LIKE` and `ID`: an `ID` of
/// exactly `steamos` is SteamOS whatever `ID_LIKE` says. Otherwise the
/// family words are tried on `ID_LIKE` and then on `ID`, in the order Arch,
/// Fedora, Debian, SUSE, and the first field naming a word decides; e.g. a
/// field containing `arch` gives Arch (`ID=arch`, or `ID_LIKE=arch` for
/// EndeavourOS). With no family word in either field the distro is Other.
pub proof fn law_distro_classification(id_like: Seq<char>, id: Seq<char>)
    ensures
        id == "steamos"@ ==> classify_spec(id_like, id) == Distro::SteamOS,
        ({
            let f = if names_any_family(id_like) { id_like } else { id };
            id != "steamos"@ ==> {
                &&& (contains_seq(f, "arch"@) || contains_seq(f, "cachyos"@) || contains_seq(f, "manjaro"@))
                    ==> classify_spec(id_like, id) == Distro::Arch
                &&& (!contains_seq(f, "arch"@) && !contains_seq(f, "cachyos"@) && !contains_seq(f, "manjaro"@)
                    && (contains_seq(f, "fedora"@) || contains_seq(f, "rhel"@) || contains_seq(f, "centos"@)))
                    ==> classify_spec(id_like, id) == Distro::Fedora
                &&& (!contains_seq(f, "arch"@) && !contains_seq(f, "cachyos"@) && !contains_seq(f, "manjaro"@)
                    && !contains_seq(f, "fedora"@) && !contains_seq(f, "rhel"@) && !contains_seq(f, "centos"@)
                    && (contains_seq(f, "debian"@) || contains_seq(f, "ubuntu"@)))
                    ==> classify_spec(id_like, id) == Distro::Debian
                &&& (!contains_seq(f, "arch"@) && !contains_seq(f, "cachyos"@) && !contains_seq(f, "manjaro"@)
                    && !contains_seq(f, "fedora"@) && !contains_seq(f, "rhel"@) && !contains_seq(f, "centos"@)
                    && !contains_seq(f, "debian"@) && !contains_seq(f, "ubuntu"@)
                    && (contains_seq(f, "suse"@) || contains_seq(f, "opensuse"@)))
                    ==> classify_spec(id_like, id) == Distro::Suse
                &&& (!names_any_family(id_like) && !names_any_family(id)) ==> classify_spec(id_like, id)
                    == Distro::Other
            }
        }),
{
}

} // verus!
