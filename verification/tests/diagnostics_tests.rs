use spool::diagnostics::{
    check_ludusavi, check_rclone, check_umu_run, classify_distro, detect_distro, extract_field,
    found, install_hint_umu, missing, DepSource, Distro, UmuRunProbe,
};

fn probe(configured_is_file: bool, well_known_is_file: bool, on_path: Option<&str>) -> UmuRunProbe {
    UmuRunProbe { configured_is_file, well_known_is_file, on_path: on_path.map(|s| s.to_string()) }
}

#[test]
fn found_and_missing_shapes() {
    let f = found("rclone", "/opt/rclone", DepSource::Bundled);
    assert!(f.found);
    assert_eq!(f.name, "rclone");
    assert_eq!(f.path, "/opt/rclone");
    assert_eq!(f.source, DepSource::Bundled);
    assert!(f.install_hint.is_empty() && f.install_docs_url.is_empty());
    let m = missing("ludusavi", "hint".to_string());
    assert!(!m.found);
    assert!(m.path.is_empty());
    assert_eq!(m.source, DepSource::Missing);
    assert_eq!(m.install_hint, "hint");
}

#[test]
fn umu_run_resolution_order() {
    let s = check_umu_run("/home/u/umu-run", &Distro::Arch, &probe(true, true, Some("/p/umu-run")), false);
    assert!(s.found);
    assert_eq!(s.path, "/home/u/umu-run");
    assert_eq!(s.source, DepSource::System);
    let s = check_umu_run("/home/u/umu-run", &Distro::Arch, &probe(false, true, Some("/p/umu-run")), false);
    assert_eq!(s.path, "/usr/bin/umu-run");
    let s = check_umu_run("", &Distro::Arch, &probe(true, false, Some("/p/umu-run")), false);
    assert_eq!(s.path, "/p/umu-run");
    let s = check_umu_run("", &Distro::Fedora, &probe(false, false, None), false);
    assert!(!s.found);
    assert_eq!(s.name, "umu-run");
    assert_eq!(s.source, DepSource::Missing);
    assert_eq!(s.install_hint, "sudo dnf install umu-launcher");
    assert_eq!(s.install_docs_url, "https://spool.kinzett.io/guides/installing-umu/");
}

#[test]
fn install_hints_per_distro() {
    assert_eq!(install_hint_umu(&Distro::Arch, false), "paru -S umu-launcher");
    assert_eq!(install_hint_umu(&Distro::Suse, false), "sudo zypper install umu-launcher");
    assert_eq!(install_hint_umu(&Distro::Debian, false), "# Not in apt yet — see the guide below");
    assert_eq!(install_hint_umu(&Distro::SteamOS, false), "# SteamOS root is read-only — see the guide below");
    assert_eq!(install_hint_umu(&Distro::Other, false), "# See the guide below");
    assert_eq!(
        install_hint_umu(&Distro::Arch, true),
        "# Windows games aren't supported on ARM yet — see the guide below"
    );
}

#[test]
fn sidecar_checks() {
    let l = check_ludusavi(&Distro::Other, &Some("/app/ludusavi".to_string()));
    assert!(l.found);
    assert_eq!(l.source, DepSource::Bundled);
    assert_eq!(l.name, "ludusavi");
    let r = check_rclone(&Distro::Other, &None);
    assert!(!r.found);
    assert_eq!(r.name, "rclone");
    assert!(r.install_hint.is_empty());
}

#[test]
fn extract_field_reads_first_matching_line() {
    let os = "NAME=\"Arch Linux\"\nID=arch\r\nID_LIKE=\"\"\nID=other\n";
    assert_eq!(extract_field(os, "ID"), "arch");
    assert_eq!(extract_field(os, "NAME"), "Arch Linux");
    assert_eq!(extract_field(os, "ID_LIKE"), "");
    assert_eq!(extract_field(os, "VERSION"), "");
    assert_eq!(extract_field("", "ID"), "");
    assert_eq!(extract_field("ID=\"\"fedora\"\"", "ID"), "fedora");
}

#[test]
fn distro_detection() {
    assert_eq!(detect_distro("ID=steamos\nID_LIKE=arch\n"), Distro::SteamOS);
    assert_eq!(detect_distro("ID=bazzite\nID_LIKE=\"fedora\"\n"), Distro::Fedora);
    assert_eq!(detect_distro("ID=Ubuntu\n"), Distro::Debian);
    assert_eq!(detect_distro("ID=CachyOS\n"), Distro::Arch);
    assert_eq!(detect_distro("ID=\"opensuse-tumbleweed\"\nID_LIKE=\"opensuse suse\""), Distro::Suse);
    assert_eq!(detect_distro("ID=nixos\n"), Distro::Other);
    assert_eq!(detect_distro(""), Distro::Other);
    // ID_LIKE wins over ID.
    assert_eq!(classify_distro("debian", "arch"), Distro::Debian);
    assert_eq!(classify_distro("", "rhel"), Distro::Fedora);
}

#[test]
fn extract_field_agrees_with_std_lines() {
    fn by_std<'a>(content: &'a str, key: &str) -> &'a str {
        for line in content.lines() {
            if let Some(rest) = line.strip_prefix(&format!("{key}=")) {
                return rest.trim_matches('"');
            }
        }
        ""
    }
    for content in [
        "ID=x\r",
        "ID=x\r\n",
        "A=1\r\rID=\"y\"",
        "\nID=z\n\n",
        "ID=\r\nID=w",
        "XID=1\nID=2",
        "ID=\"\"",
        "",
        "\r\n",
    ] {
        assert_eq!(extract_field(content, "ID"), by_std(content, "ID"), "{content:?}");
    }
}
