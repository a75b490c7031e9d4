use spool::config::identity::{ensure_device_identity, hostname, hostname_from, HostEnv};
use spool::config::migrations::{
    auto_detect_umu_run, clamp_retention, detected_umu_run_path, migrate_cloud_base_path,
    migrate_lan_install_dir, migrate_onboarding_completed, migrate_retention_floor, settle_onboarding,
    stamp_current_exe, UmuRunLookup,
};
use spool::config::update::plan_config_update;
use spool::config::{
    settle_loaded_data, CloudConfig, Collection, Config, ConfigData, LanConfig, LibraryFolder, UiMode,
};

const DEFAULT_DEVICE_NAME: &str = "Spool device";

fn no_env() -> HostEnv {
    HostEnv { computername: None, hostname: None, host: None }
}

#[test]
fn legacy_config_without_onboarding_key_is_marked_completed() {
    // A config that predates the onboarding flag (key absent) is a
    // returning user — migrate to completed so the flow doesn't reappear.
    let json = r#"{ "device_id": "abc", "tray_intro_seen": true }"#;
    let mut data = ConfigData {
        device_id: "abc".to_string(),
        tray_intro_seen: true,
        ..Default::default()
    };
    assert!(!data.onboarding_completed); // default before migration
    assert!(migrate_onboarding_completed(Some(json), &mut data));
    assert!(data.onboarding_completed);
}

#[test]
fn fresh_install_keeps_onboarding_pending() {
    let mut data = ConfigData::default();
    assert!(!migrate_onboarding_completed(None, &mut data));
    assert!(!data.onboarding_completed);
}

#[test]
fn explicit_onboarding_false_is_left_pending() {
    let json = r#"{ "device_id": "abc", "onboarding_completed": false }"#;
    let mut data = ConfigData {
        device_id: "abc".to_string(),
        onboarding_completed: false,
        ..Default::default()
    };
    assert!(!migrate_onboarding_completed(Some(json), &mut data));
    assert!(!data.onboarding_completed);
}

#[test]
fn onboarding_key_inside_a_nested_object_does_not_count() {
    // Only a top-level key marks a new-scheme file.
    let json = r#"{ "cloud": { "onboarding_completed": true } }"#;
    let mut data = ConfigData::default();
    assert!(migrate_onboarding_completed(Some(json), &mut data));
    assert!(data.onboarding_completed);
}

#[test]
fn onboarding_on_unparsable_file_counts_as_legacy() {
    let mut data = ConfigData::default();
    assert!(migrate_onboarding_completed(Some("not json"), &mut data));
    assert!(data.onboarding_completed);
    // Already completed: nothing to do.
    assert!(!migrate_onboarding_completed(Some("{}"), &mut data));
}

#[test]
fn settle_onboarding_cases() {
    let mut data = ConfigData::default();
    assert!(!settle_onboarding(&mut data, false, false));
    assert!(!settle_onboarding(&mut data, true, true));
    assert!(!data.onboarding_completed);
    assert!(settle_onboarding(&mut data, true, false));
    assert!(data.onboarding_completed);
}

#[test]
fn retention_floor_migrates_unsafe_low_values() {
    for low in [0u32, 1, 2] {
        let mut data = ConfigData {
            save_retention_full: low,
            ..Default::default()
        };
        assert!(migrate_retention_floor(&mut data), "{low} should migrate");
        assert_eq!(data.save_retention_full, 3);
    }
    let mut high = ConfigData {
        save_retention_full: 50,
        ..Default::default()
    };
    assert!(migrate_retention_floor(&mut high));
    assert_eq!(high.save_retention_full, 10);
    for ok in [3u32, 5, 10] {
        let mut data = ConfigData {
            save_retention_full: ok,
            ..Default::default()
        };
        assert!(!migrate_retention_floor(&mut data), "{ok} should not migrate");
        assert_eq!(data.save_retention_full, ok);
    }
}

#[test]
fn retention_migration_is_idempotent() {
    let mut data = ConfigData { save_retention_full: 1, ..Default::default() };
    assert!(migrate_retention_floor(&mut data));
    assert!(!migrate_retention_floor(&mut data));
    assert_eq!(data.save_retention_full, 3);
    assert_eq!(clamp_retention(11), 10);
    assert_eq!(clamp_retention(7), 7);
}

#[test]
fn lan_install_dir_migrates_to_default_library_folder() {
    let mut data = ConfigData {
        lan: LanConfig {
            install_dir: "/mnt/sd/lan".to_string(),
            ..LanConfig::default()
        },
        ..Default::default()
    };
    assert!(migrate_lan_install_dir(&mut data));
    assert_eq!(data.library_folders.len(), 1);
    assert_eq!(data.library_folders[0].path, "/mnt/sd/lan");
    assert!(data.library_folders[0].default_install);
    assert!(data.lan.install_dir.is_empty());
    assert!(!migrate_lan_install_dir(&mut data));
}

#[test]
fn lan_install_dir_migration_flags_existing_folder() {
    let mut data = ConfigData {
        library_folders: vec![LibraryFolder {
            path: "/mnt/sd/lan".to_string(),
            ..Default::default()
        }],
        lan: LanConfig {
            install_dir: "/mnt/sd/lan".to_string(),
            ..LanConfig::default()
        },
        ..Default::default()
    };
    assert!(migrate_lan_install_dir(&mut data));
    assert_eq!(data.library_folders.len(), 1);
    assert!(data.library_folders[0].default_install);
    assert!(data.lan.install_dir.is_empty());
}

#[test]
fn empty_lan_install_dir_migrates_to_nothing() {
    let mut data = ConfigData::default();
    assert!(!migrate_lan_install_dir(&mut data));
    assert!(data.library_folders.is_empty());
}

#[test]
fn lan_install_dir_is_trimmed_labelled_and_respects_existing_default() {
    let mut data = ConfigData {
        library_folders: vec![LibraryFolder {
            path: "/games".to_string(),
            label: None,
            default_install: true,
        }],
        lan: LanConfig { install_dir: "  /mnt/sd/lan ".to_string(), ..LanConfig::default() },
        ..Default::default()
    };
    assert!(migrate_lan_install_dir(&mut data));
    assert_eq!(data.library_folders.len(), 2);
    assert_eq!(data.library_folders[1].path, "/mnt/sd/lan");
    assert_eq!(data.library_folders[1].label.as_deref(), Some("LAN downloads"));
    assert!(!data.library_folders[1].default_install);
    assert!(data.library_folders[0].default_install);

    // A blank dir is just cleared.
    let mut blank = ConfigData {
        lan: LanConfig { install_dir: "   ".to_string(), ..LanConfig::default() },
        ..Default::default()
    };
    assert!(migrate_lan_install_dir(&mut blank));
    assert!(blank.lan.install_dir.is_empty());
    assert!(blank.library_folders.is_empty());
}

#[test]
fn install_root_resolution_prefers_flagged_then_first_folder() {
    let mut data = ConfigData {
        library_folders: vec![
            LibraryFolder {
                path: "/a".to_string(),
                ..Default::default()
            },
            LibraryFolder {
                path: "/b".to_string(),
                default_install: true,
                ..Default::default()
            },
        ],
        ..Default::default()
    };
    let app_data = "/home/u/.local/share/Spool";
    assert_eq!(
        std::path::PathBuf::from(data.lan_install_root(app_data)),
        std::path::PathBuf::from("/b")
    );
    data.library_folders[1].default_install = false;
    assert_eq!(
        std::path::PathBuf::from(data.lan_install_root(app_data)),
        std::path::PathBuf::from("/a")
    );
    data.library_folders.clear();
    assert_eq!(
        std::path::PathBuf::from(data.lan_install_root(app_data)),
        std::path::PathBuf::from(app_data).join("lan-games")
    );
}

#[test]
fn default_install_folder_picks_first_flagged() {
    let data = ConfigData {
        library_folders: vec![
            LibraryFolder { path: "/a".to_string(), ..Default::default() },
            LibraryFolder { path: "/b".to_string(), default_install: true, ..Default::default() },
            LibraryFolder { path: "/c".to_string(), default_install: true, ..Default::default() },
        ],
        ..Default::default()
    };
    assert_eq!(data.default_install_folder().map(|f| f.path.as_str()), Some("/b"));
    assert!(ConfigData::default().default_install_folder().is_none());
}

#[test]
fn device_name_rederived_from_stuck_fallback() {
    let mut data = ConfigData {
        device_id: "fixed".to_string(),
        device_name: DEFAULT_DEVICE_NAME.to_string(),
        ..ConfigData::default()
    };
    let changed = ensure_device_identity(&mut data, &no_env());
    if hostname(&no_env()) == DEFAULT_DEVICE_NAME {
        assert!(!changed);
        assert_eq!(data.device_name, DEFAULT_DEVICE_NAME);
    } else {
        assert!(changed);
        assert_ne!(data.device_name, DEFAULT_DEVICE_NAME);
    }
    assert_eq!(data.device_id, "fixed");
}

#[test]
fn device_id_whitespace_is_normalised() {
    let mut data = ConfigData {
        device_id: "  abc-123  ".to_string(),
        device_name: "Deck".to_string(),
        ..ConfigData::default()
    };
    assert!(ensure_device_identity(&mut data, &no_env()));
    assert_eq!(data.device_id, "abc-123");

    let mut blank = ConfigData {
        device_id: "   ".to_string(),
        device_name: "Deck".to_string(),
        ..ConfigData::default()
    };
    assert!(ensure_device_identity(&mut blank, &no_env()));
    assert!(!blank.device_id.is_empty());
    assert_eq!(blank.device_id.trim(), blank.device_id);
}

#[test]
fn user_chosen_device_name_is_preserved() {
    let mut data = ConfigData {
        device_id: "fixed".to_string(),
        device_name: "Living Room Deck".to_string(),
        ..ConfigData::default()
    };
    assert!(!ensure_device_identity(&mut data, &no_env()));
    assert_eq!(data.device_name, "Living Room Deck");
}

#[test]
fn fresh_device_id_is_a_hyphenated_uuid() {
    let mut data = ConfigData { device_name: "Deck".to_string(), ..ConfigData::default() };
    assert!(ensure_device_identity(&mut data, &no_env()));
    assert_eq!(data.device_id.len(), 36);
    for (i, c) in data.device_id.chars().enumerate() {
        if [8, 13, 18, 23].contains(&i) {
            assert_eq!(c, '-');
        } else {
            assert!(c.is_ascii_hexdigit() && !c.is_ascii_uppercase());
        }
    }
    // A second run leaves a complete identity alone.
    let id = data.device_id.clone();
    assert!(!ensure_device_identity(&mut data, &no_env()));
    assert_eq!(data.device_id, id);
}

#[test]
fn hostname_choice_order() {
    let env = HostEnv {
        computername: Some("  PC  ".to_string()),
        hostname: Some("box".to_string()),
        host: None,
    };
    assert_eq!(hostname_from("  deck\n", &env), "deck");
    assert_eq!(hostname_from("  ", &env), "PC");
    // The first set variable is used even when it is blank.
    let blank_first = HostEnv {
        computername: Some("   ".to_string()),
        hostname: Some("box".to_string()),
        host: None,
    };
    assert_eq!(hostname_from("", &blank_first), DEFAULT_DEVICE_NAME);
    let host_only = HostEnv { computername: None, hostname: None, host: Some("h".to_string()) };
    assert_eq!(hostname_from("", &host_only), "h");
    assert_eq!(hostname_from("", &no_env()), DEFAULT_DEVICE_NAME);
    assert!(!hostname(&no_env()).is_empty());
}

#[test]
fn cloud_base_path_migrates_custom_legacy_path() {
    let mut data = ConfigData {
        cloud: CloudConfig { path: " Games/Saves/ludusavi-backup// ".to_string(), ..CloudConfig::default() },
        ..ConfigData::default()
    };
    assert!(migrate_cloud_base_path(&mut data));
    assert_eq!(data.cloud.base_path, "Games/Saves");
    assert_eq!(data.cloud.path, "Games/Saves/ludusavi-backup");
    // Stable afterwards.
    assert!(!migrate_cloud_base_path(&mut data));
    assert_eq!(data.cloud.base_path, "Games/Saves");

    // A path without the leaf is used as the base itself.
    let mut plain = ConfigData {
        cloud: CloudConfig { path: "MySaves/".to_string(), ..CloudConfig::default() },
        ..ConfigData::default()
    };
    assert!(migrate_cloud_base_path(&mut plain));
    assert_eq!(plain.cloud.base_path, "MySaves");
    assert_eq!(plain.cloud.path, "MySaves/ludusavi-backup");
}

#[test]
fn cloud_base_path_migration_does_not_refire_on_padded_base() {
    let mut data = ConfigData {
        cloud: CloudConfig {
            base_path: "Spool".to_string(),
            path: "Spool /ludusavi-backup".to_string(),
            ..CloudConfig::default()
        },
        ..ConfigData::default()
    };
    assert!(migrate_cloud_base_path(&mut data));
    assert_eq!(data.cloud.base_path, "Spool ");
    assert_eq!(data.cloud.path, "Spool /ludusavi-backup");
    assert!(!migrate_cloud_base_path(&mut data));
    assert_eq!(data.cloud.base_path, "Spool ");
    assert_eq!(data.cloud.path, "Spool /ludusavi-backup");
}

#[test]
fn cloud_base_path_left_alone_when_default_or_explicit() {
    // Fresh defaults: canonical path.
    let mut data = ConfigData::default();
    assert!(!migrate_cloud_base_path(&mut data));
    assert_eq!(data.cloud.base_path, "Spool");
    // Base set explicitly: leave it.
    let mut explicit = ConfigData {
        cloud: CloudConfig {
            base_path: "Other".to_string(),
            path: "Legacy/ludusavi-backup".to_string(),
            ..CloudConfig::default()
        },
        ..ConfigData::default()
    };
    assert!(!migrate_cloud_base_path(&mut explicit));
    assert_eq!(explicit.cloud.base_path, "Other");
    // Empty legacy path, or one that reduces to the default base.
    for p in ["", "  /  ", "Spool/", "/ludusavi-backup"] {
        let mut d = ConfigData {
            cloud: CloudConfig { path: p.to_string(), ..CloudConfig::default() },
            ..ConfigData::default()
        };
        assert!(!migrate_cloud_base_path(&mut d), "{p:?}");
        assert_eq!(d.cloud.path, p);
    }
}

#[test]
fn defaults_match_the_on_disk_defaults() {
    let d = ConfigData::default();
    assert_eq!(d.save_retention_full, 5);
    assert_eq!(d.ui_mode, UiMode::Auto);
    assert_eq!(d.cloud.base_path, "Spool");
    assert_eq!(d.cloud.path, "Spool/ludusavi-backup");
    assert_eq!(d.cloud.rclone_args, "--fast-list --ignore-checksum");
    assert!(d.lan.share_enabled);
    assert_eq!(d.lan.share_port, 47632);
    assert_eq!(f64::from_bits(d.lan.download_max_mbps_bits), 0.0);
    assert!(d.collections.is_empty());
    assert!(d.library_folders.is_empty());
    assert!(!d.onboarding_completed);
    let c = Config::default();
    assert_eq!(c.data.save_retention_full, 5);
}

#[test]
fn stamp_and_umu_detection() {
    let mut data = ConfigData::default();
    assert!(stamp_current_exe(&mut data, Some("/opt/Spool.AppImage".to_string())));
    assert_eq!(data.spool_exe, "/opt/Spool.AppImage");
    assert!(!stamp_current_exe(&mut data, Some("/opt/Spool.AppImage".to_string())));
    assert!(!stamp_current_exe(&mut data, None));

    let look = |windows, is_file, resolved: Option<&str>| UmuRunLookup {
        is_windows: windows,
        configured_is_file: is_file,
        resolved: resolved.map(|s| s.to_string()),
    };
    assert!(!auto_detect_umu_run(&mut data, look(true, false, Some("/usr/bin/umu-run"))));
    assert!(data.launch.umu_run_path.is_empty());
    assert!(auto_detect_umu_run(&mut data, look(false, false, Some("/usr/bin/umu-run"))));
    assert_eq!(data.launch.umu_run_path, "/usr/bin/umu-run");
    assert!(!auto_detect_umu_run(&mut data, look(false, true, Some("/other"))));
    assert_eq!(data.launch.umu_run_path, "/usr/bin/umu-run");
    // A stale configured path is replaced, or kept when nothing is found.
    assert!(!auto_detect_umu_run(&mut data, look(false, false, None)));
    assert_eq!(data.launch.umu_run_path, "/usr/bin/umu-run");

    assert_eq!(detected_umu_run_path("/usr/bin/umu-run", true), "/usr/bin/umu-run");
    assert_eq!(detected_umu_run_path("/usr/bin/umu-run", false), "");
    assert_eq!(detected_umu_run_path("", true), "");
}

#[test]
fn finish_load_runs_every_step() {
    let data = ConfigData {
        device_id: " id-1 ".to_string(),
        device_name: "Deck".to_string(),
        save_retention_full: 1,
        lan: LanConfig { install_dir: "/mnt/sd".to_string(), ..LanConfig::default() },
        ..ConfigData::default()
    };
    let look = UmuRunLookup { is_windows: false, configured_is_file: false, resolved: None };
    let (cfg, changed) = Config::finish_load(data, Some("{}"), &no_env(), look, None);
    assert!(changed);
    assert_eq!(cfg.data.device_id, "id-1");
    assert_eq!(cfg.data.save_retention_full, 3);
    assert!(cfg.data.onboarding_completed);
    assert_eq!(cfg.data.library_folders.len(), 1);
    assert!(cfg.data.lan.install_dir.is_empty());

    // A settled config loads without changes.
    let look = UmuRunLookup { is_windows: false, configured_is_file: false, resolved: None };
    let (again, changed2) = Config::finish_load(
        cfg.data,
        Some(r#"{"onboarding_completed": true}"#),
        &no_env(),
        look,
        None,
    );
    assert!(!changed2);
    assert_eq!(again.data.device_id, "id-1");
}

#[test]
fn update_plan_keeps_collections_and_clamps_retention() {
    let current = ConfigData {
        collections: vec![Collection {
            id: "a".to_string(),
            name: "Cozy".to_string(),
            accent: "#ff8a3d".to_string(),
            games: vec!["g1".to_string()],
        }],
        ..ConfigData::default()
    };
    let incoming = ConfigData {
        save_retention_full: 42,
        ui_mode: UiMode::Touch,
        ..ConfigData::default()
    };
    let plan = plan_config_update(&current, incoming, "Spool", "Spool");
    assert_eq!(plan.data.collections.len(), 1);
    assert_eq!(plan.data.collections[0].name, "Cozy");
    assert_eq!(plan.data.collections[0].games, vec!["g1"]);
    assert_eq!(plan.data.save_retention_full, 10);
    assert_eq!(plan.data.ui_mode, UiMode::Touch);
    assert!(plan.retention_changed);
    assert!(!plan.cloud_changed);
    assert_eq!(plan.ludusavi_remote_path, "Spool/ludusavi-backup");

    let moved = ConfigData {
        cloud: CloudConfig { provider: "gdrive".to_string(), ..CloudConfig::default() },
        ..ConfigData::default()
    };
    let plan2 = plan_config_update(&current, moved, "Spool", "Games");
    assert!(plan2.cloud_changed);
    assert!(!plan2.retention_changed);
    assert_eq!(plan2.ludusavi_remote_path, "Games/ludusavi-backup");
}

#[test]
fn migrated_lan_dir_becomes_the_install_root() {
    let mut data = ConfigData {
        library_folders: vec![LibraryFolder { path: "/games".to_string(), ..Default::default() }],
        lan: LanConfig { install_dir: "/mnt/sd/lan".to_string(), ..LanConfig::default() },
        ..Default::default()
    };
    // Before: the first folder is the default.
    assert_eq!(data.lan_install_root("/data"), "/games");
    assert!(migrate_lan_install_dir(&mut data));
    assert_eq!(data.lan_install_root("/data"), "/mnt/sd/lan");
    assert_eq!(data.library_folders.iter().filter(|f| f.default_install).count(), 1);
}

#[test]
fn lan_install_root_falls_back_to_app_data_lan_games() {
    let data = ConfigData::default();
    assert_eq!(data.lan_install_root("/data/app"), "/data/app/lan-games");
    assert_eq!(data.lan_install_root("/data/app/"), "/data/app/lan-games");
}

#[test]
fn settle_loaded_data_prefers_file_then_backup_then_defaults() {
    let file = ConfigData { device_name: "file".to_string(), ..ConfigData::default() };
    let bak = ConfigData { device_name: "bak".to_string(), ..ConfigData::default() };
    assert_eq!(settle_loaded_data(Some(file.clone()), true, Some(bak.clone())).device_name, "file");
    assert_eq!(settle_loaded_data(None, true, Some(bak.clone())).device_name, "bak");
    let d = settle_loaded_data(None, true, None);
    assert_eq!(d.device_name, "");
    assert_eq!(d.cloud.base_path, "Spool");
    // No file on disk: the backup is not consulted.
    let d = settle_loaded_data(None, false, Some(bak));
    assert_eq!(d.device_name, "");
    assert_eq!(d.save_retention_full, ConfigData::default().save_retention_full);
}
