use spool::guided_install::{
    GuidedInstallResult, InstallAction, InstallEvent, InstallPhase, InstallRun,
};

fn drive(events: Vec<InstallEvent>) -> Vec<InstallAction> {
    let (mut run, mut action) = InstallRun::start();
    let mut actions = vec![action];
    for e in events {
        let (r, a) = run.advance(e);
        run = r;
        action = a;
        actions.push(action);
        if matches!(action, InstallAction::Finish(_) | InstallAction::Fail) {
            break;
        }
    }
    actions
}

fn entries(v: &[&str]) -> InstallEvent {
    InstallEvent::DriveEntries(v.iter().map(|s| s.to_string()).collect())
}

#[test]
fn successful_install_mounts_first_free_letter() {
    let acts = drive(vec![
        InstallEvent::Done,
        InstallEvent::Done,
        InstallEvent::Done,
        InstallEvent::InstallDirReady { existed: false },
        InstallEvent::Done,
        InstallEvent::Failed, // prefix init is best effort
        InstallEvent::Done,
        entries(&["c:", "z:", "d::"]),
        InstallEvent::Done,
        InstallEvent::Done,
        InstallEvent::Done,
    ]);
    assert_eq!(
        acts,
        vec![
            InstallAction::VerifyInstaller,
            InstallAction::ReadSettings,
            InstallAction::ResolveUmuRun,
            InstallAction::CreateInstallDir,
            InstallAction::CreatePrefix,
            InstallAction::InitPrefix,
            InstallAction::CreateDosdevices,
            InstallAction::ListDrives,
            InstallAction::MountDrive('e'),
            InstallAction::AnnounceDrive('e'),
            InstallAction::RunInstaller,
            InstallAction::Finish('e'),
        ]
    );
}

#[test]
fn missing_installer_fails_without_cleanup() {
    assert_eq!(drive(vec![InstallEvent::Failed]), vec![InstallAction::VerifyInstaller, InstallAction::Fail]);
    let acts = drive(vec![InstallEvent::Done, InstallEvent::Done, InstallEvent::Done, InstallEvent::Failed]);
    assert_eq!(acts.last(), Some(&InstallAction::Fail));
    assert!(!acts.iter().any(|a| matches!(a, InstallAction::CleanUp { .. })));
}

#[test]
fn failed_installer_cleans_up_but_spares_existing_folder() {
    let run_with = |existed: bool| {
        drive(vec![
            InstallEvent::Done,
            InstallEvent::Done,
            InstallEvent::Done,
            InstallEvent::InstallDirReady { existed },
            InstallEvent::Done,
            InstallEvent::Done,
            InstallEvent::Done,
            entries(&[]),
            InstallEvent::Done,
            InstallEvent::Done,
            InstallEvent::Failed,
            InstallEvent::Done,
        ])
    };
    let fresh = run_with(false);
    assert_eq!(fresh[fresh.len() - 2], InstallAction::CleanUp { remove_install_dir: true });
    assert_eq!(fresh.last(), Some(&InstallAction::Fail));
    let existing = run_with(true);
    assert_eq!(existing[existing.len() - 2], InstallAction::CleanUp { remove_install_dir: false });
}

#[test]
fn no_free_drive_letter_cleans_up() {
    let all: Vec<String> = ('d'..='y').map(|c| format!("{c}:")).collect();
    let acts = drive(vec![
        InstallEvent::Done,
        InstallEvent::Done,
        InstallEvent::Done,
        InstallEvent::InstallDirReady { existed: false },
        InstallEvent::Done,
        InstallEvent::Done,
        InstallEvent::Done,
        InstallEvent::DriveEntries(all),
        InstallEvent::Done,
    ]);
    assert_eq!(
        &acts[acts.len() - 2..],
        &[InstallAction::CleanUp { remove_install_dir: true }, InstallAction::Fail]
    );
}

#[test]
fn install_result_carries_drive_label() {
    let r = GuidedInstallResult::new("/g/Game".to_string(), "/p/x".to_string(), 'f', None);
    assert_eq!(r.drive_letter, "F:");
    assert_eq!(r.install_dir, "/g/Game");
    assert_eq!(r.prefix_path, "/p/x");
    assert!(r.proton_path.is_none());
    let (start, _) = InstallRun::start();
    assert_eq!(start.phase, InstallPhase::VerifyingInstaller);
    assert_eq!(start.install_dir_existed, None);
}
