use spool::guided_install::{drive_label, install_root_override, pick_free_drive_letter};
use spool::lifecycle::{
    allow_exit, is_attached_launch, attached_exit, log_is_oversized, rotate_log_if_oversized, start_log_rotation, AttachedExit,
    LibraryVersionWatch, PendingRun, RotateAction, RotateEvent, RotatePhase, LOG_ROTATE_BYTES,
    rotate_lock_is_stale, ROTATE_LOCK_STALE_SECS,
};

fn names(v: &[&str]) -> Vec<String> {
    v.iter().map(|s| s.to_string()).collect()
}

#[test]
fn drive_letter_skips_used_and_reserved() {
    assert_eq!(pick_free_drive_letter(&names(&["c:", "z:"])), Some('d'));
    assert_eq!(pick_free_drive_letter(&names(&["c:", "D:", "e::", "z:"])), Some('f'));
    // Entries without a colon don't count.
    assert_eq!(pick_free_drive_letter(&names(&["d", "c:"])), Some('d'));
    let all: Vec<String> = ('d'..='y').map(|c| format!("{c}:")).collect();
    assert_eq!(pick_free_drive_letter(&all), None);
    assert_eq!(pick_free_drive_letter(&Vec::new()), Some('d'));
}

#[test]
fn drive_label_is_uppercase_with_colon() {
    assert_eq!(drive_label('d'), "D:");
    assert_eq!(drive_label('Q'), "Q:");
}

#[test]
fn install_root_override_ignores_blank() {
    assert_eq!(install_root_override(Some("/mnt/games".to_string())), Some("/mnt/games".to_string()));
    assert_eq!(install_root_override(Some("   ".to_string())), None);
    assert_eq!(install_root_override(None), None);
}

#[test]
fn pending_run_is_taken_once() {
    let mut p = PendingRun::default();
    assert_eq!(p.take(), None);
    p.set("game-1".to_string());
    p.set("game-2".to_string());
    assert_eq!(p.take(), Some("game-2".to_string()));
    assert_eq!(p.take(), None);
}

fn run(events: &[RotateEvent]) -> Vec<RotateAction> {
    let (mut phase, mut action) = start_log_rotation();
    let mut actions = vec![action];
    for e in events {
        if action == RotateAction::Stop {
            break;
        }
        let (p, a) = rotate_log_if_oversized(phase, *e);
        phase = p;
        action = a;
        actions.push(a);
    }
    assert!(action == RotateAction::Stop || phase != RotatePhase::Done);
    actions
}

#[test]
fn rotation_of_an_oversized_log_copies_then_empties() {
    let big = Some(LOG_ROTATE_BYTES + 1);
    let acts = run(&[
        RotateEvent::Size(big),
        RotateEvent::Locked(true),
        RotateEvent::Size(big),
        RotateEvent::Copied(true),
        RotateEvent::Truncated(true),
    ]);
    assert_eq!(
        acts,
        vec![
            RotateAction::MeasureLog,
            RotateAction::AcquireLock,
            RotateAction::MeasureLog,
            RotateAction::CopyAside,
            RotateAction::TruncateLog,
            RotateAction::Stop
        ]
    );
}

#[test]
fn rotation_leaves_a_small_or_missing_log_alone() {
    assert_eq!(run(&[RotateEvent::Size(Some(11))]), vec![RotateAction::MeasureLog, RotateAction::Stop]);
    assert_eq!(run(&[RotateEvent::Size(None)]), vec![RotateAction::MeasureLog, RotateAction::Stop]);
    assert!(!log_is_oversized(Some(LOG_ROTATE_BYTES)));
    assert!(log_is_oversized(Some(LOG_ROTATE_BYTES + 1)));
    assert_eq!(LOG_ROTATE_BYTES, 8 * 1024 * 1024);
}

#[test]
fn rotation_stops_without_lock_or_after_failed_copy() {
    let big = Some(LOG_ROTATE_BYTES + 1);
    assert_eq!(
        run(&[RotateEvent::Size(big), RotateEvent::Locked(false)]),
        vec![RotateAction::MeasureLog, RotateAction::AcquireLock, RotateAction::Stop]
    );
    // Rotated by another process between the checks.
    assert_eq!(
        run(&[RotateEvent::Size(big), RotateEvent::Locked(true), RotateEvent::Size(Some(0))]),
        vec![RotateAction::MeasureLog, RotateAction::AcquireLock, RotateAction::MeasureLog, RotateAction::Stop]
    );
    let acts = run(&[
        RotateEvent::Size(big),
        RotateEvent::Locked(true),
        RotateEvent::Size(big),
        RotateEvent::Copied(false),
    ]);
    assert_eq!(acts.last(), Some(&RotateAction::Stop));
    assert!(!acts.contains(&RotateAction::TruncateLog));
}

#[test]
fn attached_exit_decisions() {
    assert_eq!(attached_exit(None), AttachedExit::ExitNow);
    assert_eq!(
        attached_exit(Some("workflow: Cloud sync conflict for game X")),
        AttachedExit::StayForConflict
    );
    assert_eq!(attached_exit(Some("restore timed out")), AttachedExit::ExitAfterPause);
}

#[test]
fn library_version_watch_emits_on_change_only() {
    let mut w = LibraryVersionWatch::new(Some(4));
    assert!(!w.observe(Some(4)));
    assert!(!w.observe(None));
    assert!(w.observe(Some(5)));
    assert!(!w.observe(Some(5)));
    let w2 = LibraryVersionWatch::new(None);
    assert_eq!(w2.last, 0);
}

#[test]
fn tray_lifecycle_decisions() {
    assert!(!allow_exit(None));
    assert!(allow_exit(Some(0)));
    assert!(allow_exit(Some(1)));
    assert!(is_attached_launch(true, true, false));
    assert!(is_attached_launch(true, false, true));
    assert!(!is_attached_launch(true, false, false));
    assert!(!is_attached_launch(false, true, true));
}

#[test]
fn rotate_lock_goes_stale_after_its_age_limit() {
    assert!(!rotate_lock_is_stale(None));
    assert!(!rotate_lock_is_stale(Some(0)));
    assert!(!rotate_lock_is_stale(Some(ROTATE_LOCK_STALE_SECS - 1)));
    assert!(rotate_lock_is_stale(Some(ROTATE_LOCK_STALE_SECS)));
    assert!(rotate_lock_is_stale(Some(60)));
    assert!(rotate_lock_is_stale(Some(u64::MAX)));
}
