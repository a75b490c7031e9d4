//! Process-lifecycle decisions: the startup launch queue, the start-up
//! rotation of `debug.log`, how an attached Game-Mode launch ends, and when
//! a change of the shared library database is announced. The caller
//! performs the file, lock, window and timer work these decisions ask for.
use vstd::prelude::*;
use crate::text::{chars_of, contains_chars, contains_seq};

verus! {

// ── Startup launch queue ────────────────────────────────────────────────────

/// Holds a game id queued for launch at startup until the library window
/// takes it.
#[derive(Debug)]
pub struct PendingRun {
    inner: Option<String>,
}

impl View for PendingRun {
    type V = Option<Seq<char>>;

    closed spec fn view(&self) -> Option<Seq<char>> {
        queued_view(self.inner)
    }
}

impl Default for PendingRun {
    fn default() -> (r: Self)
        ensures
            r@ is None,
    {
        PendingRun { inner: None }
    }
}

/// The queue's contents as seen from outside: `None`, or the id's characters.
pub open spec fn queued_view(q: Option<String>) -> Option<Seq<char>> {
    match q {
        Some(s) => Some(s@),
        None => None,
    }
}

/// What a `take` hands out and what it leaves queued, given what was queued.
pub open spec fn take_spec(queued: Option<Seq<char>>) -> (Option<Seq<char>>, Option<Seq<char>>) {
    (queued, None)
}

impl PendingRun {
    /// Queues `id`, replacing anything queued before.
    pub fn set(&mut self, id: String)
        ensures
            final(self)@ == Some(id@),
    {
        self.inner = Some(id);
    }

    /// Takes the queued id, leaving nothing queued.
    pub fn take(&mut self) -> (r: Option<String>)
        ensures
            (queued_view(r), final(self)@) == take_spec(old(self)@),
    {
        self.inner.take()
    }
}

/// A queued id is handed out exactly once: the first `take` after
/// `set(id)` returns `id`, and a second `take` returns nothing.
pub proof fn law_pending_run_is_taken_once(id: Seq<char>)
    ensures
        ({
            let (first, left) = take_spec(Some(id));
            let (second, left2) = take_spec(left);
            first == Some(id) && second is None && left2 is None
        }),
{
}

// ── debug.log rotation ──────────────────────────────────────────────────────

/// Size past which `debug.log` is rotated at startup (8 MiB).
pub const LOG_ROTATE_BYTES: u64 = 8388608;

/// `true` when the log exists (`len` is its size) and is past the cap.
pub open spec fn oversized(len: Option<u64>) -> bool {
    match len {
        Some(n) => n > LOG_ROTATE_BYTES,
        None => false,
    }
}

/// `true` when the log exists (`len` is its size) and is past the cap.
pub fn log_is_oversized(len: Option<u64>) -> (r: bool)
    ensures
        r == oversized(len),
{
    match len {
        Some(n) => n > LOG_ROTATE_BYTES,
        None => false,
    }
}

/// Where a rotation stands.
#[derive(Debug, Clone, Copy, PartialEq, Eq, Structural)]
pub enum RotatePhase {
    /// Waiting for the unlocked size check.
    FirstCheck,
    /// Waiting to hear whether the machine-wide rotation lock was taken.
    Locking,
    /// Holding the lock, waiting for the size to be checked again.
    SecondCheck,
    /// Waiting for the copy to `debug.log.1`.
    Copying,
    /// Waiting for the log to be emptied in place.
    Truncating,
    /// Finished; release the lock if held.
    Done,
}

/// What the caller observed after performing the last action.
#[derive(Debug, Clone, Copy, PartialEq, Eq, Structural)]
pub enum RotateEvent {
    /// The log's size, `None` when it does not exist.
    Size(Option<u64>),
    /// Whether the rotation lock was acquired.
    Locked(bool),
    /// Whether the copy aside succeeded.
    Copied(bool),
    /// Whether emptying the log succeeded.
    Truncated(bool),
}

/// What the caller must do next.
#[derive(Debug, Clone, Copy, PartialEq, Eq, Structural)]
pub enum RotateAction {
    /// Read the log's size and report `Size`.
    MeasureLog,
    /// Try the machine-wide rotation lock and report `Locked`.
    AcquireLock,
    /// Copy `debug.log` to `debug.log.1` and report `Copied`.
    CopyAside,
    /// Empty `debug.log` in place (keeping its inode) and report `Truncated`.
    TruncateLog,
    /// Stop; drop the lock if it was taken.
    Stop,
}

/// The first step: measure the log.
pub open spec fn rotation_start() -> (RotatePhase, RotateAction) {
    (RotatePhase::FirstCheck, RotateAction::MeasureLog)
}

/// One decision of the rotation. An oversized log leads to taking the lock;
/// with the lock held the size is checked again (another process may have
/// rotated meanwhile); only then is the log copied aside, and only after a
/// successful copy is it emptied. Anything else, including an event that
/// does not fit the phase, stops.
pub open spec fn rotation_step(phase: RotatePhase, event: RotateEvent) -> (RotatePhase, RotateAction) {
    match (phase, event) {
        (RotatePhase::FirstCheck, RotateEvent::Size(len)) => if oversized(len) {
            (RotatePhase::Locking, RotateAction::AcquireLock)
        } else {
            (RotatePhase::Done, RotateAction::Stop)
        },
        (RotatePhase::Locking, RotateEvent::Locked(true)) => (RotatePhase::SecondCheck, RotateAction::MeasureLog),
        (RotatePhase::SecondCheck, RotateEvent::Size(len)) => if oversized(len) {
            (RotatePhase::Copying, RotateAction::CopyAside)
        } else {
            (RotatePhase::Done, RotateAction::Stop)
        },
        (RotatePhase::Copying, RotateEvent::Copied(true)) => (RotatePhase::Truncating, RotateAction::TruncateLog),
        _ => (RotatePhase::Done, RotateAction::Stop),
    }
}

/// Starts a start-up rotation of `debug.log`: the first action is to
/// measure it.
pub fn start_log_rotation() -> (r: (RotatePhase, RotateAction))
    ensures
        r == rotation_start(),
{
    (RotatePhase::FirstCheck, RotateAction::MeasureLog)
}

/// Copies an oversized `debug.log` to `debug.log.1` and empties the
/// original, one decision at a time: given the phase and what the last
/// action observed, returns the next phase and action.
pub fn rotate_log_if_oversized(phase: RotatePhase, event: RotateEvent) -> (r: (RotatePhase, RotateAction))
    ensures
        r == rotation_step(phase, event),
{
    match (phase, event) {
        (RotatePhase::FirstCheck, RotateEvent::Size(len)) => if log_is_oversized(len) {
            (RotatePhase::Locking, RotateAction::AcquireLock)
        } else {
            (RotatePhase::Done, RotateAction::Stop)
        },
        (RotatePhase::Locking, RotateEvent::Locked(true)) => (RotatePhase::SecondCheck, RotateAction::MeasureLog),
        (RotatePhase::SecondCheck, RotateEvent::Size(len)) => if log_is_oversized(len) {
            (RotatePhase::Copying, RotateAction::CopyAside)
        } else {
            (RotatePhase::Done, RotateAction::Stop)
        },
        (RotatePhase::Copying, RotateEvent::Copied(true)) => (RotatePhase::Truncating, RotateAction::TruncateLog),
        _ => (RotatePhase::Done, RotateAction::Stop),
    }
}

/// The actions a rotation asks for when the caller reports `events` in
/// turn, starting from `phase`.
pub open spec fn rotation_actions(phase: RotatePhase, events: Seq<RotateEvent>) -> Seq<RotateAction>
    decreases events.len(),
{
    if events.len() == 0 || phase == RotatePhase::Done {
        Seq::empty()
    } else {
        let (next, action) = rotation_step(phase, events[0]);
        seq![action] + rotation_actions(next, events.drop_first())
    }
}

/// In any run, the log is emptied only right after a successful copy, the
/// copy only right after a size check (made under the lock) found it over
/// the cap, and that check only after the lock was taken following an
/// over-cap first check.
pub proof fn law_rotation_never_empties_without_copy(phase: RotatePhase, events: Seq<RotateEvent>)
    requires
        phase == RotatePhase::FirstCheck,
    ensures
        forall|i: int|
            0 <= i < rotation_actions(phase, events).len() && #[trigger] rotation_actions(phase, events)[i]
                == RotateAction::TruncateLog ==> i == 3 && events[i] == RotateEvent::Copied(true)
                && rotation_actions(phase, events)[i - 1] == RotateAction::CopyAside && (
            events[i - 1] matches RotateEvent::Size(len) && oversized(len)) && events[i - 2]
                == RotateEvent::Locked(true) && (events[0] matches RotateEvent::Size(len0) && oversized(len0)),
{
    let a = rotation_actions(phase, events);
    assert forall|i: int| 0 <= i < a.len() && #[trigger] a[i] == RotateAction::TruncateLog implies i == 3
        && events[i] == RotateEvent::Copied(true) && a[i - 1] == RotateAction::CopyAside && (
    events[i - 1] matches RotateEvent::Size(len) && oversized(len)) && events[i - 2]
        == RotateEvent::Locked(true) && (events[0] matches RotateEvent::Size(len0) && oversized(len0)) by {
        let e0 = events[0];
        let (p1, a0) = rotation_step(phase, e0);
        let t1 = events.drop_first();
        assert(a == seq![a0] + rotation_actions(p1, t1));
        if i > 0 {
            assert(p1 != RotatePhase::Done);
            assert(p1 == RotatePhase::Locking);
            let (p2, a1) = rotation_step(p1, t1[0]);
            let t2 = t1.drop_first();
            assert(rotation_actions(p1, t1) == seq![a1] + rotation_actions(p2, t2));
            if i > 1 {
                assert(p2 == RotatePhase::SecondCheck);
                let (p3, a2) = rotation_step(p2, t2[0]);
                let t3 = t2.drop_first();
                assert(rotation_actions(p2, t2) == seq![a2] + rotation_actions(p3, t3));
                if i > 2 {
                    assert(p3 == RotatePhase::Copying);
                    let (p4, a3) = rotation_step(p3, t3[0]);
                    let t4 = t3.drop_first();
                    assert(rotation_actions(p3, t3) == seq![a3] + rotation_actions(p4, t4));
                    if i > 3 {
                        assert(p4 == RotatePhase::Truncating);
                        let (p5, a4) = rotation_step(p4, t4[0]);
                        assert(p5 == RotatePhase::Done);
                        assert(rotation_actions(p4, t4) == seq![a4] + rotation_actions(p5, t4.drop_first()));
                        assert(rotation_actions(p5, t4.drop_first()) == Seq::<RotateAction>::empty());
                        assert(a4 == RotateAction::Stop);
                        assert(false);
                    }
                    assert(a3 == RotateAction::TruncateLog);
                    assert(t3[0] == events[3]);
                    assert(t2[0] == events[2]);
                    assert(t1[0] == events[1]);
                } else {
                    assert(a2 != RotateAction::TruncateLog);
                }
            } else {
                assert(a1 != RotateAction::TruncateLog);
            }
        } else {
            assert(a0 != RotateAction::TruncateLog);
        }
    }
}

/// Age in seconds past which a rotation lock is taken to be left behind by
/// a process that stopped mid-rotation.
pub const ROTATE_LOCK_STALE_SECS: u64 = 60;

/// Whether a rotation lock found on disk may be cleared: its age (`None`
/// when it cannot be told) is known and at least `ROTATE_LOCK_STALE_SECS`.
pub fn rotate_lock_is_stale(age_secs: Option<u64>) -> (r: bool)
    ensures
        r == (age_secs matches Some(a) && a >= ROTATE_LOCK_STALE_SECS),
{
    match age_secs {
        Some(a) => a >= ROTATE_LOCK_STALE_SECS,
        None => false,
    }
}

// ── Tray-resident lifecycle ─────────────────────────────────────────────────

/// Whether this process runs an attached launch (no tray; exit when the
/// game closes): a `--run` invocation that either carries `--attached` or
/// happens inside a Steam Game-Mode session.
pub fn is_attached_launch(run_requested: bool, attached_flag: bool, in_steam_game_mode: bool) -> (r: bool)
    ensures
        r == (run_requested && (attached_flag || in_steam_game_mode)),
{
    run_requested && (attached_flag || in_steam_game_mode)
}

/// Whether an exit request goes through. Spool lives in the tray: only an
/// explicit `exit(code)` (the tray's Quit item, or the end of an attached
/// launch) carries a code; a request without one (the last window closing)
/// is refused.
pub fn allow_exit(code: Option<i32>) -> (r: bool)
    ensures
        r == code is Some,
{
    code.is_some()
}

// ── Attached launch ─────────────────────────────────────────────────────────

/// How an attached Game-Mode launch ends once its workflow returns.
#[derive(Debug, Clone, Copy, PartialEq, Eq, Structural)]
pub enum AttachedExit {
    /// The workflow succeeded: exit now so the host sees the game stop.
    ExitNow,
    /// A cloud-sync conflict: stay open; the splash's conflict dialog exits
    /// once the user has chosen.
    StayForConflict,
    /// Any other error: keep the reason on the splash for a few seconds,
    /// then exit.
    ExitAfterPause,
}

/// How the attached launch ends given the workflow's error message (`None`
/// on success).
pub fn attached_exit(error: Option<&str>) -> (r: AttachedExit)
    ensures
        r == match error {
            None => AttachedExit::ExitNow,
            Some(e) => if contains_seq(e@, "Cloud sync conflict"@) {
                AttachedExit::StayForConflict
            } else {
                AttachedExit::ExitAfterPause
            },
        },
{
    match error {
        None => AttachedExit::ExitNow,
        Some(e) => if contains_chars(&chars_of(e), &chars_of("Cloud sync conflict")) {
            AttachedExit::StayForConflict
        } else {
            AttachedExit::ExitAfterPause
        },
    }
}

// ── Library change poll ─────────────────────────────────────────────────────

/// Tracks the shared library database's version counter so writes by other
/// Spool processes are announced once each.
#[derive(Debug)]
pub struct LibraryVersionWatch {
    pub last: u64,
}

impl LibraryVersionWatch {
    /// Starts from the version read at startup (`0` when the read failed).
    pub fn new(initial: Option<u64>) -> (r: Self)
        ensures
            r.last == match initial {
                Some(v) => v,
                None => 0,
            },
    {
        LibraryVersionWatch {
            last: match initial {
                Some(v) => v,
                None => 0,
            },
        }
    }

    /// Takes one poll's reading (`None` when it failed) and returns whether
    /// `library:changed` should be emitted: only when the version moved.
    pub fn observe(&mut self, read: Option<u64>) -> (emit: bool)
        ensures
            match read {
                Some(v) if v != old(self).last => emit && final(self).last == v,
                _ => !emit && final(self).last == old(self).last,
            },
    {
        match read {
            Some(v) => if v != self.last {
                self.last = v;
                true
            } else {
                false
            },
            None => false,
        }
    }
}

} // verus!
