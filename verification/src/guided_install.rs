//! The decisions of the guided Windows-installer flow: which Wine drive
//! letter the install folder is mounted as, how that letter is shown, and
//! which folder the game is installed under. Running the installer, making
//! folders and reading the prefix's `dosdevices/` happen in the caller.
use vstd::prelude::*;
use crate::text::{chars_of, contains_seq, lowercased, string_of, to_lowercase, trim, trim_chars};

verus! {

/// `c` is taken by an entry of `dosdevices/`: some entry's lowercased name
/// contains `:` and starts with `c` (entries look like `c:` or `c::`).
pub open spec fn letter_used(names: Seq<String>, c: char) -> bool {
    exists|i: int|
        0 <= i < names.len() && contains_seq(lowercased(names[i]@), seq![':'])
            && #[trigger] lowercased(names[i]@)[0] == c
}

/// Whether `c` is one of the letters `d`..=`y` offered for the install
/// drive (`a`/`b` are floppies, `c`/`z` the system and root drives).
pub open spec fn offered_letter(c: char) -> bool {
    'd' <= c && c <= 'y'
}

fn contains_colon(v: &[char]) -> (r: bool)
    ensures
        r == contains_seq(v@, seq![':']),
{
    let mut i: usize = 0;
    while i < v.len()
        invariant
            i <= v@.len(),
            forall|k: int| 0 <= k < i ==> #[trigger] v@[k] != ':',
        decreases v.len() - i,
    {
        if v[i] == ':' {
            assert(v@.subrange(i as int, i + 1) =~= seq![':']);
            return true;
        }
        i = i + 1;
    }
    assert forall|k: int| 0 <= k <= v@.len() - 1 implies #[trigger] v@.subrange(k, k + 1) != seq![':'] by {
        assert(v@.subrange(k, k + 1)[0] == v@[k]);
    }
    false
}

/// `c` is the first offered letter that is free.
pub open spec fn is_first_free(names: Seq<String>, c: char) -> bool {
    &&& offered_letter(c)
    &&& !letter_used(names, c)
    &&& forall|c2: char| 'd' <= c2 < c ==> #[trigger] letter_used(names, c2)
}

/// The drive letter chosen for entries `names`: the first free one of
/// `d`..=`y`, or `None` when all are taken.
pub open spec fn free_letter(names: Seq<String>) -> Option<char> {
    if exists|c: char| #[trigger] is_first_free(names, c) {
        Some(choose|c: char| #[trigger] is_first_free(names, c))
    } else {
        None
    }
}

/// What `pick_free_drive_letter` promises pins its result to `free_letter`.
pub proof fn lemma_free_letter(names: Seq<String>, r: Option<char>)
    requires
        match r {
            Some(c) => is_first_free(names, c),
            None => forall|c2: char| offered_letter(c2) ==> #[trigger] letter_used(names, c2),
        },
    ensures
        r == free_letter(names),
{
    match r {
        Some(c) => {
            let c1 = choose|c1: char| #[trigger] is_first_free(names, c1);
            assert(is_first_free(names, c1));
            if c1 < c {
                assert(letter_used(names, c1));
            } else if c < c1 {
                assert(letter_used(names, c));
            }
        },
        None => {
            assert forall|c: char| !#[trigger] is_first_free(names, c) by {
                if offered_letter(c) {
                    assert(letter_used(names, c));
                }
            }
        },
    }
}

/// Picks a free Wine drive letter for the install folder given the names of
/// the entries in the prefix's `dosdevices/`: the first of `d`..=`y` that no
/// entry uses, or `None` when all are taken.
pub fn pick_free_drive_letter(entry_names: &Vec<String>) -> (r: Option<char>)
    ensures
        match r {
            Some(c) => {
                &&& offered_letter(c)
                &&& !letter_used(entry_names@, c)
                &&& forall|c2: char| 'd' <= c2 < c ==> #[trigger] letter_used(entry_names@, c2)
            },
            None => forall|c2: char| offered_letter(c2) ==> #[trigger] letter_used(entry_names@, c2),
        },
{
    // The first character of each lowercased entry name that contains ':'.
    let mut used: Vec<char> = Vec::new();
    let mut i: usize = 0;
    while i < entry_names.len()
        invariant
            i <= entry_names@.len(),
            forall|c: char| #[trigger] used@.contains(c) <==> exists|k: int|
                0 <= k < i && contains_seq(lowercased(entry_names@[k]@), seq![':'])
                    && #[trigger] lowercased(entry_names@[k]@)[0] == c,
        decreases entry_names.len() - i,
    {
        let name = to_lowercase(entry_names[i].as_str());
        let chars = chars_of(name.as_str());
        if contains_colon(&chars) {
            let ghost before = used@;
            used.push(chars[0]);
            proof {
                assert forall|c: char| #[trigger] used@.contains(c) <==> exists|k: int|
                    0 <= k < i + 1 && contains_seq(lowercased(entry_names@[k]@), seq![':'])
                        && #[trigger] lowercased(entry_names@[k]@)[0] == c by {
                    if used@.contains(c) {
                        let j = choose|j: int| 0 <= j < used@.len() && used@[j] == c;
                        if j == before.len() {
                            assert(lowercased(entry_names@[i as int]@)[0] == c);
                        } else {
                            assert(before[j] == c);
                            assert(before.contains(c));
                        }
                    }
                    if exists|k: int|
                        0 <= k < i + 1 && contains_seq(lowercased(entry_names@[k]@), seq![':'])
                            && #[trigger] lowercased(entry_names@[k]@)[0] == c {
                        let k = choose|k: int|
                            0 <= k < i + 1 && contains_seq(lowercased(entry_names@[k]@), seq![':'])
                                && #[trigger] lowercased(entry_names@[k]@)[0] == c;
                        if k == i {
                            assert(used@[used@.len() - 1] == c);
                        } else {
                            assert(before.contains(c));
                            let j = choose|j: int| 0 <= j < before.len() && before[j] == c;
                            assert(used@[j] == c);
                        }
                    }
                }
            }
        } else {
            proof {
                assert forall|c: char| #[trigger] used@.contains(c) <==> exists|k: int|
                    0 <= k < i + 1 && contains_seq(lowercased(entry_names@[k]@), seq![':'])
                        && #[trigger] lowercased(entry_names@[k]@)[0] == c by {
                    if exists|k: int|
                        0 <= k < i + 1 && contains_seq(lowercased(entry_names@[k]@), seq![':'])
                            && #[trigger] lowercased(entry_names@[k]@)[0] == c {
                        let k = choose|k: int|
                            0 <= k < i + 1 && contains_seq(lowercased(entry_names@[k]@), seq![':'])
                                && #[trigger] lowercased(entry_names@[k]@)[0] == c;
                        assert(k != i);
                    }
                }
            }
        }
        i = i + 1;
    }
    let mut code: u8 = 100;
    while code <= 121
        invariant
            100 <= code <= 122,
            forall|c: char| #[trigger] used@.contains(c) <==> letter_used(entry_names@, c),
            forall|c2: char| 'd' <= c2 && (c2 as int) < code ==> letter_used(entry_names@, c2),
        decreases 122 - code,
    {
        let c = code as char;
        let mut taken = false;
        let mut j: usize = 0;
        while j < used.len()
            invariant
                j <= used@.len(),
                taken == exists|k: int| 0 <= k < j && used@[k] == c,
            decreases used.len() - j,
        {
            if used[j] == c {
                taken = true;
            }
            j = j + 1;
        }
        if !taken {
            assert(!used@.contains(c));
            return Some(c);
        }
        assert(used@.contains(c));
        code = code + 1;
    }
    None
}

/// How a drive letter is shown and handed back: uppercased, with a colon.
pub open spec fn drive_label_spec(letter: char) -> Seq<char> {
    seq![if 'a' <= letter && letter <= 'z' { ((letter as u32) - 32) as char } else { letter }, ':']
}

/// `"{letter.to_ascii_uppercase()}:"`, e.g. `'d'` becomes `"D:"`.
pub fn drive_label(letter: char) -> (r: String)
    ensures
        r@ == drive_label_spec(letter),
{
    let upper = if 'a' <= letter && letter <= 'z' { ((letter as u32 - 32) as u8) as char } else { letter };
    let v = vec![upper, ':'];
    assert(v@ =~= drive_label_spec(letter));
    string_of(&v)
}

/// The folder the game's install folder is created under: the chosen
/// library folder when one was given and is not blank, else `None`, meaning
/// Spool's own installed-games folder.
pub fn install_root_override(install_dir_override: Option<String>) -> (r: Option<String>)
    ensures
        match install_dir_override {
            Some(p) => if trim(p@).len() > 0 { r == Some(p) } else { r is None },
            None => r is None,
        },
{
    match install_dir_override {
        Some(p) => {
            let t = trim_chars(&chars_of(p.as_str()));
            if t.len() > 0 {
                Some(p)
            } else {
                None
            }
        },
        None => None,
    }
}

/// What a finished guided install hands back: the host folder the game was
/// installed into, the Wine prefix it ran in (reused at launch), the drive
/// letter the folder was mounted as (e.g. `"D:"`), and the Proton build
/// used (`None` when umu-run used its own default).
#[derive(Debug, Clone)]
pub struct GuidedInstallResult {
    pub install_dir: String,
    pub prefix_path: String,
    pub drive_letter: String,
    pub proton_path: Option<String>,
}

impl GuidedInstallResult {
    /// The result of an install mounted as drive `letter`.
    pub fn new(install_dir: String, prefix_path: String, letter: char, proton_path: Option<String>) -> (r: Self)
        ensures
            r.install_dir == install_dir,
            r.prefix_path == prefix_path,
            r.drive_letter@ == drive_label_spec(letter),
            r.proton_path == proton_path,
    {
        GuidedInstallResult { install_dir, prefix_path, drive_letter: drive_label(letter), proton_path }
    }
}

// ── The install run ─────────────────────────────────────────────────────────

/// Where a guided install stands: which action's outcome it is waiting for.
#[derive(Debug, Clone, Copy, PartialEq, Eq, Structural)]
pub enum InstallPhase {
    VerifyingInstaller,
    ReadingSettings,
    ResolvingUmuRun,
    CreatingInstallDir,
    CreatingPrefix,
    InitializingPrefix,
    CreatingDosdevices,
    ListingDrives,
    MountingDrive(char),
    AnnouncingDrive(char),
    RunningInstaller(char),
    CleaningUp,
    Finished(char),
    Failed,
}

/// What the caller observed after performing the last action.
#[derive(Debug, Clone)]
pub enum InstallEvent {
    /// The action succeeded.
    Done,
    /// The action failed; the caller keeps the error to report.
    Failed,
    /// The install folder now exists; `existed` tells whether it did before.
    InstallDirReady { existed: bool },
    /// The names of the entries in the prefix's `dosdevices/` (empty when
    /// it could not be read).
    DriveEntries(Vec<String>),
}

/// What the caller must do next.
#[derive(Debug, Clone, Copy, PartialEq, Eq, Structural)]
pub enum InstallAction {
    /// Check that `setup.exe` is a file (else fail with "installer not found").
    VerifyInstaller,
    /// Read the configured umu-run path and default Proton build.
    ReadSettings,
    /// Resolve umu-run from the configured path.
    ResolveUmuRun,
    /// Note whether the install folder exists, then create it.
    CreateInstallDir,
    /// Take the sleep inhibitor and create the prefix folder.
    CreatePrefix,
    /// Let umu-run build the prefix; its outcome does not matter.
    InitPrefix,
    /// Create the prefix's `dosdevices/` folder.
    CreateDosdevices,
    /// Report the names of the entries in `dosdevices/`.
    ListDrives,
    /// Mount the install folder as this drive letter.
    MountDrive(char),
    /// Tell the frontend the drive letter; its outcome does not matter.
    AnnounceDrive(char),
    /// Run the installer through umu-run and wait for it.
    RunInstaller,
    /// Remove the prefix folder, and the install folder when asked to.
    CleanUp { remove_install_dir: bool },
    /// Done: the game was installed on this drive letter.
    Finish(char),
    /// Done: report the error (after any clean-up).
    Fail,
}

/// A guided install in progress.
#[derive(Debug, Clone, Copy)]
pub struct InstallRun {
    pub phase: InstallPhase,
    /// Whether the install folder existed before the install, once known.
    pub install_dir_existed: Option<bool>,
}

/// The clean-up asked for once the install folder was made: the prefix
/// goes, and the install folder goes only if this install created it.
pub open spec fn clean_up(run: InstallRun) -> (InstallRun, InstallAction) {
    (
        InstallRun { phase: InstallPhase::CleaningUp, ..run },
        InstallAction::CleanUp { remove_install_dir: run.install_dir_existed == Some(false) },
    )
}

/// Failure before anything was created: nothing to clean up.
pub open spec fn abort(run: InstallRun) -> (InstallRun, InstallAction) {
    (InstallRun { phase: InstallPhase::Failed, ..run }, InstallAction::Fail)
}

/// The first step of a guided install.
pub open spec fn install_start() -> (InstallRun, InstallAction) {
    (
        InstallRun { phase: InstallPhase::VerifyingInstaller, install_dir_existed: None },
        InstallAction::VerifyInstaller,
    )
}

/// One decision of a guided install. Failures before the install folder
/// exists end it at once; later failures first clean up. Building the
/// prefix and announcing the drive are best effort. The drive letter is the
/// first free one of `d`..=`y` in `dosdevices/`; none free is a failure.
pub open spec fn install_step(run: InstallRun, event: InstallEvent) -> (InstallRun, InstallAction) {
    let to = |p: InstallPhase, a: InstallAction| (InstallRun { phase: p, ..run }, a);
    match run.phase {
        InstallPhase::VerifyingInstaller => match event {
            InstallEvent::Done => to(InstallPhase::ReadingSettings, InstallAction::ReadSettings),
            _ => abort(run),
        },
        InstallPhase::ReadingSettings => match event {
            InstallEvent::Done => to(InstallPhase::ResolvingUmuRun, InstallAction::ResolveUmuRun),
            _ => abort(run),
        },
        InstallPhase::ResolvingUmuRun => match event {
            InstallEvent::Done => to(InstallPhase::CreatingInstallDir, InstallAction::CreateInstallDir),
            _ => abort(run),
        },
        InstallPhase::CreatingInstallDir => match event {
            InstallEvent::InstallDirReady { existed } => (
                InstallRun { phase: InstallPhase::CreatingPrefix, install_dir_existed: Some(existed) },
                InstallAction::CreatePrefix,
            ),
            _ => abort(run),
        },
        InstallPhase::CreatingPrefix => match event {
            InstallEvent::Done => to(InstallPhase::InitializingPrefix, InstallAction::InitPrefix),
            _ => clean_up(run),
        },
        InstallPhase::InitializingPrefix => to(InstallPhase::CreatingDosdevices, InstallAction::CreateDosdevices),
        InstallPhase::CreatingDosdevices => match event {
            InstallEvent::Done => to(InstallPhase::ListingDrives, InstallAction::ListDrives),
            _ => clean_up(run),
        },
        InstallPhase::ListingDrives => match event {
            InstallEvent::DriveEntries(names) => match free_letter(names@) {
                Some(c) => to(InstallPhase::MountingDrive(c), InstallAction::MountDrive(c)),
                None => clean_up(run),
            },
            _ => clean_up(run),
        },
        InstallPhase::MountingDrive(c) => match event {
            InstallEvent::Done => to(InstallPhase::AnnouncingDrive(c), InstallAction::AnnounceDrive(c)),
            _ => clean_up(run),
        },
        InstallPhase::AnnouncingDrive(c) => to(InstallPhase::RunningInstaller(c), InstallAction::RunInstaller),
        InstallPhase::RunningInstaller(c) => match event {
            InstallEvent::Done => to(InstallPhase::Finished(c), InstallAction::Finish(c)),
            _ => clean_up(run),
        },
        InstallPhase::CleaningUp => abort(run),
        InstallPhase::Finished(c) => to(InstallPhase::Finished(c), InstallAction::Finish(c)),
        InstallPhase::Failed => abort(run),
    }
}

impl InstallRun {
    /// Starts a guided install: the first action is to check the installer.
    pub fn start() -> (r: (InstallRun, InstallAction))
        ensures
            r == install_start(),
    {
        (
            InstallRun { phase: InstallPhase::VerifyingInstaller, install_dir_existed: None },
            InstallAction::VerifyInstaller,
        )
    }

    fn clean_up(self) -> (r: (InstallRun, InstallAction))
        ensures
            r == clean_up(self),
    {
        let remove = match self.install_dir_existed {
            Some(existed) => !existed,
            None => false,
        };
        (
            InstallRun { phase: InstallPhase::CleaningUp, ..self },
            InstallAction::CleanUp { remove_install_dir: remove },
        )
    }

    fn abort(self) -> (r: (InstallRun, InstallAction))
        ensures
            r == abort(self),
    {
        (InstallRun { phase: InstallPhase::Failed, ..self }, InstallAction::Fail)
    }

    fn to(self, phase: InstallPhase, action: InstallAction) -> (r: (InstallRun, InstallAction))
        ensures
            r == (InstallRun { phase, ..self }, action),
    {
        (InstallRun { phase, ..self }, action)
    }

    /// Given what the last action observed, the next state and action.
    pub fn advance(self, event: InstallEvent) -> (r: (InstallRun, InstallAction))
        ensures
            r == install_step(self, event),
    {
        match self.phase {
            InstallPhase::VerifyingInstaller => match event {
                InstallEvent::Done => self.to(InstallPhase::ReadingSettings, InstallAction::ReadSettings),
                _ => self.abort(),
            },
            InstallPhase::ReadingSettings => match event {
                InstallEvent::Done => self.to(InstallPhase::ResolvingUmuRun, InstallAction::ResolveUmuRun),
                _ => self.abort(),
            },
            InstallPhase::ResolvingUmuRun => match event {
                InstallEvent::Done => self.to(InstallPhase::CreatingInstallDir, InstallAction::CreateInstallDir),
                _ => self.abort(),
            },
            InstallPhase::CreatingInstallDir => match event {
                InstallEvent::InstallDirReady { existed } => (
                    InstallRun { phase: InstallPhase::CreatingPrefix, install_dir_existed: Some(existed) },
                    InstallAction::CreatePrefix,
                ),
                _ => self.abort(),
            },
            InstallPhase::CreatingPrefix => match event {
                InstallEvent::Done => self.to(InstallPhase::InitializingPrefix, InstallAction::InitPrefix),
                _ => self.clean_up(),
            },
            InstallPhase::InitializingPrefix => self.to(InstallPhase::CreatingDosdevices, InstallAction::CreateDosdevices),
            InstallPhase::CreatingDosdevices => match event {
                InstallEvent::Done => self.to(InstallPhase::ListingDrives, InstallAction::ListDrives),
                _ => self.clean_up(),
            },
            InstallPhase::ListingDrives => match event {
                InstallEvent::DriveEntries(names) => {
                    let letter = pick_free_drive_letter(&names);
                    proof {
                        lemma_free_letter(names@, letter);
                    }
                    match letter {
                        Some(c) => self.to(InstallPhase::MountingDrive(c), InstallAction::MountDrive(c)),
                        None => self.clean_up(),
                    }
                },
                _ => self.clean_up(),
            },
            InstallPhase::MountingDrive(c) => match event {
                InstallEvent::Done => self.to(InstallPhase::AnnouncingDrive(c), InstallAction::AnnounceDrive(c)),
                _ => self.clean_up(),
            },
            InstallPhase::AnnouncingDrive(c) => self.to(InstallPhase::RunningInstaller(c), InstallAction::RunInstaller),
            InstallPhase::RunningInstaller(c) => match event {
                InstallEvent::Done => self.to(InstallPhase::Finished(c), InstallAction::Finish(c)),
                _ => self.clean_up(),
            },
            InstallPhase::CleaningUp => self.abort(),
            InstallPhase::Finished(c) => self.to(InstallPhase::Finished(c), InstallAction::Finish(c)),
            InstallPhase::Failed => self.abort(),
        }
    }
}

/// Whether the install folder existed is unknown before the folder step and
/// known from then on (a failed install may be in either case).
pub open spec fn install_inv(run: InstallRun) -> bool {
    match run.phase {
        InstallPhase::VerifyingInstaller | InstallPhase::ReadingSettings | InstallPhase::ResolvingUmuRun
        | InstallPhase::CreatingInstallDir => run.install_dir_existed is None,
        InstallPhase::Failed => true,
        _ => run.install_dir_existed is Some,
    }
}

/// Every step keeps `install_inv`, starting from the first state.
pub proof fn law_install_steps_keep_invariant(run: InstallRun, event: InstallEvent)
    requires
        install_inv(run),
    ensures
        install_inv(install_start().0),
        install_inv(install_step(run, event).0),
{
}

/// An install folder that existed before the install is never removed:
/// a clean-up removes the install folder only when the install reported
/// creating it. Once known, whether it existed never changes, and it only
/// becomes known from the `InstallDirReady` report.
pub proof fn law_install_cleanup_spares_existing_folder(run: InstallRun, event: InstallEvent)
    requires
        install_inv(run),
    ensures
        ({
            let (next, action) = install_step(run, event);
            &&& match action {
                InstallAction::CleanUp { remove_install_dir } => remove_install_dir
                    <==> run.install_dir_existed == Some(false),
                _ => true,
            }
            &&& run.install_dir_existed is Some ==> next.install_dir_existed == run.install_dir_existed
            &&& (run.install_dir_existed is None && next.install_dir_existed is Some) ==> (event
                matches InstallEvent::InstallDirReady { existed } && next.install_dir_existed == Some(
                existed,
            ))
        }),
{
}

/// Once the install folder is known, every failure cleans up before the
/// install ends; an install only finishes after its installer ran to the
/// end on a drive letter that was free.
pub proof fn law_install_failure_after_folder_cleans_up(run: InstallRun, event: InstallEvent)
    requires
        install_inv(run),
    ensures
        ({
            let (next, action) = install_step(run, event);
            &&& (action == InstallAction::Fail && run.install_dir_existed is Some) ==> run.phase
                == InstallPhase::CleaningUp || run.phase == InstallPhase::Failed
            &&& match action {
                InstallAction::Finish(c) => (run.phase == InstallPhase::RunningInstaller(c)
                    && event is Done) || run.phase == InstallPhase::Finished(c),
                InstallAction::MountDrive(c) => match event {
                    InstallEvent::DriveEntries(names) => is_first_free(names@, c),
                    _ => false,
                },
                _ => true,
            }
        }),
{
    let (next, action) = install_step(run, event);
    if let InstallAction::MountDrive(c) = action {
        if let InstallEvent::DriveEntries(names) = event {
            if exists|c1: char| #[trigger] is_first_free(names@, c1) {
                let c1 = choose|c1: char| #[trigger] is_first_free(names@, c1);
                assert(is_first_free(names@, c1));
            }
        }
    }
}

/// The install moves forward on every success: each step that reports
/// success leads to the next step of the flow. The install folder being
/// ready, whether or not it existed before, leads to creating the prefix,
/// with that fact recorded; a listing with a free offered letter leads to
/// mounting the first free one.
pub proof fn law_install_proceeds_on_success(run: InstallRun, event: InstallEvent)
    ensures
        ({
            let (next, action) = install_step(run, event);
            &&& run.phase == InstallPhase::VerifyingInstaller && event is Done ==> next.phase
                == InstallPhase::ReadingSettings && action == InstallAction::ReadSettings
            &&& run.phase == InstallPhase::ReadingSettings && event is Done ==> next.phase
                == InstallPhase::ResolvingUmuRun && action == InstallAction::ResolveUmuRun
            &&& run.phase == InstallPhase::ResolvingUmuRun && event is Done ==> next.phase
                == InstallPhase::CreatingInstallDir && action == InstallAction::CreateInstallDir
            &&& event matches InstallEvent::InstallDirReady { existed } ==> (run.phase
                == InstallPhase::CreatingInstallDir ==> next.phase == InstallPhase::CreatingPrefix
                && next.install_dir_existed == Some(existed) && action == InstallAction::CreatePrefix)
            &&& run.phase == InstallPhase::CreatingPrefix && event is Done ==> next.phase
                == InstallPhase::InitializingPrefix && action == InstallAction::InitPrefix
            &&& run.phase == InstallPhase::InitializingPrefix ==> next.phase == InstallPhase::CreatingDosdevices
                && action == InstallAction::CreateDosdevices
            &&& run.phase == InstallPhase::CreatingDosdevices && event is Done ==> next.phase
                == InstallPhase::ListingDrives && action == InstallAction::ListDrives
            &&& event matches InstallEvent::DriveEntries(names) ==> ((run.phase == InstallPhase::ListingDrives
                && exists|c: char| offered_letter(c) && !#[trigger] letter_used(names@, c)) ==> (
            action matches InstallAction::MountDrive(c) && next.phase == InstallPhase::MountingDrive(c)
                && is_first_free(names@, c)))
            &&& run.phase matches InstallPhase::MountingDrive(c) ==> (event is Done ==> next.phase
                == InstallPhase::AnnouncingDrive(c) && action == InstallAction::AnnounceDrive(c))
            &&& run.phase matches InstallPhase::AnnouncingDrive(c) ==> next.phase
                == InstallPhase::RunningInstaller(c) && action == InstallAction::RunInstaller
            &&& run.phase matches InstallPhase::RunningInstaller(c) ==> (event is Done ==> next.phase
                == InstallPhase::Finished(c) && action == InstallAction::Finish(c))
            &&& run.phase != InstallPhase::CreatingInstallDir ==> next.install_dir_existed
                == run.install_dir_existed
        }),
{
    if let InstallPhase::ListingDrives = run.phase {
        if let InstallEvent::DriveEntries(names) = event {
            if exists|c: char| offered_letter(c) && !#[trigger] letter_used(names@, c) {
                let c0 = choose|c: char| offered_letter(c) && !#[trigger] letter_used(names@, c);
                lemma_first_free_exists(names@, c0);
                let c1 = choose|c1: char| #[trigger] is_first_free(names@, c1);
                assert(is_first_free(names@, c1));
            }
        }
    }
}

/// If some offered letter is free, a first free one exists.
proof fn lemma_first_free_exists(names: Seq<String>, c0: char)
    requires
        offered_letter(c0),
        !letter_used(names, c0),
    ensures
        exists|c: char| #[trigger] is_first_free(names, c),
    decreases c0 as int,
{
    if forall|c2: char| 'd' <= c2 < c0 ==> #[trigger] letter_used(names, c2) {
        assert(is_first_free(names, c0));
    } else {
        let c2 = choose|c2: char| 'd' <= c2 < c0 && !#[trigger] letter_used(names, c2);
        lemma_first_free_exists(names, c2);
    }
}

/// An install is cleaned up or failed only for a reason: the last action
/// reported a failure (or something other than its success), or no offered
/// drive letter was free; a clean-up always ends in failure.
pub proof fn law_install_fails_only_on_failure(run: InstallRun, event: InstallEvent)
    ensures
        ({
            let (next, action) = install_step(run, event);
            (action is CleanUp || action is Fail) ==> match run.phase {
                InstallPhase::CreatingInstallDir => !(event is InstallDirReady),
                InstallPhase::ListingDrives => match event {
                    InstallEvent::DriveEntries(names) => forall|c: char|
                        offered_letter(c) ==> #[trigger] letter_used(names@, c),
                    _ => true,
                },
                InstallPhase::InitializingPrefix | InstallPhase::AnnouncingDrive(_) | InstallPhase::Finished(_) => false,
                InstallPhase::CleaningUp => action == InstallAction::Fail && next.phase == InstallPhase::Failed,
                InstallPhase::Failed => action == InstallAction::Fail,
                _ => !(event is Done),
            }
        }),
{
    if let InstallPhase::ListingDrives = run.phase {
        if let InstallEvent::DriveEntries(names) = event {
            if exists|c: char| offered_letter(c) && !#[trigger] letter_used(names@, c) {
                let c0 = choose|c: char| offered_letter(c) && !#[trigger] letter_used(names@, c);
                lemma_first_free_exists(names@, c0);
                let c1 = choose|c1: char| #[trigger] is_first_free(names@, c1);
                assert(is_first_free(names@, c1));
            }
        }
    }
}

} // verus!
