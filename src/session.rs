//! The phase-transition state machine that sequences a provisioning run.
//!
//! The engine decides; the caller performs each returned action (detecting
//! the platform, fetching an artifact, asking the user, running the offline
//! install, patching) and feeds its outcome back as an event.

use vstd::prelude::*;

use crate::installer::Installer;
use crate::requirements::Requirement;

verus! {

/// Where a provisioning run stands.
#[derive(Clone, Copy, PartialEq, Eq, Structural, Debug)]
pub enum Phase {
    Init,
    PlatformDetected,
    /// Artifact `index` of `total` is being fetched.
    Downloading { index: usize, total: usize },
    /// Fetching artifact `index` of `total` failed; the user decides.
    AwaitingDecision { index: usize, total: usize },
    AllDownloaded,
    OfflineInstalled,
    Done,
    Failed,
}

/// The outcome of the work last handed out.
#[derive(Clone, Copy, PartialEq, Eq, Structural, Debug)]
pub enum Event {
    PlatformDetected,
    /// The requirement list is parsed; it holds this many requirements.
    RequirementsLoaded(usize),
    DownloadSucceeded,
    DownloadFailed,
    /// The user asks to fetch the failed artifact again.
    Retry,
    /// The user gives the run up.
    Abandon,
    Installed,
    PatchesApplied,
    /// An unrecoverable failure (platform, configuration, parsing, install,
    /// patching).
    Fatal,
}

/// The work the caller is to perform next.
#[derive(Clone, Copy, PartialEq, Eq, Structural, Debug)]
pub enum Action {
    LoadRequirements,
    StartDownload(usize),
    AskRetry(usize),
    RunOfflineInstall,
    ApplyPatches,
    ReportDone,
    ReportFailure,
    Nothing,
}

/// A phase that can be reached: a download index lies below the total.
pub open spec fn phase_wf(p: Phase) -> bool {
    match p {
        Phase::Downloading { index, total } => index < total,
        Phase::AwaitingDecision { index, total } => index < total,
        _ => true,
    }
}

/// The transition table.
pub open spec fn transition(p: Phase, e: Event) -> (Phase, Action) {
    match (p, e) {
        (Phase::Done, _) => (Phase::Done, Action::Nothing),
        (Phase::Failed, _) => (Phase::Failed, Action::Nothing),
        (_, Event::Fatal) => (Phase::Failed, Action::ReportFailure),
        (Phase::Init, Event::PlatformDetected) => (Phase::PlatformDetected, Action::LoadRequirements),
        (Phase::PlatformDetected, Event::RequirementsLoaded(n)) => if n == 0 {
            (Phase::AllDownloaded, Action::RunOfflineInstall)
        } else {
            (Phase::Downloading { index: 0, total: n }, Action::StartDownload(0))
        },
        (Phase::Downloading { index, total }, Event::DownloadSucceeded) => if index + 1 < total {
            (
                Phase::Downloading { index: (index + 1) as usize, total },
                Action::StartDownload((index + 1) as usize),
            )
        } else {
            (Phase::AllDownloaded, Action::RunOfflineInstall)
        },
        (Phase::Downloading { index, total }, Event::DownloadFailed) => (
            Phase::AwaitingDecision { index, total },
            Action::AskRetry(index),
        ),
        (Phase::AwaitingDecision { index, total }, Event::Retry) => (
            Phase::Downloading { index, total },
            Action::StartDownload(index),
        ),
        (Phase::AwaitingDecision { .. }, Event::Abandon) => (Phase::Failed, Action::ReportFailure),
        (Phase::AllDownloaded, Event::Installed) => (Phase::OfflineInstalled, Action::ApplyPatches),
        (Phase::OfflineInstalled, Event::PatchesApplied) => (Phase::Done, Action::ReportDone),
        _ => (p, Action::Nothing),
    }
}

/// Advances the state machine by one event. Events that do not fit the
/// current phase are ignored; `Done` and `Failed` ignore everything.
pub fn step(p: Phase, e: Event) -> (r: (Phase, Action))
    requires
        phase_wf(p),
    ensures
        r == transition(p, e),
        phase_wf(r.0),
{
    match (p, e) {
        (Phase::Done, _) => (Phase::Done, Action::Nothing),
        (Phase::Failed, _) => (Phase::Failed, Action::Nothing),
        (_, Event::Fatal) => (Phase::Failed, Action::ReportFailure),
        (Phase::Init, Event::PlatformDetected) => (Phase::PlatformDetected, Action::LoadRequirements),
        (Phase::PlatformDetected, Event::RequirementsLoaded(n)) => {
            if n == 0 {
                (Phase::AllDownloaded, Action::RunOfflineInstall)
            } else {
                (Phase::Downloading { index: 0, total: n }, Action::StartDownload(0))
            }
        },
        (Phase::Downloading { index, total }, Event::DownloadSucceeded) => {
            if index + 1 < total {
                (Phase::Downloading { index: index + 1, total }, Action::StartDownload(index + 1))
            } else {
                (Phase::AllDownloaded, Action::RunOfflineInstall)
            }
        },
        (Phase::Downloading { index, total }, Event::DownloadFailed) => (
            Phase::AwaitingDecision { index, total },
            Action::AskRetry(index),
        ),
        (Phase::AwaitingDecision { index, total }, Event::Retry) => (
            Phase::Downloading { index, total },
            Action::StartDownload(index),
        ),
        (Phase::AwaitingDecision { .. }, Event::Abandon) => (Phase::Failed, Action::ReportFailure),
        (Phase::AllDownloaded, Event::Installed) => (Phase::OfflineInstalled, Action::ApplyPatches),
        (Phase::OfflineInstalled, Event::PatchesApplied) => (Phase::Done, Action::ReportDone),
        _ => (p, Action::Nothing),
    }
}

/// Whether `e` in phase `p` may start artifact `j`: artifact 0 once the
/// requirements are loaded, artifact `j > 0` right after artifact `j - 1`
/// reported success, or the artifact whose failure the user chose to retry.
pub open spec fn may_start(p: Phase, e: Event, j: usize) -> bool {
    ||| (j == 0 && p == Phase::PlatformDetected && e is RequirementsLoaded)
    ||| (e == Event::DownloadSucceeded && (p matches Phase::Downloading { index, total } && index
        + 1 == j && j < total))
    ||| (e == Event::Retry && (p matches Phase::AwaitingDecision { index, total } && index == j))
}

/// Downloads are strictly sequential: the engine never starts an artifact
/// but in the situations `may_start` lists, so artifact `i + 1` never starts
/// before artifact `i` has reported success.
pub proof fn lemma_downloads_sequential(p: Phase, e: Event, j: usize)
    requires
        phase_wf(p),
        transition(p, e).1 == Action::StartDownload(j),
    ensures
        may_start(p, e, j),
{
}

/// A failed download at index `i` in a run of `n`.
pub open spec fn failed_at(i: usize, n: usize) -> Phase {
    Phase::AwaitingDecision { index: i, total: n }
}

/// A download in flight at index `i` in a run of `n`.
pub open spec fn downloading_at(i: usize, n: usize) -> Phase {
    Phase::Downloading { index: i, total: n }
}

/// After a failure of artifact `i`, a retry fetches artifact `i` again; giving
/// up ends the run in `Failed`, from which no download ever starts again.
pub proof fn lemma_retry_or_abandon(i: usize, n: usize, e: Event)
    requires
        i < n,
    ensures
        transition(downloading_at(i, n), Event::DownloadFailed) == (failed_at(i, n), Action::AskRetry(i)),
        transition(failed_at(i, n), Event::Retry) == (downloading_at(i, n), Action::StartDownload(i)),
        transition(failed_at(i, n), Event::Abandon) == (Phase::Failed, Action::ReportFailure),
        transition(Phase::Failed, e) == (Phase::Failed, Action::Nothing),
{
}

/// `Done` is terminal: every later event is ignored.
pub proof fn lemma_done_is_terminal(e: Event)
    ensures
        transition(Phase::Done, e) == (Phase::Done, Action::Nothing),
{
}

/// What follows one attempt at fetching an artifact from a mirror.
#[derive(Clone, Copy, PartialEq, Eq, Structural, Debug)]
pub enum MirrorStep {
    /// The artifact is in the cache.
    Fetched,
    /// Try the mirror at this position next.
    TryMirror(usize),
    /// Every mirror failed.
    Exhausted,
}

/// Mirrors are tried in configured order and the first success wins: after
/// the attempt at position `tried` of `count` mirrors, either the artifact
/// is fetched, the next mirror is tried, or none is left.
pub fn after_mirror_attempt(tried: usize, count: usize, succeeded: bool) -> (r: MirrorStep)
    requires
        tried < count,
    ensures
        succeeded ==> r == MirrorStep::Fetched,
        !succeeded && tried + 1 < count ==> r == MirrorStep::TryMirror((tried + 1) as usize),
        !succeeded && tried + 1 == count ==> r == MirrorStep::Exhausted,
{
    if succeeded {
        MirrorStep::Fetched
    } else if tried + 1 < count {
        MirrorStep::TryMirror(tried + 1)
    } else {
        MirrorStep::Exhausted
    }
}

/// Mutable state of a provisioning run: the installation, the requirement
/// list once loaded, and the current phase.
pub struct ProvisioningSession {
    installer: Installer,
    requirements: Vec<Requirement>,
    phase: Phase,
}

impl ProvisioningSession {
    pub closed spec fn spec_phase(&self) -> Phase {
        self.phase
    }

    pub closed spec fn spec_requirements(&self) -> Seq<Requirement> {
        self.requirements@
    }

    pub closed spec fn spec_installer(&self) -> Installer {
        self.installer
    }

    /// The requirement list, once loaded, is what the download indices
    /// refer to.
    pub open spec fn wf(&self) -> bool {
        &&& phase_wf(self.spec_phase())
        &&& match self.spec_phase() {
            Phase::Downloading { total, .. } => total == self.spec_requirements().len(),
            Phase::AwaitingDecision { total, .. } => total == self.spec_requirements().len(),
            _ => true,
        }
    }

    pub fn new(installer: Installer) -> (r: ProvisioningSession)
        ensures
            r.wf(),
            r.spec_phase() == Phase::Init,
            r.spec_installer() == installer,
            r.spec_requirements().len() == 0,
    {
        ProvisioningSession { installer, requirements: Vec::new(), phase: Phase::Init }
    }

    pub fn phase(&self) -> (r: Phase)
        ensures
            r == self.spec_phase(),
    {
        self.phase
    }

    pub fn installer(&self) -> (r: &Installer)
        ensures
            *r == self.spec_installer(),
    {
        &self.installer
    }

    pub fn installer_mut(&mut self) -> (r: &mut Installer)
        ensures
            *r == old(self).spec_installer(),
            final(self).spec_phase() == old(self).spec_phase(),
            final(self).spec_requirements() == old(self).spec_requirements(),
            final(self).spec_installer() == *final(r),
    {
        &mut self.installer
    }

    pub fn requirements(&self) -> (r: &Vec<Requirement>)
        ensures
            r@ == self.spec_requirements(),
    {
        &self.requirements
    }

    /// The requirement that a `StartDownload(index)` or `AskRetry(index)`
    /// refers to.
    pub fn requirement(&self, index: usize) -> (r: &Requirement)
        requires
            index < self.spec_requirements().len(),
        ensures
            *r == self.spec_requirements()[index as int],
    {
        &self.requirements[index]
    }

    /// Feeds an event to the state machine. The requirement list is kept
    /// unchanged, so a retried index names the same requirement.
    pub fn handle(&mut self, event: Event) -> (r: Action)
        requires
            old(self).wf(),
            !(event is RequirementsLoaded),
        ensures
            final(self).wf(),
            (final(self).spec_phase(), r) == transition(old(self).spec_phase(), event),
            final(self).spec_requirements() == old(self).spec_requirements(),
            final(self).spec_installer() == old(self).spec_installer(),
    {
        let (phase, action) = step(self.phase, event);
        self.phase = phase;
        action
    }

    /// Hands the parsed requirement list to the session. It is stored only
    /// when the session was waiting for it.
    pub fn load_requirements(&mut self, requirements: Vec<Requirement>) -> (r: Action)
        requires
            old(self).wf(),
        ensures
            final(self).wf(),
            (final(self).spec_phase(), r) == transition(
                old(self).spec_phase(),
                Event::RequirementsLoaded(requirements@.len() as usize),
            ),
            old(self).spec_phase() == Phase::PlatformDetected ==> final(self).spec_requirements()
                == requirements@,
            old(self).spec_phase() != Phase::PlatformDetected ==> final(self).spec_requirements()
                == old(self).spec_requirements(),
            final(self).spec_installer() == old(self).spec_installer(),
    {
        let n = requirements.len();
        let (phase, action) = step(self.phase, Event::RequirementsLoaded(n));
        if self.phase == Phase::PlatformDetected {
            self.requirements = requirements;
        }
        self.phase = phase;
        action
    }
}

} // verus!
