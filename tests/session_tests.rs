use tgba_installer::installer::Installer;
use tgba_installer::requirements::collect_requirements;
use tgba_installer::session::{after_mirror_attempt, step, Action, Event, MirrorStep, Phase, ProvisioningSession};

#[test]
fn three_requirements_with_one_retry() {
    let mut phase = Phase::Init;
    let mut attempts: Vec<usize> = Vec::new();
    let mut failed_once = false;
    let (p, a) = step(phase, Event::PlatformDetected);
    phase = p;
    assert_eq!(a, Action::LoadRequirements);
    let (p, mut action) = step(phase, Event::RequirementsLoaded(3));
    phase = p;
    loop {
        match action {
            Action::StartDownload(i) => {
                attempts.push(i);
                let event = if i == 1 && !failed_once {
                    failed_once = true;
                    Event::DownloadFailed
                } else {
                    Event::DownloadSucceeded
                };
                let (p, a) = step(phase, event);
                phase = p;
                action = a;
            }
            Action::AskRetry(i) => {
                assert_eq!(i, 1);
                let (p, a) = step(phase, Event::Retry);
                phase = p;
                action = a;
            }
            Action::RunOfflineInstall => {
                let (p, a) = step(phase, Event::Installed);
                phase = p;
                action = a;
            }
            Action::ApplyPatches => {
                let (p, a) = step(phase, Event::PatchesApplied);
                phase = p;
                action = a;
            }
            Action::ReportDone => break,
            other => panic!("unexpected action {:?}", other),
        }
    }
    assert_eq!(attempts, vec![0, 1, 1, 2]);
    assert_eq!(phase, Phase::Done);
}

#[test]
fn abandon_fails_the_run() {
    let (p, _) = step(Phase::Downloading { index: 1, total: 3 }, Event::DownloadFailed);
    assert_eq!(p, Phase::AwaitingDecision { index: 1, total: 3 });
    let (p, a) = step(p, Event::Abandon);
    assert_eq!(p, Phase::Failed);
    assert_eq!(a, Action::ReportFailure);
    let (p, a) = step(p, Event::Retry);
    assert_eq!(p, Phase::Failed);
    assert_eq!(a, Action::Nothing);
}

#[test]
fn retry_targets_same_index() {
    let (p, a) = step(Phase::AwaitingDecision { index: 2, total: 5 }, Event::Retry);
    assert_eq!(p, Phase::Downloading { index: 2, total: 5 });
    assert_eq!(a, Action::StartDownload(2));
}

#[test]
fn done_ignores_further_events() {
    for e in [Event::Retry, Event::Fatal, Event::DownloadSucceeded, Event::PlatformDetected] {
        assert_eq!(step(Phase::Done, e), (Phase::Done, Action::Nothing));
    }
}

#[test]
fn empty_list_goes_straight_to_install() {
    assert_eq!(
        step(Phase::PlatformDetected, Event::RequirementsLoaded(0)),
        (Phase::AllDownloaded, Action::RunOfflineInstall)
    );
}

#[test]
fn fatal_error_fails_from_any_live_phase() {
    for p in [Phase::Init, Phase::PlatformDetected, Phase::AllDownloaded, Phase::OfflineInstalled] {
        assert_eq!(step(p, Event::Fatal), (Phase::Failed, Action::ReportFailure));
    }
}

#[test]
fn out_of_place_event_is_ignored() {
    assert_eq!(step(Phase::Init, Event::Installed), (Phase::Init, Action::Nothing));
}

#[test]
fn session_keeps_requirements_across_retry() {
    let mut session = ProvisioningSession::new(Installer::new("C:/tgba"));
    assert_eq!(session.handle(Event::PlatformDetected), Action::LoadRequirements);
    let reqs = collect_requirements(&vec!["numpy==1.24.4".to_string()]).ok().unwrap();
    assert_eq!(session.load_requirements(reqs), Action::StartDownload(0));
    assert_eq!(session.handle(Event::DownloadFailed), Action::AskRetry(0));
    assert_eq!(session.handle(Event::Retry), Action::StartDownload(0));
    assert_eq!(session.requirement(0).name(), "numpy");
    assert_eq!(session.requirements().len(), 3);
    assert_eq!(session.handle(Event::DownloadSucceeded), Action::StartDownload(1));
    assert_eq!(session.requirement(1).name(), "setuptools");
    assert_eq!(session.phase(), Phase::Downloading { index: 1, total: 3 });
}

#[test]
fn mirrors_are_tried_in_order() {
    assert_eq!(after_mirror_attempt(0, 2, true), MirrorStep::Fetched);
    assert_eq!(after_mirror_attempt(0, 2, false), MirrorStep::TryMirror(1));
    assert_eq!(after_mirror_attempt(1, 2, false), MirrorStep::Exhausted);
}
