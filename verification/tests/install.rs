use xi_launcher::check_game::FileInstallConfig;
use xi_launcher::file_download::DownloadMessage;
use xi_launcher::path::LocalPath;
use xi_launcher::tasks::install::{
    has_installer, installer_arguments, urls_of, InstallAction, InstallEvent, InstallOutcome,
    InstallPhase, InstallTask, InstallTaskProgress,
};

fn shown(actions: &Vec<InstallAction>) -> String {
    format!("{:?}", actions)
}

fn files(urls: &[&str]) -> Vec<FileInstallConfig> {
    urls.iter().map(|u| FileInstallConfig { url: u.to_string() }).collect()
}

fn say(message: InstallTaskProgress) -> InstallAction {
    InstallAction::Send(message)
}

fn game_path() -> LocalPath {
    LocalPath { root: "G".to_string(), parts: vec!["FINAL FANTASY XI".to_string()] }
}

fn downloaded(name: &str) -> LocalPath {
    LocalPath { root: "G".to_string(), parts: vec!["downloads".to_string(), name.to_string()] }
}

fn start(urls: &[&str]) -> (InstallTask, Vec<InstallAction>) {
    InstallTask::start(files(urls), LocalPath::new("G").join("downloads"), LocalPath::new("G"))
}

fn told(message: DownloadMessage, now: u64, extension: Option<&str>) -> InstallEvent {
    InstallEvent::Download { message, now, extension: extension.map(|e| e.to_string()) }
}

fn messages(actions: &Vec<InstallAction>) -> Vec<String> {
    actions
        .iter()
        .filter_map(|a| match a {
            InstallAction::Send(m) => Some(format!("{:?}", m)),
            _ => None,
        })
        .collect()
}

fn downloading() -> InstallTask {
    let (mut task, _) = start(&["http://x/data.bin", "http://x/setup.exe"]);
    task.execute(InstallEvent::GameFound(false));
    task
}

#[test]
fn installed_game_completes_at_once() {
    let (mut task, first) = start(&["http://x/setup.exe"]);
    assert_eq!(shown(&first), shown(&vec![InstallAction::ProbeGame { path: game_path() }]));
    let step = task.execute(InstallEvent::GameFound(true));
    assert_eq!(shown(&step), shown(&vec![say(InstallTaskProgress::Complete)]));
    assert_eq!(task.outcome(), Some(InstallOutcome::Completed));
    assert!(!first.iter().chain(step.iter()).any(|a| matches!(a, InstallAction::Download { .. })));
    assert!(task.execute(InstallEvent::GameFound(false)).is_empty());
}

#[test]
fn list_without_installer_fails_at_once() {
    let (mut task, _) = start(&["http://x/data.bin", "http://x/readme.txt"]);
    let step = task.execute(InstallEvent::GameFound(false));
    assert_eq!(
        shown(&step),
        shown(&vec![say(InstallTaskProgress::Error(
            "Expected to find an executable installer in the download file URLs, but it was not present."
                .to_string()
        ))])
    );
    assert_eq!(task.outcome(), Some(InstallOutcome::Failed));
    assert!(task.execute(InstallEvent::DownloadClosed).is_empty());
}

#[test]
fn empty_list_fails_at_once() {
    let (mut task, _) = start(&[]);
    let step = task.execute(InstallEvent::GameFound(false));
    assert_eq!(step.len(), 1);
    assert!(matches!(step[0], InstallAction::Send(InstallTaskProgress::Error(_))));
}

#[test]
fn download_is_relayed_and_the_installer_is_run() {
    let (mut task, _) = start(&["http://x/data.bin", "http://x/setup.exe"]);
    let step = task.execute(InstallEvent::GameFound(false));
    assert_eq!(
        shown(&step),
        shown(&vec![
            say(InstallTaskProgress::Pending),
            InstallAction::Download {
                urls: vec!["http://x/data.bin".to_string(), "http://x/setup.exe".to_string()],
                directory: LocalPath::new("G").join("downloads"),
            },
        ])
    );
    assert_eq!(task.phase, InstallPhase::Downloading);
    assert!(task.execute(told(DownloadMessage::GatheringData, 0, None)).is_empty());
    let step = task.execute(told(DownloadMessage::Started { content_length: 50 }, 1, None));
    assert_eq!(shown(&step), shown(&vec![say(InstallTaskProgress::DownloadStarted { content_length: 50 })]));
    let step = task.execute(told(DownloadMessage::Progress { progress_length: 10 }, 2_000, None));
    assert_eq!(
        shown(&step),
        shown(&vec![say(InstallTaskProgress::DownloadProgress { finished_length: 10 })])
    );
    assert!(task
        .execute(told(DownloadMessage::Progress { progress_length: 20 }, 2_500, None))
        .is_empty());
    let step = task.execute(told(DownloadMessage::Progress { progress_length: 30 }, 3_000, None));
    assert_eq!(
        shown(&step),
        shown(&vec![say(InstallTaskProgress::DownloadProgress { finished_length: 30 })])
    );
    assert!(task
        .execute(told(DownloadMessage::FileDone { path: downloaded("data.bin") }, 3_100, Some("bin")))
        .is_empty());
    assert!(task
        .execute(told(DownloadMessage::FileDone { path: downloaded("setup.exe") }, 3_200, Some("exe")))
        .is_empty());
    let step = task.execute(told(DownloadMessage::Done, 3_300, None));
    assert_eq!(
        shown(&step),
        shown(&vec![
            say(InstallTaskProgress::Installing),
            InstallAction::RunInstaller {
                program: downloaded("setup.exe"),
                directory: LocalPath::new("G"),
            },
        ])
    );
    assert_eq!(task.phase, InstallPhase::Installing);
    let step = task.execute(InstallEvent::InstallerExited { success: true });
    assert_eq!(shown(&step), shown(&vec![InstallAction::ProbeGame { path: game_path() }]));
    let step = task.execute(InstallEvent::GameFound(true));
    assert_eq!(shown(&step), shown(&vec![say(InstallTaskProgress::Complete)]));
    assert_eq!(task.outcome(), Some(InstallOutcome::Completed));
}

#[test]
fn failing_installer_is_an_error_and_never_complete() {
    let mut task = downloading();
    let mut all: Vec<InstallAction> = Vec::new();
    all.extend(task.execute(told(
        DownloadMessage::FileDone { path: downloaded("setup.exe") },
        0,
        Some("exe"),
    )));
    all.extend(task.execute(told(DownloadMessage::Done, 0, None)));
    all.extend(task.execute(InstallEvent::InstallerExited { success: false }));
    assert_eq!(
        messages(&all),
        vec![
            format!("{:?}", InstallTaskProgress::Installing),
            format!(
                "{:?}",
                InstallTaskProgress::Error(
                    "Failed to install game using: G/downloads/setup.exe".to_string()
                )
            ),
        ]
    );
    assert!(!all.iter().any(|a| matches!(a, InstallAction::ProbeGame { .. })));
    assert_eq!(task.outcome(), Some(InstallOutcome::Failed));
    all.extend(task.execute(InstallEvent::GameFound(true)));
    assert!(!all.iter().any(|a| matches!(a, InstallAction::Send(InstallTaskProgress::Complete))));
}

#[test]
fn installer_that_installs_nothing_is_an_error() {
    let mut task = downloading();
    task.execute(told(DownloadMessage::FileDone { path: downloaded("setup.exe") }, 0, Some("exe")));
    task.execute(told(DownloadMessage::Done, 0, None));
    task.execute(InstallEvent::InstallerExited { success: true });
    let step = task.execute(InstallEvent::GameFound(false));
    assert_eq!(
        shown(&step),
        shown(&vec![say(InstallTaskProgress::Error(
            "Installed game did not result in a proper game setup.".to_string()
        ))])
    );
    assert_eq!(task.outcome(), Some(InstallOutcome::Failed));
}

#[test]
fn installer_that_cannot_start_is_an_error() {
    let mut task = downloading();
    task.execute(told(DownloadMessage::FileDone { path: downloaded("setup.exe") }, 0, Some("exe")));
    task.execute(told(DownloadMessage::Done, 0, None));
    let step = task.execute(InstallEvent::InstallerFailed { reason: "not permitted".to_string() });
    assert_eq!(
        shown(&step),
        shown(&vec![say(InstallTaskProgress::Error("not permitted".to_string()))])
    );
    assert_eq!(task.outcome(), Some(InstallOutcome::Failed));
}

#[test]
fn download_without_installer_file_is_an_error() {
    let mut task = downloading();
    task.execute(told(DownloadMessage::FileDone { path: downloaded("setup.exe") }, 0, Some("EXE")));
    task.execute(told(DownloadMessage::FileDone { path: downloaded("data.bin") }, 0, None));
    let step = task.execute(told(DownloadMessage::Done, 0, None));
    assert_eq!(
        shown(&step),
        shown(&vec![say(InstallTaskProgress::Error(
            "Expected to find an executable installer in the download files, but it was not present."
                .to_string()
        ))])
    );
    let mut closed = downloading();
    let step = closed.execute(InstallEvent::DownloadClosed);
    assert_eq!(step.len(), 1);
    assert_eq!(closed.outcome(), Some(InstallOutcome::Failed));
}

#[test]
fn download_error_is_fatal() {
    let mut task = downloading();
    let step = task.execute(told(DownloadMessage::Error { message: "broken".to_string() }, 0, None));
    assert_eq!(shown(&step), shown(&vec![say(InstallTaskProgress::Error("broken".to_string()))]));
    assert_eq!(task.outcome(), Some(InstallOutcome::Failed));
    assert!(task.execute(told(DownloadMessage::Done, 0, None)).is_empty());
}

#[test]
fn cancellation_ends_without_a_word() {
    let mut task = downloading();
    assert!(task.execute(InstallEvent::Cancelled).is_empty());
    assert_eq!(task.outcome(), Some(InstallOutcome::Cancelled));
    assert!(task.execute(told(DownloadMessage::Done, 0, None)).is_empty());
    assert!(task.execute(InstallEvent::DownloadClosed).is_empty());

    let (mut early, _) = start(&["http://x/setup.exe"]);
    assert!(early.execute(InstallEvent::Cancelled).is_empty());
    assert_eq!(early.outcome(), Some(InstallOutcome::Cancelled));

    let mut installing = downloading();
    installing.execute(told(
        DownloadMessage::FileDone { path: downloaded("setup.exe") },
        0,
        Some("exe"),
    ));
    installing.execute(told(DownloadMessage::Done, 0, None));
    assert!(installing.execute(InstallEvent::Cancelled).is_empty());
    assert!(installing.execute(InstallEvent::InstallerExited { success: true }).is_empty());
    assert_eq!(installing.outcome(), Some(InstallOutcome::Cancelled));
}

#[test]
fn installer_is_named_by_its_ending() {
    assert!(has_installer(&files(&["http://x/a.bin", "http://x/setup.exe"])));
    assert!(!has_installer(&files(&["http://x/a.bin", "http://x/setup.exe?x=1"])));
    assert!(!has_installer(&files(&[])));
    assert_eq!(urls_of(&files(&["a", "b"])), vec!["a".to_string(), "b".to_string()]);
    assert_eq!(installer_arguments("C:\\Games"), vec!["-oC:\\Games".to_string(), "-y".to_string()]);
}

#[test]
fn install_step_tells_installing_then_its_last_word() {
    let installer = downloaded("setup.exe");
    let failed = InstallTask::install_step(&installer, false, true);
    assert_eq!(
        format!("{:?}", failed),
        format!(
            "{:?}",
            vec![
                InstallTaskProgress::Installing,
                InstallTaskProgress::Error(
                    "Failed to install game using: G/downloads/setup.exe".to_string()
                ),
            ]
        )
    );
    assert_eq!(
        format!("{:?}", InstallTask::install_step(&installer, false, false)),
        format!("{:?}", failed)
    );
    assert_eq!(
        format!("{:?}", InstallTask::install_step(&installer, true, false)),
        format!(
            "{:?}",
            vec![
                InstallTaskProgress::Installing,
                InstallTaskProgress::Error(
                    "Installed game did not result in a proper game setup.".to_string()
                ),
            ]
        )
    );
    assert_eq!(
        format!("{:?}", InstallTask::install_step(&installer, true, true)),
        format!("{:?}", vec![InstallTaskProgress::Installing, InstallTaskProgress::Complete])
    );
}

#[test]
fn install_step_agrees_with_the_task() {
    for (success, found) in [(false, false), (false, true), (true, false), (true, true)] {
        let mut task = downloading();
        task.execute(told(
            DownloadMessage::FileDone { path: downloaded("setup.exe") },
            0,
            Some("exe"),
        ));
        let mut all: Vec<InstallAction> = Vec::new();
        all.extend(task.execute(InstallEvent::DownloadClosed));
        all.extend(task.execute(InstallEvent::InstallerExited { success }));
        all.extend(task.execute(InstallEvent::GameFound(found)));
        let expected: Vec<String> =
            InstallTask::install_step(&downloaded("setup.exe"), success, found)
                .iter()
                .map(|m| format!("{:?}", m))
                .collect();
        assert_eq!(messages(&all), expected);
    }
}
