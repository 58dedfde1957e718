use xi_launcher::check_game::{MarkerRead, Part, VersionInfo, VersionsInfo};
use xi_launcher::config::profiles::{InstallConfigError, Profile};
use xi_launcher::path::LocalPath;
use xi_launcher::tasks::update::{
    update_with_versions, UpdateAction, UpdateEvent, UpdatePhase, UpdateTask, UpdateTaskMessage,
};

fn shown(actions: &Vec<UpdateAction>) -> String {
    format!("{:?}", actions)
}

fn path(root: &str, parts: &[&str]) -> LocalPath {
    LocalPath { root: root.to_string(), parts: parts.iter().map(|p| p.to_string()).collect() }
}

fn profile() -> Profile {
    let mut profile = Profile::default();
    profile.server = Some("srv".to_string());
    profile.install.ashita_directory = Some(LocalPath::new("A"));
    profile
}

fn info(url: &str, version: &str) -> Option<VersionInfo> {
    Some(VersionInfo { url: url.to_string(), version: version.to_string() })
}

fn send(message: UpdateTaskMessage) -> UpdateAction {
    UpdateAction::Send(message)
}

fn messages(actions: &Vec<UpdateAction>) -> Vec<UpdateTaskMessage> {
    actions
        .iter()
        .filter_map(|a| match a {
            UpdateAction::Send(m) => Some(*m),
            _ => None,
        })
        .collect()
}

fn start(versions: VersionsInfo) -> (UpdateTask, Vec<UpdateAction>) {
    update_with_versions(&profile(), versions).unwrap()
}

#[test]
fn bootloader_only_update_writes_marker_after_download() {
    let manifest = VersionsInfo { bootloader: info("http://x/boot.zip", "2"), dats: None };
    let (mut task, first) = start(manifest);
    let boot_dir = path("A", &["bootloader/srv"]);
    let marker = path("A", &["bootloader/srv", "version.txt"]);
    let asset = path("A", &["bootloader/srv", "xiloader.exe"]);
    assert_eq!(shown(&first), shown(&vec![UpdateAction::ReadMarker { path: marker.clone() }]));

    let mut all = messages(&first);
    let step = task.step(UpdateEvent::Marker(MarkerRead::Absent));
    assert_eq!(shown(&step), shown(&vec![UpdateAction::CreateDirAll { path: boot_dir }]));
    all.extend(messages(&step));

    let step = task.step(UpdateEvent::Succeeded);
    assert_eq!(
        shown(&step),
        shown(&vec![
            send(UpdateTaskMessage::DownloadPending { id: Part::Bootloader }),
            UpdateAction::Download { url: "http://x/boot.zip".to_string(), path: asset },
        ])
    );
    all.extend(messages(&step));

    let step = task.step(UpdateEvent::Started { content_length: Some(300) });
    assert_eq!(
        shown(&step),
        shown(&vec![send(UpdateTaskMessage::DownloadStarted {
            id: Part::Bootloader,
            content_length: 300
        })])
    );
    all.extend(messages(&step));

    let step = task.step(UpdateEvent::Chunk { length: 100 });
    all.extend(messages(&step));
    let step = task.step(UpdateEvent::Chunk { length: 200 });
    assert_eq!(
        shown(&step),
        shown(&vec![send(UpdateTaskMessage::DownloadProgress {
            id: Part::Bootloader,
            finished_length: 300
        })])
    );
    all.extend(messages(&step));

    let step = task.step(UpdateEvent::StreamEnded);
    assert_eq!(
        shown(&step),
        shown(&vec![
            send(UpdateTaskMessage::DownloadFinished { id: Part::Bootloader }),
            UpdateAction::WriteMarker { path: marker, version: "2".to_string() },
        ])
    );
    all.extend(messages(&step));
    assert!(!task.is_finished());

    let step = task.step(UpdateEvent::Succeeded);
    assert_eq!(shown(&step), shown(&vec![send(UpdateTaskMessage::Done)]));
    all.extend(messages(&step));
    assert!(task.is_finished());

    assert_eq!(
        all,
        vec![
            UpdateTaskMessage::DownloadPending { id: Part::Bootloader },
            UpdateTaskMessage::DownloadStarted { id: Part::Bootloader, content_length: 300 },
            UpdateTaskMessage::DownloadProgress { id: Part::Bootloader, finished_length: 100 },
            UpdateTaskMessage::DownloadProgress { id: Part::Bootloader, finished_length: 300 },
            UpdateTaskMessage::DownloadFinished { id: Part::Bootloader },
            UpdateTaskMessage::Done,
        ]
    );
    assert!(task.step(UpdateEvent::Succeeded).is_empty());
    assert!(task.step(UpdateEvent::Chunk { length: 1 }).is_empty());
}

#[test]
fn download_without_progress_still_finishes() {
    let manifest = VersionsInfo { bootloader: info("http://x/boot.zip", "2"), dats: None };
    let (mut task, _) = start(manifest);
    task.step(UpdateEvent::Marker(MarkerRead::Absent));
    task.step(UpdateEvent::Succeeded);
    let started = task.step(UpdateEvent::Started { content_length: None });
    assert_eq!(
        shown(&started),
        shown(&vec![send(UpdateTaskMessage::DownloadStarted {
            id: Part::Bootloader,
            content_length: 0
        })])
    );
    let ended = task.step(UpdateEvent::StreamEnded);
    assert_eq!(ended.len(), 2);
    let done = task.step(UpdateEvent::Succeeded);
    assert_eq!(shown(&done), shown(&vec![send(UpdateTaskMessage::Done)]));
}

#[test]
fn up_to_date_parts_are_left_alone() {
    let manifest = VersionsInfo { bootloader: info("b", "2"), dats: info("d", "9") };
    let (mut task, first) = start(manifest);
    assert_eq!(first.len(), 1);
    let step = task.step(UpdateEvent::Marker(MarkerRead::Contents("2".to_string())));
    assert_eq!(
        shown(&step),
        shown(&vec![UpdateAction::ReadMarker {
            path: path("A", &["polplugins/DATs/srv", "version.txt"])
        }])
    );
    let step = task.step(UpdateEvent::Marker(MarkerRead::Contents("9".to_string())));
    assert_eq!(shown(&step), shown(&vec![send(UpdateTaskMessage::Done)]));
    assert!(task.is_finished());
}

#[test]
fn nothing_published_is_done_at_once() {
    let (task, first) = start(VersionsInfo { bootloader: None, dats: None });
    assert_eq!(shown(&first), shown(&vec![send(UpdateTaskMessage::Done)]));
    assert!(task.is_finished());
}

#[test]
fn dats_are_unpacked_before_the_marker_is_written() {
    let manifest = VersionsInfo { bootloader: None, dats: info("http://x/dats.7z", "9") };
    let (mut task, first) = start(manifest);
    let dir = path("A", &["polplugins/DATs/srv"]);
    let marker = path("A", &["polplugins/DATs/srv", "version.txt"]);
    let archive = path("A", &["polplugins/DATs/srv", "dats.7z"]);
    assert_eq!(shown(&first), shown(&vec![UpdateAction::ReadMarker { path: marker.clone() }]));

    let step = task.step(UpdateEvent::Marker(MarkerRead::Unreadable));
    assert_eq!(
        shown(&step),
        shown(&vec![
            UpdateAction::RemoveDirAll { path: dir.clone() },
            UpdateAction::CreateDirAll { path: dir.clone() },
        ])
    );
    let step = task.step(UpdateEvent::Succeeded);
    assert_eq!(
        shown(&step),
        shown(&vec![
            send(UpdateTaskMessage::DownloadPending { id: Part::Dats }),
            UpdateAction::Download { url: "http://x/dats.7z".to_string(), path: archive.clone() },
        ])
    );
    task.step(UpdateEvent::Started { content_length: Some(5) });
    task.step(UpdateEvent::Chunk { length: 5 });
    let step = task.step(UpdateEvent::StreamEnded);
    assert_eq!(
        shown(&step),
        shown(&vec![
            send(UpdateTaskMessage::DownloadFinished { id: Part::Dats }),
            send(UpdateTaskMessage::UnpackPending { id: Part::Dats }),
            UpdateAction::Unpack { archive: archive.clone(), into: dir },
        ])
    );
    assert_eq!(task.phase, UpdatePhase::Unpacking);
    let step = task.step(UpdateEvent::Succeeded);
    assert_eq!(
        shown(&step),
        shown(&vec![
            send(UpdateTaskMessage::UnpackFinished { id: Part::Dats }),
            UpdateAction::RemoveFile { path: archive },
            UpdateAction::WriteMarker { path: marker, version: "9".to_string() },
        ])
    );
    let step = task.step(UpdateEvent::Succeeded);
    assert_eq!(shown(&step), shown(&vec![send(UpdateTaskMessage::Done)]));
}

#[test]
fn failed_bootloader_does_not_stop_the_dats() {
    let manifest = VersionsInfo { bootloader: info("b", "2"), dats: info("d", "9") };
    let (mut task, _) = start(manifest);
    task.step(UpdateEvent::Marker(MarkerRead::Absent));
    task.step(UpdateEvent::Succeeded);
    task.step(UpdateEvent::Started { content_length: None });
    task.step(UpdateEvent::Chunk { length: 10 });
    let step = task.step(UpdateEvent::Failed);
    assert_eq!(
        shown(&step),
        shown(&vec![
            send(UpdateTaskMessage::FailedSpecific { id: Part::Bootloader }),
            UpdateAction::ReadMarker { path: path("A", &["polplugins/DATs/srv", "version.txt"]) },
        ])
    );
    assert_eq!(task.phase, UpdatePhase::Marker(Part::Dats));
    task.step(UpdateEvent::Marker(MarkerRead::Absent));
    task.step(UpdateEvent::Succeeded);
    task.step(UpdateEvent::Started { content_length: None });
    task.step(UpdateEvent::StreamEnded);
    let step = task.step(UpdateEvent::Failed);
    assert_eq!(
        shown(&step),
        shown(&vec![
            send(UpdateTaskMessage::FailedSpecific { id: Part::Dats }),
            send(UpdateTaskMessage::Done),
        ])
    );
    assert!(task.is_finished());
}

#[test]
fn failures_at_every_stage_write_no_marker() {
    let failing_points = [1usize, 2, 3, 4];
    for point in failing_points {
        let manifest = VersionsInfo { bootloader: info("b", "2"), dats: None };
        let (mut task, _) = start(manifest);
        let script = [
            UpdateEvent::Marker(MarkerRead::Absent),
            UpdateEvent::Succeeded,
            UpdateEvent::Started { content_length: None },
            UpdateEvent::Chunk { length: 1 },
        ];
        let mut all: Vec<UpdateAction> = Vec::new();
        for (i, event) in script.into_iter().enumerate() {
            if i == point {
                break;
            }
            all.extend(task.step(event));
        }
        all.extend(task.step(UpdateEvent::Failed));
        assert!(task.is_finished());
        assert!(!all.iter().any(|a| matches!(a, UpdateAction::WriteMarker { .. })));
        let sent = messages(&all);
        assert_eq!(sent.last(), Some(&UpdateTaskMessage::Done));
        assert_eq!(
            sent[sent.len() - 2],
            UpdateTaskMessage::FailedSpecific { id: Part::Bootloader }
        );
    }
}

#[test]
fn progress_count_stops_at_the_greatest_count() {
    let manifest = VersionsInfo { bootloader: info("b", "2"), dats: None };
    let (mut task, _) = start(manifest);
    task.step(UpdateEvent::Marker(MarkerRead::Absent));
    task.step(UpdateEvent::Succeeded);
    task.step(UpdateEvent::Started { content_length: None });
    task.step(UpdateEvent::Chunk { length: u64::MAX - 1 });
    let step = task.step(UpdateEvent::Chunk { length: 5 });
    assert_eq!(
        shown(&step),
        shown(&vec![send(UpdateTaskMessage::DownloadProgress {
            id: Part::Bootloader,
            finished_length: u64::MAX
        })])
    );
}

#[test]
fn unexpected_events_change_nothing() {
    let manifest = VersionsInfo { bootloader: info("b", "2"), dats: None };
    let (mut task, _) = start(manifest);
    assert!(task.step(UpdateEvent::Succeeded).is_empty());
    assert!(task.step(UpdateEvent::StreamEnded).is_empty());
    assert!(task.step(UpdateEvent::Chunk { length: 3 }).is_empty());
    assert_eq!(task.phase, UpdatePhase::Marker(Part::Bootloader));
    assert_eq!(task.finished_length, 0);
}

#[test]
fn update_needs_a_mod_loader_directory() {
    let manifest = VersionsInfo { bootloader: info("b", "2"), dats: None };
    let result = update_with_versions(&Profile::default(), manifest);
    assert_eq!(result.err(), Some(InstallConfigError::MissingAshitaDirectory));
}

#[test]
fn places_of_a_task() {
    let manifest = VersionsInfo { bootloader: info("b", "2"), dats: None };
    let (task, _) = start(manifest);
    assert_eq!(format!("{:?}", task.part_dir(Part::Dats)), format!("{:?}", path("A", &["polplugins/DATs/srv"])));
    assert_eq!(
        format!("{:?}", task.marker_path(Part::Bootloader)),
        format!("{:?}", path("A", &["bootloader/srv", "version.txt"]))
    );
    assert_eq!(
        format!("{:?}", task.asset_path(Part::Dats)),
        format!("{:?}", path("A", &["polplugins/DATs/srv", "dats.7z"]))
    );
}
