use xi_launcher::file_download::{
    download_files, stream_response_to_file, Download, DownloadAction, DownloadEvent,
    DownloadMessage, DownloadOutcome, DownloadPhase, DownloadTarget, FileDownloadMessage,
    StreamAction, StreamEvent, StreamPhase,
};
use xi_launcher::path::LocalPath;

fn shown(actions: &Vec<DownloadAction>) -> String {
    format!("{:?}", actions)
}

fn stream_shown(actions: &Vec<StreamAction>) -> String {
    format!("{:?}", actions)
}

fn out(name: &str) -> LocalPath {
    LocalPath { root: "target/temp".to_string(), parts: vec![name.to_string()] }
}

fn send(message: DownloadMessage) -> DownloadAction {
    DownloadAction::Send(message)
}

fn chunk(length: u64, now: u64) -> DownloadEvent {
    DownloadEvent::File { message: FileDownloadMessage::Chunk { chunk_length: length }, now }
}

fn file_done(name: &str) -> DownloadEvent {
    DownloadEvent::File { message: FileDownloadMessage::Done { path: out(name) }, now: 0 }
}

fn response(length: Option<u64>) -> DownloadEvent {
    DownloadEvent::Response { content_length: length, content_disposition: None }
}

fn begin(urls: &[&str]) -> (Download, Vec<DownloadAction>) {
    download_files(urls.iter().map(|u| u.to_string()).collect(), LocalPath::new("target/temp"))
}

fn count_requests(actions: &Vec<DownloadAction>) -> usize {
    actions.iter().filter(|a| matches!(a, DownloadAction::Request { .. })).count()
}

fn count_files_done(actions: &Vec<DownloadAction>) -> usize {
    actions
        .iter()
        .filter(|a| matches!(a, DownloadAction::Send(DownloadMessage::FileDone { .. })))
        .count()
}

#[test]
pub fn test_download() {
    let (mut download, first) =
        begin(&["https://sh.rustup.rs", "https://get.pnpm.io/install.ps1"]);
    assert_eq!(
        shown(&first),
        shown(&vec![DownloadAction::CreateDirAll { path: LocalPath::new("target/temp") }])
    );
    let step = download.step(DownloadEvent::DirectoryCreated);
    assert_eq!(
        shown(&step),
        shown(&vec![
            send(DownloadMessage::GatheringData),
            DownloadAction::ProbeFile { path: out("sh.rustup.rs") },
        ])
    );
    let step = download.step(DownloadEvent::Exists(false));
    assert_eq!(shown(&step), shown(&vec![DownloadAction::ProbeFile { path: out("install.ps1") }]));
    let step = download.step(DownloadEvent::Exists(false));
    assert_eq!(
        shown(&step),
        shown(&vec![DownloadAction::Request { url: "https://sh.rustup.rs".to_string() }])
    );
    let step = download.step(response(Some(1000)));
    assert_eq!(
        shown(&step),
        shown(&vec![DownloadAction::Request {
            url: "https://get.pnpm.io/install.ps1".to_string()
        }])
    );
    let step = download.step(response(None));
    assert_eq!(
        shown(&step),
        shown(&vec![
            send(DownloadMessage::Started { content_length: 1000 }),
            DownloadAction::Stream {
                target: DownloadTarget {
                    url: "https://sh.rustup.rs".to_string(),
                    path: out("sh.rustup.rs")
                }
            },
            DownloadAction::Stream {
                target: DownloadTarget {
                    url: "https://get.pnpm.io/install.ps1".to_string(),
                    path: out("install.ps1")
                }
            },
        ])
    );
    assert_eq!(download.phase, DownloadPhase::Streaming);
    assert_eq!(download.remaining, 2);

    let step = download.step(chunk(400, 10_000));
    assert_eq!(shown(&step), shown(&vec![send(DownloadMessage::Progress { progress_length: 400 })]));
    let step = download.step(chunk(100, 10_100));
    assert!(step.is_empty());
    let step = download.step(chunk(600, 11_000));
    assert_eq!(
        shown(&step),
        shown(&vec![send(DownloadMessage::Progress { progress_length: 1100 })])
    );
    let step = download.step(file_done("install.ps1"));
    assert_eq!(
        shown(&step),
        shown(&vec![send(DownloadMessage::FileDone { path: out("install.ps1") })])
    );
    assert_eq!(download.outcome(), None);
    let step = download.step(file_done("sh.rustup.rs"));
    assert_eq!(
        shown(&step),
        shown(&vec![
            send(DownloadMessage::FileDone { path: out("sh.rustup.rs") }),
            send(DownloadMessage::Done),
        ])
    );
    assert_eq!(download.outcome(), Some(DownloadOutcome::Completed));
    assert_eq!(download.progress_length, 1100);
}

#[test]
fn files_on_disk_are_reported_and_not_requested() {
    let urls = ["http://x/a.bin", "http://x/b.bin", "http://x/c.bin", "http://x/d.bin"];
    let found = [true, false, true, false];
    let (mut download, mut all) = begin(&urls);
    all.extend(download.step(DownloadEvent::DirectoryCreated));
    for exists in found {
        assert_eq!(count_requests(&all), 0);
        all.extend(download.step(DownloadEvent::Exists(exists)));
    }
    assert_eq!(count_files_done(&all), 2);
    assert_eq!(count_requests(&all), 1);
    assert!(matches!(all.last(), Some(DownloadAction::Request { .. })));
    assert_eq!(download.pending, vec!["http://x/b.bin".to_string(), "http://x/d.bin".to_string()]);
    all.extend(download.step(response(Some(5))));
    all.extend(download.step(response(Some(6))));
    assert_eq!(count_requests(&all), 2);
    assert_eq!(count_files_done(&all), 2);
    let requested: Vec<String> = all
        .iter()
        .filter_map(|a| match a {
            DownloadAction::Request { url } => Some(url.clone()),
            _ => None,
        })
        .collect();
    assert_eq!(requested, vec!["http://x/b.bin".to_string(), "http://x/d.bin".to_string()]);
    assert_eq!(download.content_length, 11);
    assert_eq!(download.remaining, 2);
}

#[test]
fn all_files_on_disk_means_done_without_requests() {
    let (mut download, mut all) = begin(&["http://x/a.bin", "http://x/b.bin"]);
    all.extend(download.step(DownloadEvent::DirectoryCreated));
    all.extend(download.step(DownloadEvent::Exists(true)));
    let last = download.step(DownloadEvent::Exists(true));
    assert_eq!(
        shown(&last),
        shown(&vec![
            send(DownloadMessage::FileDone { path: out("b.bin") }),
            send(DownloadMessage::Started { content_length: 0 }),
            send(DownloadMessage::Done),
        ])
    );
    all.extend(last);
    assert_eq!(count_requests(&all), 0);
    assert_eq!(count_files_done(&all), 2);
    assert_eq!(download.outcome(), Some(DownloadOutcome::Completed));
}

#[test]
fn no_urls_is_done_at_once() {
    let (mut download, _) = begin(&[]);
    let step = download.step(DownloadEvent::DirectoryCreated);
    assert_eq!(
        shown(&step),
        shown(&vec![
            send(DownloadMessage::GatheringData),
            send(DownloadMessage::Started { content_length: 0 }),
            send(DownloadMessage::Done),
        ])
    );
    assert_eq!(download.outcome(), Some(DownloadOutcome::Completed));
}

#[test]
fn uncreatable_directory_fails_before_anything_else() {
    let (mut download, _) = begin(&["http://x/a.bin"]);
    let step = download.step(DownloadEvent::DirectoryFailed);
    assert!(step.is_empty());
    assert_eq!(download.outcome(), Some(DownloadOutcome::Failed));
    assert!(download.step(DownloadEvent::DirectoryCreated).is_empty());
}

#[test]
fn header_names_the_stored_file() {
    let (mut download, _) = begin(&["http://x/get?id=1"]);
    download.step(DownloadEvent::DirectoryCreated);
    download.step(DownloadEvent::Exists(false));
    let step = download.step(DownloadEvent::Response {
        content_length: Some(9),
        content_disposition: Some("attachment; filename=\"setup.exe\"".to_string()),
    });
    assert_eq!(
        shown(&step),
        shown(&vec![
            send(DownloadMessage::Started { content_length: 9 }),
            DownloadAction::Stream {
                target: DownloadTarget {
                    url: "http://x/get?id=1".to_string(),
                    path: out("setup.exe")
                }
            },
        ])
    );
}

#[test]
fn progress_never_falls_and_totals_the_chunks() {
    let (mut download, _) = begin(&["http://x/a.bin"]);
    download.step(DownloadEvent::DirectoryCreated);
    download.step(DownloadEvent::Exists(false));
    download.step(response(None));
    let lengths = [10u64, 0, 250, 4096, 1, 70_000];
    let mut reported: Vec<u64> = Vec::new();
    let mut now = 0u64;
    let mut total = 0u64;
    for length in lengths {
        total += length;
        for action in download.step(chunk(length, now)) {
            if let DownloadAction::Send(DownloadMessage::Progress { progress_length }) = action {
                assert_eq!(progress_length, total);
                reported.push(progress_length);
            }
        }
        now += 700;
    }
    assert!(reported.windows(2).all(|w| w[0] <= w[1]));
    assert_eq!(reported, vec![10, 260, 4357]);
    download.step(file_done("a.bin"));
    assert_eq!(download.outcome(), Some(DownloadOutcome::Completed));
    assert_eq!(download.progress_length, total);
    assert_eq!(total, 74_357);
}

#[test]
fn cancelling_mid_download_ends_quietly() {
    let (mut download, _) = begin(&["http://x/a.bin", "http://x/b.bin"]);
    download.step(DownloadEvent::DirectoryCreated);
    download.step(DownloadEvent::Exists(false));
    download.step(DownloadEvent::Exists(false));
    download.step(response(None));
    download.step(response(None));
    download.step(chunk(5, 0));
    let step = download.step(DownloadEvent::Cancelled);
    assert_eq!(shown(&step), shown(&vec![DownloadAction::Shutdown]));
    assert_eq!(download.outcome(), Some(DownloadOutcome::Cancelled));
    assert!(download.step(file_done("a.bin")).is_empty());
    assert!(download.step(file_done("b.bin")).is_empty());
    assert!(download.step(chunk(5, 5000)).is_empty());
    assert_eq!(download.outcome(), Some(DownloadOutcome::Cancelled));
}

#[test]
fn cancelling_before_the_streams_asks_for_nothing() {
    let (mut download, _) = begin(&["http://x/a.bin"]);
    assert!(download.step(DownloadEvent::Cancelled).is_empty());
    assert_eq!(download.outcome(), Some(DownloadOutcome::Cancelled));
    let (mut download, _) = begin(&["http://x/a.bin"]);
    download.step(DownloadEvent::DirectoryCreated);
    assert!(download.step(DownloadEvent::Cancelled).is_empty());
    assert_eq!(download.outcome(), Some(DownloadOutcome::Cancelled));
}

#[test]
fn failed_file_is_removed_and_the_download_fails() {
    let (mut download, _) = begin(&["http://x/a.bin", "http://x/b.bin"]);
    download.step(DownloadEvent::DirectoryCreated);
    download.step(DownloadEvent::Exists(false));
    download.step(DownloadEvent::Exists(false));
    download.step(response(None));
    download.step(response(None));
    let step = download.step(DownloadEvent::File {
        message: FileDownloadMessage::Error { path: out("a.bin"), message: "broken".to_string() },
        now: 3,
    });
    assert_eq!(
        shown(&step),
        shown(&vec![
            DownloadAction::RemoveFile { path: out("a.bin") },
            send(DownloadMessage::Error { message: "broken".to_string() }),
            DownloadAction::Shutdown,
        ])
    );
    assert_eq!(download.outcome(), Some(DownloadOutcome::Failed));
    assert!(download.step(file_done("b.bin")).is_empty());
}

#[test]
fn failed_request_fails_the_download() {
    let (mut download, _) = begin(&["http://x/a.bin"]);
    download.step(DownloadEvent::DirectoryCreated);
    download.step(DownloadEvent::Exists(false));
    let step = download.step(DownloadEvent::RequestFailed { reason: "no route".to_string() });
    assert_eq!(
        shown(&step),
        shown(&vec![send(DownloadMessage::Error { message: "no route".to_string() })])
    );
    assert_eq!(download.outcome(), Some(DownloadOutcome::Failed));
}

#[test]
fn stream_reports_chunks_and_its_end() {
    let (mut stream, first) = stream_response_to_file(out("a.bin"));
    assert_eq!(
        stream_shown(&first),
        stream_shown(&vec![StreamAction::CreateFile { path: out("a.bin") }])
    );
    assert!(stream.stream_response_to_file_result(StreamEvent::Opened).is_empty());
    assert_eq!(stream.phase, StreamPhase::Streaming);
    let step = stream.stream_response_to_file_result(StreamEvent::Chunk { length: 12 });
    assert_eq!(
        stream_shown(&step),
        stream_shown(&vec![StreamAction::Report(FileDownloadMessage::Chunk { chunk_length: 12 })])
    );
    let step = stream.stream_response_to_file_result(StreamEvent::EndOfStream);
    assert_eq!(
        stream_shown(&step),
        stream_shown(&vec![StreamAction::Report(FileDownloadMessage::Done { path: out("a.bin") })])
    );
    assert_eq!(stream.phase, StreamPhase::Closed);
    assert!(stream.stream_response_to_file_result(StreamEvent::Chunk { length: 1 }).is_empty());
}

#[test]
fn cancelled_stream_removes_its_file_without_a_word() {
    let (mut stream, _) = stream_response_to_file(out("a.bin"));
    stream.stream_response_to_file_result(StreamEvent::Opened);
    stream.stream_response_to_file_result(StreamEvent::Chunk { length: 12 });
    let step = stream.stream_response_to_file_result(StreamEvent::Cancelled);
    assert_eq!(
        stream_shown(&step),
        stream_shown(&vec![StreamAction::RemoveFile { path: out("a.bin") }])
    );
    assert_eq!(stream.phase, StreamPhase::Closed);
    assert!(stream.stream_response_to_file_result(StreamEvent::EndOfStream).is_empty());

    let (mut unopened, _) = stream_response_to_file(out("b.bin"));
    let step = unopened.stream_response_to_file_result(StreamEvent::Cancelled);
    assert_eq!(
        stream_shown(&step),
        stream_shown(&vec![StreamAction::RemoveFile { path: out("b.bin") }])
    );
}

#[test]
fn failed_stream_reports_where_and_why() {
    let (mut stream, _) = stream_response_to_file(out("a.bin"));
    stream.stream_response_to_file_result(StreamEvent::Opened);
    let step =
        stream.stream_response_to_file_result(StreamEvent::Failed { reason: "disk full".to_string() });
    assert_eq!(
        stream_shown(&step),
        stream_shown(&vec![StreamAction::Report(FileDownloadMessage::Error {
            path: out("a.bin"),
            message: "Error while downloading to file 'target/temp/a.bin': disk full".to_string(),
        })])
    );
    assert_eq!(stream.phase, StreamPhase::Closed);
    assert_eq!(
        stream.failure_message("x"),
        "Error while downloading to file 'target/temp/a.bin': x"
    );
}
