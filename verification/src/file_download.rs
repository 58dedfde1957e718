//! Downloading a set of files into one directory.
//!
//! Two state machines share the work. A [`FileStream`] looks after one file
//! while its bytes arrive; a [`Download`] looks after the whole set: it finds
//! out which files are on disk already, asks for the others, adds up what
//! arrives and tells whoever watches. Neither acts itself: every step takes
//! what happened outside and answers with the actions to perform, in order.

use crate::path::{LocalPath, PathView};
use crate::progress::{add_capped, capped_sum, ProgressGate};
use crate::text::{
    chars_of, find_char, first_index_of, last_segment, last_segment_start, lemma_push_deep_view,
    range_starts_with, skip_leading, skip_repeated_prefix, skip_trailing, starts_with,
    string_of, strip_repeated_prefix, trim, trim_end_char, trim_range, trim_start_char,
};
use vstd::prelude::*;
use vstd::string::StringExecFns;

verus! {

/// What a download tells whoever watches it.
#[derive(Debug)]
pub enum DownloadMessage {
    GatheringData,
    Started { content_length: u64 },
    Progress { progress_length: u64 },
    FileDone { path: LocalPath },
    Done,
    Error { message: String },
}

/// The mathematical model of a [`DownloadMessage`].
pub enum DownloadMessageView {
    GatheringData,
    Started { content_length: u64 },
    Progress { progress_length: u64 },
    FileDone { path: PathView },
    Done,
    Error { message: Seq<char> },
}

impl View for DownloadMessage {
    type V = DownloadMessageView;

    open spec fn view(&self) -> DownloadMessageView {
        match self {
            DownloadMessage::GatheringData => DownloadMessageView::GatheringData,
            DownloadMessage::Started { content_length } => DownloadMessageView::Started {
                content_length: *content_length,
            },
            DownloadMessage::Progress { progress_length } => DownloadMessageView::Progress {
                progress_length: *progress_length,
            },
            DownloadMessage::FileDone { path } => DownloadMessageView::FileDone { path: path@ },
            DownloadMessage::Done => DownloadMessageView::Done,
            DownloadMessage::Error { message } => DownloadMessageView::Error { message: message@ },
        }
    }
}

impl DeepView for DownloadMessage {
    type V = DownloadMessageView;

    open spec fn deep_view(&self) -> DownloadMessageView {
        self.view()
    }
}

/// What the stream of one file tells the download that it belongs to.
#[derive(Debug)]
pub enum FileDownloadMessage {
    Chunk { chunk_length: u64 },
    Error { path: LocalPath, message: String },
    Done { path: LocalPath },
}

/// The mathematical model of a [`FileDownloadMessage`].
pub enum FileDownloadMessageView {
    Chunk { chunk_length: u64 },
    Error { path: PathView, message: Seq<char> },
    Done { path: PathView },
}

impl View for FileDownloadMessage {
    type V = FileDownloadMessageView;

    open spec fn view(&self) -> FileDownloadMessageView {
        match self {
            FileDownloadMessage::Chunk { chunk_length } => FileDownloadMessageView::Chunk {
                chunk_length: *chunk_length,
            },
            FileDownloadMessage::Error { path, message } => FileDownloadMessageView::Error {
                path: path@,
                message: message@,
            },
            FileDownloadMessage::Done { path } => FileDownloadMessageView::Done { path: path@ },
        }
    }
}

impl DeepView for FileDownloadMessage {
    type V = FileDownloadMessageView;

    open spec fn deep_view(&self) -> FileDownloadMessageView {
        self.view()
    }
}

/// The key that names the file in a `Content-Disposition` header.
pub const FILENAME_KEY: &'static str = "filename=";

/// The file name that one part of a `Content-Disposition` header gives: the
/// part must begin, white space apart, with the key; what follows the key
/// (as often as it is repeated) is the name, without the quotation marks at
/// its two ends.
pub open spec fn part_filename(part: Seq<char>) -> Option<Seq<char>> {
    if starts_with(trim(part), FILENAME_KEY@) {
        Some(
            trim_end_char(
                trim_start_char(strip_repeated_prefix(trim(part), FILENAME_KEY@), '"'),
                '"',
            ),
        )
    } else {
        None
    }
}

/// The file name that a `Content-Disposition` header gives: that of the
/// first of its parts, which `;` separates, that gives one.
pub open spec fn disposition_filename(header: Seq<char>) -> Option<Seq<char>>
    decreases header.len(),
{
    let end = first_index_of(header, ';');
    match part_filename(header.take(end)) {
        Some(name) => Some(name),
        None => if 0 <= end < header.len() {
            disposition_filename(header.skip(end + 1))
        } else {
            None
        },
    }
}

/// The name under which a download is stored: the one that the server's
/// `Content-Disposition` header gives, else the last segment of the address.
pub open spec fn download_filename(content_disposition: Option<Seq<char>>, url: Seq<char>) -> Seq<
    char,
> {
    match content_disposition {
        Some(header) => match disposition_filename(header) {
            Some(name) => name,
            None => last_segment(url, '/'),
        },
        None => last_segment(url, '/'),
    }
}

/// The file name that a `Content-Disposition` header gives, if it gives one.
pub fn filename_from_disposition(header: &str) -> (r: Option<String>)
    ensures
        r.deep_view() == disposition_filename(header@),
{
    let chars = chars_of(header);
    let key = chars_of(FILENAME_KEY);
    let len = chars.len();
    let mut start: usize = 0;
    assert(chars@.skip(0) =~= chars@);
    loop
        invariant
            start <= len,
            len == chars.len(),
            chars@ == header@,
            key@ == FILENAME_KEY@,
            disposition_filename(header@) == disposition_filename(chars@.skip(start as int)),
        decreases len - start,
    {
        let ghost rest = chars@.skip(start as int);
        assert(rest =~= chars@.subrange(start as int, len as int));
        let end = find_char(&chars, start, len, ';');
        assert(rest.take(end - start) =~= chars@.subrange(start as int, end as int));
        let (a, b) = trim_range(&chars, start, end);
        if range_starts_with(&chars, a, b, &key) {
            let c = skip_repeated_prefix(&chars, a, b, &key);
            let d = skip_leading(&chars, c, b, '"');
            let e = skip_trailing(&chars, d, b, '"');
            return Some(string_of(&chars, d, e));
        }
        if end >= len {
            return None;
        }
        assert(rest.skip(end - start + 1) =~= chars@.skip(end + 1));
        start = end + 1;
    }
}

/// The last segment of an address, which names the file it stands for.
pub fn get_filename_from_url(url: &str) -> (r: Option<String>)
    ensures
        r.deep_view() == Some(last_segment(url@, '/')),
{
    let chars = chars_of(url);
    let start = last_segment_start(&chars, '/');
    assert(chars@.skip(start as int) =~= chars@.subrange(start as int, chars.len() as int));
    Some(string_of(&chars, start, chars.len()))
}

/// The name under which a download is stored: the one that the server's
/// `Content-Disposition` header gives, else the last segment of the address.
///
/// `content_disposition` is the header's value where the answer has one that
/// is text.
pub fn get_filename_from_response_or_url(content_disposition: Option<&str>, url: &str) -> (r:
    String)
    ensures
        r@ == download_filename(content_disposition.deep_view(), url@),
{
    let named = match content_disposition {
        Some(header) => filename_from_disposition(header),
        None => None,
    };
    match named {
        Some(name) => name,
        None => match get_filename_from_url(url) {
            Some(name) => name,
            None => "unknown".to_owned(),
        },
    }
}

/// Where the stream of one file stands.
#[derive(Debug, Clone, Copy, PartialEq, Eq, Structural)]
pub enum StreamPhase {
    /// The file is being created.
    Opening,
    /// The file is open and bytes are written to it as they arrive.
    Streaming,
    /// The stream has ended, one way or another.
    Closed,
}

/// The stream of one file.
#[derive(Debug)]
pub struct FileStream {
    pub path: LocalPath,
    pub phase: StreamPhase,
}

/// The mathematical model of a [`FileStream`].
pub struct FileStreamView {
    pub path: PathView,
    pub phase: StreamPhase,
}

impl View for FileStream {
    type V = FileStreamView;

    open spec fn view(&self) -> FileStreamView {
        FileStreamView { path: self.path@, phase: self.phase }
    }
}

/// What happened to the stream of one file.
#[derive(Debug)]
pub enum StreamEvent {
    /// The file was created.
    Opened,
    /// A piece of this many bytes arrived and was written.
    Chunk { length: u64 },
    /// The last piece has been written.
    EndOfStream,
    /// Creating the file, receiving or writing has failed, for this reason.
    Failed { reason: String },
    /// The download was cancelled.
    Cancelled,
}

/// The mathematical model of a [`StreamEvent`].
pub enum StreamEventView {
    Opened,
    Chunk { length: u64 },
    EndOfStream,
    Failed { reason: Seq<char> },
    Cancelled,
}

impl View for StreamEvent {
    type V = StreamEventView;

    open spec fn view(&self) -> StreamEventView {
        match self {
            StreamEvent::Opened => StreamEventView::Opened,
            StreamEvent::Chunk { length } => StreamEventView::Chunk { length: *length },
            StreamEvent::EndOfStream => StreamEventView::EndOfStream,
            StreamEvent::Failed { reason } => StreamEventView::Failed { reason: reason@ },
            StreamEvent::Cancelled => StreamEventView::Cancelled,
        }
    }
}

/// What the stream of one file asks to be done.
#[derive(Debug)]
pub enum StreamAction {
    /// Create the file, empty; answer with `Opened` or `Failed`.
    CreateFile { path: LocalPath },
    /// Hand the message to the download.
    Report(FileDownloadMessage),
    /// Remove the file; a failure is of no concern.
    RemoveFile { path: LocalPath },
}

/// The mathematical model of a [`StreamAction`].
pub enum StreamActionView {
    CreateFile { path: PathView },
    Report(FileDownloadMessageView),
    RemoveFile { path: PathView },
}

impl View for StreamAction {
    type V = StreamActionView;

    open spec fn view(&self) -> StreamActionView {
        match self {
            StreamAction::CreateFile { path } => StreamActionView::CreateFile { path: path@ },
            StreamAction::Report(message) => StreamActionView::Report(message@),
            StreamAction::RemoveFile { path } => StreamActionView::RemoveFile { path: path@ },
        }
    }
}

impl DeepView for StreamAction {
    type V = StreamActionView;

    open spec fn deep_view(&self) -> StreamActionView {
        self.view()
    }
}

/// The words in which the failure of one file's stream is told.
pub open spec fn stream_failure(path: PathView, reason: Seq<char>) -> Seq<char> {
    "Error while downloading to file '"@ + path.text() + "': "@ + reason
}

impl FileStreamView {
    /// One step of the stream: the state after `event`, and the actions to
    /// perform. A stream that is closed takes no notice of anything.
    pub open spec fn step(self, event: StreamEventView) -> (FileStreamView, Seq<StreamActionView>) {
        let closed = FileStreamView { phase: StreamPhase::Closed, ..self };
        match (self.phase, event) {
            (StreamPhase::Closed, _) => (self, Seq::empty()),
            (StreamPhase::Opening, StreamEventView::Opened) => (
                FileStreamView { phase: StreamPhase::Streaming, ..self },
                Seq::empty(),
            ),
            (StreamPhase::Streaming, StreamEventView::Chunk { length }) => (
                self,
                seq![
                    StreamActionView::Report(
                        FileDownloadMessageView::Chunk { chunk_length: length },
                    ),
                ],
            ),
            (StreamPhase::Streaming, StreamEventView::EndOfStream) => (
                closed,
                seq![StreamActionView::Report(FileDownloadMessageView::Done { path: self.path })],
            ),
            (_, StreamEventView::Failed { reason }) => (
                closed,
                seq![
                    StreamActionView::Report(
                        FileDownloadMessageView::Error {
                            path: self.path,
                            message: stream_failure(self.path, reason),
                        },
                    ),
                ],
            ),
            (_, StreamEventView::Cancelled) => (
                closed,
                seq![StreamActionView::RemoveFile { path: self.path }],
            ),
            _ => (self, Seq::empty()),
        }
    }
}

fn one_stream_action(action: StreamAction) -> (actions: Vec<StreamAction>)
    ensures
        actions.deep_view() == seq![action@],
{
    let mut actions: Vec<StreamAction> = Vec::new();
    actions.push(action);
    assert(actions.deep_view() =~= seq![action@]);
    actions
}

fn no_stream_actions() -> (actions: Vec<StreamAction>)
    ensures
        actions.deep_view() == Seq::<StreamActionView>::empty(),
{
    let actions: Vec<StreamAction> = Vec::new();
    assert(actions.deep_view() =~= Seq::<StreamActionView>::empty());
    actions
}

/// Begins the stream of one file: the file is to be created.
pub fn stream_response_to_file(output_path: LocalPath) -> (r: (FileStream, Vec<StreamAction>))
    ensures
        r.0@ == (FileStreamView { path: output_path@, phase: StreamPhase::Opening }),
        r.1.deep_view() == seq![StreamActionView::CreateFile { path: output_path@ }],
{
    let actions = one_stream_action(StreamAction::CreateFile { path: output_path.clone() });
    (FileStream { path: output_path, phase: StreamPhase::Opening }, actions)
}

impl FileStream {
    /// The words in which the failure of this stream is told.
    pub fn failure_message(&self, reason: &str) -> (r: String)
        ensures
            r@ == stream_failure(self.path@, reason@),
    {
        let mut message = "Error while downloading to file '".to_owned();
        message.append(self.path.to_text().as_str());
        message.append("': ");
        message.append(reason);
        message
    }

    /// One step of the stream: takes what happened and returns the actions to
    /// perform, in order.
    pub fn stream_response_to_file_result(&mut self, event: StreamEvent) -> (actions: Vec<
        StreamAction,
    >)
        ensures
            final(self)@ == old(self)@.step(event@).0,
            actions.deep_view() == old(self)@.step(event@).1,
    {
        let phase = self.phase;
        match (phase, event) {
            (StreamPhase::Closed, _) => no_stream_actions(),
            (StreamPhase::Opening, StreamEvent::Opened) => {
                self.phase = StreamPhase::Streaming;
                no_stream_actions()
            },
            (StreamPhase::Streaming, StreamEvent::Chunk { length }) => one_stream_action(
                StreamAction::Report(FileDownloadMessage::Chunk { chunk_length: length }),
            ),
            (StreamPhase::Streaming, StreamEvent::EndOfStream) => {
                self.phase = StreamPhase::Closed;
                one_stream_action(
                    StreamAction::Report(FileDownloadMessage::Done { path: self.path.clone() }),
                )
            },
            (_, StreamEvent::Failed { reason }) => {
                let message = self.failure_message(reason.as_str());
                self.phase = StreamPhase::Closed;
                one_stream_action(
                    StreamAction::Report(
                        FileDownloadMessage::Error { path: self.path.clone(), message },
                    ),
                )
            },
            (_, StreamEvent::Cancelled) => {
                self.phase = StreamPhase::Closed;
                one_stream_action(StreamAction::RemoveFile { path: self.path.clone() })
            },
            _ => no_stream_actions(),
        }
    }
}

/// A file to fetch and the place to store it.
#[derive(Debug)]
pub struct DownloadTarget {
    pub url: String,
    pub path: LocalPath,
}

/// The mathematical model of a [`DownloadTarget`].
pub struct DownloadTargetView {
    pub url: Seq<char>,
    pub path: PathView,
}

impl View for DownloadTarget {
    type V = DownloadTargetView;

    open spec fn view(&self) -> DownloadTargetView {
        DownloadTargetView { url: self.url@, path: self.path@ }
    }
}

impl DeepView for DownloadTarget {
    type V = DownloadTargetView;

    open spec fn deep_view(&self) -> DownloadTargetView {
        self.view()
    }
}

impl Clone for DownloadTarget {
    fn clone(&self) -> (r: Self)
        ensures
            r@ == self@,
    {
        DownloadTarget { url: self.url.clone(), path: self.path.clone() }
    }
}

/// How a download ended.
#[derive(Debug, Clone, Copy, PartialEq, Eq, Structural)]
pub enum DownloadOutcome {
    /// Every file is on disk.
    Completed,
    /// The download was cancelled.
    Cancelled,
    /// The download has failed.
    Failed,
}

/// Where a download stands.
#[derive(Debug, Clone, Copy, PartialEq, Eq, Structural)]
pub enum DownloadPhase {
    /// The directory for the files is being created.
    CreatingDirectory,
    /// The files are looked for on disk, one address after the other.
    Probing,
    /// The files that are not on disk are asked for, one after the other.
    Requesting,
    /// The answers are written to disk as they arrive.
    Streaming,
    /// The download is over.
    Finished(DownloadOutcome),
}

/// What happened outside since the last step of a download.
#[derive(Debug)]
pub enum DownloadEvent {
    /// The directory for the files is there.
    DirectoryCreated,
    /// The directory for the files could not be created.
    DirectoryFailed,
    /// Whether the file asked about is on disk.
    Exists(bool),
    /// The server has answered the request: the length that it announced, and
    /// the value of its `Content-Disposition` header where it sent one that is text.
    Response { content_length: Option<u64>, content_disposition: Option<String> },
    /// The request has failed, for this reason.
    RequestFailed { reason: String },
    /// The stream of one file has told this, at the time `now`, in milliseconds.
    File { message: FileDownloadMessage, now: u64 },
    /// The download was cancelled.
    Cancelled,
}

/// The mathematical model of a [`DownloadEvent`].
pub enum DownloadEventView {
    DirectoryCreated,
    DirectoryFailed,
    Exists(bool),
    Response { content_length: Option<u64>, content_disposition: Option<Seq<char>> },
    RequestFailed { reason: Seq<char> },
    File { message: FileDownloadMessageView, now: u64 },
    Cancelled,
}

impl View for DownloadEvent {
    type V = DownloadEventView;

    open spec fn view(&self) -> DownloadEventView {
        match self {
            DownloadEvent::DirectoryCreated => DownloadEventView::DirectoryCreated,
            DownloadEvent::DirectoryFailed => DownloadEventView::DirectoryFailed,
            DownloadEvent::Exists(exists) => DownloadEventView::Exists(*exists),
            DownloadEvent::Response {
                content_length,
                content_disposition,
            } => DownloadEventView::Response {
                content_length: *content_length,
                content_disposition: content_disposition.deep_view(),
            },
            DownloadEvent::RequestFailed { reason } => DownloadEventView::RequestFailed {
                reason: reason@,
            },
            DownloadEvent::File { message, now } => DownloadEventView::File {
                message: message@,
                now: *now,
            },
            DownloadEvent::Cancelled => DownloadEventView::Cancelled,
        }
    }
}

/// What a download asks to be done.
#[derive(Debug)]
pub enum DownloadAction {
    /// Create the directory and those above it; answer with
    /// `DirectoryCreated` or `DirectoryFailed`.
    CreateDirAll { path: LocalPath },
    /// Find out whether the file is on disk; answer with `Exists`.
    ProbeFile { path: LocalPath },
    /// Ask the server for the file; answer with `Response` or `RequestFailed`.
    Request { url: String },
    /// Let the answer to the target's request be written to the target's
    /// path by a stream of its own; what the stream reports comes back as
    /// `File`.
    Stream { target: DownloadTarget },
    /// Remove the file; a failure is of no concern.
    RemoveFile { path: LocalPath },
    /// Cancel the streams and wait until all of them have ended.
    Shutdown,
    /// Hand the message to whoever watches the download.
    Send(DownloadMessage),
}

/// The mathematical model of a [`DownloadAction`].
pub enum DownloadActionView {
    CreateDirAll { path: PathView },
    ProbeFile { path: PathView },
    Request { url: Seq<char> },
    Stream { target: DownloadTargetView },
    RemoveFile { path: PathView },
    Shutdown,
    Send(DownloadMessageView),
}

impl View for DownloadAction {
    type V = DownloadActionView;

    open spec fn view(&self) -> DownloadActionView {
        match self {
            DownloadAction::CreateDirAll { path } => DownloadActionView::CreateDirAll {
                path: path@,
            },
            DownloadAction::ProbeFile { path } => DownloadActionView::ProbeFile { path: path@ },
            DownloadAction::Request { url } => DownloadActionView::Request { url: url@ },
            DownloadAction::Stream { target } => DownloadActionView::Stream { target: target@ },
            DownloadAction::RemoveFile { path } => DownloadActionView::RemoveFile { path: path@ },
            DownloadAction::Shutdown => DownloadActionView::Shutdown,
            DownloadAction::Send(message) => DownloadActionView::Send(message@),
        }
    }
}

impl DeepView for DownloadAction {
    type V = DownloadActionView;

    open spec fn deep_view(&self) -> DownloadActionView {
        self.view()
    }
}

/// A download: the addresses, the directory, and how far the work has come.
#[derive(Debug)]
pub struct Download {
    /// The addresses of the files, as they were given.
    pub urls: Vec<String>,
    /// The directory that the files go to.
    pub output_dir: LocalPath,
    pub phase: DownloadPhase,
    /// While probing: the place in `urls` of the address asked about. While
    /// requesting: the place in `pending` of the address asked for.
    pub next: usize,
    /// The addresses whose files were not found on disk.
    pub pending: Vec<String>,
    /// The files whose requests were answered.
    pub targets: Vec<DownloadTarget>,
    /// The sum of the lengths that the servers announced.
    pub content_length: u64,
    /// The number of streams that have not reported their end.
    pub remaining: usize,
    /// The sum of the lengths of the pieces written so far.
    pub progress_length: u64,
    /// Holds back reports of progress.
    pub gate: ProgressGate,
}

/// The mathematical model of a [`Download`].
pub struct DownloadView {
    pub urls: Seq<Seq<char>>,
    pub output_dir: PathView,
    pub phase: DownloadPhase,
    pub next: usize,
    pub pending: Seq<Seq<char>>,
    pub targets: Seq<DownloadTargetView>,
    pub content_length: u64,
    pub remaining: usize,
    pub progress_length: u64,
    pub gate: ProgressGate,
}

impl View for Download {
    type V = DownloadView;

    open spec fn view(&self) -> DownloadView {
        DownloadView {
            urls: self.urls.deep_view(),
            output_dir: self.output_dir@,
            phase: self.phase,
            next: self.next,
            pending: self.pending.deep_view(),
            targets: self.targets.deep_view(),
            content_length: self.content_length,
            remaining: self.remaining,
            progress_length: self.progress_length,
            gate: self.gate,
        }
    }
}

/// The list of the one action that sends `message`.
pub open spec fn tell(message: DownloadMessageView) -> Seq<DownloadActionView> {
    Seq::empty().push(DownloadActionView::Send(message))
}

impl DownloadView {
    /// The download in another phase.
    pub open spec fn at(self, phase: DownloadPhase) -> DownloadView {
        DownloadView { phase, ..self }
    }

    /// The download at its end.
    pub open spec fn ended(self, outcome: DownloadOutcome) -> DownloadView {
        self.at(DownloadPhase::Finished(outcome))
    }

    /// Where the file of the address at place `i` is looked for.
    pub open spec fn probe_path(self, i: int) -> PathView {
        self.output_dir.join(last_segment(self.urls[i], '/'))
    }

    /// The actions that start one stream for each target.
    pub open spec fn stream_actions(self) -> Seq<DownloadActionView> {
        Seq::new(self.targets.len(), |i: int| DownloadActionView::Stream { target: self.targets[i] })
    }

    /// The step that begins the streams: the announced length is told and a
    /// stream is started for each target; with no target the download is
    /// complete at once.
    pub open spec fn begin_streams(self) -> (DownloadView, Seq<DownloadActionView>) {
        if self.targets.len() == 0 {
            (
                DownloadView { remaining: 0, ..self }.ended(DownloadOutcome::Completed),
                tell(DownloadMessageView::Started { content_length: self.content_length }).push(
                    DownloadActionView::Send(DownloadMessageView::Done),
                ),
            )
        } else {
            (
                DownloadView {
                    remaining: self.targets.len() as usize,
                    phase: DownloadPhase::Streaming,
                    ..self
                },
                tell(DownloadMessageView::Started { content_length: self.content_length })
                    + self.stream_actions(),
            )
        }
    }

    /// The step that asks for the next pending file, or begins the streams
    /// when every pending file was asked for.
    pub open spec fn request_next(self) -> (DownloadView, Seq<DownloadActionView>) {
        if self.next < self.pending.len() {
            (
                self.at(DownloadPhase::Requesting),
                Seq::empty().push(
                    DownloadActionView::Request { url: self.pending[self.next as int] },
                ),
            )
        } else {
            self.begin_streams()
        }
    }

    /// The step that looks for the next file on disk, or turns to asking for
    /// the pending files when every address was looked at.
    pub open spec fn probe_next(self) -> (DownloadView, Seq<DownloadActionView>) {
        if self.next < self.urls.len() {
            (
                self.at(DownloadPhase::Probing),
                Seq::empty().push(
                    DownloadActionView::ProbeFile { path: self.probe_path(self.next as int) },
                ),
            )
        } else {
            DownloadView { next: 0, ..self }.request_next()
        }
    }

    /// The step taken when it is known whether a file is on disk.
    pub open spec fn on_exists(self, exists: bool) -> (DownloadView, Seq<DownloadActionView>) {
        if self.next < self.urls.len() {
            if exists {
                let after = DownloadView { next: (self.next + 1) as usize, ..self };
                (
                    after.probe_next().0,
                    tell(
                        DownloadMessageView::FileDone { path: self.probe_path(self.next as int) },
                    ) + after.probe_next().1,
                )
            } else {
                DownloadView {
                    next: (self.next + 1) as usize,
                    pending: self.pending.push(self.urls[self.next as int]),
                    ..self
                }.probe_next()
            }
        } else {
            self.probe_next()
        }
    }

    /// The step taken when a server has answered a request.
    pub open spec fn on_response(
        self,
        content_length: Option<u64>,
        content_disposition: Option<Seq<char>>,
    ) -> (DownloadView, Seq<DownloadActionView>) {
        if self.next < self.pending.len() {
            let url = self.pending[self.next as int];
            DownloadView {
                next: (self.next + 1) as usize,
                targets: self.targets.push(
                    DownloadTargetView {
                        url,
                        path: self.output_dir.join(download_filename(content_disposition, url)),
                    },
                ),
                content_length: add_capped(
                    self.content_length,
                    match content_length {
                        Some(n) => n,
                        None => 0,
                    },
                ),
                ..self
            }.request_next()
        } else {
            self.request_next()
        }
    }

    /// The step taken when a piece of a file was written.
    pub open spec fn on_chunk(self, chunk_length: u64, now: u64) -> (
        DownloadView,
        Seq<DownloadActionView>,
    ) {
        let progress_length = add_capped(self.progress_length, chunk_length);
        (
            DownloadView { progress_length, gate: self.gate.after(now), ..self },
            if self.gate.lets_through(now) {
                tell(DownloadMessageView::Progress { progress_length })
            } else {
                Seq::empty()
            },
        )
    }

    /// The step taken when a file is complete.
    pub open spec fn on_file_done(self, path: PathView) -> (DownloadView, Seq<DownloadActionView>) {
        if self.remaining <= 1 {
            (
                DownloadView { remaining: 0, ..self }.ended(DownloadOutcome::Completed),
                tell(DownloadMessageView::FileDone { path }).push(
                    DownloadActionView::Send(DownloadMessageView::Done),
                ),
            )
        } else {
            (
                DownloadView { remaining: (self.remaining - 1) as usize, ..self },
                tell(DownloadMessageView::FileDone { path }),
            )
        }
    }

    /// The step taken when the download is cancelled: running streams are
    /// shut down, and nothing is told.
    pub open spec fn on_cancel(self) -> (DownloadView, Seq<DownloadActionView>) {
        (
            self.ended(DownloadOutcome::Cancelled),
            if self.phase == DownloadPhase::Streaming {
                Seq::empty().push(DownloadActionView::Shutdown)
            } else {
                Seq::empty()
            },
        )
    }

    /// One step of the download: the state after `event`, and the actions to
    /// perform, in order. An event that the phase does not wait for changes
    /// nothing and asks for nothing.
    pub open spec fn step(self, event: DownloadEventView) -> (DownloadView, Seq<DownloadActionView>) {
        match (self.phase, event) {
            (DownloadPhase::Finished(_), _) => (self, Seq::empty()),
            (_, DownloadEventView::Cancelled) => self.on_cancel(),
            (DownloadPhase::CreatingDirectory, DownloadEventView::DirectoryCreated) => (
                DownloadView { next: 0, ..self }.probe_next().0,
                tell(DownloadMessageView::GatheringData) + DownloadView {
                    next: 0,
                    ..self
                }.probe_next().1,
            ),
            (DownloadPhase::CreatingDirectory, DownloadEventView::DirectoryFailed) => (
                self.ended(DownloadOutcome::Failed),
                Seq::empty(),
            ),
            (DownloadPhase::Probing, DownloadEventView::Exists(exists)) => self.on_exists(exists),
            (
                DownloadPhase::Requesting,
                DownloadEventView::Response { content_length, content_disposition },
            ) => self.on_response(content_length, content_disposition),
            (DownloadPhase::Requesting, DownloadEventView::RequestFailed { reason }) => (
                self.ended(DownloadOutcome::Failed),
                tell(DownloadMessageView::Error { message: reason }),
            ),
            (DownloadPhase::Streaming, DownloadEventView::File { message, now }) => match message {
                FileDownloadMessageView::Chunk { chunk_length } => self.on_chunk(
                    chunk_length,
                    now,
                ),
                FileDownloadMessageView::Error { path, message } => (
                    self.ended(DownloadOutcome::Failed),
                    Seq::empty().push(DownloadActionView::RemoveFile { path }).push(
                        DownloadActionView::Send(DownloadMessageView::Error { message }),
                    ).push(DownloadActionView::Shutdown),
                ),
                FileDownloadMessageView::Done { path } => self.on_file_done(path),
            },
            _ => (self, Seq::empty()),
        }
    }

    /// The download run over a sequence of events: the state after the last
    /// one, and all actions asked for, in order.
    pub open spec fn run(self, events: Seq<DownloadEventView>) -> (
        DownloadView,
        Seq<DownloadActionView>,
    )
        decreases events.len(),
    {
        if events.len() == 0 {
            (self, Seq::empty())
        } else {
            let before = self.run(events.drop_last());
            let last = before.0.step(events.last());
            (last.0, before.1 + last.1)
        }
    }
}

/// A download as it begins, and its first action.
pub open spec fn begin_download(urls: Seq<Seq<char>>, output_dir: PathView) -> (
    DownloadView,
    Seq<DownloadActionView>,
) {
    (
        DownloadView {
            urls,
            output_dir,
            phase: DownloadPhase::CreatingDirectory,
            next: 0,
            pending: Seq::empty(),
            targets: Seq::empty(),
            content_length: 0,
            remaining: 0,
            progress_length: 0,
            gate: ProgressGate { next_report: 0 },
        },
        Seq::empty().push(DownloadActionView::CreateDirAll { path: output_dir }),
    )
}

fn push_download_action(actions: &mut Vec<DownloadAction>, action: DownloadAction)
    ensures
        final(actions).deep_view() == old(actions).deep_view().push(action@),
{
    let ghost before = *actions;
    actions.push(action);
    proof {
        lemma_push_deep_view(before, *actions, action);
    }
}

fn no_download_actions() -> (actions: Vec<DownloadAction>)
    ensures
        actions.deep_view() == Seq::<DownloadActionView>::empty(),
{
    let actions: Vec<DownloadAction> = Vec::new();
    assert(actions.deep_view() =~= Seq::<DownloadActionView>::empty());
    actions
}

/// Begins the download of `urls` into `output_dir`: the directory is to be
/// created.
pub fn download_files(urls: Vec<String>, output_dir: LocalPath) -> (r: (
    Download,
    Vec<DownloadAction>,
))
    ensures
        (r.0@, r.1.deep_view()) == begin_download(urls.deep_view(), output_dir@),
{
    let mut actions = no_download_actions();
    push_download_action(&mut actions, DownloadAction::CreateDirAll { path: output_dir.clone() });
    let download = Download {
        urls,
        output_dir,
        phase: DownloadPhase::CreatingDirectory,
        next: 0,
        pending: Vec::new(),
        targets: Vec::new(),
        content_length: 0,
        remaining: 0,
        progress_length: 0,
        gate: ProgressGate::new(),
    };
    assert(download.pending.deep_view() =~= Seq::<Seq<char>>::empty());
    assert(download.targets.deep_view() =~= Seq::<DownloadTargetView>::empty());
    (download, actions)
}

impl Download {
    /// How the download ended, once it has.
    pub fn outcome(&self) -> (r: Option<DownloadOutcome>)
        ensures
            r == (match self@.phase {
                DownloadPhase::Finished(outcome) => Some(outcome),
                _ => None,
            }),
    {
        match self.phase {
            DownloadPhase::Finished(outcome) => Some(outcome),
            _ => None,
        }
    }

    fn probe_path(&self, i: usize) -> (r: LocalPath)
        requires
            i < self.urls.len(),
        ensures
            r@ == self@.probe_path(i as int),
    {
        match get_filename_from_url(self.urls[i].as_str()) {
            Some(name) => self.output_dir.join(name.as_str()),
            None => self.output_dir.clone(),
        }
    }

    fn begin_streams(&mut self, actions: &mut Vec<DownloadAction>)
        ensures
            final(self)@ == old(self)@.begin_streams().0,
            final(actions).deep_view() == old(actions).deep_view() + old(self)@.begin_streams().1,
    {
        push_download_action(
            actions,
            DownloadAction::Send(DownloadMessage::Started { content_length: self.content_length }),
        );
        if self.targets.len() == 0 {
            push_download_action(actions, DownloadAction::Send(DownloadMessage::Done));
            self.remaining = 0;
            self.phase = DownloadPhase::Finished(DownloadOutcome::Completed);
            assert(actions.deep_view() =~= old(actions).deep_view() + old(self)@.begin_streams().1);
        } else {
            let ghost prefix = actions.deep_view();
            let mut i: usize = 0;
            while i < self.targets.len()
                invariant
                    i <= self.targets.len(),
                    *self == *old(self),
                    actions.deep_view() == prefix + self@.stream_actions().take(i as int),
                decreases self.targets.len() - i,
            {
                let target = self.targets[i].clone();
                push_download_action(actions, DownloadAction::Stream { target });
                assert(actions.deep_view() =~= prefix + self@.stream_actions().take(i + 1));
                i += 1;
            }
            assert(self@.stream_actions().take(i as int) =~= self@.stream_actions());
            self.remaining = self.targets.len();
            self.phase = DownloadPhase::Streaming;
            assert(actions.deep_view() =~= old(actions).deep_view() + old(self)@.begin_streams().1);
        }
    }

    fn request_next(&mut self, actions: &mut Vec<DownloadAction>)
        ensures
            final(self)@ == old(self)@.request_next().0,
            final(actions).deep_view() == old(actions).deep_view() + old(self)@.request_next().1,
    {
        if self.next < self.pending.len() {
            self.phase = DownloadPhase::Requesting;
            push_download_action(
                actions,
                DownloadAction::Request { url: self.pending[self.next].clone() },
            );
            assert(actions.deep_view() =~= old(actions).deep_view() + old(self)@.request_next().1);
        } else {
            self.begin_streams(actions);
        }
    }

    fn probe_next(&mut self, actions: &mut Vec<DownloadAction>)
        ensures
            final(self)@ == old(self)@.probe_next().0,
            final(actions).deep_view() == old(actions).deep_view() + old(self)@.probe_next().1,
    {
        if self.next < self.urls.len() {
            let path = self.probe_path(self.next);
            self.phase = DownloadPhase::Probing;
            push_download_action(actions, DownloadAction::ProbeFile { path });
            assert(actions.deep_view() =~= old(actions).deep_view() + old(self)@.probe_next().1);
        } else {
            self.next = 0;
            self.request_next(actions);
        }
    }

    fn on_exists(&mut self, exists: bool, actions: &mut Vec<DownloadAction>)
        ensures
            final(self)@ == old(self)@.on_exists(exists).0,
            final(actions).deep_view() == old(actions).deep_view() + old(self)@.on_exists(
                exists,
            ).1,
    {
        if self.next < self.urls.len() {
            if exists {
                let path = self.probe_path(self.next);
                push_download_action(
                    actions,
                    DownloadAction::Send(DownloadMessage::FileDone { path }),
                );
            } else {
                let ghost before = self.pending;
                let url = self.urls[self.next].clone();
                self.pending.push(url);
                proof {
                    lemma_push_deep_view(before, self.pending, url);
                }
            }
            self.next = self.next + 1;
            self.probe_next(actions);
            assert(actions.deep_view() =~= old(actions).deep_view() + old(self)@.on_exists(
                exists,
            ).1);
        } else {
            self.probe_next(actions);
        }
    }

    fn on_response(
        &mut self,
        content_length: Option<u64>,
        content_disposition: Option<String>,
        actions: &mut Vec<DownloadAction>,
    )
        ensures
            final(self)@ == old(self)@.on_response(
                content_length,
                content_disposition.deep_view(),
            ).0,
            final(actions).deep_view() == old(actions).deep_view() + old(self)@.on_response(
                content_length,
                content_disposition.deep_view(),
            ).1,
    {
        if self.next < self.pending.len() {
            let url = self.pending[self.next].clone();
            let name = match &content_disposition {
                Some(header) => get_filename_from_response_or_url(
                    Some(header.as_str()),
                    url.as_str(),
                ),
                None => get_filename_from_response_or_url(None, url.as_str()),
            };
            let target = DownloadTarget { url, path: self.output_dir.join(name.as_str()) };
            let ghost before = self.targets;
            self.targets.push(target);
            proof {
                lemma_push_deep_view(before, self.targets, target);
            }
            self.content_length = capped_sum(
                self.content_length,
                match content_length {
                    Some(n) => n,
                    None => 0,
                },
            );
            self.next = self.next + 1;
            self.request_next(actions);
        } else {
            self.request_next(actions);
        }
    }

    fn on_file_done(&mut self, path: LocalPath, actions: &mut Vec<DownloadAction>)
        ensures
            final(self)@ == old(self)@.on_file_done(path@).0,
            final(actions).deep_view() == old(actions).deep_view() + old(self)@.on_file_done(
                path@,
            ).1,
    {
        push_download_action(actions, DownloadAction::Send(DownloadMessage::FileDone { path }));
        if self.remaining <= 1 {
            push_download_action(actions, DownloadAction::Send(DownloadMessage::Done));
            self.remaining = 0;
            self.phase = DownloadPhase::Finished(DownloadOutcome::Completed);
        } else {
            self.remaining = self.remaining - 1;
        }
        assert(actions.deep_view() =~= old(actions).deep_view() + old(self)@.on_file_done(path@).1);
    }

    /// One step of the download: takes what happened outside and returns the
    /// actions to perform next, in order.
    pub fn step(&mut self, event: DownloadEvent) -> (actions: Vec<DownloadAction>)
        ensures
            final(self)@ == old(self)@.step(event@).0,
            actions.deep_view() == old(self)@.step(event@).1,
    {
        let mut actions = no_download_actions();
        let phase = self.phase;
        match (phase, event) {
            (DownloadPhase::Finished(_), _) => {},
            (_, DownloadEvent::Cancelled) => {
                match phase {
                    DownloadPhase::Streaming => {
                        push_download_action(&mut actions, DownloadAction::Shutdown);
                    },
                    _ => {},
                }
                self.phase = DownloadPhase::Finished(DownloadOutcome::Cancelled);
            },
            (DownloadPhase::CreatingDirectory, DownloadEvent::DirectoryCreated) => {
                push_download_action(
                    &mut actions,
                    DownloadAction::Send(DownloadMessage::GatheringData),
                );
                self.next = 0;
                self.probe_next(&mut actions);
            },
            (DownloadPhase::CreatingDirectory, DownloadEvent::DirectoryFailed) => {
                self.phase = DownloadPhase::Finished(DownloadOutcome::Failed);
            },
            (DownloadPhase::Probing, DownloadEvent::Exists(exists)) => {
                self.on_exists(exists, &mut actions);
            },
            (
                DownloadPhase::Requesting,
                DownloadEvent::Response { content_length, content_disposition },
            ) => {
                self.on_response(content_length, content_disposition, &mut actions);
            },
            (DownloadPhase::Requesting, DownloadEvent::RequestFailed { reason }) => {
                push_download_action(
                    &mut actions,
                    DownloadAction::Send(DownloadMessage::Error { message: reason }),
                );
                self.phase = DownloadPhase::Finished(DownloadOutcome::Failed);
            },
            (DownloadPhase::Streaming, DownloadEvent::File { message, now }) => {
                match message {
                    FileDownloadMessage::Chunk { chunk_length } => {
                        let progress_length = capped_sum(self.progress_length, chunk_length);
                        self.progress_length = progress_length;
                        if self.gate.offer(now) {
                            push_download_action(
                                &mut actions,
                                DownloadAction::Send(DownloadMessage::Progress { progress_length }),
                            );
                        }
                    },
                    FileDownloadMessage::Error { path, message } => {
                        push_download_action(&mut actions, DownloadAction::RemoveFile { path });
                        push_download_action(
                            &mut actions,
                            DownloadAction::Send(DownloadMessage::Error { message }),
                        );
                        push_download_action(&mut actions, DownloadAction::Shutdown);
                        self.phase = DownloadPhase::Finished(DownloadOutcome::Failed);
                    },
                    FileDownloadMessage::Done { path } => {
                        self.on_file_done(path, &mut actions);
                    },
                }
            },
            _ => {},
        }
        assert(actions.deep_view() =~= old(self)@.step(event@).1);
        actions
    }
}

} // verus!
