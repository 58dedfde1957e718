//! Bringing a server's files up to date.
//!
//! The task is a state machine. It never acts itself: every step takes what
//! happened outside and answers with the actions to perform next, in order.
//! The parts are worked on one after the other, the boot loader first; a
//! part's version marker is written only once the part's files are in place.

use crate::check_game::{
    part_dir, part_dir_name, part_is_stale, part_needs_update, MarkerRead, MarkerView, Part,
    VersionsInfo, VersionsInfoView,
};
use crate::config::profiles::{InstallConfigError, Profile};
use crate::path::{LocalPath, PathView};
use crate::progress::{add_capped, capped_sum};
use crate::text::lemma_push_deep_view;
use vstd::prelude::*;

verus! {

/// What the task tells whoever watches it.
#[derive(Debug, Clone, Copy, PartialEq, Eq, Structural)]
pub enum UpdateTaskMessage {
    DownloadPending { id: Part },
    DownloadStarted { id: Part, content_length: u64 },
    DownloadProgress { id: Part, finished_length: u64 },
    DownloadFinished { id: Part },
    UnpackPending { id: Part },
    UnpackFinished { id: Part },
    FailedSpecific { id: Part },
    Done,
}

impl UpdateTaskMessage {
    /// The part that a message speaks of; `Done` speaks of none.
    pub open spec fn part(self) -> Option<Part> {
        match self {
            UpdateTaskMessage::DownloadPending { id } => Some(id),
            UpdateTaskMessage::DownloadStarted { id, .. } => Some(id),
            UpdateTaskMessage::DownloadProgress { id, .. } => Some(id),
            UpdateTaskMessage::DownloadFinished { id } => Some(id),
            UpdateTaskMessage::UnpackPending { id } => Some(id),
            UpdateTaskMessage::UnpackFinished { id } => Some(id),
            UpdateTaskMessage::FailedSpecific { id } => Some(id),
            UpdateTaskMessage::Done => None,
        }
    }
}

/// What the task asks to be done.
#[derive(Debug)]
pub enum UpdateAction {
    /// Read the version marker at `path` and answer with `UpdateEvent::Marker`.
    ReadMarker { path: LocalPath },
    /// Remove the directory with all it holds; a failure is of no concern.
    RemoveDirAll { path: LocalPath },
    /// Create the directory and those above it; answer with `Succeeded` or `Failed`.
    CreateDirAll { path: LocalPath },
    /// Fetch `url` into the file `path`; answer with `Started`, then `Chunk`
    /// for every piece written, then `StreamEnded`, or with `Failed` at any point.
    Download { url: String, path: LocalPath },
    /// Unpack the archive into the directory; answer with `Succeeded` or `Failed`.
    Unpack { archive: LocalPath, into: LocalPath },
    /// Remove the file; a failure is of no concern.
    RemoveFile { path: LocalPath },
    /// Write `version` as the whole content of the marker at `path`; answer
    /// with `Succeeded` or `Failed`.
    WriteMarker { path: LocalPath, version: String },
    /// Hand the message to whoever watches the task.
    Send(UpdateTaskMessage),
}

/// The mathematical model of an [`UpdateAction`].
pub enum UpdateActionView {
    ReadMarker { path: PathView },
    RemoveDirAll { path: PathView },
    CreateDirAll { path: PathView },
    Download { url: Seq<char>, path: PathView },
    Unpack { archive: PathView, into: PathView },
    RemoveFile { path: PathView },
    WriteMarker { path: PathView, version: Seq<char> },
    Send(UpdateTaskMessage),
}

impl View for UpdateAction {
    type V = UpdateActionView;

    open spec fn view(&self) -> UpdateActionView {
        match self {
            UpdateAction::ReadMarker { path } => UpdateActionView::ReadMarker { path: path@ },
            UpdateAction::RemoveDirAll { path } => UpdateActionView::RemoveDirAll { path: path@ },
            UpdateAction::CreateDirAll { path } => UpdateActionView::CreateDirAll { path: path@ },
            UpdateAction::Download { url, path } => UpdateActionView::Download {
                url: url@,
                path: path@,
            },
            UpdateAction::Unpack { archive, into } => UpdateActionView::Unpack {
                archive: archive@,
                into: into@,
            },
            UpdateAction::RemoveFile { path } => UpdateActionView::RemoveFile { path: path@ },
            UpdateAction::WriteMarker { path, version } => UpdateActionView::WriteMarker {
                path: path@,
                version: version@,
            },
            UpdateAction::Send(message) => UpdateActionView::Send(*message),
        }
    }
}

impl DeepView for UpdateAction {
    type V = UpdateActionView;

    open spec fn deep_view(&self) -> UpdateActionView {
        self.view()
    }
}

/// What happened outside since the last step.
#[derive(Debug)]
pub enum UpdateEvent {
    /// The marker asked for was looked at.
    Marker(MarkerRead),
    /// The action that an answer was owed for has succeeded.
    Succeeded,
    /// The action that an answer was owed for has failed.
    Failed,
    /// The download's file is open and the server has answered.
    Started { content_length: Option<u64> },
    /// A piece of this many bytes was received and written.
    Chunk { length: u64 },
    /// The download has delivered its last piece.
    StreamEnded,
}

/// The mathematical model of an [`UpdateEvent`].
pub enum UpdateEventView {
    Marker(MarkerView),
    Succeeded,
    Failed,
    Started { content_length: Option<u64> },
    Chunk { length: u64 },
    StreamEnded,
}

impl View for UpdateEvent {
    type V = UpdateEventView;

    open spec fn view(&self) -> UpdateEventView {
        match self {
            UpdateEvent::Marker(marker) => UpdateEventView::Marker(marker@),
            UpdateEvent::Succeeded => UpdateEventView::Succeeded,
            UpdateEvent::Failed => UpdateEventView::Failed,
            UpdateEvent::Started { content_length } => UpdateEventView::Started {
                content_length: *content_length,
            },
            UpdateEvent::Chunk { length } => UpdateEventView::Chunk { length: *length },
            UpdateEvent::StreamEnded => UpdateEventView::StreamEnded,
        }
    }
}

/// Where the task stands.
#[derive(Debug, Clone, Copy, PartialEq, Eq, Structural)]
pub enum UpdatePhase {
    /// The part's marker is being read.
    Marker(Part),
    /// The part's directory is being made ready.
    Directory(Part),
    /// The part's download was asked for and has not started.
    Connecting(Part),
    /// The part's download is running.
    Streaming(Part),
    /// The archive of game data is being unpacked.
    Unpacking,
    /// The part's marker is being written.
    Committing(Part),
    /// Both parts were dealt with and `Done` was sent.
    Finished,
}

/// The task: what the server published, where the files go, and how far the
/// work has come.
#[derive(Debug)]
pub struct UpdateTask {
    pub versions: VersionsInfo,
    pub ashita_directory: LocalPath,
    pub server_filename: String,
    pub phase: UpdatePhase,
    pub finished_length: u64,
}

/// The mathematical model of an [`UpdateTask`].
pub struct UpdateTaskView {
    pub versions: VersionsInfoView,
    pub ashita_directory: PathView,
    pub server_filename: Seq<char>,
    pub phase: UpdatePhase,
    pub finished_length: u64,
}

impl View for UpdateTask {
    type V = UpdateTaskView;

    open spec fn view(&self) -> UpdateTaskView {
        UpdateTaskView {
            versions: self.versions@,
            ashita_directory: self.ashita_directory@,
            server_filename: self.server_filename@,
            phase: self.phase,
            finished_length: self.finished_length,
        }
    }
}

/// The name of the file that a part is downloaded to.
pub open spec fn asset_name(part: Part) -> Seq<char> {
    match part {
        Part::Bootloader => "xiloader.exe"@,
        Part::Dats => "dats.7z"@,
    }
}

/// The list of one action.
pub open spec fn one(action: UpdateActionView) -> Seq<UpdateActionView> {
    Seq::empty().push(action)
}

impl UpdateTaskView {
    /// The directory that holds a part's files.
    pub open spec fn part_dir(self, part: Part) -> PathView {
        self.ashita_directory.join(part_dir_name(part, self.server_filename))
    }

    /// The version marker of a part.
    pub open spec fn marker_path(self, part: Part) -> PathView {
        self.part_dir(part).join("version.txt"@)
    }

    /// The file that a part is downloaded to.
    pub open spec fn asset_path(self, part: Part) -> PathView {
        self.part_dir(part).join(asset_name(part))
    }

    /// The task in another phase.
    pub open spec fn at(self, phase: UpdatePhase) -> UpdateTaskView {
        UpdateTaskView { phase, ..self }
    }

    /// The end of the task: `Done` is sent.
    pub open spec fn finish(self) -> (UpdateTaskView, Seq<UpdateActionView>) {
        (self.at(UpdatePhase::Finished), one(UpdateActionView::Send(UpdateTaskMessage::Done)))
    }

    /// Turning to a part: its marker is read if the server publishes the
    /// part; a part that is not published is passed over.
    pub open spec fn enter(self, part: Part) -> (UpdateTaskView, Seq<UpdateActionView>) {
        if self.versions.entry(part) is Some {
            (
                self.at(UpdatePhase::Marker(part)),
                one(UpdateActionView::ReadMarker { path: self.marker_path(part) }),
            )
        } else {
            self.leave(part)
        }
    }

    /// Turning away from a part: to the game data after the boot loader, to
    /// the end after the game data.
    pub open spec fn leave(self, part: Part) -> (UpdateTaskView, Seq<UpdateActionView>) {
        match part {
            Part::Bootloader => if self.versions.dats is Some {
                (
                    self.at(UpdatePhase::Marker(Part::Dats)),
                    one(UpdateActionView::ReadMarker { path: self.marker_path(Part::Dats) }),
                )
            } else {
                self.finish()
            },
            Part::Dats => self.finish(),
        }
    }

    /// A part has failed: that is told, and the task turns away from the part.
    pub open spec fn fail(self, part: Part) -> (UpdateTaskView, Seq<UpdateActionView>) {
        (
            self.leave(part).0,
            one(UpdateActionView::Send(UpdateTaskMessage::FailedSpecific { id: part }))
                + self.leave(part).1,
        )
    }

    /// The step taken when a part's marker has been looked at.
    pub open spec fn on_marker(self, part: Part, marker: MarkerView) -> (
        UpdateTaskView,
        Seq<UpdateActionView>,
    ) {
        if part_is_stale(self.versions.entry(part), marker) {
            (
                self.at(UpdatePhase::Directory(part)),
                match part {
                    Part::Bootloader => one(
                        UpdateActionView::CreateDirAll { path: self.part_dir(part) },
                    ),
                    Part::Dats => one(
                        UpdateActionView::RemoveDirAll { path: self.part_dir(part) },
                    ).push(UpdateActionView::CreateDirAll { path: self.part_dir(part) }),
                },
            )
        } else {
            self.leave(part)
        }
    }

    /// The step taken when a part's directory is ready.
    pub open spec fn on_directory(self, part: Part) -> (UpdateTaskView, Seq<UpdateActionView>) {
        match self.versions.entry(part) {
            Some(info) => (
                UpdateTaskView { phase: UpdatePhase::Connecting(part), finished_length: 0, ..self },
                one(UpdateActionView::Send(UpdateTaskMessage::DownloadPending { id: part })).push(
                    UpdateActionView::Download { url: info.url, path: self.asset_path(part) },
                ),
            ),
            None => self.leave(part),
        }
    }

    /// The step taken when a part's download has delivered its last piece.
    pub open spec fn on_stream_end(self, part: Part) -> (UpdateTaskView, Seq<UpdateActionView>) {
        match self.versions.entry(part) {
            Some(info) => match part {
                Part::Bootloader => (
                    self.at(UpdatePhase::Committing(part)),
                    one(
                        UpdateActionView::Send(UpdateTaskMessage::DownloadFinished { id: part }),
                    ).push(
                        UpdateActionView::WriteMarker {
                            path: self.marker_path(part),
                            version: info.version,
                        },
                    ),
                ),
                Part::Dats => (
                    self.at(UpdatePhase::Unpacking),
                    one(
                        UpdateActionView::Send(UpdateTaskMessage::DownloadFinished { id: part }),
                    ).push(
                        UpdateActionView::Send(UpdateTaskMessage::UnpackPending { id: part }),
                    ).push(
                        UpdateActionView::Unpack {
                            archive: self.asset_path(part),
                            into: self.part_dir(part),
                        },
                    ),
                ),
            },
            None => self.fail(part),
        }
    }

    /// The step taken when the archive of game data has been unpacked.
    pub open spec fn on_unpacked(self) -> (UpdateTaskView, Seq<UpdateActionView>) {
        match self.versions.dats {
            Some(info) => (
                self.at(UpdatePhase::Committing(Part::Dats)),
                one(
                    UpdateActionView::Send(UpdateTaskMessage::UnpackFinished { id: Part::Dats }),
                ).push(UpdateActionView::RemoveFile { path: self.asset_path(Part::Dats) }).push(
                    UpdateActionView::WriteMarker {
                        path: self.marker_path(Part::Dats),
                        version: info.version,
                    },
                ),
            ),
            None => self.fail(Part::Dats),
        }
    }

    /// One step of the task: the state after `event`, and the actions to
    /// perform, in order. An event that the phase does not wait for changes
    /// nothing and asks for nothing.
    pub open spec fn step(self, event: UpdateEventView) -> (UpdateTaskView, Seq<UpdateActionView>) {
        match (self.phase, event) {
            (UpdatePhase::Marker(part), UpdateEventView::Marker(marker)) => self.on_marker(
                part,
                marker,
            ),
            (UpdatePhase::Directory(part), UpdateEventView::Succeeded) => self.on_directory(part),
            (UpdatePhase::Directory(part), UpdateEventView::Failed) => self.fail(part),
            (UpdatePhase::Connecting(part), UpdateEventView::Started { content_length }) => (
                self.at(UpdatePhase::Streaming(part)),
                one(
                    UpdateActionView::Send(
                        UpdateTaskMessage::DownloadStarted {
                            id: part,
                            content_length: match content_length {
                                Some(n) => n,
                                None => 0,
                            },
                        },
                    ),
                ),
            ),
            (UpdatePhase::Connecting(part), UpdateEventView::Failed) => self.fail(part),
            (UpdatePhase::Streaming(part), UpdateEventView::Chunk { length }) => (
                UpdateTaskView {
                    finished_length: add_capped(self.finished_length, length),
                    ..self
                },
                one(
                    UpdateActionView::Send(
                        UpdateTaskMessage::DownloadProgress {
                            id: part,
                            finished_length: add_capped(self.finished_length, length),
                        },
                    ),
                ),
            ),
            (UpdatePhase::Streaming(part), UpdateEventView::StreamEnded) => self.on_stream_end(
                part,
            ),
            (UpdatePhase::Streaming(part), UpdateEventView::Failed) => self.fail(part),
            (UpdatePhase::Unpacking, UpdateEventView::Succeeded) => self.on_unpacked(),
            (UpdatePhase::Unpacking, UpdateEventView::Failed) => self.fail(Part::Dats),
            (UpdatePhase::Committing(part), UpdateEventView::Succeeded) => self.leave(part),
            (UpdatePhase::Committing(part), UpdateEventView::Failed) => self.fail(part),
            _ => (self, Seq::empty()),
        }
    }

    /// The task run over a sequence of events: the state after the last one,
    /// and all actions asked for, in order.
    pub open spec fn run(self, events: Seq<UpdateEventView>) -> (
        UpdateTaskView,
        Seq<UpdateActionView>,
    )
        decreases events.len(),
    {
        if events.len() == 0 {
            (self, Seq::empty())
        } else {
            let before = self.run(events.drop_last());
            let last = before.0.step(events.last());
            (last.0, before.1 + last.1)
        }
    }
}

/// The task as it begins for a profile's directories, and its first actions.
pub open spec fn begin(
    versions: VersionsInfoView,
    ashita_directory: PathView,
    server_filename: Seq<char>,
) -> (UpdateTaskView, Seq<UpdateActionView>) {
    UpdateTaskView {
        versions,
        ashita_directory,
        server_filename,
        phase: UpdatePhase::Marker(Part::Bootloader),
        finished_length: 0,
    }.enter(Part::Bootloader)
}

/// Appends one action.
fn push_action(actions: &mut Vec<UpdateAction>, action: UpdateAction)
    ensures
        final(actions).deep_view() == old(actions).deep_view().push(action@),
{
    let ghost before = *actions;
    actions.push(action);
    proof {
        lemma_push_deep_view(before, *actions, action);
    }
}

/// The empty list of actions.
fn no_actions() -> (actions: Vec<UpdateAction>)
    ensures
        actions.deep_view() == Seq::<UpdateActionView>::empty(),
{
    let actions: Vec<UpdateAction> = Vec::new();
    assert(actions.deep_view() =~= Seq::<UpdateActionView>::empty());
    actions
}

impl UpdateTask {
    /// The directory that holds a part's files.
    pub fn part_dir(&self, part: Part) -> (r: LocalPath)
        ensures
            r@ == self@.part_dir(part),
    {
        self.ashita_directory.join(part_dir(part, self.server_filename.as_str()).as_str())
    }

    /// The version marker of a part.
    pub fn marker_path(&self, part: Part) -> (r: LocalPath)
        ensures
            r@ == self@.marker_path(part),
    {
        self.part_dir(part).join("version.txt")
    }

    /// The file that a part is downloaded to.
    pub fn asset_path(&self, part: Part) -> (r: LocalPath)
        ensures
            r@ == self@.asset_path(part),
    {
        match part {
            Part::Bootloader => self.part_dir(part).join("xiloader.exe"),
            Part::Dats => self.part_dir(part).join("dats.7z"),
        }
    }

    /// Has the task come to its end?
    pub fn is_finished(&self) -> (r: bool)
        ensures
            r == (self@.phase == UpdatePhase::Finished),
    {
        match self.phase {
            UpdatePhase::Finished => true,
            _ => false,
        }
    }

    fn finish(&mut self, actions: &mut Vec<UpdateAction>)
        ensures
            final(self)@ == old(self)@.finish().0,
            final(actions).deep_view() == old(actions).deep_view() + old(self)@.finish().1,
    {
        self.phase = UpdatePhase::Finished;
        push_action(actions, UpdateAction::Send(UpdateTaskMessage::Done));
        assert(actions.deep_view() =~= old(actions).deep_view() + old(self)@.finish().1);
    }

    fn leave(&mut self, part: Part, actions: &mut Vec<UpdateAction>)
        ensures
            final(self)@ == old(self)@.leave(part).0,
            final(actions).deep_view() == old(actions).deep_view() + old(self)@.leave(part).1,
    {
        match part {
            Part::Bootloader => {
                if self.versions.dats.is_some() {
                    let path = self.marker_path(Part::Dats);
                    self.phase = UpdatePhase::Marker(Part::Dats);
                    push_action(actions, UpdateAction::ReadMarker { path });
                    assert(actions.deep_view() =~= old(actions).deep_view() + old(self)@.leave(
                        part,
                    ).1);
                } else {
                    self.finish(actions);
                }
            },
            Part::Dats => {
                self.finish(actions);
            },
        }
    }

    fn enter(&mut self, part: Part, actions: &mut Vec<UpdateAction>)
        ensures
            final(self)@ == old(self)@.enter(part).0,
            final(actions).deep_view() == old(actions).deep_view() + old(self)@.enter(part).1,
    {
        if self.versions.entry(part).is_some() {
            let path = self.marker_path(part);
            self.phase = UpdatePhase::Marker(part);
            push_action(actions, UpdateAction::ReadMarker { path });
            assert(actions.deep_view() =~= old(actions).deep_view() + old(self)@.enter(part).1);
        } else {
            self.leave(part, actions);
        }
    }

    fn fail(&mut self, part: Part, actions: &mut Vec<UpdateAction>)
        ensures
            final(self)@ == old(self)@.fail(part).0,
            final(actions).deep_view() == old(actions).deep_view() + old(self)@.fail(part).1,
    {
        push_action(actions, UpdateAction::Send(UpdateTaskMessage::FailedSpecific { id: part }));
        self.leave(part, actions);
        assert(actions.deep_view() =~= old(actions).deep_view() + old(self)@.fail(part).1);
    }

    fn on_marker(&mut self, part: Part, marker: &MarkerRead, actions: &mut Vec<UpdateAction>)
        ensures
            final(self)@ == old(self)@.on_marker(part, marker@).0,
            final(actions).deep_view() == old(actions).deep_view() + old(self)@.on_marker(
                part,
                marker@,
            ).1,
    {
        let stale = part_needs_update(self.versions.entry(part), marker).is_some();
        if stale {
            let dir = self.part_dir(part);
            match part {
                Part::Bootloader => {},
                Part::Dats => {
                    push_action(actions, UpdateAction::RemoveDirAll { path: dir.clone() });
                },
            }
            push_action(actions, UpdateAction::CreateDirAll { path: dir });
            self.phase = UpdatePhase::Directory(part);
            assert(actions.deep_view() =~= old(actions).deep_view() + old(self)@.on_marker(
                part,
                marker@,
            ).1);
        } else {
            self.leave(part, actions);
        }
    }

    fn on_directory(&mut self, part: Part, actions: &mut Vec<UpdateAction>)
        ensures
            final(self)@ == old(self)@.on_directory(part).0,
            final(actions).deep_view() == old(actions).deep_view() + old(self)@.on_directory(
                part,
            ).1,
    {
        let path = self.asset_path(part);
        let url = match self.versions.entry(part) {
            Some(info) => Some(info.url.clone()),
            None => None,
        };
        match url {
            Some(url) => {
                self.phase = UpdatePhase::Connecting(part);
                self.finished_length = 0;
                push_action(
                    actions,
                    UpdateAction::Send(UpdateTaskMessage::DownloadPending { id: part }),
                );
                push_action(actions, UpdateAction::Download { url, path });
                assert(actions.deep_view() =~= old(actions).deep_view() + old(
                    self,
                )@.on_directory(part).1);
            },
            None => {
                self.leave(part, actions);
            },
        }
    }

    fn on_stream_end(&mut self, part: Part, actions: &mut Vec<UpdateAction>)
        ensures
            final(self)@ == old(self)@.on_stream_end(part).0,
            final(actions).deep_view() == old(actions).deep_view() + old(self)@.on_stream_end(
                part,
            ).1,
    {
        let version = match self.versions.entry(part) {
            Some(info) => Some(info.version.clone()),
            None => None,
        };
        match version {
            Some(version) => {
                push_action(
                    actions,
                    UpdateAction::Send(UpdateTaskMessage::DownloadFinished { id: part }),
                );
                match part {
                    Part::Bootloader => {
                        let path = self.marker_path(part);
                        push_action(actions, UpdateAction::WriteMarker { path, version });
                        self.phase = UpdatePhase::Committing(part);
                    },
                    Part::Dats => {
                        let archive = self.asset_path(part);
                        let into = self.part_dir(part);
                        push_action(
                            actions,
                            UpdateAction::Send(UpdateTaskMessage::UnpackPending { id: part }),
                        );
                        push_action(actions, UpdateAction::Unpack { archive, into });
                        self.phase = UpdatePhase::Unpacking;
                    },
                }
                assert(actions.deep_view() =~= old(actions).deep_view() + old(
                    self,
                )@.on_stream_end(part).1);
            },
            None => {
                self.fail(part, actions);
            },
        }
    }

    fn on_unpacked(&mut self, actions: &mut Vec<UpdateAction>)
        ensures
            final(self)@ == old(self)@.on_unpacked().0,
            final(actions).deep_view() == old(actions).deep_view() + old(self)@.on_unpacked().1,
    {
        let version = match &self.versions.dats {
            Some(info) => Some(info.version.clone()),
            None => None,
        };
        match version {
            Some(version) => {
                let archive = self.asset_path(Part::Dats);
                let path = self.marker_path(Part::Dats);
                push_action(
                    actions,
                    UpdateAction::Send(UpdateTaskMessage::UnpackFinished { id: Part::Dats }),
                );
                push_action(actions, UpdateAction::RemoveFile { path: archive });
                push_action(actions, UpdateAction::WriteMarker { path, version });
                self.phase = UpdatePhase::Committing(Part::Dats);
                assert(actions.deep_view() =~= old(actions).deep_view() + old(
                    self,
                )@.on_unpacked().1);
            },
            None => {
                self.fail(Part::Dats, actions);
            },
        }
    }

    /// One step of the task: takes what happened outside and returns the
    /// actions to perform next, in order.
    pub fn step(&mut self, event: UpdateEvent) -> (actions: Vec<UpdateAction>)
        ensures
            final(self)@ == old(self)@.step(event@).0,
            actions.deep_view() == old(self)@.step(event@).1,
    {
        let mut actions = no_actions();
        let phase = self.phase;
        match (phase, event) {
            (UpdatePhase::Marker(part), UpdateEvent::Marker(marker)) => {
                self.on_marker(part, &marker, &mut actions);
            },
            (UpdatePhase::Directory(part), UpdateEvent::Succeeded) => {
                self.on_directory(part, &mut actions);
            },
            (UpdatePhase::Directory(part), UpdateEvent::Failed) => {
                self.fail(part, &mut actions);
            },
            (UpdatePhase::Connecting(part), UpdateEvent::Started { content_length }) => {
                let content_length = match content_length {
                    Some(n) => n,
                    None => 0,
                };
                self.phase = UpdatePhase::Streaming(part);
                push_action(
                    &mut actions,
                    UpdateAction::Send(
                        UpdateTaskMessage::DownloadStarted { id: part, content_length },
                    ),
                );
            },
            (UpdatePhase::Connecting(part), UpdateEvent::Failed) => {
                self.fail(part, &mut actions);
            },
            (UpdatePhase::Streaming(part), UpdateEvent::Chunk { length }) => {
                let finished_length = capped_sum(self.finished_length, length);
                self.finished_length = finished_length;
                push_action(
                    &mut actions,
                    UpdateAction::Send(
                        UpdateTaskMessage::DownloadProgress { id: part, finished_length },
                    ),
                );
            },
            (UpdatePhase::Streaming(part), UpdateEvent::StreamEnded) => {
                self.on_stream_end(part, &mut actions);
            },
            (UpdatePhase::Streaming(part), UpdateEvent::Failed) => {
                self.fail(part, &mut actions);
            },
            (UpdatePhase::Unpacking, UpdateEvent::Succeeded) => {
                self.on_unpacked(&mut actions);
            },
            (UpdatePhase::Unpacking, UpdateEvent::Failed) => {
                self.fail(Part::Dats, &mut actions);
            },
            (UpdatePhase::Committing(part), UpdateEvent::Succeeded) => {
                self.leave(part, &mut actions);
            },
            (UpdatePhase::Committing(part), UpdateEvent::Failed) => {
                self.fail(part, &mut actions);
            },
            _ => {},
        }
        assert(actions.deep_view() =~= old(self)@.step(event@).1);
        actions
    }
}

/// Begins to bring the files of the profile's server up to date with what
/// the server published. Fails where the profile names no directory for the
/// mod loader; else hands out the task and its first actions.
pub fn update_with_versions(profile: &Profile, versions_info: VersionsInfo) -> (r: Result<
    (UpdateTask, Vec<UpdateAction>),
    InstallConfigError,
>)
    ensures
        match r {
            Ok((task, actions)) => {
                &&& profile@.install.ashita_dir() is Some
                &&& (task@, actions.deep_view()) == begin(
                    versions_info@,
                    profile@.install.ashita_dir()->0,
                    profile@.server_filename(),
                )
            },
            Err(e) => profile@.install.ashita_dir() is None && e
                == InstallConfigError::MissingAshitaDirectory,
        },
{
    match profile.install.try_get_ashita_dir() {
        Err(e) => Err(e),
        Ok(ashita_directory) => {
            let mut task = UpdateTask {
                versions: versions_info,
                ashita_directory,
                server_filename: profile.get_server_filename(),
                phase: UpdatePhase::Marker(Part::Bootloader),
                finished_length: 0,
            };
            let mut actions = no_actions();
            task.enter(Part::Bootloader, &mut actions);
            assert(actions.deep_view() =~= begin(
                versions_info@,
                profile@.install.ashita_dir()->0,
                profile@.server_filename(),
            ).1);
            Ok((task, actions))
        },
    }
}

} // verus!
