//! Installing the game for a profile.
//!
//! The task is a state machine. It never acts itself: every step takes what
//! happened outside and answers with the actions to perform next, in order.
//! It tells its watcher one of `Complete` and `Error` at most, as its last
//! word; a task that is cancelled ends without a word.
//!
//! The installer runs as a process of its own and is waited for. A
//! cancellation that arrives meanwhile ends the task at once, and the
//! process is left to run to its end.

use crate::check_game::DownloadInfo;
use crate::file_download::{DownloadMessage, DownloadMessageView};
use crate::path::{LocalPath, PathView};
use crate::progress::ProgressGate;
use crate::text::{ends_with, lemma_push_deep_view, str_ends_with};
use vstd::prelude::*;
use vstd::string::StringExecFns;

verus! {

/// What the task tells whoever watches it.
#[derive(Debug)]
pub enum InstallTaskProgress {
    Pending,
    DownloadStarted { content_length: u64 },
    DownloadProgress { finished_length: u64 },
    Installing,
    Complete,
    Error(String),
}

/// The mathematical model of an [`InstallTaskProgress`].
pub enum InstallTaskProgressView {
    Pending,
    DownloadStarted { content_length: u64 },
    DownloadProgress { finished_length: u64 },
    Installing,
    Complete,
    Error(Seq<char>),
}

impl View for InstallTaskProgress {
    type V = InstallTaskProgressView;

    open spec fn view(&self) -> InstallTaskProgressView {
        match self {
            InstallTaskProgress::Pending => InstallTaskProgressView::Pending,
            InstallTaskProgress::DownloadStarted {
                content_length,
            } => InstallTaskProgressView::DownloadStarted { content_length: *content_length },
            InstallTaskProgress::DownloadProgress {
                finished_length,
            } => InstallTaskProgressView::DownloadProgress { finished_length: *finished_length },
            InstallTaskProgress::Installing => InstallTaskProgressView::Installing,
            InstallTaskProgress::Complete => InstallTaskProgressView::Complete,
            InstallTaskProgress::Error(message) => InstallTaskProgressView::Error(message@),
        }
    }
}

impl DeepView for InstallTaskProgress {
    type V = InstallTaskProgressView;

    open spec fn deep_view(&self) -> InstallTaskProgressView {
        self.view()
    }
}

impl InstallTaskProgressView {
    /// Is the message the task's last word?
    pub open spec fn is_final(self) -> bool {
        self is Complete || self is Error
    }
}

/// The name of the directory whose presence shows that the game is installed.
pub const GAME_DIRECTORY: &'static str = "FINAL FANTASY XI";

/// The ending of an address that names an installer.
pub const INSTALLER_SUFFIX: &'static str = ".exe";

/// The extension of a file that is an installer.
pub const INSTALLER_EXTENSION: &'static str = "exe";

/// What is told when no address names an installer.
pub const NO_INSTALLER_URL: &'static str =
    "Expected to find an executable installer in the download file URLs, but it was not present.";

/// What is told when no installer is among the downloaded files.
pub const NO_INSTALLER_FILE: &'static str =
    "Expected to find an executable installer in the download files, but it was not present.";

/// What is told, with the installer's path behind it, when the installer
/// has not run to a good end.
pub const INSTALLER_FAILED: &'static str = "Failed to install game using: ";

/// What is told when the installer has run and the game is not there.
pub const GAME_NOT_INSTALLED: &'static str =
    "Installed game did not result in a proper game setup.";

/// How an installation ended.
#[derive(Debug, Clone, Copy, PartialEq, Eq, Structural)]
pub enum InstallOutcome {
    /// The game is installed.
    Completed,
    /// The installation was cancelled.
    Cancelled,
    /// The installation has failed.
    Failed,
}

/// Where an installation stands.
#[derive(Debug, Clone, Copy, PartialEq, Eq, Structural)]
pub enum InstallPhase {
    /// It is being found out whether the game is installed already.
    Checking,
    /// The files are being downloaded.
    Downloading,
    /// The installer runs.
    Installing,
    /// It is being found out whether the installer has installed the game.
    Verifying,
    /// The installation is over.
    Finished(InstallOutcome),
}

/// What happened outside since the last step of an installation.
#[derive(Debug)]
pub enum InstallEvent {
    /// Whether the game's directory is there.
    GameFound(bool),
    /// The download has told this, at the time `now`, in milliseconds. With
    /// `FileDone`, `extension` is what [`crate::path::extension`] gives for
    /// the name of the file; with other messages it is of no concern.
    Download { message: DownloadMessage, now: u64, extension: Option<String> },
    /// The download has ended without telling `Done` or `Error`.
    DownloadClosed,
    /// The installer has run to its end: with success or not.
    InstallerExited { success: bool },
    /// The installer could not be started or waited for, for this reason.
    InstallerFailed { reason: String },
    /// The installation was cancelled.
    Cancelled,
}

/// The mathematical model of an [`InstallEvent`].
pub enum InstallEventView {
    GameFound(bool),
    Download { message: DownloadMessageView, now: u64, extension: Option<Seq<char>> },
    DownloadClosed,
    InstallerExited { success: bool },
    InstallerFailed { reason: Seq<char> },
    Cancelled,
}

impl View for InstallEvent {
    type V = InstallEventView;

    open spec fn view(&self) -> InstallEventView {
        match self {
            InstallEvent::GameFound(found) => InstallEventView::GameFound(*found),
            InstallEvent::Download { message, now, extension } => InstallEventView::Download {
                message: message@,
                now: *now,
                extension: extension.deep_view(),
            },
            InstallEvent::DownloadClosed => InstallEventView::DownloadClosed,
            InstallEvent::InstallerExited { success } => InstallEventView::InstallerExited {
                success: *success,
            },
            InstallEvent::InstallerFailed { reason } => InstallEventView::InstallerFailed {
                reason: reason@,
            },
            InstallEvent::Cancelled => InstallEventView::Cancelled,
        }
    }
}

/// What an installation asks to be done.
#[derive(Debug)]
pub enum InstallAction {
    /// Find out whether the directory is there; answer with `GameFound`.
    ProbeGame { path: LocalPath },
    /// Download the files into the directory and hand on what the download
    /// tells as `Download`; where it ends without `Done` or `Error`, answer
    /// with `DownloadClosed`.
    Download { urls: Vec<String>, directory: LocalPath },
    /// Run the installer with the arguments that [`installer_arguments`]
    /// gives for `directory`, and wait for it; answer with `InstallerExited`
    /// or `InstallerFailed`.
    RunInstaller { program: LocalPath, directory: LocalPath },
    /// Hand the message to whoever watches the installation.
    Send(InstallTaskProgress),
}

/// The mathematical model of an [`InstallAction`].
pub enum InstallActionView {
    ProbeGame { path: PathView },
    Download { urls: Seq<Seq<char>>, directory: PathView },
    RunInstaller { program: PathView, directory: PathView },
    Send(InstallTaskProgressView),
}

impl View for InstallAction {
    type V = InstallActionView;

    open spec fn view(&self) -> InstallActionView {
        match self {
            InstallAction::ProbeGame { path } => InstallActionView::ProbeGame { path: path@ },
            InstallAction::Download { urls, directory } => InstallActionView::Download {
                urls: urls.deep_view(),
                directory: directory@,
            },
            InstallAction::RunInstaller { program, directory } => InstallActionView::RunInstaller {
                program: program@,
                directory: directory@,
            },
            InstallAction::Send(message) => InstallActionView::Send(message@),
        }
    }
}

impl DeepView for InstallAction {
    type V = InstallActionView;

    open spec fn deep_view(&self) -> InstallActionView {
        self.view()
    }
}

/// An installation: the files, the directories, and how far the work has come.
#[derive(Debug)]
pub struct InstallTask {
    /// The files that the installation consists of.
    pub download_info: DownloadInfo,
    /// The directory that the files are downloaded to.
    pub download_dir: LocalPath,
    /// The directory that the game is installed to.
    pub output_dir: LocalPath,
    pub phase: InstallPhase,
    /// The installer, once it was downloaded.
    pub installer_path: Option<LocalPath>,
    /// Holds back reports of progress.
    pub gate: ProgressGate,
}

/// The mathematical model of an [`InstallTask`].
pub struct InstallTaskView {
    pub download_info: Seq<Seq<char>>,
    pub download_dir: PathView,
    pub output_dir: PathView,
    pub phase: InstallPhase,
    pub installer_path: Option<PathView>,
    pub gate: ProgressGate,
}

impl View for InstallTask {
    type V = InstallTaskView;

    open spec fn view(&self) -> InstallTaskView {
        InstallTaskView {
            download_info: self.download_info.deep_view(),
            download_dir: self.download_dir@,
            output_dir: self.output_dir@,
            phase: self.phase,
            installer_path: self.installer_path.deep_view(),
            gate: self.gate,
        }
    }
}

/// Does one of the addresses name an installer?
pub open spec fn names_installer(urls: Seq<Seq<char>>) -> bool {
    exists|i: int| 0 <= i < urls.len() && ends_with(#[trigger] urls[i], INSTALLER_SUFFIX@)
}

/// The arguments with which the installer is run: the directory to install
/// to, and the order to ask no questions.
pub open spec fn installer_args(directory: Seq<char>) -> Seq<Seq<char>> {
    seq!["-o"@ + directory, "-y"@]
}

/// The list of the one action that sends `message`.
pub open spec fn say(message: InstallTaskProgressView) -> Seq<InstallActionView> {
    Seq::empty().push(InstallActionView::Send(message))
}

impl InstallTaskView {
    /// The directory whose presence shows that the game is installed.
    pub open spec fn game_path(self) -> PathView {
        self.output_dir.join(GAME_DIRECTORY@)
    }

    /// The installation at its end.
    pub open spec fn ended(self, outcome: InstallOutcome) -> InstallTaskView {
        InstallTaskView { phase: InstallPhase::Finished(outcome), ..self }
    }

    /// The installation ends in failure, which is told in `words`.
    pub open spec fn fail(self, words: Seq<char>) -> (InstallTaskView, Seq<InstallActionView>) {
        (self.ended(InstallOutcome::Failed), say(InstallTaskProgressView::Error(words)))
    }

    /// The installation ends in success, which is told.
    pub open spec fn complete(self) -> (InstallTaskView, Seq<InstallActionView>) {
        (self.ended(InstallOutcome::Completed), say(InstallTaskProgressView::Complete))
    }

    /// The step taken when it is known that the game is not installed yet.
    pub open spec fn begin_download(self) -> (InstallTaskView, Seq<InstallActionView>) {
        if names_installer(self.download_info) {
            (
                InstallTaskView { phase: InstallPhase::Downloading, ..self },
                say(InstallTaskProgressView::Pending).push(
                    InstallActionView::Download {
                        urls: self.download_info,
                        directory: self.download_dir,
                    },
                ),
            )
        } else {
            self.fail(NO_INSTALLER_URL@)
        }
    }

    /// The step taken when the download has ended.
    pub open spec fn begin_install(self) -> (InstallTaskView, Seq<InstallActionView>) {
        match self.installer_path {
            Some(program) => (
                InstallTaskView { phase: InstallPhase::Installing, ..self },
                say(InstallTaskProgressView::Installing).push(
                    InstallActionView::RunInstaller { program, directory: self.output_dir },
                ),
            ),
            None => self.fail(NO_INSTALLER_FILE@),
        }
    }

    /// The step taken when the download tells something.
    pub open spec fn on_download(
        self,
        message: DownloadMessageView,
        now: u64,
        extension: Option<Seq<char>>,
    ) -> (InstallTaskView, Seq<InstallActionView>) {
        match message {
            DownloadMessageView::GatheringData => (self, Seq::empty()),
            DownloadMessageView::Started { content_length } => (
                self,
                say(InstallTaskProgressView::DownloadStarted { content_length }),
            ),
            DownloadMessageView::Progress { progress_length } => (
                InstallTaskView { gate: self.gate.after(now), ..self },
                if self.gate.lets_through(now) {
                    say(
                        InstallTaskProgressView::DownloadProgress {
                            finished_length: progress_length,
                        },
                    )
                } else {
                    Seq::empty()
                },
            ),
            DownloadMessageView::FileDone { path } => (
                if extension == Some(INSTALLER_EXTENSION@) {
                    InstallTaskView { installer_path: Some(path), ..self }
                } else {
                    self
                },
                Seq::empty(),
            ),
            DownloadMessageView::Done => self.begin_install(),
            DownloadMessageView::Error { message } => self.fail(message),
        }
    }

    /// The step taken when the installer has run to its end.
    pub open spec fn on_installer_exit(self, success: bool) -> (
        InstallTaskView,
        Seq<InstallActionView>,
    ) {
        if success {
            (
                InstallTaskView { phase: InstallPhase::Verifying, ..self },
                Seq::empty().push(InstallActionView::ProbeGame { path: self.game_path() }),
            )
        } else {
            self.fail(
                INSTALLER_FAILED@ + match self.installer_path {
                    Some(program) => program.text(),
                    None => Seq::empty(),
                },
            )
        }
    }

    /// One step of the installation: the state after `event`, and the
    /// actions to perform, in order. An event that the phase does not wait
    /// for changes nothing and asks for nothing.
    pub open spec fn step(self, event: InstallEventView) -> (InstallTaskView, Seq<InstallActionView>) {
        match (self.phase, event) {
            (InstallPhase::Finished(_), _) => (self, Seq::empty()),
            (_, InstallEventView::Cancelled) => (
                self.ended(InstallOutcome::Cancelled),
                Seq::empty(),
            ),
            (InstallPhase::Checking, InstallEventView::GameFound(found)) => if found {
                self.complete()
            } else {
                self.begin_download()
            },
            (
                InstallPhase::Downloading,
                InstallEventView::Download { message, now, extension },
            ) => self.on_download(message, now, extension),
            (InstallPhase::Downloading, InstallEventView::DownloadClosed) => self.begin_install(),
            (
                InstallPhase::Installing,
                InstallEventView::InstallerExited { success },
            ) => self.on_installer_exit(success),
            (InstallPhase::Installing, InstallEventView::InstallerFailed { reason }) => self.fail(
                reason,
            ),
            (InstallPhase::Verifying, InstallEventView::GameFound(found)) => if found {
                self.complete()
            } else {
                self.fail(GAME_NOT_INSTALLED@)
            },
            _ => (self, Seq::empty()),
        }
    }

    /// The installation run over a sequence of events: the state after the
    /// last one, and all actions asked for, in order.
    pub open spec fn run(self, events: Seq<InstallEventView>) -> (
        InstallTaskView,
        Seq<InstallActionView>,
    )
        decreases events.len(),
    {
        if events.len() == 0 {
            (self, Seq::empty())
        } else {
            let before = self.run(events.drop_last());
            let last = before.0.step(events.last());
            (last.0, before.1 + last.1)
        }
    }
}

/// An installation as it begins, and its first action.
pub open spec fn begin_installation(
    download_info: Seq<Seq<char>>,
    download_dir: PathView,
    output_dir: PathView,
) -> (InstallTaskView, Seq<InstallActionView>) {
    (
        InstallTaskView {
            download_info,
            download_dir,
            output_dir,
            phase: InstallPhase::Checking,
            installer_path: None,
            gate: ProgressGate { next_report: 0 },
        },
        Seq::empty().push(InstallActionView::ProbeGame { path: output_dir.join(GAME_DIRECTORY@) }),
    )
}

fn push_install_action(actions: &mut Vec<InstallAction>, action: InstallAction)
    ensures
        final(actions).deep_view() == old(actions).deep_view().push(action@),
{
    let ghost before = *actions;
    actions.push(action);
    proof {
        lemma_push_deep_view(before, *actions, action);
    }
}

fn no_install_actions() -> (actions: Vec<InstallAction>)
    ensures
        actions.deep_view() == Seq::<InstallActionView>::empty(),
{
    let actions: Vec<InstallAction> = Vec::new();
    assert(actions.deep_view() =~= Seq::<InstallActionView>::empty());
    actions
}

/// The addresses of the files of an installation.
pub fn urls_of(download_info: &DownloadInfo) -> (urls: Vec<String>)
    ensures
        urls.deep_view() == download_info.deep_view(),
{
    let mut urls: Vec<String> = Vec::new();
    let mut i: usize = 0;
    assert(urls.deep_view() =~= download_info.deep_view().take(0));
    while i < download_info.len()
        invariant
            i <= download_info.len(),
            urls.deep_view() == download_info.deep_view().take(i as int),
        decreases download_info.len() - i,
    {
        let ghost before = urls;
        let url = download_info[i].url.clone();
        urls.push(url);
        proof {
            lemma_push_deep_view(before, urls, url);
            assert(urls.deep_view() =~= download_info.deep_view().take(i + 1));
        }
        i += 1;
    }
    assert(download_info.deep_view().take(download_info.len() as int)
        =~= download_info.deep_view());
    urls
}

/// Does one of the files have an address that names an installer?
pub fn has_installer(download_info: &DownloadInfo) -> (r: bool)
    ensures
        r == names_installer(download_info.deep_view()),
{
    let mut i: usize = 0;
    while i < download_info.len()
        invariant
            i <= download_info.len(),
            forall|j: int|
                0 <= j < i ==> !ends_with(
                    #[trigger] download_info.deep_view()[j],
                    INSTALLER_SUFFIX@,
                ),
        decreases download_info.len() - i,
    {
        if str_ends_with(download_info[i].url.as_str(), INSTALLER_SUFFIX) {
            assert(ends_with(download_info.deep_view()[i as int], INSTALLER_SUFFIX@));
            return true;
        }
        i += 1;
    }
    false
}

/// The arguments with which the installer is run to install into the
/// directory that `directory` names.
pub fn installer_arguments(directory: &str) -> (r: Vec<String>)
    ensures
        r.deep_view() == installer_args(directory@),
{
    let mut arguments: Vec<String> = Vec::new();
    arguments.push("-o".to_owned().concat(directory));
    arguments.push("-y".to_owned());
    assert(arguments.deep_view() =~= installer_args(directory@));
    arguments
}

impl InstallTask {
    /// Begins an installation: it is to be found out whether the game is
    /// installed already.
    pub fn start(download_info: DownloadInfo, download_dir: LocalPath, output_dir: LocalPath) -> (r:
        (InstallTask, Vec<InstallAction>))
        ensures
            (r.0@, r.1.deep_view()) == begin_installation(
                download_info.deep_view(),
                download_dir@,
                output_dir@,
            ),
    {
        let mut actions = no_install_actions();
        push_install_action(
            &mut actions,
            InstallAction::ProbeGame { path: output_dir.join(GAME_DIRECTORY) },
        );
        (
            InstallTask {
                download_info,
                download_dir,
                output_dir,
                phase: InstallPhase::Checking,
                installer_path: None,
                gate: ProgressGate::new(),
            },
            actions,
        )
    }

    /// How the installation ended, once it has.
    pub fn outcome(&self) -> (r: Option<InstallOutcome>)
        ensures
            r == (match self@.phase {
                InstallPhase::Finished(outcome) => Some(outcome),
                _ => None,
            }),
    {
        match self.phase {
            InstallPhase::Finished(outcome) => Some(outcome),
            _ => None,
        }
    }

    fn fail(&mut self, words: String, actions: &mut Vec<InstallAction>)
        ensures
            final(self)@ == old(self)@.fail(words@).0,
            final(actions).deep_view() == old(actions).deep_view() + old(self)@.fail(words@).1,
    {
        self.phase = InstallPhase::Finished(InstallOutcome::Failed);
        push_install_action(actions, InstallAction::Send(InstallTaskProgress::Error(words)));
        assert(actions.deep_view() =~= old(actions).deep_view() + old(self)@.fail(words@).1);
    }

    fn complete(&mut self, actions: &mut Vec<InstallAction>)
        ensures
            final(self)@ == old(self)@.complete().0,
            final(actions).deep_view() == old(actions).deep_view() + old(self)@.complete().1,
    {
        self.phase = InstallPhase::Finished(InstallOutcome::Completed);
        push_install_action(actions, InstallAction::Send(InstallTaskProgress::Complete));
        assert(actions.deep_view() =~= old(actions).deep_view() + old(self)@.complete().1);
    }

    /// The step taken when it is known that the game is not installed yet:
    /// the download is asked for, unless no address names an installer.
    fn download_step(&mut self, actions: &mut Vec<InstallAction>)
        ensures
            final(self)@ == old(self)@.begin_download().0,
            final(actions).deep_view() == old(actions).deep_view() + old(self)@.begin_download().1,
    {
        if has_installer(&self.download_info) {
            self.phase = InstallPhase::Downloading;
            push_install_action(actions, InstallAction::Send(InstallTaskProgress::Pending));
            push_install_action(
                actions,
                InstallAction::Download {
                    urls: urls_of(&self.download_info),
                    directory: self.download_dir.clone(),
                },
            );
            assert(actions.deep_view() =~= old(actions).deep_view() + old(
                self,
            )@.begin_download().1);
        } else {
            self.fail(NO_INSTALLER_URL.to_owned(), actions);
        }
    }

    /// The step taken when the download has ended: the installer is run,
    /// unless none was downloaded.
    fn start_installer(&mut self, actions: &mut Vec<InstallAction>)
        ensures
            final(self)@ == old(self)@.begin_install().0,
            final(actions).deep_view() == old(actions).deep_view() + old(self)@.begin_install().1,
    {
        let program = match &self.installer_path {
            Some(program) => Some(program.clone()),
            None => None,
        };
        match program {
            Some(program) => {
                self.phase = InstallPhase::Installing;
                push_install_action(actions, InstallAction::Send(InstallTaskProgress::Installing));
                push_install_action(
                    actions,
                    InstallAction::RunInstaller { program, directory: self.output_dir.clone() },
                );
                assert(actions.deep_view() =~= old(actions).deep_view() + old(
                    self,
                )@.begin_install().1);
            },
            None => {
                self.fail(NO_INSTALLER_FILE.to_owned(), actions);
            },
        }
    }

    fn on_download(
        &mut self,
        message: DownloadMessage,
        now: u64,
        extension: Option<String>,
        actions: &mut Vec<InstallAction>,
    )
        ensures
            final(self)@ == old(self)@.on_download(message@, now, extension.deep_view()).0,
            final(actions).deep_view() == old(actions).deep_view() + old(self)@.on_download(
                message@,
                now,
                extension.deep_view(),
            ).1,
    {
        match message {
            DownloadMessage::GatheringData => {},
            DownloadMessage::Started { content_length } => {
                push_install_action(
                    actions,
                    InstallAction::Send(InstallTaskProgress::DownloadStarted { content_length }),
                );
            },
            DownloadMessage::Progress { progress_length } => {
                if self.gate.offer(now) {
                    push_install_action(
                        actions,
                        InstallAction::Send(
                            InstallTaskProgress::DownloadProgress {
                                finished_length: progress_length,
                            },
                        ),
                    );
                }
            },
            DownloadMessage::FileDone { path } => {
                let is_installer = match &extension {
                    Some(text) => *text == INSTALLER_EXTENSION.to_owned(),
                    None => false,
                };
                if is_installer {
                    self.installer_path = Some(path);
                }
            },
            DownloadMessage::Done => {
                self.start_installer(actions);
            },
            DownloadMessage::Error { message } => {
                self.fail(message, actions);
            },
        }
        assert(actions.deep_view() =~= old(actions).deep_view() + old(self)@.on_download(
            message@,
            now,
            extension.deep_view(),
        ).1);
    }

    fn on_installer_exit(&mut self, success: bool, actions: &mut Vec<InstallAction>)
        ensures
            final(self)@ == old(self)@.on_installer_exit(success).0,
            final(actions).deep_view() == old(actions).deep_view() + old(
                self,
            )@.on_installer_exit(success).1,
    {
        if success {
            self.phase = InstallPhase::Verifying;
            push_install_action(
                actions,
                InstallAction::ProbeGame { path: self.output_dir.join(GAME_DIRECTORY) },
            );
            assert(actions.deep_view() =~= old(actions).deep_view() + old(
                self,
            )@.on_installer_exit(success).1);
        } else {
            let mut words = INSTALLER_FAILED.to_owned();
            match &self.installer_path {
                Some(program) => {
                    words.append(program.to_text().as_str());
                },
                None => {
                    assert(words@ + Seq::<char>::empty() =~= words@);
                },
            }
            self.fail(words, actions);
        }
    }

    /// One step of the installation: takes what happened outside and
    /// returns the actions to perform next, in order.
    pub fn execute(&mut self, event: InstallEvent) -> (actions: Vec<InstallAction>)
        ensures
            final(self)@ == old(self)@.step(event@).0,
            actions.deep_view() == old(self)@.step(event@).1,
    {
        let mut actions = no_install_actions();
        let phase = self.phase;
        match (phase, event) {
            (InstallPhase::Finished(_), _) => {},
            (_, InstallEvent::Cancelled) => {
                self.phase = InstallPhase::Finished(InstallOutcome::Cancelled);
            },
            (InstallPhase::Checking, InstallEvent::GameFound(found)) => {
                if found {
                    self.complete(&mut actions);
                } else {
                    self.download_step(&mut actions);
                }
            },
            (InstallPhase::Downloading, InstallEvent::Download { message, now, extension }) => {
                self.on_download(message, now, extension, &mut actions);
            },
            (InstallPhase::Downloading, InstallEvent::DownloadClosed) => {
                self.start_installer(&mut actions);
            },
            (InstallPhase::Installing, InstallEvent::InstallerExited { success }) => {
                self.on_installer_exit(success, &mut actions);
            },
            (InstallPhase::Installing, InstallEvent::InstallerFailed { reason }) => {
                self.fail(reason, &mut actions);
            },
            (InstallPhase::Verifying, InstallEvent::GameFound(found)) => {
                if found {
                    self.complete(&mut actions);
                } else {
                    self.fail(GAME_NOT_INSTALLED.to_owned(), &mut actions);
                }
            },
            _ => {},
        }
        assert(actions.deep_view() =~= old(self)@.step(event@).1);
        actions
    }
}

/// What an installation tells from the start of the installer on:
/// `Installing`, and then its last word. That is `Error`, with the
/// installer's path in it, where the installer has not run to a good end,
/// whether the game is there or not; `Error` where it has and the game is
/// not there; and `Complete` where it has and the game is there.
pub open spec fn install_messages(installer: PathView, success: bool, game_found: bool) -> Seq<
    InstallTaskProgressView,
> {
    seq![
        InstallTaskProgressView::Installing,
        if !success {
            InstallTaskProgressView::Error(INSTALLER_FAILED@ + installer.text())
        } else if !game_found {
            InstallTaskProgressView::Error(GAME_NOT_INSTALLED@)
        } else {
            InstallTaskProgressView::Complete
        },
    ]
}

impl InstallTask {
    /// What an installation tells from the start of the installer on, for
    /// the installer at `installer_path`: `success` tells whether the
    /// installer has run to a good end, `game_found` whether the game's
    /// directory is there afterwards.
    pub fn install_step(installer_path: &LocalPath, success: bool, game_found: bool) -> (r: Vec<
        InstallTaskProgress,
    >)
        ensures
            r.deep_view() == install_messages(installer_path@, success, game_found),
    {
        let last = if !success {
            let mut words = INSTALLER_FAILED.to_owned();
            words.append(installer_path.to_text().as_str());
            InstallTaskProgress::Error(words)
        } else if !game_found {
            InstallTaskProgress::Error(GAME_NOT_INSTALLED.to_owned())
        } else {
            InstallTaskProgress::Complete
        };
        let mut messages: Vec<InstallTaskProgress> = Vec::new();
        messages.push(InstallTaskProgress::Installing);
        messages.push(last);
        assert(messages.deep_view() =~= install_messages(installer_path@, success, game_found));
        messages
    }
}

/// The events of an installation from the end of its download on: the
/// download has ended, the installer has run, and the game was looked for.
pub open spec fn install_events(success: bool, game_found: bool) -> Seq<InstallEventView> {
    seq![
        InstallEventView::DownloadClosed,
        InstallEventView::InstallerExited { success },
        InstallEventView::GameFound(game_found),
    ]
}

/// An installation whose download has ended with an installer among its
/// files tells what [`install_messages`] gives: `Installing`, then one last
/// word. Where the installer has not run to a good end, that word is
/// `Error`, the game is not looked for, `Complete` is not told, and the
/// installation has failed.
pub proof fn lemma_install_step(
    task: InstallTaskView,
    installer: PathView,
    success: bool,
    game_found: bool,
)
    requires
        task.phase == InstallPhase::Downloading,
        task.installer_path == Some(installer),
    ensures
        said(task.run(install_events(success, game_found)).1) == install_messages(
            installer,
            success,
            game_found,
        ),
        !success ==> {
            &&& task.run(install_events(success, game_found)).0.phase == InstallPhase::Finished(
                InstallOutcome::Failed,
            )
            &&& forall|i: int|
                0 <= i < task.run(install_events(success, game_found)).1.len() ==> !(
                #[trigger] task.run(install_events(success, game_found)).1[i] is ProbeGame)
        },
        success ==> task.run(install_events(success, game_found)).0.phase
            == InstallPhase::Finished(
            if game_found {
                InstallOutcome::Completed
            } else {
                InstallOutcome::Failed
            },
        ),
{
    reveal_with_fuel(said, 4);
    let events = install_events(success, game_found);
    let one = events.take(1);
    let two = events.take(2);
    assert(events.drop_last() =~= two);
    assert(two.drop_last() =~= one);
    assert(one.drop_last() =~= Seq::<InstallEventView>::empty());
    assert(one.last() == InstallEventView::DownloadClosed);
    assert(two.last() == (InstallEventView::InstallerExited { success }));
    assert(events.last() == InstallEventView::GameFound(game_found));
    let start = task.run(Seq::<InstallEventView>::empty());
    assert(start == (task, Seq::<InstallActionView>::empty()));
    let first = task.step(InstallEventView::DownloadClosed);
    assert(task.run(one) == (first.0, start.1 + first.1));
    let second = first.0.step(InstallEventView::InstallerExited { success });
    assert(task.run(two) == (second.0, (start.1 + first.1) + second.1));
    let third = second.0.step(InstallEventView::GameFound(game_found));
    let all = ((start.1 + first.1) + second.1) + third.1;
    assert(task.run(events) == (third.0, all));
    lemma_said_concat(start.1 + first.1, second.1);
    lemma_said_concat((start.1 + first.1) + second.1, third.1);
    lemma_said_concat(start.1, first.1);
    assert(said(first.1) =~= seq![InstallTaskProgressView::Installing]);
    assert(said(all) =~= install_messages(installer, success, game_found));
    if !success {
        assert(third.1 =~= Seq::<InstallActionView>::empty());
        assert forall|i: int| 0 <= i < all.len() implies !(#[trigger] all[i] is ProbeGame) by {
            assert(all =~= first.1 + second.1);
        }
    }
}

/// The messages among a list of actions, in order.
pub open spec fn said(actions: Seq<InstallActionView>) -> Seq<InstallTaskProgressView>
    decreases actions.len(),
{
    if actions.len() == 0 {
        Seq::empty()
    } else {
        match actions.last() {
            InstallActionView::Send(message) => said(actions.drop_last()).push(message),
            _ => said(actions.drop_last()),
        }
    }
}

/// The messages of two lists of actions, one after the other.
pub proof fn lemma_said_concat(a: Seq<InstallActionView>, b: Seq<InstallActionView>)
    ensures
        said(a + b) == said(a) + said(b),
    decreases b.len(),
{
    if b.len() == 0 {
        assert(a + b =~= a);
        assert(said(a) + said(b) =~= said(a));
    } else {
        lemma_said_concat(a, b.drop_last());
        assert((a + b).drop_last() =~= a + b.drop_last());
        assert((a + b).last() == b.last());
        assert(said(a + b) =~= said(a) + said(b));
    }
}

/// Do the messages agree with the phase? A last word, `Complete` or
/// `Error`, stands at the end and nowhere else, and it is there exactly when
/// the installation has ended in success or in failure.
pub open spec fn ends_once(task: InstallTaskView, messages: Seq<InstallTaskProgressView>) -> bool {
    &&& forall|i: int| 0 <= i < messages.len() - 1 ==> !(#[trigger] messages[i]).is_final()
    &&& task.phase == InstallPhase::Finished(InstallOutcome::Completed) ==> messages.len() > 0
        && messages.last() is Complete
    &&& task.phase == InstallPhase::Finished(InstallOutcome::Failed) ==> messages.len() > 0
        && messages.last() is Error
    &&& !(task.phase == InstallPhase::Finished(InstallOutcome::Completed)) && !(task.phase
        == InstallPhase::Finished(InstallOutcome::Failed)) ==> forall|i: int|
        0 <= i < messages.len() ==> !(#[trigger] messages[i]).is_final()
}

/// One step keeps the messages in agreement with the phase.
pub proof fn lemma_step_ends_once(
    task: InstallTaskView,
    messages: Seq<InstallTaskProgressView>,
    event: InstallEventView,
)
    requires
        ends_once(task, messages),
    ensures
        ends_once(task.step(event).0, messages + said(task.step(event).1)),
{
    reveal_with_fuel(said, 3);
    let next = task.step(event);
    let new = said(next.1);
    let all = messages + new;
    if task.phase is Finished {
        assert(all =~= messages);
    } else {
        assert(new.len() <= 2);
        assert forall|i: int| 0 <= i < all.len() - 1 implies !(#[trigger] all[i]).is_final() by {
            if i < messages.len() {
                assert(all[i] == messages[i]);
            } else {
                assert(all[i] == new[i - messages.len()]);
            }
        }
        if new.len() > 0 {
            assert(all.last() == new.last());
        } else {
            assert(all =~= messages);
        }
    }
}

/// Whatever happens outside, an installation tells one of `Complete` and
/// `Error` at most, as its last word: `Complete` exactly when it has ended
/// in success, `Error` exactly when it has ended in failure, and neither
/// while it goes on or when it was cancelled.
pub proof fn lemma_install_ends_once(
    download_info: Seq<Seq<char>>,
    download_dir: PathView,
    output_dir: PathView,
    events: Seq<InstallEventView>,
)
    ensures
        ({
            let start = begin_installation(download_info, download_dir, output_dir);
            ends_once(start.0.run(events).0, said(start.1 + start.0.run(events).1))
        }),
    decreases events.len(),
{
    reveal_with_fuel(said, 2);
    let start = begin_installation(download_info, download_dir, output_dir);
    assert(said(start.1) =~= Seq::<InstallTaskProgressView>::empty());
    if events.len() == 0 {
        assert(start.1 + Seq::<InstallActionView>::empty() =~= start.1);
    } else {
        lemma_install_ends_once(download_info, download_dir, output_dir, events.drop_last());
        let earlier = start.0.run(events.drop_last());
        let step = earlier.0.step(events.last());
        lemma_step_ends_once(earlier.0, said(start.1 + earlier.1), events.last());
        lemma_said_concat(start.1 + earlier.1, step.1);
        assert(start.1 + (earlier.1 + step.1) =~= (start.1 + earlier.1) + step.1);
    }
}

/// An installation that is cancelled before it is over ends as cancelled
/// and tells nothing, then or later.
pub proof fn lemma_cancelled_install_ends_quietly(
    task: InstallTaskView,
    later: Seq<InstallEventView>,
)
    requires
        !(task.phase is Finished),
    ensures
        task.step(InstallEventView::Cancelled).0.phase == InstallPhase::Finished(
            InstallOutcome::Cancelled,
        ),
        task.step(InstallEventView::Cancelled).1 == Seq::<InstallActionView>::empty(),
        task.step(InstallEventView::Cancelled).0.run(later) == (
            task.step(InstallEventView::Cancelled).0,
            Seq::<InstallActionView>::empty(),
        ),
{
    lemma_over_is_over(task.step(InstallEventView::Cancelled).0, later);
}

/// Once an installation is over, nothing changes it and it asks for nothing.
pub proof fn lemma_over_is_over(task: InstallTaskView, events: Seq<InstallEventView>)
    requires
        task.phase is Finished,
    ensures
        task.run(events) == (task, Seq::<InstallActionView>::empty()),
    decreases events.len(),
{
    if events.len() > 0 {
        lemma_over_is_over(task, events.drop_last());
        assert(Seq::<InstallActionView>::empty() + Seq::<InstallActionView>::empty()
            =~= Seq::<InstallActionView>::empty());
    }
}

} // verus!
