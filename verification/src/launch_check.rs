//! What a profile still needs before the game can be started.
//!
//! The answer depends on the profile, on what is on disk and on what the
//! profile's server publishes. [`check_game_launch`] gives it from all the
//! facts at once. [`LaunchCheck`] gives the same answer while it asks for
//! one fact after the other, and only for those that the answer depends on.

use crate::check_game::{
    any_part_is_stale, clone_download_info, install_url, marker_file, marker_name,
    part_is_stale, part_needs_update, versions_url, DownloadInfo, MarkerRead, MarkerView, Part,
    VersionsInfo, VersionsInfoView,
};
use crate::config::profiles::{AuthKind, Profile, ProfileView};
use crate::path::{LocalPath, PathView};
use crate::tasks::install::GAME_DIRECTORY;
use vstd::prelude::*;

verus! {

/// What a profile needs before the game can be started.
#[derive(Debug)]
pub enum LaunchStatus {
    /// No directory is configured for the game.
    NeedsGameDir,
    /// The game is not installed, and the server offers no installation.
    NeedsInstall,
    /// The game is not installed, and the server offers these files.
    NeedsAndCanInstall { download_info: DownloadInfo },
    /// The mod loader is not installed.
    NeedsAshita,
    /// A part that the server publishes is out of date.
    NeedsUpdate { versions_info: VersionsInfo },
    /// The password has to be asked for.
    NeedsPassword,
    /// Nothing: the game can be started.
    Ready,
}

/// The mathematical model of a [`LaunchStatus`].
pub enum LaunchStatusView {
    NeedsGameDir,
    NeedsInstall,
    NeedsAndCanInstall { download_info: Seq<Seq<char>> },
    NeedsAshita,
    NeedsUpdate { versions_info: VersionsInfoView },
    NeedsPassword,
    Ready,
}

impl View for LaunchStatus {
    type V = LaunchStatusView;

    open spec fn view(&self) -> LaunchStatusView {
        match self {
            LaunchStatus::NeedsGameDir => LaunchStatusView::NeedsGameDir,
            LaunchStatus::NeedsInstall => LaunchStatusView::NeedsInstall,
            LaunchStatus::NeedsAndCanInstall {
                download_info,
            } => LaunchStatusView::NeedsAndCanInstall { download_info: download_info.deep_view() },
            LaunchStatus::NeedsAshita => LaunchStatusView::NeedsAshita,
            LaunchStatus::NeedsUpdate { versions_info } => LaunchStatusView::NeedsUpdate {
                versions_info: versions_info@,
            },
            LaunchStatus::NeedsPassword => LaunchStatusView::NeedsPassword,
            LaunchStatus::Ready => LaunchStatusView::Ready,
        }
    }
}

/// What is on disk and what the server publishes, as far as the status of
/// a profile can depend on it.
#[derive(Debug)]
pub struct LaunchFacts {
    /// Is the game's own directory there, below the configured one?
    pub game_installed: bool,
    /// The files that the server offers for an installation, if it answered.
    pub install_manifest: Option<DownloadInfo>,
    /// Is the mod loader's directory there?
    pub ashita_installed: bool,
    /// What the server publishes, if it answered.
    pub versions: Option<VersionsInfo>,
    /// What reading the boot loader's version marker gave.
    pub bootloader_marker: MarkerRead,
    /// What reading the game data's version marker gave.
    pub dats_marker: MarkerRead,
    /// Is the account's token file there?
    pub token_exists: bool,
}

/// The mathematical model of [`LaunchFacts`].
pub struct LaunchFactsView {
    pub game_installed: bool,
    pub install_manifest: Option<Seq<Seq<char>>>,
    pub ashita_installed: bool,
    pub versions: Option<VersionsInfoView>,
    pub bootloader_marker: MarkerView,
    pub dats_marker: MarkerView,
    pub token_exists: bool,
}

impl View for LaunchFacts {
    type V = LaunchFactsView;

    open spec fn view(&self) -> LaunchFactsView {
        LaunchFactsView {
            game_installed: self.game_installed,
            install_manifest: self.install_manifest.deep_view(),
            ashita_installed: self.ashita_installed,
            versions: self.versions.deep_view(),
            bootloader_marker: self.bootloader_marker@,
            dats_marker: self.dats_marker@,
            token_exists: self.token_exists,
        }
    }
}

impl LaunchFactsView {
    /// What reading the marker of one part gave.
    pub open spec fn marker(self, part: Part) -> MarkerView {
        match part {
            Part::Bootloader => self.bootloader_marker,
            Part::Dats => self.dats_marker,
        }
    }
}

impl ProfileView {
    /// Has the password to be asked for before the game is started? Never
    /// for a retail profile or one that signs in by hand; else when the
    /// token file is missing, when no password is stored, or always,
    /// according to the way the profile signs in.
    pub open spec fn needs_password(self, token_exists: bool) -> bool {
        !self.is_retail && !self.manual_auth && match self.auth_kind {
            AuthKind::Token => !(self.token_path() is Some && token_exists),
            AuthKind::Password => self.password is None,
            AuthKind::ManualPassword => true,
        }
    }

    /// What the server publishes, where a part of it is out of date.
    pub open spec fn stale_versions(self, facts: LaunchFactsView) -> Option<VersionsInfoView> {
        match facts.versions {
            Some(versions) => if self.asks_server() && any_part_is_stale(
                versions,
                facts.bootloader_marker,
                facts.dats_marker,
            ) {
                Some(versions)
            } else {
                None
            },
            None => None,
        }
    }

    /// The game's own directory, below the configured one.
    pub open spec fn game_path(self) -> Option<PathView> {
        match self.install.directory {
            Some(directory) => Some(directory.join(GAME_DIRECTORY@)),
            None => None,
        }
    }

    /// The version marker of one part, as the check looks for it.
    pub open spec fn marker_path(self, part: Part) -> Option<PathView> {
        match self.install.ashita_dir() {
            Some(directory) => Some(directory.join(marker_name(part, self.server_filename()))),
            None => None,
        }
    }
}

/// What a profile needs before the game can be started: the first of these
/// that applies. A directory for the game; the game itself, with the files
/// that the server offers if it offers any; the mod loader; an update, if a
/// part that the server publishes is out of date; the password; nothing.
pub open spec fn launch_status(profile: ProfileView, facts: LaunchFactsView) -> LaunchStatusView {
    if profile.install.directory is None {
        LaunchStatusView::NeedsGameDir
    } else if !facts.game_installed {
        match facts.install_manifest {
            Some(download_info) => if profile.asks_server() {
                LaunchStatusView::NeedsAndCanInstall { download_info }
            } else {
                LaunchStatusView::NeedsInstall
            },
            None => LaunchStatusView::NeedsInstall,
        }
    } else if !facts.ashita_installed {
        LaunchStatusView::NeedsAshita
    } else if profile.stale_versions(facts) is Some {
        LaunchStatusView::NeedsUpdate { versions_info: profile.stale_versions(facts)->0 }
    } else if profile.needs_password(facts.token_exists) {
        LaunchStatusView::NeedsPassword
    } else {
        LaunchStatusView::Ready
    }
}

/// Has the password to be asked for before the game is started?
pub fn needs_password(profile: &Profile, token_exists: bool) -> (r: bool)
    ensures
        r == profile@.needs_password(token_exists),
{
    if profile.is_retail || profile.manual_auth {
        return false;
    }
    match profile.auth_kind {
        AuthKind::Token => !(profile.get_token_path().is_some() && token_exists),
        AuthKind::Password => profile.password.is_none(),
        AuthKind::ManualPassword => true,
    }
}

/// What the profile needs before the game can be started, from all the facts.
pub fn check_game_launch(profile: &Profile, facts: &LaunchFacts) -> (r: LaunchStatus)
    ensures
        r@ == launch_status(profile@, facts@),
{
    let asks_server = !profile.is_retail && profile.server.is_some();
    if profile.install.directory.is_none() {
        return LaunchStatus::NeedsGameDir;
    }
    if !facts.game_installed {
        return match &facts.install_manifest {
            Some(download_info) => if asks_server {
                LaunchStatus::NeedsAndCanInstall {
                    download_info: clone_download_info(download_info),
                }
            } else {
                LaunchStatus::NeedsInstall
            },
            None => LaunchStatus::NeedsInstall,
        };
    }
    if !facts.ashita_installed {
        return LaunchStatus::NeedsAshita;
    }
    match &facts.versions {
        Some(versions) => {
            if asks_server && (part_needs_update(
                &versions.bootloader,
                &facts.bootloader_marker,
            ).is_some() || part_needs_update(&versions.dats, &facts.dats_marker).is_some()) {
                return LaunchStatus::NeedsUpdate { versions_info: versions.clone() };
            }
        },
        None => {},
    }
    if needs_password(profile, facts.token_exists) {
        LaunchStatus::NeedsPassword
    } else {
        LaunchStatus::Ready
    }
}

/// A fact that the check asks for.
#[derive(Debug)]
pub enum LaunchQuery {
    /// Is there a directory or a file at `path`? Answer with `Exists`.
    Exists { path: LocalPath },
    /// Which files does the server offer for an installation, at `url`?
    /// Answer with `InstallManifest`: `None` where it gives no list.
    FetchInstall { url: String },
    /// What does the server publish, at `url`? Answer with `Versions`:
    /// `None` where it gives no list.
    FetchVersions { url: String },
    /// What does the version marker at `path` hold? Answer with `Marker`.
    ReadMarker { path: LocalPath },
}

/// The mathematical model of a [`LaunchQuery`].
pub enum LaunchQueryView {
    Exists { path: PathView },
    FetchInstall { url: Seq<char> },
    FetchVersions { url: Seq<char> },
    ReadMarker { path: PathView },
}

impl View for LaunchQuery {
    type V = LaunchQueryView;

    open spec fn view(&self) -> LaunchQueryView {
        match self {
            LaunchQuery::Exists { path } => LaunchQueryView::Exists { path: path@ },
            LaunchQuery::FetchInstall { url } => LaunchQueryView::FetchInstall { url: url@ },
            LaunchQuery::FetchVersions { url } => LaunchQueryView::FetchVersions { url: url@ },
            LaunchQuery::ReadMarker { path } => LaunchQueryView::ReadMarker { path: path@ },
        }
    }
}

/// The answer to a [`LaunchQuery`].
#[derive(Debug)]
pub enum LaunchAnswer {
    Exists(bool),
    InstallManifest(Option<DownloadInfo>),
    Versions(Option<VersionsInfo>),
    Marker(MarkerRead),
}

/// The mathematical model of a [`LaunchAnswer`].
pub enum LaunchAnswerView {
    Exists(bool),
    InstallManifest(Option<Seq<Seq<char>>>),
    Versions(Option<VersionsInfoView>),
    Marker(MarkerView),
}

impl View for LaunchAnswer {
    type V = LaunchAnswerView;

    open spec fn view(&self) -> LaunchAnswerView {
        match self {
            LaunchAnswer::Exists(exists) => LaunchAnswerView::Exists(*exists),
            LaunchAnswer::InstallManifest(info) => LaunchAnswerView::InstallManifest(
                info.deep_view(),
            ),
            LaunchAnswer::Versions(versions) => LaunchAnswerView::Versions(versions.deep_view()),
            LaunchAnswer::Marker(marker) => LaunchAnswerView::Marker(marker@),
        }
    }
}

/// What the check does next.
#[derive(Debug)]
pub enum LaunchStep {
    /// It asks for a fact.
    Ask(LaunchQuery),
    /// It has found the status.
    Done(LaunchStatus),
    /// The answer given is not one to the question asked, or no question
    /// was open; the check stays where it was.
    Unexpected,
}

/// The mathematical model of a [`LaunchStep`].
pub enum LaunchStepView {
    Ask(LaunchQueryView),
    Done(LaunchStatusView),
    Unexpected,
}

impl View for LaunchStep {
    type V = LaunchStepView;

    open spec fn view(&self) -> LaunchStepView {
        match self {
            LaunchStep::Ask(query) => LaunchStepView::Ask(query@),
            LaunchStep::Done(status) => LaunchStepView::Done(status@),
            LaunchStep::Unexpected => LaunchStepView::Unexpected,
        }
    }
}

/// The question that is open.
#[derive(Debug, Clone, Copy, PartialEq, Eq, Structural)]
pub enum LaunchStage {
    /// Is the game installed?
    Game,
    /// Which files does the server offer for an installation?
    InstallManifest,
    /// Is the mod loader installed?
    Ashita,
    /// What does the server publish?
    Versions,
    /// What does the version marker of the part hold?
    Marker(Part),
    /// Is the account's token file there?
    Token,
    /// None: the status was found.
    Decided,
}

/// A check under way: the question that is open, and what the server
/// publishes, once that is known.
#[derive(Debug)]
pub struct LaunchCheck {
    pub stage: LaunchStage,
    pub versions: Option<VersionsInfo>,
}

/// The mathematical model of a [`LaunchCheck`].
pub struct LaunchCheckView {
    pub stage: LaunchStage,
    pub versions: Option<VersionsInfoView>,
}

impl View for LaunchCheck {
    type V = LaunchCheckView;

    open spec fn view(&self) -> LaunchCheckView {
        LaunchCheckView { stage: self.stage, versions: self.versions.deep_view() }
    }
}

impl LaunchCheckView {
    /// The check with another question open.
    pub open spec fn at(self, stage: LaunchStage) -> LaunchCheckView {
        LaunchCheckView { stage, ..self }
    }

    /// The check ends with `status`.
    pub open spec fn decide(self, status: LaunchStatusView) -> (LaunchCheckView, LaunchStepView) {
        (self.at(LaunchStage::Decided), LaunchStepView::Done(status))
    }

    /// The last part of the check: the password.
    pub open spec fn turn_to_password(self, profile: ProfileView) -> (
        LaunchCheckView,
        LaunchStepView,
    ) {
        if !profile.is_retail && !profile.manual_auth && profile.auth_kind == AuthKind::Token
            && profile.token_path() is Some {
            (
                self.at(LaunchStage::Token),
                LaunchStepView::Ask(LaunchQueryView::Exists { path: profile.token_path()->0 }),
            )
        } else if profile.needs_password(false) {
            self.decide(LaunchStatusView::NeedsPassword)
        } else {
            self.decide(LaunchStatusView::Ready)
        }
    }

    /// The check turns to the marker of `part` if the server publishes the
    /// part, and beyond it if not.
    pub open spec fn turn_to_marker(self, profile: ProfileView, part: Part) -> (
        LaunchCheckView,
        LaunchStepView,
    ) {
        match (self.versions, profile.marker_path(part)) {
            (Some(versions), Some(path)) => if versions.entry(part) is Some {
                (
                    self.at(LaunchStage::Marker(part)),
                    LaunchStepView::Ask(LaunchQueryView::ReadMarker { path }),
                )
            } else {
                self.pass_marker(profile, part)
            },
            _ => self.pass_marker(profile, part),
        }
    }

    /// The check turns to what comes after the marker of `part`.
    pub open spec fn pass_marker(self, profile: ProfileView, part: Part) -> (
        LaunchCheckView,
        LaunchStepView,
    ) {
        match part {
            Part::Bootloader => match (self.versions, profile.marker_path(Part::Dats)) {
                (Some(versions), Some(path)) => if versions.dats is Some {
                    (
                        self.at(LaunchStage::Marker(Part::Dats)),
                        LaunchStepView::Ask(LaunchQueryView::ReadMarker { path }),
                    )
                } else {
                    self.turn_to_password(profile)
                },
                _ => self.turn_to_password(profile),
            },
            Part::Dats => self.turn_to_password(profile),
        }
    }

    /// The check turns to what the server publishes.
    pub open spec fn turn_to_versions(self, profile: ProfileView) -> (
        LaunchCheckView,
        LaunchStepView,
    ) {
        match profile.versions_url() {
            Some(url) => (
                self.at(LaunchStage::Versions),
                LaunchStepView::Ask(LaunchQueryView::FetchVersions { url }),
            ),
            None => self.turn_to_password(profile),
        }
    }

    /// The next step of the check when the open question is answered.
    pub open spec fn answer(self, profile: ProfileView, answer: LaunchAnswerView) -> (
        LaunchCheckView,
        LaunchStepView,
    ) {
        match (self.stage, answer) {
            (LaunchStage::Game, LaunchAnswerView::Exists(exists)) => if exists {
                match profile.install.ashita_dir() {
                    Some(path) => (
                        self.at(LaunchStage::Ashita),
                        LaunchStepView::Ask(LaunchQueryView::Exists { path }),
                    ),
                    None => self.decide(LaunchStatusView::NeedsAshita),
                }
            } else {
                match profile.install_url() {
                    Some(url) => (
                        self.at(LaunchStage::InstallManifest),
                        LaunchStepView::Ask(LaunchQueryView::FetchInstall { url }),
                    ),
                    None => self.decide(LaunchStatusView::NeedsInstall),
                }
            },
            (LaunchStage::InstallManifest, LaunchAnswerView::InstallManifest(manifest)) => {
                match manifest {
                    Some(download_info) => self.decide(
                        LaunchStatusView::NeedsAndCanInstall { download_info },
                    ),
                    None => self.decide(LaunchStatusView::NeedsInstall),
                }
            },
            (LaunchStage::Ashita, LaunchAnswerView::Exists(exists)) => if exists {
                self.turn_to_versions(profile)
            } else {
                self.decide(LaunchStatusView::NeedsAshita)
            },
            (LaunchStage::Versions, LaunchAnswerView::Versions(versions)) => LaunchCheckView {
                versions,
                ..self
            }.turn_to_marker(profile, Part::Bootloader),
            (LaunchStage::Marker(part), LaunchAnswerView::Marker(marker)) => match self.versions {
                Some(versions) => if part_is_stale(versions.entry(part), marker) {
                    self.decide(LaunchStatusView::NeedsUpdate { versions_info: versions })
                } else {
                    self.pass_marker(profile, part)
                },
                None => self.pass_marker(profile, part),
            },
            (LaunchStage::Token, LaunchAnswerView::Exists(exists)) => if exists {
                self.decide(LaunchStatusView::Ready)
            } else {
                self.decide(LaunchStatusView::NeedsPassword)
            },
            _ => (self, LaunchStepView::Unexpected),
        }
    }
}

/// The check as it begins for a profile, and its first step.
pub open spec fn begin_check(profile: ProfileView) -> (LaunchCheckView, LaunchStepView) {
    match profile.game_path() {
        Some(path) => (
            LaunchCheckView { stage: LaunchStage::Game, versions: None },
            LaunchStepView::Ask(LaunchQueryView::Exists { path }),
        ),
        None => (
            LaunchCheckView { stage: LaunchStage::Decided, versions: None },
            LaunchStepView::Done(LaunchStatusView::NeedsGameDir),
        ),
    }
}

/// The answer that the facts give to the question that is open.
pub open spec fn answer_from(facts: LaunchFactsView, stage: LaunchStage) -> LaunchAnswerView {
    match stage {
        LaunchStage::Game => LaunchAnswerView::Exists(facts.game_installed),
        LaunchStage::InstallManifest => LaunchAnswerView::InstallManifest(facts.install_manifest),
        LaunchStage::Ashita => LaunchAnswerView::Exists(facts.ashita_installed),
        LaunchStage::Versions => LaunchAnswerView::Versions(facts.versions),
        LaunchStage::Marker(part) => LaunchAnswerView::Marker(facts.marker(part)),
        LaunchStage::Token => LaunchAnswerView::Exists(facts.token_exists),
        LaunchStage::Decided => LaunchAnswerView::Exists(false),
    }
}

/// The status that the check finds when every question is answered as the
/// facts tell, within `questions` questions; `None` if it takes more.
pub open spec fn conclude(
    profile: ProfileView,
    facts: LaunchFactsView,
    check: LaunchCheckView,
    step: LaunchStepView,
    questions: nat,
) -> Option<LaunchStatusView>
    decreases questions,
{
    match step {
        LaunchStepView::Done(status) => Some(status),
        LaunchStepView::Ask(_) => if questions == 0 {
            None
        } else {
            let next = check.answer(profile, answer_from(facts, check.stage));
            conclude(profile, facts, next.0, next.1, (questions - 1) as nat)
        },
        LaunchStepView::Unexpected => None,
    }
}

proof fn lemma_password_concludes(
    profile: ProfileView,
    facts: LaunchFactsView,
    check: LaunchCheckView,
    questions: nat,
)
    requires
        questions >= 1,
    ensures
        conclude(
            profile,
            facts,
            check.turn_to_password(profile).0,
            check.turn_to_password(profile).1,
            questions,
        ) == Some(
            if profile.needs_password(facts.token_exists) {
                LaunchStatusView::NeedsPassword
            } else {
                LaunchStatusView::Ready
            },
        ),
{
    reveal_with_fuel(conclude, 3);
}

proof fn lemma_markers_conclude(
    profile: ProfileView,
    facts: LaunchFactsView,
    check: LaunchCheckView,
    questions: nat,
)
    requires
        questions >= 3,
        check.versions == facts.versions,
        profile.install.ashita_dir() is Some,
        profile.asks_server(),
    ensures
        conclude(
            profile,
            facts,
            check.turn_to_marker(profile, Part::Bootloader).0,
            check.turn_to_marker(profile, Part::Bootloader).1,
            questions,
        ) == Some(
            if profile.stale_versions(facts) is Some {
                LaunchStatusView::NeedsUpdate { versions_info: profile.stale_versions(facts)->0 }
            } else if profile.needs_password(facts.token_exists) {
                LaunchStatusView::NeedsPassword
            } else {
                LaunchStatusView::Ready
            },
        ),
{
    reveal_with_fuel(conclude, 3);
    let first = check.turn_to_marker(profile, Part::Bootloader);
    lemma_password_concludes(profile, facts, check, questions);
    lemma_password_concludes(profile, facts, check, (questions - 1) as nat);
    lemma_password_concludes(profile, facts, check, (questions - 2) as nat);
    lemma_password_concludes(
        profile,
        facts,
        check.at(LaunchStage::Marker(Part::Bootloader)),
        (questions - 1) as nat,
    );
    lemma_password_concludes(
        profile,
        facts,
        check.at(LaunchStage::Marker(Part::Dats)),
        (questions - 1) as nat,
    );
    lemma_password_concludes(
        profile,
        facts,
        check.at(LaunchStage::Marker(Part::Dats)),
        (questions - 2) as nat,
    );
    lemma_password_concludes(
        profile,
        facts,
        check.at(LaunchStage::Marker(Part::Bootloader)).at(LaunchStage::Marker(Part::Dats)),
        (questions - 2) as nat,
    );
}

/// A check whose questions are answered as the facts tell finds, within
/// seven questions, the status that the facts give.
pub proof fn lemma_check_finds_status(profile: ProfileView, facts: LaunchFactsView)
    ensures
        conclude(profile, facts, begin_check(profile).0, begin_check(profile).1, 7) == Some(
            launch_status(profile, facts),
        ),
{
    reveal_with_fuel(conclude, 4);
    let start = begin_check(profile);
    if profile.install.directory is Some && facts.game_installed && facts.ashita_installed {
        let at_ashita = start.0.at(LaunchStage::Ashita);
        if profile.asks_server() {
            let known = LaunchCheckView {
                versions: facts.versions,
                ..at_ashita.at(LaunchStage::Versions)
            };
            lemma_markers_conclude(profile, facts, known, 4);
        } else {
            lemma_password_concludes(profile, facts, at_ashita, 5);
        }
    }
}

impl LaunchCheck {
    fn decide(&mut self, status: LaunchStatus) -> (step: LaunchStep)
        ensures
            (final(self)@, step@) == old(self)@.decide(status@),
    {
        self.stage = LaunchStage::Decided;
        LaunchStep::Done(status)
    }

    fn turn_to_password(&mut self, profile: &Profile) -> (step: LaunchStep)
        ensures
            (final(self)@, step@) == old(self)@.turn_to_password(profile@),
    {
        if !profile.is_retail && !profile.manual_auth {
            match profile.auth_kind {
                AuthKind::Token => {
                    match profile.get_token_path() {
                        Some(path) => {
                            self.stage = LaunchStage::Token;
                            return LaunchStep::Ask(LaunchQuery::Exists { path });
                        },
                        None => {},
                    }
                },
                _ => {},
            }
        }
        if needs_password(profile, false) {
            self.decide(LaunchStatus::NeedsPassword)
        } else {
            self.decide(LaunchStatus::Ready)
        }
    }

    fn marker_path(profile: &Profile, part: Part) -> (r: Option<LocalPath>)
        ensures
            r.deep_view() == profile@.marker_path(part),
    {
        match profile.install.get_ashita_dir() {
            Some(directory) => Some(
                directory.join(marker_file(part, profile.get_server_filename().as_str()).as_str()),
            ),
            None => None,
        }
    }

    fn pass_marker(&mut self, profile: &Profile, part: Part) -> (step: LaunchStep)
        ensures
            (final(self)@, step@) == old(self)@.pass_marker(profile@, part),
    {
        match part {
            Part::Bootloader => {
                let published = match &self.versions {
                    Some(versions) => versions.dats.is_some(),
                    None => false,
                };
                if published {
                    match Self::marker_path(profile, Part::Dats) {
                        Some(path) => {
                            self.stage = LaunchStage::Marker(Part::Dats);
                            return LaunchStep::Ask(LaunchQuery::ReadMarker { path });
                        },
                        None => {},
                    }
                }
                self.turn_to_password(profile)
            },
            Part::Dats => self.turn_to_password(profile),
        }
    }

    fn turn_to_marker(&mut self, profile: &Profile, part: Part) -> (step: LaunchStep)
        ensures
            (final(self)@, step@) == old(self)@.turn_to_marker(profile@, part),
    {
        let published = match &self.versions {
            Some(versions) => versions.entry(part).is_some(),
            None => false,
        };
        if published {
            match Self::marker_path(profile, part) {
                Some(path) => {
                    self.stage = LaunchStage::Marker(part);
                    return LaunchStep::Ask(LaunchQuery::ReadMarker { path });
                },
                None => {},
            }
        }
        self.pass_marker(profile, part)
    }

    /// Begins the check for a profile.
    pub fn begin(profile: &Profile) -> (r: (LaunchCheck, LaunchStep))
        ensures
            (r.0@, r.1@) == begin_check(profile@),
    {
        match &profile.install.directory {
            Some(directory) => (
                LaunchCheck { stage: LaunchStage::Game, versions: None },
                LaunchStep::Ask(LaunchQuery::Exists { path: directory.join(GAME_DIRECTORY) }),
            ),
            None => (
                LaunchCheck { stage: LaunchStage::Decided, versions: None },
                LaunchStep::Done(LaunchStatus::NeedsGameDir),
            ),
        }
    }

    /// Takes the answer to the open question and tells what comes next.
    pub fn answer(&mut self, profile: &Profile, answer: LaunchAnswer) -> (step: LaunchStep)
        ensures
            (final(self)@, step@) == old(self)@.answer(profile@, answer@),
    {
        let stage = self.stage;
        match (stage, answer) {
            (LaunchStage::Game, LaunchAnswer::Exists(exists)) => {
                if exists {
                    match profile.install.get_ashita_dir() {
                        Some(path) => {
                            self.stage = LaunchStage::Ashita;
                            LaunchStep::Ask(LaunchQuery::Exists { path })
                        },
                        None => self.decide(LaunchStatus::NeedsAshita),
                    }
                } else {
                    match install_url(profile) {
                        Some(url) => {
                            self.stage = LaunchStage::InstallManifest;
                            LaunchStep::Ask(LaunchQuery::FetchInstall { url })
                        },
                        None => self.decide(LaunchStatus::NeedsInstall),
                    }
                }
            },
            (LaunchStage::InstallManifest, LaunchAnswer::InstallManifest(manifest)) => {
                match manifest {
                    Some(download_info) => self.decide(
                        LaunchStatus::NeedsAndCanInstall { download_info },
                    ),
                    None => self.decide(LaunchStatus::NeedsInstall),
                }
            },
            (LaunchStage::Ashita, LaunchAnswer::Exists(exists)) => {
                if exists {
                    match versions_url(profile) {
                        Some(url) => {
                            self.stage = LaunchStage::Versions;
                            LaunchStep::Ask(LaunchQuery::FetchVersions { url })
                        },
                        None => self.turn_to_password(profile),
                    }
                } else {
                    self.decide(LaunchStatus::NeedsAshita)
                }
            },
            (LaunchStage::Versions, LaunchAnswer::Versions(versions)) => {
                self.versions = versions;
                self.turn_to_marker(profile, Part::Bootloader)
            },
            (LaunchStage::Marker(part), LaunchAnswer::Marker(marker)) => {
                let stale = match &self.versions {
                    Some(versions) => if part_needs_update(versions.entry(part), &marker).is_some() {
                        Some(versions.clone())
                    } else {
                        None
                    },
                    None => None,
                };
                match stale {
                    Some(versions_info) => self.decide(LaunchStatus::NeedsUpdate { versions_info }),
                    None => self.pass_marker(profile, part),
                }
            },
            (LaunchStage::Token, LaunchAnswer::Exists(exists)) => {
                if exists {
                    self.decide(LaunchStatus::Ready)
                } else {
                    self.decide(LaunchStatus::NeedsPassword)
                }
            },
            _ => LaunchStep::Unexpected,
        }
    }
}

} // verus!
