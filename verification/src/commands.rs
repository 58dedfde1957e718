//! What the launcher's commands decide and change.
//!
//! A command's work on the state stands here; reading and writing files,
//! asking servers and starting programs is left to the caller.

use crate::check_game::{DownloadInfo, VersionsInfo};
use crate::config::profiles::{
    next_id, AuthKind, Profile, ProfileView, Profiles, ProfilesView,
};
use crate::launch_check::{LaunchStatus, LaunchStatusView};
use crate::path::{extension, extension_of, file_stem, stem_of};
use crate::state::AppStateData;
use crate::task_registry::TaskRegistry;
use crate::tasks::install::{begin_installation, InstallAction, InstallTask};
use crate::text::{count_string, decimal, decimal_string};
use tokio_util::sync::CancellationToken;
use vstd::prelude::*;
use vstd::string::StringExecFns;

verus! {

broadcast use {vstd::std_specs::btree::group_btree_axioms, vstd::laws_cmp::group_laws_cmp};

/// Why a command could not do its work.
#[derive(Debug, Clone, Copy, PartialEq, Eq, Structural)]
pub enum CommandError {
    /// There is no profile with this id to save to or to copy.
    NoProfileWithId { id: u32 },
    /// A place in the list of profiles lies beyond its end.
    CannotMove { len: usize, from: usize, to: usize },
    /// There is no profile with the id given.
    ProfileNotFound,
    /// There is no profile with the id given to check.
    ProfileIndexNotFound,
    /// The profile names no server.
    ServerHasNoName,
    /// The profile names no directory for the game.
    NoGameDirectory,
}

impl CommandError {
    /// The error in words.
    pub open spec fn text(self) -> Seq<char> {
        match self {
            CommandError::NoProfileWithId { id } => "No profile found with ID "@ + decimal(
                id as nat,
            ),
            CommandError::CannotMove { len, from, to } => "Only "@ + decimal(len as nat)
                + " profiles. Can't move from "@ + decimal(from as nat) + " to "@ + decimal(
                to as nat,
            ),
            CommandError::ProfileNotFound => "No profile with the given ID found."@,
            CommandError::ProfileIndexNotFound => "No profile with the given index found."@,
            CommandError::ServerHasNoName => "Expected server to have a name."@,
            CommandError::NoGameDirectory => "Expected game directory."@,
        }
    }

    /// The error in words.
    pub fn message(&self) -> (r: String)
        ensures
            r@ == self.text(),
    {
        match self {
            CommandError::NoProfileWithId { id } => "No profile found with ID ".to_owned().concat(
                decimal_string(*id).as_str(),
            ),
            CommandError::CannotMove { len, from, to } => {
                let mut words = "Only ".to_owned();
                words.append(count_string(*len).as_str());
                words.append(" profiles. Can't move from ");
                words.append(count_string(*from).as_str());
                words.append(" to ");
                words.append(count_string(*to).as_str());
                words
            },
            CommandError::ProfileNotFound => "No profile with the given ID found.".to_owned(),
            CommandError::ProfileIndexNotFound => "No profile with the given index found.".to_owned(),
            CommandError::ServerHasNoName => "Expected server to have a name.".to_owned(),
            CommandError::NoGameDirectory => "Expected game directory.".to_owned(),
        }
    }
}

/// What starting a profile came to.
#[derive(Debug)]
pub enum StartProfileResult {
    Started,
    NeedsPassword { account_name: Option<String> },
}

/// The mathematical model of a [`StartProfileResult`].
pub enum StartProfileResultView {
    Started,
    NeedsPassword { account_name: Option<Seq<char>> },
}

impl View for StartProfileResult {
    type V = StartProfileResultView;

    open spec fn view(&self) -> StartProfileResultView {
        match self {
            StartProfileResult::Started => StartProfileResultView::Started,
            StartProfileResult::NeedsPassword {
                account_name,
            } => StartProfileResultView::NeedsPassword { account_name: account_name.deep_view() },
        }
    }
}

/// The profiles with `profile` added under the next id, at the end of the list.
pub open spec fn with_new_profile(profiles: ProfilesView, profile: ProfileView) -> ProfilesView {
    ProfilesView {
        ids: profiles.ids.push(next_id(profiles.ids) as u32),
        map: profiles.map.insert(
            next_id(profiles.ids) as u32,
            ProfileView { id: next_id(profiles.ids) as u32, ..profile },
        ),
    }
}

/// The place of the first `id` in `ids`, or the length of `ids` where it
/// has none.
pub open spec fn first_place(ids: Seq<u32>, id: u32) -> int
    decreases ids.len(),
{
    if ids.len() == 0 || ids[0] == id {
        0
    } else {
        1 + first_place(ids.drop_first(), id)
    }
}

/// `ids` without the first `id`.
pub open spec fn without_first(ids: Seq<u32>, id: u32) -> Seq<u32> {
    if 0 <= first_place(ids, id) < ids.len() {
        ids.remove(first_place(ids, id))
    } else {
        ids
    }
}

/// The list after the entry at `from` was moved towards `to`: it comes to
/// stand right before the entry that stood at `to`.
pub open spec fn moved(ids: Seq<u32>, from: int, to: int) -> Seq<u32> {
    if from < to {
        ids.remove(from).insert(to - 1, ids[from])
    } else {
        ids
    }
}

/// Saves a profile: in place of the one with the id given, or, with no id,
/// as a new one.
pub fn save_profile(profiles: &mut Profiles, id: Option<u32>, profile: Profile) -> (r: Result<
    (),
    CommandError,
>)
    requires
        id is None ==> next_id(old(profiles)@.ids) <= u32::MAX,
    ensures
        match id {
            Some(existing) => if old(profiles)@.map.contains_key(existing) {
                r is Ok && final(profiles)@ == (ProfilesView {
                    ids: old(profiles)@.ids,
                    map: old(profiles)@.map.insert(existing, profile@),
                })
            } else {
                r == Err::<(), CommandError>(CommandError::NoProfileWithId { id: existing })
                    && final(profiles)@ == old(profiles)@
            },
            None => r is Ok && final(profiles)@ == with_new_profile(old(profiles)@, profile@),
        },
{
    match id {
        Some(existing) => {
            if profiles.map.contains_key(&existing) {
                profiles.map.insert(existing, profile);
                assert(profiles@.map =~= old(profiles)@.map.insert(existing, profile@));
                Ok(())
            } else {
                Err(CommandError::NoProfileWithId { id: existing })
            }
        },
        None => {
            profiles.add_new_profile(profile);
            Ok(())
        },
    }
}

/// Adds a copy of the profile with the id given as a new profile.
pub fn duplicate_profile(profiles: &mut Profiles, id: u32) -> (r: Result<(), CommandError>)
    requires
        old(profiles)@.map.contains_key(id) ==> next_id(old(profiles)@.ids) <= u32::MAX,
    ensures
        if old(profiles)@.map.contains_key(id) {
            r is Ok && final(profiles)@ == with_new_profile(
                old(profiles)@,
                old(profiles)@.map[id],
            )
        } else {
            r == Err::<(), CommandError>(CommandError::NoProfileWithId { id }) && final(profiles)@
                == old(profiles)@
        },
{
    let copy = match profiles.get(id) {
        Some(profile) => Some(profile.clone()),
        None => None,
    };
    match copy {
        Some(profile) => {
            profiles.add_new_profile(profile);
            Ok(())
        },
        None => Err(CommandError::NoProfileWithId { id }),
    }
}

/// Moves the entry at `from_index` in the list of profiles towards
/// `to_index`. Tells whether the list has changed.
pub fn move_profile(profiles: &mut Profiles, from_index: usize, to_index: usize) -> (r: Result<
    bool,
    CommandError,
>)
    requires
        from_index <= to_index || old(profiles).ids.len() <= from_index,
    ensures
        final(profiles)@.map == old(profiles)@.map,
        if old(profiles)@.ids.len() <= from_index || old(profiles)@.ids.len() <= to_index {
            r == Err::<bool, CommandError>(
                CommandError::CannotMove {
                    len: old(profiles).ids.len(),
                    from: from_index,
                    to: to_index,
                },
            ) && final(profiles)@.ids == old(profiles)@.ids
        } else {
            r == Ok::<bool, CommandError>(from_index != to_index) && final(profiles)@.ids == moved(
                old(profiles)@.ids,
                from_index as int,
                to_index as int,
            )
        },
{
    let len = profiles.ids.len();
    if len <= from_index || len <= to_index {
        return Err(CommandError::CannotMove { len, from: from_index, to: to_index });
    }
    if from_index == to_index {
        return Ok(false);
    }
    let id = profiles.ids.remove(from_index);
    profiles.ids.insert(to_index - 1, id);
    Ok(true)
}

/// The place of the first `id` in the list, if it has one.
fn position(ids: &Vec<u32>, id: u32) -> (r: Option<usize>)
    ensures
        match r {
            Some(i) => i < ids.len() && i == first_place(ids@, id),
            None => first_place(ids@, id) == ids.len(),
        },
{
    let mut i: usize = 0;
    assert(ids@.skip(0) =~= ids@);
    while i < ids.len()
        invariant
            i <= ids.len(),
            first_place(ids@, id) == i + first_place(ids@.skip(i as int), id),
        decreases ids.len() - i,
    {
        if ids[i] == id {
            return Some(i);
        }
        assert(ids@.skip(i as int).drop_first() =~= ids@.skip(i + 1));
        i += 1;
    }
    None
}

/// Deletes the profile with the id given, and its first entry in the list.
/// Tells whether there was such a profile.
pub fn delete_profile(profiles: &mut Profiles, id: u32) -> (r: bool)
    ensures
        r == old(profiles)@.map.contains_key(id),
        final(profiles)@.map == old(profiles)@.map.remove(id),
        final(profiles)@.ids == if r {
            without_first(old(profiles)@.ids, id)
        } else {
            old(profiles)@.ids
        },
{
    let removed = profiles.map.remove(&id);
    assert(profiles@.map =~= old(profiles)@.map.remove(id));
    match removed {
        Some(_) => {
            match position(&profiles.ids, id) {
                Some(place) => {
                    profiles.ids.remove(place);
                },
                None => {},
            }
            true
        },
        None => false,
    }
}

impl ProfileView {
    /// Has the password to be asked for when the profile is started? Never
    /// for a profile that signs in by hand; else when the token file is
    /// missing, when no password is stored, or always, according to the way
    /// the profile signs in.
    pub open spec fn requests_password(self, token_exists: bool) -> bool {
        !self.manual_auth && match self.auth_kind {
            AuthKind::Token => !(self.token_path() is Some && token_exists),
            AuthKind::ManualPassword => true,
            AuthKind::Password => self.password is None,
        }
    }
}

/// Has the password to be asked for when the profile is started?
/// `token_exists` tells whether the account's token file is there.
pub fn should_request_password(profile: &Profile, token_exists: bool) -> (r: bool)
    ensures
        r == profile@.requests_password(token_exists),
{
    if profile.manual_auth {
        return false;
    }
    match profile.auth_kind {
        AuthKind::Token => !(profile.get_token_path().is_some() && token_exists),
        AuthKind::ManualPassword => true,
        AuthKind::Password => profile.password.is_none(),
    }
}

/// Cancels the pipeline that is under way for the profile, if there is
/// one. Tells whether there was one. The profile's entry leaves the
/// registry; every other profile keeps its own signal.
pub fn cancel_possible_profile_task(tasks: &mut TaskRegistry, id: u32) -> (r: bool)
    ensures
        r == old(tasks)@.contains_key(id),
        final(tasks)@ == old(tasks)@.remove(id),
{
    tasks.cancel(id)
}

/// The name under which what a profile's server publishes is cached.
pub open spec fn cache_key(profile: ProfileView) -> Seq<char> {
    match profile.server {
        Some(server) => server,
        None => Seq::empty(),
    }
}

/// Keeps what the server published, where the check of a profile has found
/// that an update is needed, for the update to make use of.
pub fn check_launch_profile(state: &mut AppStateData, id: u32, status: &LaunchStatus) -> (r: Result<
    (),
    CommandError,
>)
    requires
        old(state).wf(),
    ensures
        final(state).wf(),
        final(state).profiles == old(state).profiles,
        final(state).ongoing_tasks == old(state).ongoing_tasks,
        if !old(state).profiles@.map.contains_key(id) {
            r == Err::<(), CommandError>(CommandError::ProfileIndexNotFound)
                && final(state).update_cache@ == old(state).update_cache@
        } else {
            r is Ok && final(state).update_cache@ == (match status@ {
                LaunchStatusView::NeedsUpdate { versions_info } => old(state).update_cache@.insert(
                    cache_key(old(state).profiles@.map[id]),
                    versions_info,
                ),
                _ => old(state).update_cache@,
            })
        },
{
    let server = match state.profiles.get(id) {
        Some(profile) => Some(
            match &profile.server {
                Some(server) => server.clone(),
                None => String::new(),
            },
        ),
        None => None,
    };
    match server {
        None => Err(CommandError::ProfileIndexNotFound),
        Some(server) => {
            match status {
                LaunchStatus::NeedsUpdate { versions_info } => {
                    state.update_cache.insert(server, versions_info.clone());
                },
                _ => {},
            }
            Ok(())
        },
    }
}

/// Hands out what the server of the profile was found to publish, if that
/// was kept, and keeps it no longer. With `None` the server has to be asked.
pub fn update_profile_server_files(state: &mut AppStateData, id: u32) -> (r: Result<
    Option<VersionsInfo>,
    CommandError,
>)
    requires
        old(state).wf(),
    ensures
        final(state).wf(),
        final(state).profiles == old(state).profiles,
        final(state).ongoing_tasks == old(state).ongoing_tasks,
        if !old(state).profiles@.map.contains_key(id) {
            r == Err::<Option<VersionsInfo>, CommandError>(CommandError::ProfileNotFound)
                && final(state).update_cache@ == old(state).update_cache@
        } else {
            match old(state).profiles@.map[id].server {
                None => r == Err::<Option<VersionsInfo>, CommandError>(
                    CommandError::ServerHasNoName,
                ) && final(state).update_cache@ == old(state).update_cache@,
                Some(server) => {
                    &&& final(state).update_cache@ == old(state).update_cache@.remove(server)
                    &&& r matches Ok(cached)
                    &&& cached.deep_view() == if old(state).update_cache@.contains_key(server) {
                        Some(old(state).update_cache@[server])
                    } else {
                        None
                    }
                },
            }
        },
{
    let server = match state.profiles.get(id) {
        Some(profile) => match &profile.server {
            Some(server) => Ok(server.clone()),
            None => Err(CommandError::ServerHasNoName),
        },
        None => Err(CommandError::ProfileNotFound),
    };
    match server {
        Err(e) => Err(e),
        Ok(server) => Ok(state.update_cache.remove(server.as_str())),
    }
}

/// The name of the directory, below the game's, that installations are
/// downloaded to.
pub const DOWNLOADS_DIRECTORY: &'static str = "downloads";

/// An installation that has begun: the task, its first actions, and the
/// signal by which it is cancelled.
pub struct InstallStart {
    pub task: InstallTask,
    pub actions: Vec<InstallAction>,
    pub token: CancellationToken,
}

/// Begins the installation of the game for the profile: the installation
/// is entered among the pipelines under way, under the signal handed out,
/// and the task is handed out with its first actions. Every other profile
/// keeps its own signal.
pub fn install_client(state: &mut AppStateData, id: u32, download_info: DownloadInfo) -> (r: Result<
    InstallStart,
    CommandError,
>)
    ensures
        final(state).profiles == old(state).profiles,
        final(state).update_cache == old(state).update_cache,
        if !old(state).profiles@.map.contains_key(id) {
            r matches Err(e) && e == CommandError::ProfileNotFound && final(state).ongoing_tasks@
                == old(state).ongoing_tasks@
        } else {
            match old(state).profiles@.map[id].install.directory {
                None => {
                    &&& r matches Err(e)
                    &&& e == CommandError::NoGameDirectory
                    &&& final(state).ongoing_tasks@ == old(state).ongoing_tasks@
                },
                Some(directory) => {
                    &&& r matches Ok(start)
                    &&& final(state).ongoing_tasks@ == old(state).ongoing_tasks@.insert(
                        id,
                        start.token,
                    )
                    &&& (start.task@, start.actions.deep_view()) == begin_installation(
                        download_info.deep_view(),
                        directory.join(DOWNLOADS_DIRECTORY@),
                        directory,
                    )
                },
            }
        },
{
    let directory = match state.profiles.get(id) {
        Some(profile) => match &profile.install.directory {
            Some(directory) => Ok(directory.clone()),
            None => Err(CommandError::NoGameDirectory),
        },
        None => Err(CommandError::ProfileNotFound),
    };
    match directory {
        Err(e) => Err(e),
        Ok(install_dir) => {
            let download_dir = install_dir.join(DOWNLOADS_DIRECTORY);
            let token = state.ongoing_tasks.register(id);
            let (task, actions) = InstallTask::start(download_info, download_dir, install_dir);
            Ok(InstallStart { task, actions, token })
        },
    }
}

/// Takes the installation of the game for the profile out of the pipelines
/// under way: it has ended, one way or another. Every other profile keeps
/// its own signal.
pub fn end_install(state: &mut AppStateData, id: u32)
    ensures
        final(state).profiles == old(state).profiles,
        final(state).update_cache == old(state).update_cache,
        final(state).ongoing_tasks@ == old(state).ongoing_tasks@.remove(id),
{
    state.ongoing_tasks.finish(id);
}

/// The extension of a file that is a plugin of the mod loader.
pub const PLUGIN_EXTENSION: &'static str = "dll";

/// The name of the plugin that a file holds: the stem of the file's name,
/// where its extension is that of a plugin.
pub open spec fn plugin_of(file_name: Seq<char>) -> Option<Seq<char>> {
    if extension_of(file_name) == Some(PLUGIN_EXTENSION@) {
        Some(stem_of(file_name))
    } else {
        None
    }
}

/// The name of the plugin that a file of the mod loader's plugin
/// directory holds, if it holds one.
pub fn list_ashita_plugins(file_name: &str) -> (r: Option<String>)
    ensures
        r.deep_view() == plugin_of(file_name@),
{
    let is_plugin = match extension(file_name) {
        Some(found) => found == PLUGIN_EXTENSION.to_owned(),
        None => false,
    };
    if is_plugin {
        Some(file_stem(file_name))
    } else {
        None
    }
}

} // verus!
