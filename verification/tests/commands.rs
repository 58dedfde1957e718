use xi_launcher::check_game::{FileInstallConfig, VersionInfo, VersionsInfo};
use xi_launcher::commands::{
    cancel_possible_profile_task, check_launch_profile, delete_profile, duplicate_profile,
    end_install, install_client, move_profile, save_profile,
    should_request_password, update_profile_server_files, CommandError,
};
use xi_launcher::config::launcher::LauncherConfig;
use xi_launcher::config::profiles::{AuthKind, Profile, Profiles};
use xi_launcher::launch_check::LaunchStatus;
use xi_launcher::path::LocalPath;
use xi_launcher::state::AppStateData;
use xi_launcher::task_registry::TaskRegistry;
use xi_launcher::tasks::install::InstallAction;
use xi_launcher::update_cache::UpdateCache;

fn named(name: &str) -> Profile {
    let mut profile = Profile::default();
    profile.name = Some(name.to_string());
    profile
}

fn three() -> Profiles {
    let mut profiles = Profiles::default();
    profiles.add_new_profile(named("a"));
    profiles.add_new_profile(named("b"));
    profiles.add_new_profile(named("c"));
    profiles
}

fn state() -> AppStateData {
    let mut profiles = Profiles::default();
    let mut with_server = named("s");
    with_server.server = Some("srv".to_string());
    with_server.install.directory = Some(LocalPath::new("G"));
    profiles.add_new_profile(with_server);
    profiles.add_new_profile(named("bare"));
    AppStateData::new(LocalPath::new("data"), LauncherConfig::default(), profiles)
}

fn manifest(version: &str) -> VersionsInfo {
    VersionsInfo {
        bootloader: Some(VersionInfo { url: "u".to_string(), version: version.to_string() }),
        dats: None,
    }
}

#[test]
fn saving_replaces_or_adds() {
    let mut profiles = three();
    assert_eq!(profiles.ids, vec![2, 3, 4]);
    assert_eq!(save_profile(&mut profiles, Some(3), named("B")), Ok(()));
    assert_eq!(profiles.map.get(&3).unwrap().name, Some("B".to_string()));
    assert_eq!(profiles.ids, vec![2, 3, 4]);
    assert_eq!(
        save_profile(&mut profiles, Some(9), named("x")),
        Err(CommandError::NoProfileWithId { id: 9 })
    );
    assert_eq!(profiles.map.len(), 3);
    assert_eq!(save_profile(&mut profiles, None, named("d")), Ok(()));
    assert_eq!(profiles.ids, vec![2, 3, 4, 5]);
    assert_eq!(profiles.map.get(&5).unwrap().name, Some("d".to_string()));
    assert_eq!(profiles.map.get(&5).unwrap().id, 5);
}

#[test]
fn duplicating_adds_a_copy() {
    let mut profiles = three();
    assert_eq!(duplicate_profile(&mut profiles, 2), Ok(()));
    assert_eq!(profiles.ids, vec![2, 3, 4, 5]);
    assert_eq!(profiles.map.get(&5).unwrap().name, Some("a".to_string()));
    assert_eq!(profiles.map.get(&5).unwrap().id, 5);
    assert_eq!(profiles.map.get(&2).unwrap().id, 2);
    assert_eq!(
        duplicate_profile(&mut profiles, 77),
        Err(CommandError::NoProfileWithId { id: 77 })
    );
    assert_eq!(profiles.ids.len(), 4);
}

#[test]
fn moving_rotates_towards_the_target() {
    let mut profiles = Profiles::default();
    profiles.ids = vec![10, 11, 12, 13, 14];
    assert_eq!(move_profile(&mut profiles, 1, 4), Ok(true));
    let mut expected = vec![10, 11, 12, 13, 14];
    expected[1..4].rotate_left(1);
    assert_eq!(profiles.ids, expected);
    assert_eq!(profiles.ids, vec![10, 12, 13, 11, 14]);
    assert_eq!(move_profile(&mut profiles, 2, 2), Ok(false));
    assert_eq!(profiles.ids, vec![10, 12, 13, 11, 14]);
    assert_eq!(move_profile(&mut profiles, 0, 1), Ok(true));
    assert_eq!(profiles.ids, vec![10, 12, 13, 11, 14]);
    assert_eq!(
        move_profile(&mut profiles, 5, 0),
        Err(CommandError::CannotMove { len: 5, from: 5, to: 0 })
    );
    assert_eq!(
        move_profile(&mut profiles, 0, 5),
        Err(CommandError::CannotMove { len: 5, from: 0, to: 5 })
    );
    assert_eq!(
        CommandError::CannotMove { len: 5, from: 0, to: 5 }.message(),
        "Only 5 profiles. Can't move from 0 to 5"
    );
}

#[test]
fn deleting_removes_profile_and_entry() {
    let mut profiles = three();
    profiles.ids = vec![4, 3, 2, 3];
    assert!(delete_profile(&mut profiles, 3));
    assert_eq!(profiles.ids, vec![4, 2, 3]);
    assert!(profiles.map.get(&3).is_none());
    assert!(!delete_profile(&mut profiles, 3));
    assert_eq!(profiles.ids, vec![4, 2, 3]);
    assert!(!delete_profile(&mut profiles, 99));
    profiles.ids = vec![];
    assert!(delete_profile(&mut profiles, 2));
    assert!(profiles.ids.is_empty());
}

#[test]
fn errors_in_words() {
    assert_eq!(CommandError::NoProfileWithId { id: 12 }.message(), "No profile found with ID 12");
    assert_eq!(CommandError::ProfileNotFound.message(), "No profile with the given ID found.");
    assert_eq!(
        CommandError::ProfileIndexNotFound.message(),
        "No profile with the given index found."
    );
    assert_eq!(CommandError::ServerHasNoName.message(), "Expected server to have a name.");
    assert_eq!(CommandError::NoGameDirectory.message(), "Expected game directory.");
}

#[test]
fn password_request_rule() {
    let mut profile = named("p");
    profile.install.directory = Some(LocalPath::new("G"));
    assert!(should_request_password(&profile, false));
    assert!(!should_request_password(&profile, true));
    profile.is_retail = true;
    assert!(should_request_password(&profile, false));
    profile.auth_kind = AuthKind::ManualPassword;
    assert!(should_request_password(&profile, true));
    profile.auth_kind = AuthKind::Password;
    assert!(should_request_password(&profile, true));
    profile.password = Some("s".to_string());
    assert!(!should_request_password(&profile, false));
    profile.password = None;
    profile.manual_auth = true;
    assert!(!should_request_password(&profile, false));
}

#[test]
fn registry_holds_one_entry_a_profile() {
    let mut tasks = TaskRegistry::new();
    assert_eq!(tasks.len(), 0);
    let first = tasks.register(7);
    assert!(tasks.is_active(7));
    let second = tasks.register(7);
    assert_eq!(tasks.len(), 1);
    let other = tasks.register(8);
    assert_eq!(tasks.len(), 2);
    assert!(cancel_possible_profile_task(&mut tasks, 7));
    assert!(second.is_cancelled());
    assert!(!first.is_cancelled());
    assert!(!other.is_cancelled());
    assert!(!tasks.is_active(7));
    assert!(tasks.is_active(8));
    assert!(!cancel_possible_profile_task(&mut tasks, 7));
    tasks.finish(8);
    assert!(!other.is_cancelled());
    assert_eq!(tasks.len(), 0);
    assert!(!cancel_possible_profile_task(&mut tasks, 8));
}

#[test]
fn cancelled_signal_stays_set() {
    let mut tasks = TaskRegistry::new();
    let token = tasks.register(1);
    let watcher = token.clone();
    assert!(tasks.cancel(1));
    assert!(token.is_cancelled() && watcher.is_cancelled());
    let again = tasks.register(1);
    assert!(!again.is_cancelled());
    assert!(token.is_cancelled());
}

#[test]
fn cache_keeps_the_last_entry_of_a_server() {
    let mut cache = UpdateCache::new();
    assert!(!cache.contains("srv"));
    assert!(cache.remove("srv").is_none());
    cache.insert("srv".to_string(), manifest("1"));
    cache.insert("other".to_string(), manifest("5"));
    cache.insert("srv".to_string(), manifest("2"));
    assert_eq!(cache.entries.len(), 2);
    assert!(cache.contains("srv") && cache.contains("other"));
    let taken = cache.remove("srv").unwrap();
    assert_eq!(taken.bootloader.unwrap().version, "2");
    assert!(!cache.contains("srv"));
    assert!(cache.remove("srv").is_none());
    assert_eq!(cache.remove("other").unwrap().bootloader.unwrap().version, "5");
    assert!(cache.entries.is_empty());
}

#[test]
fn found_update_is_kept_for_the_update() {
    let mut state = state();
    let status = LaunchStatus::NeedsUpdate { versions_info: manifest("2") };
    assert_eq!(check_launch_profile(&mut state, 99, &status), Err(CommandError::ProfileIndexNotFound));
    assert_eq!(check_launch_profile(&mut state, 2, &LaunchStatus::Ready), Ok(()));
    assert!(!state.update_cache.contains("srv"));
    assert_eq!(check_launch_profile(&mut state, 2, &status), Ok(()));
    assert!(state.update_cache.contains("srv"));
    assert_eq!(check_launch_profile(&mut state, 3, &status), Ok(()));
    assert!(state.update_cache.contains(""));

    let cached = update_profile_server_files(&mut state, 2).unwrap();
    assert_eq!(cached.unwrap().bootloader.unwrap().version, "2");
    assert!(!state.update_cache.contains("srv"));
    assert!(update_profile_server_files(&mut state, 2).unwrap().is_none());
    assert_eq!(update_profile_server_files(&mut state, 3).err(), Some(CommandError::ServerHasNoName));
    assert_eq!(update_profile_server_files(&mut state, 99).err(), Some(CommandError::ProfileNotFound));
    assert!(state.update_cache.contains(""));
}

#[test]
fn installation_is_entered_and_taken_out() {
    let mut state = state();
    let files = vec![FileInstallConfig { url: "http://x/setup.exe".to_string() }];
    assert_eq!(
        install_client(&mut state, 99, files.clone()).err(),
        Some(CommandError::ProfileNotFound)
    );
    assert_eq!(
        install_client(&mut state, 3, files.clone()).err(),
        Some(CommandError::NoGameDirectory)
    );
    assert_eq!(state.ongoing_tasks.len(), 0);
    let started = install_client(&mut state, 2, files).ok().unwrap();
    assert!(state.ongoing_tasks.is_active(2));
    assert!(!started.token.is_cancelled());
    assert_eq!(
        format!("{:?}", started.actions),
        format!(
            "{:?}",
            vec![InstallAction::ProbeGame {
                path: LocalPath::new("G").join("FINAL FANTASY XI")
            }]
        )
    );
    assert_eq!(
        format!("{:?}", started.task.download_dir),
        format!("{:?}", LocalPath::new("G").join("downloads"))
    );
    assert!(cancel_possible_profile_task(&mut state.ongoing_tasks, 2));
    assert!(started.token.is_cancelled());
    end_install(&mut state, 2);
    assert!(!state.ongoing_tasks.is_active(2));
}

#[test]
fn state_names_its_files() {
    let state = state();
    assert_eq!(state.config_path().to_text(), "data/config.json");
    assert_eq!(state.profiles_path().to_text(), "data/profiles.json");
    assert_eq!(state.profiles.get(2).unwrap().name, Some("s".to_string()));
    assert!(state.profiles.get(1).is_none());
}

#[test]
fn other_profiles_keep_their_own_signals() {
    let mut state = state();
    let elsewhere = state.ongoing_tasks.register(3);
    let files = vec![FileInstallConfig { url: "http://x/setup.exe".to_string() }];
    let started = install_client(&mut state, 2, files).ok().unwrap();
    assert_eq!(state.ongoing_tasks.tasks.get(&2), Some(&started.token));
    assert_eq!(state.ongoing_tasks.tasks.get(&3), Some(&elsewhere));
    assert!(started.token != elsewhere);
    end_install(&mut state, 2);
    assert_eq!(state.ongoing_tasks.len(), 1);
    assert_eq!(state.ongoing_tasks.tasks.get(&3), Some(&elsewhere));
    assert!(!elsewhere.is_cancelled());
    assert!(!cancel_possible_profile_task(&mut state.ongoing_tasks, 2));
    assert_eq!(state.ongoing_tasks.tasks.get(&3), Some(&elsewhere));
    assert!(cancel_possible_profile_task(&mut state.ongoing_tasks, 3));
    assert!(elsewhere.is_cancelled());
    assert!(!started.token.is_cancelled());
    assert_eq!(state.ongoing_tasks.len(), 0);
}
