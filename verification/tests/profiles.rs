use xi_launcher::config::launcher::LauncherConfig;
use xi_launcher::config::profiles::{
    AuthKind, InstallConfig, InstallConfigError, Profile, Profiles, Resolution,
};
use xi_launcher::config::serde_util::{
    default_minus_one, default_true, is_default, is_false, is_minus_one, is_true, vec_is_empty,
};
use xi_launcher::path::LocalPath;

fn path(root: &str, parts: &[&str]) -> LocalPath {
    LocalPath { root: root.to_string(), parts: parts.iter().map(|p| p.to_string()).collect() }
}

fn same(a: &LocalPath, b: &LocalPath) -> bool {
    a.root == b.root && a.parts == b.parts
}

#[test]
fn paths_record_their_joins() {
    let base = LocalPath::new("C:\\Games");
    let joined = base.join("FFXI").join("Ashita");
    assert!(same(&joined, &path("C:\\Games", &["FFXI", "Ashita"])));
    assert!(same(&base, &path("C:\\Games", &[])));
    assert_eq!(joined.to_text(), "C:\\Games/FFXI/Ashita");
    assert_eq!(base.to_text(), "C:\\Games");
    assert!(same(&joined.clone(), &joined));
}

#[test]
fn settings_files_stand_below_the_data_directory() {
    let dir = LocalPath::new("data");
    assert!(same(&LauncherConfig::get_path(&dir), &path("data", &["config.json"])));
    assert!(same(&Profiles::get_path(&dir), &path("data", &["profiles.json"])));
}

#[test]
fn ashita_directory_falls_back_to_game_directory() {
    let none = InstallConfig { directory: None, ashita_directory: None };
    assert!(none.get_ashita_dir().is_none());
    assert_eq!(none.try_get_ashita_dir().err(), Some(InstallConfigError::MissingAshitaDirectory));
    assert_eq!(InstallConfigError::MissingAshitaDirectory.message(), "Missing Ashita directory.");

    let game = InstallConfig { directory: Some(LocalPath::new("G")), ashita_directory: None };
    assert!(same(&game.get_ashita_dir().unwrap(), &path("G", &["Ashita"])));
    assert!(same(&game.try_get_ashita_dir().unwrap(), &path("G", &["Ashita"])));

    let own = InstallConfig {
        directory: Some(LocalPath::new("G")),
        ashita_directory: Some(LocalPath::new("A")),
    };
    assert!(same(&own.get_ashita_dir().unwrap(), &path("A", &[])));

    let only_ashita = InstallConfig { directory: None, ashita_directory: Some(LocalPath::new("A")) };
    assert!(same(&only_ashita.get_ashita_dir().unwrap(), &path("A", &[])));
}

#[test]
fn defaults() {
    let profile = Profile::default();
    assert_eq!(profile.id, 0);
    assert_eq!(profile.name, None);
    assert_eq!(profile.auth_kind, AuthKind::Token);
    assert!(!profile.is_retail && !profile.manual_auth && !profile.hairpin);
    assert_eq!(profile.resolution, Resolution { width: 1920, height: 1080 });
    assert_eq!(profile.background_resolution, Resolution::default());
    assert_eq!(profile.menu_resolution, Resolution::default());
    assert!(profile.extra_pivots.is_empty());
    assert!(profile.install.directory.is_none());
    assert_eq!(AuthKind::default(), AuthKind::Token);
    let profiles = Profiles::default();
    assert!(profiles.ids.is_empty() && profiles.map.is_empty());
    assert!(LauncherConfig::default().install_dir.is_none());
}

#[test]
fn profile_filename_replaces_blanks() {
    let mut profile = Profile::default();
    assert_eq!(profile.get_profile_filename(), "anon");
    profile.name = Some("My Main Character".to_string());
    assert_eq!(profile.get_profile_filename(), "My_Main_Character");
    profile.name = Some("".to_string());
    assert_eq!(profile.get_profile_filename(), "");
}

#[test]
fn server_filename_has_its_pattern_replaced() {
    let mut profile = Profile::default();
    assert_eq!(profile.raw_server_name(), "localhost");
    assert_eq!(profile.get_server_filename(), "localhost");
    profile.is_retail = true;
    assert_eq!(profile.raw_server_name(), "retail");
    assert_eq!(profile.get_server_filename(), "retail");
    profile.server = Some("play.example.com".to_string());
    assert_eq!(profile.get_server_filename(), "play.example.com");
    profile.server = Some("a.\\/b.\\/c".to_string());
    assert_eq!(profile.raw_server_name(), "a.\\/b.\\/c");
    assert_eq!(profile.get_server_filename(), "a_b_c");
    profile.server = Some("x\\/y./z".to_string());
    assert_eq!(profile.get_server_filename(), "x\\/y./z");
}

#[test]
fn server_info_address() {
    let mut profile = Profile::default();
    assert_eq!(profile.get_server_info_addr(), "localhost:15850");
    profile.server = Some("play.example.com".to_string());
    assert_eq!(profile.get_server_info_addr(), "play.example.com:15850");
    profile.server_info_addr = Some("10.1.2.3:9000".to_string());
    assert_eq!(profile.get_server_info_addr(), "10.1.2.3:9000");
}

#[test]
fn token_path_names_server_and_account() {
    let mut profile = Profile::default();
    assert!(profile.get_token_path().is_none());
    profile.id = 42;
    profile.install.directory = Some(LocalPath::new("G"));
    assert!(same(
        &profile.get_token_path().unwrap(),
        &path("G", &["Ashita", "bootloader/localhost/42.token"])
    ));
    profile.account_name = Some("hero".to_string());
    profile.server = Some("srv".to_string());
    profile.install.ashita_directory = Some(LocalPath::new("A"));
    assert!(same(&profile.get_token_path().unwrap(), &path("A", &["bootloader/srv/hero.token"])));
}

#[test]
fn new_profiles_get_the_next_id() {
    let mut profiles = Profiles::default();
    let mut first = Profile::default();
    first.name = Some("one".to_string());
    profiles.add_new_profile(first);
    assert_eq!(profiles.ids, vec![2]);
    assert_eq!(profiles.map.get(&2).unwrap().id, 2);
    assert_eq!(profiles.map.get(&2).unwrap().name, Some("one".to_string()));
    profiles.add_new_profile(Profile::default());
    assert_eq!(profiles.ids, vec![2, 3]);
    profiles.ids = vec![9, 4, 7];
    assert_eq!(profiles.highest_id(), 9);
    profiles.add_new_profile(Profile::default());
    assert_eq!(profiles.ids, vec![9, 4, 7, 10]);
    assert_eq!(profiles.map.get(&10).unwrap().id, 10);
    profiles.ids = vec![0];
    profiles.add_new_profile(Profile::default());
    assert_eq!(profiles.ids, vec![0, 1]);
}

#[test]
fn clones_hold_the_same() {
    let mut profile = Profile::default();
    profile.id = 5;
    profile.name = Some("n".to_string());
    profile.enabled_addons = Some(vec!["a".to_string(), "b".to_string()]);
    profile.extra_pivots = vec!["p".to_string()];
    profile.install.directory = Some(LocalPath::new("G").join("x"));
    let copy = profile.clone();
    assert_eq!(format!("{:?}", copy), format!("{:?}", profile));
}

#[test]
fn stored_form_helpers() {
    assert!(default_true());
    assert!(is_true(&true) && !is_true(&false));
    assert!(is_false(&false) && !is_false(&true));
    assert!(is_default(&0u32) && !is_default(&1u32));
    assert!(is_default(&AuthKind::Token) && !is_default(&AuthKind::Password));
    assert!(is_default(&String::new()));
    assert!(vec_is_empty(&Vec::<u8>::new()) && !vec_is_empty(&vec![1]));
    assert_eq!(default_minus_one(), -1);
    assert!(is_minus_one(&-1) && !is_minus_one(&0));
}
