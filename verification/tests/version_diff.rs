use xi_launcher::check_game::{
    install_url, marker_file, needs_update, part_dir, part_needs_update, versions_url, MarkerRead,
    Part, VersionInfo, VersionsInfo,
};
use xi_launcher::config::profiles::Profile;

fn published(version: &str) -> Option<VersionInfo> {
    Some(VersionInfo { url: "http://x/boot.zip".to_string(), version: version.to_string() })
}

fn contents(text: &str) -> MarkerRead {
    MarkerRead::Contents(text.to_string())
}

#[test]
fn nothing_published_needs_no_update() {
    assert!(part_needs_update(&None, &MarkerRead::Absent).is_none());
    assert!(part_needs_update(&None, &MarkerRead::Unreadable).is_none());
    assert!(part_needs_update(&None, &contents("2")).is_none());
}

#[test]
fn absent_marker_needs_update() {
    let info = published("2");
    let stale = part_needs_update(&info, &MarkerRead::Absent);
    assert_eq!(stale.map(|i| i.version.clone()), Some("2".to_string()));
    assert_eq!(stale.map(|i| i.url.clone()), Some("http://x/boot.zip".to_string()));
}

#[test]
fn unreadable_marker_needs_update() {
    let info = published("2");
    assert!(part_needs_update(&info, &MarkerRead::Unreadable).is_some());
}

#[test]
fn equal_marker_needs_no_update() {
    let info = published("2");
    assert!(part_needs_update(&info, &contents("2")).is_none());
}

#[test]
fn different_marker_needs_update() {
    let info = published("2");
    assert!(part_needs_update(&info, &contents("1")).is_some());
    assert!(part_needs_update(&info, &contents("2\n")).is_some());
    assert!(part_needs_update(&info, &contents("")).is_some());
    assert!(part_needs_update(&info, &contents(" 2")).is_some());
}

#[test]
fn empty_manifest_is_never_stale() {
    let manifest = VersionsInfo { dats: None, bootloader: None };
    assert!(needs_update(Some(manifest), &MarkerRead::Absent, &MarkerRead::Unreadable).is_none());
    assert!(needs_update(None, &MarkerRead::Absent, &MarkerRead::Absent).is_none());
}

#[test]
fn parts_are_stale_separately() {
    let manifest = || VersionsInfo { dats: published("7"), bootloader: published("2") };
    assert!(needs_update(Some(manifest()), &contents("2"), &contents("7")).is_none());
    assert!(needs_update(Some(manifest()), &contents("1"), &contents("7")).is_some());
    assert!(needs_update(Some(manifest()), &contents("2"), &contents("6")).is_some());
    assert!(needs_update(Some(manifest()), &contents("2"), &MarkerRead::Absent).is_some());
    let only_boot = VersionsInfo { dats: None, bootloader: published("2") };
    assert!(needs_update(Some(only_boot), &contents("2"), &MarkerRead::Absent).is_none());
}

#[test]
fn part_names_and_places() {
    assert_eq!(Part::Bootloader.name(), "Bootloader");
    assert_eq!(Part::Dats.name(), "DATs");
    assert_eq!(part_dir(Part::Bootloader, "srv"), "bootloader/srv");
    assert_eq!(part_dir(Part::Dats, "srv"), "polplugins/DATs/srv");
    assert_eq!(marker_file(Part::Bootloader, "srv"), "bootloader/srv/version.txt");
    assert_eq!(marker_file(Part::Dats, "srv"), "polplugins/DATs/srv/version.txt");
}

#[test]
fn server_addresses() {
    let mut profile = Profile::default();
    assert_eq!(versions_url(&profile), None);
    assert_eq!(install_url(&profile), None);
    profile.server = Some("play.example.com".to_string());
    assert_eq!(versions_url(&profile), Some("http://play.example.com:15850/versions".to_string()));
    assert_eq!(install_url(&profile), Some("http://play.example.com:15850/install".to_string()));
    profile.server_info_addr = Some("10.0.0.1:80".to_string());
    assert_eq!(versions_url(&profile), Some("http://10.0.0.1:80/versions".to_string()));
    profile.is_retail = true;
    assert_eq!(versions_url(&profile), None);
    assert_eq!(install_url(&profile), None);
}
