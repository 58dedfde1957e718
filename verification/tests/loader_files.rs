use xi_launcher::ashita::{
    credentials, find_in, generate_pivot_ini, launch_game, make_script_file, new_script_file,
    script_block, update_ashita_files, update_gamepad_config, update_script_file, AuthError,
    Credentials, ScriptError, Setting, SettingValue, SettingsError,
};
use xi_launcher::config::profiles::{AuthKind, Profile, Resolution};
use xi_launcher::path::LocalPath;
use xi_launcher::text::chars_of;
use xi_launcher::windower::{
    field_change, launch_game as windower_arguments, update_windower_profile, FieldChange,
};

fn profile() -> Profile {
    let mut profile = Profile::default();
    profile.name = Some("My Profile".to_string());
    profile.server = Some("srv".to_string());
    profile.account_name = Some("hero".to_string());
    profile.install.directory = Some(LocalPath::new("G"));
    profile
}

fn text(section: &str, key: &str, value: &str) -> Setting {
    Setting {
        section: section.to_string(),
        key: key.to_string(),
        value: SettingValue::Text(value.to_string()),
    }
}

fn place(section: &str, key: &str, value: LocalPath) -> Setting {
    Setting { section: section.to_string(), key: key.to_string(), value: SettingValue::Path(value) }
}

fn show<T: std::fmt::Debug>(value: &T) -> String {
    format!("{:?}", value)
}

#[test]
fn credentials_follow_the_way_of_signing_in() {
    let mut p = profile();
    let some = |s: &str| Some(s.to_string());
    let got = credentials(&p, None, some("T")).unwrap().unwrap();
    assert_eq!((got.account_name.as_str(), got.password, got.token_file), ("hero", None, some("T")));
    let got = credentials(&p, some("pw"), some("T")).unwrap().unwrap();
    assert_eq!((got.password, got.token_file), (some("pw"), some("T")));
    assert_eq!(credentials(&p, some("pw"), None).err(), Some(AuthError::MissingTokenPath));

    p.auth_kind = AuthKind::Password;
    assert_eq!(credentials(&p, some("pw"), some("T")).err(), Some(AuthError::NoStoredPassword));
    p.password = some("stored");
    let got = credentials(&p, some("pw"), some("T")).unwrap().unwrap();
    assert_eq!((got.password, got.token_file), (some("stored"), None));

    p.auth_kind = AuthKind::ManualPassword;
    assert_eq!(credentials(&p, None, None).err(), Some(AuthError::NoProvidedPassword));
    let got = credentials(&p, some("typed"), None).unwrap().unwrap();
    assert_eq!((got.password, got.token_file), (some("typed"), None));

    p.account_name = None;
    assert_eq!(credentials(&p, some("typed"), None).err(), Some(AuthError::MissingUsername));
    p.manual_auth = true;
    assert!(credentials(&p, None, None).unwrap().is_none());
    p.manual_auth = false;
    p.is_retail = true;
    assert!(credentials(&p, None, None).unwrap().is_none());

    assert_eq!(AuthError::MissingUsername.message(), "Missing username.");
    assert_eq!(AuthError::MissingTokenPath.message(), "Missing token path.");
    assert_eq!(AuthError::NoStoredPassword.message(), "No password stored locally.");
    assert_eq!(AuthError::NoProvidedPassword.message(), "Expected a provided password.");
}

#[test]
fn mod_loader_arguments() {
    let p = profile();
    assert_eq!(launch_game(&p, &None), vec!["My_Profile.ini".to_string()]);
    let with_token = Some(Credentials {
        account_name: "hero".to_string(),
        password: Some("pw".to_string()),
        token_file: Some("C:\\t.token".to_string()),
    });
    assert_eq!(
        launch_game(&p, &with_token),
        vec!["My_Profile.ini", "--user", "hero", "--pass", "pw", "--tokenfile", "C:\\t.token"]
    );
    let token_only = Some(Credentials {
        account_name: "hero".to_string(),
        password: None,
        token_file: Some("t".to_string()),
    });
    assert_eq!(launch_game(&p, &token_only), vec!["My_Profile.ini", "--tokenfile", "t"]);
}

#[test]
fn boot_loader_arguments_as_one_text() {
    let mut p = profile();
    p.hairpin = true;
    let with_token = Some(Credentials {
        account_name: "hero".to_string(),
        password: Some("pw".to_string()),
        token_file: Some("t".to_string()),
    });
    assert_eq!(
        windower_arguments(&p, &with_token),
        "--server srv --hairpin --user hero --pass pw --tokenfile t"
    );
    assert_eq!(windower_arguments(&p, &None), "--server srv --hairpin");
    p.server = None;
    p.hairpin = false;
    assert_eq!(windower_arguments(&p, &None), "");
    let stored = Some(Credentials {
        account_name: "hero".to_string(),
        password: Some("s".to_string()),
        token_file: None,
    });
    assert_eq!(windower_arguments(&p, &stored), "--user hero --pass s");
    p.manual_auth = true;
    p.server = Some("srv".to_string());
    assert_eq!(windower_arguments(&p, &stored), "");
}

#[test]
fn settings_fields_change_only_when_they_differ() {
    let some = |s: &str| Some(s.to_string());
    assert_eq!(field_change(&None, "x"), FieldChange::Create);
    assert_eq!(field_change(&some("x"), "x"), FieldChange::Keep);
    assert_eq!(field_change(&some("y"), "x"), FieldChange::Replace);
    let change = update_windower_profile(&some("a"), "a", &some("e"), "e");
    assert!(!change.needs_update);
    let change = update_windower_profile(&some("a"), "b", &some("e"), "e");
    assert!(change.needs_update);
    assert_eq!((change.args, change.executable), (FieldChange::Replace, FieldChange::Keep));
    let change = update_windower_profile(&some("a"), "a", &None, "e");
    assert!(change.needs_update);
    assert_eq!((change.args, change.executable), (FieldChange::Keep, FieldChange::Create));
}

#[test]
fn script_block_lists_plugins_then_addons() {
    let mut p = profile();
    assert_eq!(script_block(&p), "\n## XI_LAUNCHER START\n\n## XI_LAUNCHER END");
    p.enabled_plugins = Some(vec!["minimap".to_string(), "deeps".to_string()]);
    p.enabled_addons = Some(vec!["timers".to_string()]);
    assert_eq!(
        script_block(&p),
        "\n## XI_LAUNCHER START\n/load minimap\n/load deeps\n/addon load timers\n\n## XI_LAUNCHER END"
    );
    let script = new_script_file(&p);
    assert!(script.starts_with("\n/load thirdparty\n/load addons\n/load screenshot\n\n## XI_LAUNCHER START\n"));
    assert!(script.ends_with("\n## XI_LAUNCHER END\n\n/bind insert /ashita\n/bind SYSRQ /screenshot hide\n/bind ^v /paste\n/bind F11 /ambient\n/bind F12 /fps\n/bind ^F1 /ta <a10>\n/bind ^F2 /ta <a11>\n/bind ^F3 /ta <a12>\n/bind ^F4 /ta <a13>\n/bind ^F5 /ta <a14>\n/bind ^F6 /ta <a15>\n/bind !F1 /ta <a20>\n/bind !F2 /ta <a21>\n/bind !F3 /ta <a22>\n/bind !F4 /ta <a23>\n/bind !F5 /ta <a24>\n/bind !F6 /ta <a25>\n\n/wait 3\n/ambient 255 255 255\n"));
}

#[test]
fn script_update_keeps_what_stands_around() {
    let mut p = profile();
    p.enabled_addons = Some(vec!["timers".to_string()]);
    let old = "# mine\n## XI_LAUNCHER START\n/load old\n## XI_LAUNCHER END\n/bind x y\n";
    assert_eq!(
        update_script_file(&p, old),
        Ok("# mine\n## XI_LAUNCHER START\n/addon load timers\n\n## XI_LAUNCHER END\n/bind x y\n"
            .to_string())
    );
    assert_eq!(update_script_file(&p, "no marks"), Err(ScriptError::StartMarkMissing));
    assert_eq!(
        update_script_file(&p, "a\n## XI_LAUNCHER START\nb"),
        Err(ScriptError::EndMarkMissing)
    );
    assert_eq!(
        update_script_file(&p, "\n## XI_LAUNCHER END\n## XI_LAUNCHER START\n"),
        Err(ScriptError::EndMarkMissing)
    );
    let twice = "\n## XI_LAUNCHER START\nA\n## XI_LAUNCHER END\nB\n## XI_LAUNCHER START\nC\n## XI_LAUNCHER END";
    assert_eq!(
        update_script_file(&p, twice),
        Ok("\n## XI_LAUNCHER START\n/addon load timers\n\n## XI_LAUNCHER END\nB\n## XI_LAUNCHER START\nC\n## XI_LAUNCHER END".to_string())
    );
    let unicode = "é\n## XI_LAUNCHER START\nö\n## XI_LAUNCHER ENDü";
    assert_eq!(
        update_script_file(&p, unicode),
        Ok("é\n## XI_LAUNCHER START\n/addon load timers\n\n## XI_LAUNCHER ENDü".to_string())
    );
}

#[test]
fn script_is_updated_or_written_anew() {
    let p = profile();
    assert_eq!(make_script_file(&p, None), new_script_file(&p));
    assert_eq!(make_script_file(&p, Some("broken")), new_script_file(&p));
    let old = "x\n## XI_LAUNCHER START\n\n## XI_LAUNCHER ENDy";
    assert_eq!(make_script_file(&p, Some(old)), old);
    let fresh = new_script_file(&p);
    assert_eq!(make_script_file(&p, Some(&fresh)), fresh);
}

#[test]
fn search_finds_the_first_place() {
    let hay = chars_of("abcabcabd");
    assert_eq!(find_in(&hay, &chars_of("abc"), 0), Some(0));
    assert_eq!(find_in(&hay, &chars_of("abc"), 1), Some(3));
    assert_eq!(find_in(&hay, &chars_of("abd"), 0), Some(6));
    assert_eq!(find_in(&hay, &chars_of("abd"), 7), None);
    assert_eq!(find_in(&hay, &chars_of("x"), 0), None);
    assert_eq!(find_in(&hay, &chars_of(""), 4), Some(4));
    assert_eq!(find_in(&hay, &chars_of(""), 9), Some(9));
    assert_eq!(find_in(&hay, &chars_of(""), 10), None);
    assert_eq!(find_in(&hay, &chars_of("abcabcabdx"), 0), None);
    for from in 0..10usize {
        let expected = "abcabcabd".get(from..).and_then(|s| s.find("ab")).map(|i| i + from);
        assert_eq!(find_in(&hay, &chars_of("ab"), from), expected);
    }
}

#[test]
fn overlays_are_numbered_in_order() {
    let mut p = profile();
    p.extra_pivots = vec!["hd".to_string(), "music".to_string()];
    let with_server = generate_pivot_ini(&p, "srv", true);
    let listed: Vec<(String, String)> =
        with_server.into_iter().map(|o| (o.key, o.folder)).collect();
    assert_eq!(
        listed,
        vec![
            ("0".to_string(), "srv".to_string()),
            ("1".to_string(), "hd".to_string()),
            ("2".to_string(), "music".to_string()),
        ]
    );
    let without = generate_pivot_ini(&p, "srv", false);
    let listed: Vec<(String, String)> = without.into_iter().map(|o| (o.key, o.folder)).collect();
    assert_eq!(
        listed,
        vec![("0".to_string(), "hd".to_string()), ("1".to_string(), "music".to_string())]
    );
    p.extra_pivots = Vec::new();
    assert!(generate_pivot_ini(&p, "srv", false).is_empty());
    p.extra_pivots = (0..12).map(|i| format!("p{i}")).collect();
    let many = generate_pivot_ini(&p, "srv", true);
    assert_eq!(many[10].key, "10");
    assert_eq!(many[12].key, "12");
    assert_eq!(many[12].folder, "p11");
}

#[test]
fn settings_of_a_private_server_profile() {
    let mut p = profile();
    p.hairpin = true;
    p.resolution = Resolution { width: 1280, height: 720 };
    let settings = update_ashita_files(&p).unwrap();
    let expected = vec![
        text("ashita.launcher", "name", "My Profile"),
        text("ashita.boot", "script", "My_Profile.txt"),
        text("ashita.boot", "command", "--server srv --hairpin"),
        place(
            "ashita.boot",
            "file",
            LocalPath::new("G").join("Ashita").join("bootloader\\srv\\xiloader.exe"),
        ),
        place("sandbox.paths", "pol", LocalPath::new("G").join("PlayOnlineViewer")),
        place("sandbox.paths", "ffxi", LocalPath::new("G").join("FINAL FANTASY XI")),
        text("ffxi.registry", "0001", "1280"),
        text("ffxi.registry", "0002", "720"),
        text("ffxi.registry", "0003", "1920"),
        text("ffxi.registry", "0004", "1080"),
        text("ffxi.registry", "0037", "1920"),
        text("ffxi.registry", "0038", "1080"),
        text("ashita.polplugins", "pivot", "1"),
        text("ashita.polplugins.args", "pivot", "My_Profile"),
    ];
    assert_eq!(show(&settings), show(&expected));
}

#[test]
fn settings_of_other_profiles() {
    let mut retail = profile();
    retail.is_retail = true;
    retail.name = None;
    let settings = update_ashita_files(&retail).unwrap();
    assert_eq!(show(&settings[0]), show(&text("ashita.boot", "script", "anon.txt")));
    assert_eq!(
        show(&settings[1]),
        show(&place("ashita.boot", "file", LocalPath::new("G").join("PlayOnlineViewer\\pol.exe")))
    );
    assert_eq!(show(&settings[2]), show(&text("ashita.boot", "command", "/game eAZcFcB")));
    assert_eq!(settings.len(), 13);

    let mut plain = profile();
    plain.server = None;
    let settings = update_ashita_files(&plain).unwrap();
    assert_eq!(settings.len(), 12);
    assert!(!settings.iter().any(|s| s.key == "command" || s.key == "file"));
    plain.hairpin = true;
    let settings = update_ashita_files(&plain).unwrap();
    assert_eq!(show(&settings[2]), show(&text("ashita.boot", "command", "--hairpin")));

    let mut no_game = profile();
    no_game.install.directory = None;
    assert_eq!(update_ashita_files(&no_game).err(), Some(SettingsError::MissingAshitaDirectory));
    no_game.install.ashita_directory = Some(LocalPath::new("A"));
    assert_eq!(update_ashita_files(&no_game).err(), Some(SettingsError::MissingGameDirectory));
    assert_eq!(SettingsError::MissingGameDirectory.message(), "Missing game directory.");
    assert_eq!(SettingsError::MissingAshitaDirectory.message(), "Missing Ashita directory.");
}

#[test]
fn gamepad_settings_fall_back() {
    let settings = update_gamepad_config(Some("1".to_string()), None, Some("{g}".to_string()));
    assert_eq!(
        show(&settings),
        show(&vec![
            text("ffxi.registry", "padmode000", "1"),
            text("ffxi.registry", "padsin000", "-1"),
            text("ffxi.registry", "padguid000", "{g}"),
        ])
    );
}
