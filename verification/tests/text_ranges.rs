use std::path::Path;
use xi_launcher::commands::list_ashita_plugins;
use xi_launcher::config::profiles::{token_name, Profile, Profiles};
use xi_launcher::path::{extension, file_stem};
use xi_launcher::text::{
    chars_of, digit, find_char, last_segment_start, push_decimal, range_starts_with,
    skip_leading, skip_repeated_prefix, skip_trailing, string_of, trim_range,
};

#[test]
fn ranges_are_trimmed() {
    let chars = chars_of("x  \t hello \u{2003}\n y");
    let (a, b) = trim_range(&chars, 1, chars.len() - 1);
    assert_eq!(string_of(&chars, a, b), "hello");
    let (a, b) = trim_range(&chars, 0, chars.len());
    assert_eq!(string_of(&chars, a, b), "x  \t hello \u{2003}\n y");
    let blank = chars_of("   ");
    assert_eq!(trim_range(&blank, 0, 3), (3, 3));
    assert_eq!(trim_range(&blank, 1, 1), (1, 1));
}

#[test]
fn runs_are_skipped() {
    let chars = chars_of("\"\"a\"b\"\"\"");
    let a = skip_leading(&chars, 0, chars.len(), '"');
    assert_eq!(a, 2);
    let b = skip_trailing(&chars, a, chars.len(), '"');
    assert_eq!(string_of(&chars, a, b), "a\"b");
    let only = chars_of("\"\"");
    assert_eq!(skip_leading(&only, 0, 2, '"'), 2);
    assert_eq!(skip_trailing(&only, 0, 2, '"'), 0);
}

#[test]
fn prefixes_are_matched_and_stripped() {
    let chars = chars_of("ababac");
    let ab = chars_of("ab");
    assert!(range_starts_with(&chars, 0, 6, &ab));
    assert!(range_starts_with(&chars, 2, 6, &ab));
    assert!(!range_starts_with(&chars, 1, 6, &ab));
    assert!(!range_starts_with(&chars, 4, 5, &ab));
    assert!(range_starts_with(&chars, 6, 6, &chars_of("")));
    assert_eq!(skip_repeated_prefix(&chars, 0, 6, &ab), 4);
    assert_eq!(skip_repeated_prefix(&chars, 1, 6, &ab), 1);
    assert_eq!(skip_repeated_prefix(&chars, 0, 6, &chars_of("")), 0);
    assert_eq!(skip_repeated_prefix(&chars, 0, 3, &ab), 2);
}

#[test]
fn characters_are_found() {
    let chars = chars_of("a;b;;c");
    assert_eq!(find_char(&chars, 0, 6, ';'), 1);
    assert_eq!(find_char(&chars, 2, 6, ';'), 3);
    assert_eq!(find_char(&chars, 4, 6, ';'), 4);
    assert_eq!(find_char(&chars, 5, 6, ';'), 6);
    assert_eq!(find_char(&chars, 0, 1, ';'), 1);
    assert_eq!(last_segment_start(&chars, ';'), 5);
    assert_eq!(last_segment_start(&chars_of("abc"), ';'), 0);
    assert_eq!(last_segment_start(&chars_of("abc;"), ';'), 4);
    assert_eq!(last_segment_start(&chars_of(""), ';'), 0);
}

#[test]
fn digits_and_numbers() {
    let all: String = (0..10).map(digit).collect();
    assert_eq!(all, "0123456789");
    let mut out = "n=".to_string();
    push_decimal(&mut out, 0);
    push_decimal(&mut out, 1080);
    push_decimal(&mut out, u64::MAX);
    assert_eq!(out, format!("n=01080{}", u64::MAX));
}

#[test]
fn room_for_one_more_profile() {
    let mut profiles = Profiles::default();
    assert!(profiles.has_room());
    profiles.ids = vec![1, u32::MAX - 1];
    assert!(profiles.has_room());
    profiles.add_new_profile(Profile::default());
    assert_eq!(profiles.ids, vec![1, u32::MAX - 1, u32::MAX]);
    assert!(!profiles.has_room());
}

#[test]
fn extensions_and_stems_agree_with_std() {
    let names = [
        "setup.exe", "archive.tar.gz", "noext", ".hidden", ".hidden.txt", "trailing.", "a..b",
        "..", "...", "x.", ".", "plugin.dll", "PLUGIN.DLL", ".dll", "a.b.dll", "é.dll",
    ];
    for name in names {
        let path = Path::new(name);
        if let Some(file_name) = path.file_name().and_then(|n| n.to_str()) {
            assert_eq!(
                extension(file_name),
                path.extension().and_then(|e| e.to_str()).map(|e| e.to_string()),
                "{name}"
            );
            assert_eq!(
                Some(file_stem(file_name)),
                path.file_stem().and_then(|e| e.to_str()).map(|e| e.to_string()),
                "{name}"
            );
        }
    }
    assert_eq!(extension(".."), None);
    assert_eq!(file_stem(".."), "..");
    assert_eq!(extension("setup.exe"), Some("exe".to_string()));
    assert_eq!(file_stem("archive.tar.gz"), "archive.tar");
    assert_eq!(list_ashita_plugins("minimap.dll"), Some("minimap".to_string()));
    assert_eq!(list_ashita_plugins("a.b.dll"), Some("a.b".to_string()));
    assert_eq!(list_ashita_plugins("minimap.DLL"), None);
    assert_eq!(list_ashita_plugins("minimap.txt"), None);
    assert_eq!(list_ashita_plugins(".dll"), None);
    assert_eq!(list_ashita_plugins("dll"), None);
}

#[test]
fn token_file_is_named_for_server_and_account() {
    assert_eq!(token_name("srv", "hero"), "bootloader/srv/hero.token");
    assert_eq!(token_name("", ""), "bootloader//.token");
    assert_eq!(token_name("a_b", "42"), "bootloader/a_b/42.token");
}
