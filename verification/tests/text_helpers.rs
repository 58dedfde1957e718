use xi_launcher::file_download::{
    filename_from_disposition, get_filename_from_response_or_url, get_filename_from_url,
};
use xi_launcher::text::{
    char_is_whitespace, chars_of, count_string, decimal_string, replace_in, str_ends_with,
    string_of,
};

#[test]
fn filename_is_last_segment_of_url() {
    assert_eq!(get_filename_from_url("http://x/boot.zip"), Some("boot.zip".to_string()));
    assert_eq!(get_filename_from_url("https://sh.rustup.rs"), Some("sh.rustup.rs".to_string()));
    assert_eq!(
        get_filename_from_url("https://get.pnpm.io/install.ps1"),
        Some("install.ps1".to_string())
    );
    assert_eq!(get_filename_from_url("plain"), Some("plain".to_string()));
    assert_eq!(get_filename_from_url("http://x/dir/"), Some("".to_string()));
    assert_eq!(get_filename_from_url(""), Some("".to_string()));
    assert_eq!(get_filename_from_url("a/b/c d.exe"), Some("c d.exe".to_string()));
}

#[test]
fn filename_from_header_wins_over_url() {
    assert_eq!(
        get_filename_from_response_or_url(
            Some("attachment; filename=\"setup.exe\""),
            "http://x/download?id=3"
        ),
        "setup.exe"
    );
    assert_eq!(get_filename_from_response_or_url(None, "http://x/game.7z"), "game.7z");
    assert_eq!(
        get_filename_from_response_or_url(Some("attachment"), "http://x/game.7z"),
        "game.7z"
    );
    assert_eq!(get_filename_from_response_or_url(Some(""), "http://x/game.7z"), "game.7z");
}

#[test]
fn header_parts_are_trimmed_and_unquoted() {
    assert_eq!(filename_from_disposition("filename=a.txt"), Some("a.txt".to_string()));
    assert_eq!(filename_from_disposition("  filename=a.txt  "), Some("a.txt".to_string()));
    assert_eq!(filename_from_disposition("inline;\tfilename=\"a b.txt\" "), Some("a b.txt".to_string()));
    assert_eq!(filename_from_disposition("filename=\"\"\"a\"\""), Some("a".to_string()));
    assert_eq!(filename_from_disposition("filename="), Some("".to_string()));
    assert_eq!(filename_from_disposition("filename=filename=x"), Some("x".to_string()));
    assert_eq!(filename_from_disposition("attachment; name=x"), None);
    assert_eq!(filename_from_disposition("Filename=x"), None);
    assert_eq!(filename_from_disposition("x filename=y"), None);
    assert_eq!(filename_from_disposition(";;filename=z;filename=w"), Some("z".to_string()));
    assert_eq!(filename_from_disposition("filename=a;b"), Some("a".to_string()));
    assert_eq!(filename_from_disposition("filename=\"a\"b\""), Some("a\"b".to_string()));
    assert_eq!(filename_from_disposition("\u{a0}filename=n\u{3000}"), Some("n".to_string()));
}

#[test]
fn header_agrees_with_std_on_samples() {
    let samples = [
        "attachment; filename=\"setup.exe\"",
        " filename=x ; filename=y",
        "filename=\"\"",
        "a;b;c",
        "filename=filename=\"q\"",
        "  ;  filename=  spaced  ",
    ];
    for header in samples {
        let expected = header.split(';').find_map(|part| {
            let trimmed = part.trim();
            if trimmed.starts_with("filename=") {
                Some(
                    trimmed
                        .trim_start_matches("filename=")
                        .trim_start_matches('"')
                        .trim_end_matches('"')
                        .to_string(),
                )
            } else {
                None
            }
        });
        assert_eq!(filename_from_disposition(header), expected);
    }
}

#[test]
fn whitespace_agrees_with_std() {
    let mut n: u32 = 0;
    while n < 0x3100 {
        if let Some(c) = char::from_u32(n) {
            assert_eq!(char_is_whitespace(c), c.is_whitespace());
        }
        n += 1;
    }
}

#[test]
fn decimal_notation() {
    assert_eq!(decimal_string(0), "0");
    assert_eq!(decimal_string(7), "7");
    assert_eq!(decimal_string(10), "10");
    assert_eq!(decimal_string(1920), "1920");
    assert_eq!(decimal_string(u32::MAX), "4294967295");
    assert_eq!(count_string(0), "0");
    assert_eq!(count_string(12345), "12345");
    assert_eq!(count_string(usize::MAX), usize::MAX.to_string());
}

#[test]
fn ends_with_and_replace() {
    assert!(str_ends_with("http://x/setup.exe", ".exe"));
    assert!(!str_ends_with("http://x/setup.exe.zip", ".exe"));
    assert!(!str_ends_with("exe", ".exe"));
    assert!(str_ends_with(".exe", ".exe"));
    assert!(str_ends_with("anything", ""));
    assert!(!str_ends_with("http://x/setup.EXE", ".exe"));
    assert_eq!(replace_in("my first profile", ' ', '_'), "my_first_profile");
    assert_eq!(replace_in("", ' ', '_'), "");
    assert_eq!(replace_in("  ", ' ', '_'), "__");
}

#[test]
fn characters_round_trip() {
    let chars = chars_of("héllo wörld");
    assert_eq!(chars.len(), 11);
    assert_eq!(string_of(&chars, 0, chars.len()), "héllo wörld");
    assert_eq!(string_of(&chars, 6, 11), "wörld");
    assert_eq!(string_of(&chars, 3, 3), "");
}
