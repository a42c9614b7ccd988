use coldloader::config::{app_id_text_path, library_candidate, resolve_config, ConfigError};
use coldloader::text::{parse_u32, trim_spaces, u32_to_decimal};

#[test]
fn resolves_appid_from_settings_text() {
    let ini = Some(String::from("[settings]\nappid=730\n"));
    let candidate = library_candidate("C:\\games\\app", &ini);
    assert_eq!(candidate, "C:\\games\\app\\steamclient64.dll");
    let cfg = resolve_config(candidate.clone(), true, &ini, &None).unwrap();
    assert_eq!(cfg.app_id, 730);
    assert_eq!(cfg.steamclient64_path, candidate);
}

#[test]
fn resolves_appid_from_sibling_file() {
    let candidate = library_candidate("C:\\games\\app", &None);
    assert_eq!(candidate, "C:\\games\\app\\steamclient64.dll");
    let sibling = Some(String::from("440\n"));
    let cfg = resolve_config(candidate, true, &None, &sibling).unwrap();
    assert_eq!(cfg.app_id, 440);
}

#[test]
fn fails_without_appid_anywhere() {
    let ini = Some(String::from("[settings]\nsteamclient64=custom.dll\n"));
    let candidate = library_candidate("C:\\games\\app", &ini);
    assert_eq!(candidate, "C:\\games\\app\\custom.dll");
    let err = resolve_config(candidate, true, &ini, &None).unwrap_err();
    assert_eq!(err, ConfigError::AppIdNotFound);
}

#[test]
fn fails_when_library_missing() {
    let ini = Some(String::from("[settings]\nappid=730\n"));
    let candidate = library_candidate("C:\\games\\app", &ini);
    let err = resolve_config(candidate, false, &ini, &None).unwrap_err();
    assert_eq!(err, ConfigError::LibraryNotFound);
}

#[test]
fn unparsable_settings_id_falls_back_to_sibling() {
    let ini = Some(String::from("[settings]\nappid=notanumber\n"));
    let sibling = Some(String::from("123"));
    let cfg = resolve_config(String::from("C:\\a\\b.dll"), true, &ini, &sibling).unwrap();
    assert_eq!(cfg.app_id, 123);
}

#[test]
fn settings_id_takes_precedence_over_sibling() {
    let ini = Some(String::from("[settings]\nappid=10\n"));
    let sibling = Some(String::from("20"));
    let cfg = resolve_config(String::from("C:\\a\\b.dll"), true, &ini, &sibling).unwrap();
    assert_eq!(cfg.app_id, 10);
}

#[test]
fn sibling_file_path_sits_next_to_library() {
    let p = app_id_text_path("C:\\games\\app\\steamclient64.dll").unwrap();
    assert_eq!(p, "C:\\games\\app\\steam_appid.txt");
    assert!(app_id_text_path("steamclient64.dll").is_none());
}

#[test]
fn parses_decimal_u32() {
    assert_eq!(parse_u32("0"), Some(0));
    assert_eq!(parse_u32("007"), Some(7));
    assert_eq!(parse_u32("4294967295"), Some(u32::MAX));
    assert_eq!(parse_u32("4294967296"), None);
    assert_eq!(parse_u32(""), None);
    assert_eq!(parse_u32("12a"), None);
    assert_eq!(parse_u32("-5"), None);
}

#[test]
fn trims_surrounding_whitespace() {
    assert_eq!(trim_spaces(" 440\n"), "440");
    assert_eq!(trim_spaces("x"), "x");
    assert_eq!(trim_spaces(" \t\r\n"), "");
    assert_eq!(trim_spaces(""), "");
}

#[test]
fn formats_decimal_u32() {
    assert_eq!(u32_to_decimal(0), "0");
    assert_eq!(u32_to_decimal(730), "730");
    assert_eq!(u32_to_decimal(u32::MAX), "4294967295");
}

#[test]
fn formatted_ids_parse_back() {
    for n in [0, 1, 9, 10, 440, 730, u32::MAX] {
        assert_eq!(parse_u32(&u32_to_decimal(n)), Some(n));
    }
}
