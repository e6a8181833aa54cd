use tempest::uri::{
    applications_dir_in, desktop_entry, desktop_file_in, parse_vortex_uri, play_uri,
    vortex_from_parts,
};

#[test]
fn parse_valid_uri() {
    let result = parse_vortex_uri("vortex://play?game=4&token=abc123");
    assert_eq!(result, Some((4, "abc123".to_string())));
}

#[test]
fn parse_invalid_scheme() {
    assert!(parse_vortex_uri("http://example.com").is_none());
}

#[test]
fn parse_missing_token() {
    assert!(parse_vortex_uri("vortex://play?game=4").is_none());
}

#[test]
fn parse_missing_game() {
    assert!(parse_vortex_uri("vortex://play?token=abc").is_none());
}

#[test]
fn parse_non_numeric_game() {
    assert!(parse_vortex_uri("vortex://play?game=four&token=abc").is_none());
}

#[test]
fn parse_game_too_large() {
    assert!(parse_vortex_uri("vortex://play?game=4294967296&token=abc").is_none());
    assert_eq!(
        parse_vortex_uri("vortex://play?game=4294967295&token=abc"),
        Some((4294967295, "abc".to_string()))
    );
}

#[test]
fn parse_last_game_wins() {
    assert_eq!(
        parse_vortex_uri("vortex://play?game=1&game=2&token=t"),
        Some((2, "t".to_string()))
    );
    assert!(parse_vortex_uri("vortex://play?game=1&game=x&token=t").is_none());
}

#[test]
fn parse_decodes_query() {
    assert_eq!(
        parse_vortex_uri("vortex://play?game=%2B7&token=a%20b"),
        Some((7, "a b".to_string()))
    );
}

#[test]
fn parse_not_a_url() {
    assert!(parse_vortex_uri("not a uri").is_none());
}

#[test]
fn play_uri_format() {
    assert_eq!(play_uri(4, "abc123"), "vortex://play?game=4&token=abc123");
    assert_eq!(play_uri(0, "t"), "vortex://play?game=0&token=t");
}

#[test]
fn play_uri_round_trip() {
    for (id, tok) in [(4u32, "abc123"), (0, "x"), (4294967295, "tok-EN_9")] {
        let uri = play_uri(id, tok);
        assert_eq!(parse_vortex_uri(&uri), Some((id, tok.to_string())));
    }
}

#[test]
fn from_parts_rules() {
    let pairs = vec![
        ("game".to_string(), "12".to_string()),
        ("other".to_string(), "z".to_string()),
        ("token".to_string(), "tk".to_string()),
    ];
    assert_eq!(vortex_from_parts("vortex", &pairs), Some((12, "tk".to_string())));
    assert_eq!(vortex_from_parts("http", &pairs), None);
    let plus = vec![("game".to_string(), "+5".to_string()), ("token".to_string(), "".to_string())];
    assert_eq!(vortex_from_parts("vortex", &plus), Some((5, "".to_string())));
    let bad = vec![("game".to_string(), "+".to_string()), ("token".to_string(), "t".to_string())];
    assert_eq!(vortex_from_parts("vortex", &bad), None);
}

#[test]
fn desktop_entry_text() {
    assert_eq!(
        desktop_entry("/usr/bin/tempest"),
        "[Desktop Entry]\nName=Tempest (Vortex Launcher)\nExec=/usr/bin/tempest uri-handler %u\nType=Application\nMimeType=x-scheme-handler/vortex;\nNoDisplay=true\n"
    );
}

#[test]
fn desktop_paths() {
    assert_eq!(applications_dir_in(Some("/home/u/.local/share".to_string())), "/home/u/.local/share/applications");
    assert_eq!(applications_dir_in(None), "applications");
    assert_eq!(desktop_file_in("/a/applications"), "/a/applications/tempest-vortex.desktop");
}
