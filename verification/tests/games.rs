use tempest::games::{extract_game_title, page_title, GameListing};

#[test]
fn title_before_dash() {
    assert_eq!(extract_game_title("<html><title> Cool Game - Vortex </title></html>"), Some("Cool Game".to_string()));
    assert_eq!(extract_game_title("<title>A | B - C</title>"), Some("A".to_string()));
    assert_eq!(extract_game_title("<title>Tower | Vortex</title>"), Some("Tower".to_string()));
}

#[test]
fn title_vortex_uses_heading() {
    assert_eq!(
        extract_game_title("<title>VORTEX</title><h2 class=\"t\"> Other Game </h2>"),
        Some("Other Game".to_string())
    );
    assert_eq!(extract_game_title("<title> - x</title><h2>Y</h2>"), Some("- x".to_string()));
    assert_eq!(extract_game_title("<title>  </title><h2>Y</h2>"), Some("Y".to_string()));
}

#[test]
fn no_title_or_heading() {
    assert_eq!(extract_game_title("<p>nothing</p>"), None);
    assert_eq!(extract_game_title("<title>unterminated"), None);
    assert_eq!(extract_game_title("<h2></h2>"), None);
    assert_eq!(extract_game_title("<h2 no close"), None);
}

#[test]
fn heading_length_limit() {
    let long = "x".repeat(100);
    assert_eq!(extract_game_title(&format!("<h2>{}</h2>", long)), None);
    let ok = "x".repeat(99);
    assert_eq!(extract_game_title(&format!("<h2>{}</h2>", ok)), Some(ok.clone()));
    let wide = "é".repeat(50);
    assert_eq!(extract_game_title(&format!("<h2>{}</h2>", wide)), None);
    let wide_ok = "é".repeat(49);
    assert_eq!(extract_game_title(&format!("<h2>{}", wide_ok)), Some(wide_ok.clone()));
}

#[test]
fn page_titles() {
    assert_eq!(page_title(false, "<title>G</title>"), None);
    assert_eq!(page_title(true, "<title>G</title>"), Some("G".to_string()));
}

#[test]
fn listing_stops_at_first_gap() {
    let mut l = GameListing::new();
    assert!(l.record(1, Some("A".to_string())));
    assert!(l.record(2, Some("B".to_string())));
    assert!(!l.record(3, None));
    assert_eq!(l.games.len(), 2);
    assert_eq!(l.games[1].id, 2);
    assert_eq!(l.games[1].name, "B");
}
