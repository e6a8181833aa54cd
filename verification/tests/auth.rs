use tempest::auth::{
    credentials_given, find_play_uri, game_page_url, login_outcome, login_reply_outcome, login_url, pasted_session_token, play_page_url,
    play_uri_from_page, session_cookie,
};
use tempest::error::{IoKind, TempestError};

#[test]
fn urls() {
    assert_eq!(login_url(), "https://playvortex.io/login");
    assert_eq!(play_page_url(4), "https://playvortex.io/games/4/play");
    assert_eq!(game_page_url(12), "https://playvortex.io/games/12");
    assert_eq!(session_cookie("abc"), "session_token=abc");
}

#[test]
fn credentials() {
    assert!(credentials_given("u", "p"));
    assert!(!credentials_given("", "p"));
    assert!(!credentials_given("u", ""));
}

#[test]
fn login_answers() {
    assert_eq!(login_outcome(302, Some("tok".to_string()), None), Ok("tok".to_string()));
    assert_eq!(login_outcome(200, Some("tok".to_string()), Some("x".to_string())), Ok("tok".to_string()));
    assert_eq!(
        login_outcome(303, None, None),
        Err(TempestError::AuthError("server accepted login but set no session_token cookie".to_string()))
    );
    assert_eq!(
        login_outcome(401, Some("tok".to_string()), Some("bad password".to_string())),
        Err(TempestError::AuthError("bad password".to_string()))
    );
    assert_eq!(
        login_outcome(500, None, None),
        Err(TempestError::AuthError("invalid username or password".to_string()))
    );
    assert_eq!(
        login_outcome(199, None, None),
        Err(TempestError::AuthError("invalid username or password".to_string()))
    );
}

#[test]
fn play_uri_in_page() {
    assert_eq!(
        find_play_uri("<a href=\"vortex://play?game=4&token=x\">Play</a>"),
        Some("vortex://play?game=4&token=x".to_string())
    );
    assert_eq!(find_play_uri("x vortex://a b"), Some("vortex://a".to_string()));
    assert_eq!(find_play_uri("'vortex://q'"), Some("vortex://q".to_string()));
    assert_eq!(find_play_uri("vortex://end"), Some("vortex://end".to_string()));
    assert_eq!(find_play_uri("nothing"), None);
}

#[test]
fn play_page_results() {
    assert_eq!(
        play_uri_from_page(false, "403 Forbidden", "vortex://x"),
        Err(TempestError::AuthError("Failed to fetch play page: 403 Forbidden".to_string()))
    );
    assert_eq!(play_uri_from_page(true, "200 OK", "vortex://x\n"), Ok("vortex://x".to_string()));
    assert_eq!(
        play_uri_from_page(true, "200 OK", "<html></html>"),
        Err(TempestError::AuthError(
            "Could not find vortex:// URI in play page. Is the session token valid?".to_string()
        ))
    );
}

#[test]
fn error_messages() {
    assert_eq!(TempestError::AuthError("x".to_string()).message(), "Auth error: x");
    assert_eq!(TempestError::ConfigError("c".to_string()).message(), "Config error: c");
    assert_eq!(TempestError::NetworkError("n".to_string()).message(), "Network error: n");
    assert_eq!(TempestError::WineError("w".to_string()).message(), "Wine error: w");
    assert_eq!(TempestError::IoError(IoKind::Other, "i".to_string()).message(), "IO error: i");
    assert_eq!(TempestError::Other("o".to_string()).message(), "o");
}

#[test]
fn login_reply_reads_detail() {
    assert_eq!(
        login_reply_outcome(401, None, r#"{"detail": "Account locked"}"#),
        Err(TempestError::AuthError("Account locked".to_string()))
    );
    assert_eq!(
        login_reply_outcome(403, None, "<html>forbidden</html>"),
        Err(TempestError::AuthError("invalid username or password".to_string()))
    );
    assert_eq!(
        login_reply_outcome(400, None, r#"{"detail": 5}"#),
        Err(TempestError::AuthError("invalid username or password".to_string()))
    );
    assert_eq!(
        login_reply_outcome(400, None, r#"["detail"]"#),
        Err(TempestError::AuthError("invalid username or password".to_string()))
    );
    assert_eq!(
        login_reply_outcome(302, Some("tok".to_string()), r#"{"detail": "x"}"#),
        Ok("tok".to_string())
    );
    assert_eq!(
        login_reply_outcome(200, None, ""),
        Err(TempestError::AuthError("server accepted login but set no session_token cookie".to_string()))
    );
}

#[test]
fn pasted_token_forms() {
    assert_eq!(pasted_session_token("  abc123\n"), Some("abc123".to_string()));
    assert_eq!(pasted_session_token("session_token=abc123"), Some("abc123".to_string()));
    assert_eq!(pasted_session_token("   "), None);
    assert_eq!(pasted_session_token("session_token="), None);
}
