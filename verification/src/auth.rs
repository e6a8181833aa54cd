use vstd::prelude::*;
use crate::error::TempestError;
use crate::num::{decimal, u64_to_string};
use crate::text::{
    extend_str, find, find_exec, from_chars, is_ws, is_ws_exec, opt_view, owned, strip_prefix,
    strip_prefix_str, subvec, to_chars, trim, trim_exec,
};

verus! {

/// The site that Vortex accounts live on.
pub open spec fn base_url() -> Seq<char> {
    "https://playvortex.io"@
}

/// Where the login form is posted.
pub fn login_url() -> (res: String)
    ensures
        res@ == base_url() + "/login"@,
{
    let mut v = to_chars("https://playvortex.io");
    extend_str(&mut v, "/login");
    from_chars(&v)
}

/// The page that carries the launch URI of game `game_id`.
pub fn play_page_url(game_id: u32) -> (res: String)
    ensures
        res@ == base_url() + "/games/"@ + decimal(game_id as nat) + "/play"@,
{
    let mut v = to_chars("https://playvortex.io");
    extend_str(&mut v, "/games/");
    extend_str(&mut v, u64_to_string(game_id as u64).as_str());
    extend_str(&mut v, "/play");
    from_chars(&v)
}

/// The page of game `game_id`.
pub fn game_page_url(game_id: u32) -> (res: String)
    ensures
        res@ == base_url() + "/games/"@ + decimal(game_id as nat),
{
    let mut v = to_chars("https://playvortex.io");
    extend_str(&mut v, "/games/");
    extend_str(&mut v, u64_to_string(game_id as u64).as_str());
    from_chars(&v)
}

/// The `Cookie` header that carries a session token.
pub fn session_cookie(token: &str) -> (res: String)
    ensures
        res@ == "session_token="@ + token@,
{
    let mut v = to_chars("session_token=");
    extend_str(&mut v, token);
    from_chars(&v)
}

/// The session token in text pasted at the login prompt: the trimmed text, without a leading
/// `session_token=` where it was copied as a cookie; none where nothing remains.
pub open spec fn pasted_token(input: Seq<char>) -> Option<Seq<char>> {
    let t = trim(input);
    let v = match strip_prefix(t, "session_token="@) {
        Some(r) => r,
        None => t,
    };
    if v.len() == 0 {
        None
    } else {
        Some(v)
    }
}

/// The session token in text pasted at the login prompt.
pub fn pasted_session_token(input: &str) -> (res: Option<String>)
    ensures
        opt_view(res) == pasted_token(input@),
{
    let t = trim_exec(&to_chars(input));
    let v = match strip_prefix_str(&t, "session_token=") {
        Some(r) => r,
        None => t,
    };
    if v.len() == 0 {
        None
    } else {
        Some(from_chars(&v))
    }
}

/// Both a username and a password were entered.
pub fn credentials_given(username: &str, password: &str) -> (res: bool)
    ensures
        res == (username@.len() > 0 && password@.len() > 0),
{
    let u = to_chars(username);
    let p = to_chars(password);
    u.len() > 0 && p.len() > 0
}

/// The answer to a login: with a success or redirect status (200 to 399), the session token
/// that the server set as a cookie, or an error where it set none; otherwise an error with the
/// server's `detail` message, or "invalid username or password".
pub fn login_outcome(status: u16, session_cookie: Option<String>, detail: Option<String>) -> (res:
    Result<String, TempestError>)
    ensures
        200 <= status < 400 ==> match session_cookie {
            Some(c) => res matches Ok(t) && t@ == c@,
            None => res matches Err(TempestError::AuthError(m)) && m@
                == "server accepted login but set no session_token cookie"@,
        },
        !(200 <= status < 400) ==> match detail {
            Some(d) => res matches Err(TempestError::AuthError(m)) && m@ == d@,
            None => res matches Err(TempestError::AuthError(m)) && m@
                == "invalid username or password"@,
        },
{
    if 200 <= status && status < 400 {
        match session_cookie {
            Some(c) => Ok(c),
            None => Err(
                TempestError::AuthError(
                    owned("server accepted login but set no session_token cookie"),
                ),
            ),
        }
    } else {
        match detail {
            Some(d) => Err(TempestError::AuthError(d)),
            None => Err(TempestError::AuthError(owned("invalid username or password"))),
        }
    }
}

/// What `serde_json` reads as the string value of the top-level field `key` of the JSON text
/// `body`: none where `body` is no JSON, or not an object, or lacks `key`, or holds no string
/// there.
pub uninterp spec fn json_top_string(body: Seq<char>, key: Seq<char>) -> Option<Seq<char>>;

/// `serde_json::from_str::<Value>(body)`, then `value[key].as_str()`; the result is named
/// `json_top_string`. Indexing a `Value` by a missing key, or a `Value` that is no object,
/// gives `Null`, whose `as_str` is none.
#[verifier::external_body]
fn json_string_field(body: &str, key: &str) -> (res: Option<String>)
    ensures
        opt_view(res) == json_top_string(body@, key@),
{
    serde_json::from_str::<serde_json::Value>(body).ok().and_then(|v| v[key].as_str().map(|t| t.to_string()))
}

/// The answer to a login, from the reply's status, its `session_token` cookie and its body:
/// with a success or redirect status (200 to 399), the session token, or an error where none
/// was set; otherwise an error with the `detail` string of the JSON body, or "invalid
/// username or password" where the body holds none.
pub fn login_reply_outcome(status: u16, session_cookie: Option<String>, body: &str) -> (res:
    Result<String, TempestError>)
    ensures
        200 <= status < 400 ==> match session_cookie {
            Some(c) => res matches Ok(t) && t@ == c@,
            None => res matches Err(TempestError::AuthError(m)) && m@
                == "server accepted login but set no session_token cookie"@,
        },
        !(200 <= status < 400) ==> match json_top_string(body@, "detail"@) {
            Some(d) => res matches Err(TempestError::AuthError(m)) && m@ == d,
            None => res matches Err(TempestError::AuthError(m)) && m@
                == "invalid username or password"@,
        },
{
    if 200 <= status && status < 400 {
        login_outcome(status, session_cookie, None)
    } else {
        let detail = json_string_field(body, "detail");
        login_outcome(status, session_cookie, detail)
    }
}

/// A character that ends a URI embedded in a page: a quote or whitespace.
pub open spec fn ends_uri(c: char) -> bool {
    c == '"' || c == '\'' || is_ws(c)
}

/// The first position at or after `i` holding a character that ends a URI, or the length.
pub open spec fn uri_end(s: Seq<char>, i: int) -> int
    decreases s.len() - i,
{
    if 0 <= i < s.len() && !ends_uri(s[i]) {
        uri_end(s, i + 1)
    } else {
        i
    }
}

/// The first `vortex://` URI in a page, up to the first quote or whitespace.
pub open spec fn page_play_uri(html: Seq<char>) -> Option<Seq<char>> {
    match find(html, "vortex://"@) {
        Some(start) => {
            let rest = html.skip(start);
            Some(rest.take(uri_end(rest, 0)))
        },
        None => None,
    }
}

/// The first `vortex://` URI in a page, up to the first quote or whitespace.
pub fn find_play_uri(html: &str) -> (res: Option<String>)
    ensures
        match (res, page_play_uri(html@)) {
            (Some(r), Some(u)) => r@ == u,
            (None, None) => true,
            _ => false,
        },
{
    let h = to_chars(html);
    let pat = to_chars("vortex://");
    let start = match find_exec(&h, &pat, 0) {
        Some(s) => s,
        None => {
            return None;
        },
    };
    proof {
        crate::text::lemma_find_from(h@, pat@, 0);
    }
    let rest = subvec(&h, start, h.len());
    assert(rest@ =~= h@.skip(start as int));
    let mut j: usize = 0;
    while j < rest.len() && !(rest[j] == '"' || rest[j] == '\'' || is_ws_exec(rest[j]))
        invariant
            j <= rest.len(),
            uri_end(rest@, j as int) == uri_end(rest@, 0),
        decreases rest.len() - j,
    {
        j = j + 1;
    }
    let u = subvec(&rest, 0, j);
    assert(u@ =~= rest@.take(j as int));
    Some(from_chars(&u))
}

/// The launch URI that a fetched play page yields: an error where the request failed (with its
/// status) or where the page holds no `vortex://` URI.
pub fn play_uri_from_page(success: bool, status: &str, html: &str) -> (res: Result<
    String,
    TempestError,
>)
    ensures
        !success ==> (res matches Err(TempestError::AuthError(m)) && m@
            == "Failed to fetch play page: "@ + status@),
        success ==> match page_play_uri(html@) {
            Some(u) => res matches Ok(r) && r@ == u,
            None => res matches Err(TempestError::AuthError(m)) && m@
                == "Could not find vortex:// URI in play page. Is the session token valid?"@,
        },
{
    if !success {
        let mut v = to_chars("Failed to fetch play page: ");
        extend_str(&mut v, status);
        return Err(TempestError::AuthError(from_chars(&v)));
    }
    match find_play_uri(html) {
        Some(u) => Ok(u),
        None => Err(
            TempestError::AuthError(
                owned("Could not find vortex:// URI in play page. Is the session token valid?"),
            ),
        ),
    }
}

} // verus!
