use vstd::prelude::*;
use crate::num::{decimal, lemma_parse_decimal, parse_u32, parse_u32_exec, u64_to_string};
use crate::path::{join, join_str};
use crate::text::{chars_eq_str, extend_str, from_chars, to_chars};

verus! {

/// What the `url` crate makes of `uri`: none where `Url::parse` fails, else the scheme and the
/// decoded key/value pairs of the query, in order.
pub uninterp spec fn url_parts(uri: Seq<char>) -> Option<(Seq<char>, Seq<(Seq<char>, Seq<char>)>)>;

/// The views of a list of key/value pairs.
pub open spec fn pairs_view(ps: Seq<(String, String)>) -> Seq<(Seq<char>, Seq<char>)> {
    ps.map_values(|p: (String, String)| (p.0@, p.1@))
}

/// `url::Url::parse`, then its scheme and query pairs; the result is named `url_parts`.
#[verifier::external_body]
fn parse_url(uri: &str) -> (res: Option<(String, Vec<(String, String)>)>)
    ensures
        match (res, url_parts(uri@)) {
            (Some(r), Some(p)) => r.0@ == p.0 && pairs_view(r.1@) == p.1,
            (None, None) => true,
            _ => false,
        },
{
    let u = url::Url::parse(uri).ok()?;
    let pairs = u.query_pairs().map(|(k, v)| (k.into_owned(), v.into_owned())).collect();
    Some((u.scheme().to_string(), pairs))
}

/// The game id and token that the query pairs carry: the last `game` pair sets the id (to none
/// unless its value is a `u32`), the last `token` pair sets the token.
pub open spec fn query_fields(ps: Seq<(Seq<char>, Seq<char>)>) -> (Option<u32>, Option<Seq<char>>)
    decreases ps.len(),
{
    if ps.len() == 0 {
        (None, None)
    } else {
        let prev = query_fields(ps.drop_last());
        let kv = ps.last();
        if kv.0 == "game"@ {
            (parse_u32(kv.1), prev.1)
        } else if kv.0 == "token"@ {
            (prev.0, Some(kv.1))
        } else {
            prev
        }
    }
}

/// The game id and token of a parsed `vortex://` URI: both must be there.
pub open spec fn vortex_fields(scheme: Seq<char>, ps: Seq<(Seq<char>, Seq<char>)>) -> Option<
    (u32, Seq<char>),
> {
    if scheme != "vortex"@ {
        None
    } else {
        match query_fields(ps) {
            (Some(g), Some(t)) => Some((g, t)),
            _ => None,
        }
    }
}

/// The game id and token of the URI `uri`.
pub open spec fn vortex_uri(uri: Seq<char>) -> Option<(u32, Seq<char>)> {
    match url_parts(uri) {
        Some(p) => vortex_fields(p.0, p.1),
        None => None,
    }
}

/// The game id and token of a URI with the given scheme and query pairs: the scheme must be
/// `vortex`; the last `game` pair must hold a `u32`, and a `token` pair must be there.
pub fn vortex_from_parts(scheme: &str, pairs: &Vec<(String, String)>) -> (res: Option<(u32, String)>)
    ensures
        match (res, vortex_fields(scheme@, pairs_view(pairs@))) {
            (Some(r), Some(v)) => r.0 == v.0 && r.1@ == v.1,
            (None, None) => true,
            _ => false,
        },
{
    let sv = to_chars(scheme);
    if !chars_eq_str(&sv, "vortex") {
        return None;
    }
    let ghost pv = pairs_view(pairs@);
    let mut game: Option<u32> = None;
    let mut token: Option<String> = None;
    let mut i: usize = 0;
    while i < pairs.len()
        invariant
            i <= pairs.len(),
            pv == pairs_view(pairs@),
            ({
                let q = query_fields(pv.take(i as int));
                &&& q.0 == game
                &&& match (token, q.1) {
                    (Some(t), Some(u)) => t@ == u,
                    (None, None) => true,
                    _ => false,
                }
            }),
        decreases pairs.len() - i,
    {
        assert(pv.take(i as int + 1).drop_last() =~= pv.take(i as int));
        assert(pv.take(i as int + 1).last() == (pairs@[i as int].0@, pairs@[i as int].1@));
        let k = to_chars(pairs[i].0.as_str());
        if chars_eq_str(&k, "game") {
            let v = to_chars(pairs[i].1.as_str());
            game = parse_u32_exec(&v);
        } else if chars_eq_str(&k, "token") {
            token = Some(pairs[i].1.clone());
        }
        i = i + 1;
    }
    assert(pv.take(pairs.len() as int) =~= pv);
    match (game, token) {
        (Some(g), Some(t)) => Some((g, t)),
        _ => None,
    }
}

/// The game id and token of a `vortex://` URI such as `vortex://play?game=4&token=abc123`;
/// none unless it parses as a URL with scheme `vortex`, a `u32` game id and a token.
pub fn parse_vortex_uri(uri: &str) -> (res: Option<(u32, String)>)
    ensures
        match (res, vortex_uri(uri@)) {
            (Some(r), Some(v)) => r.0 == v.0 && r.1@ == v.1,
            (None, None) => true,
            _ => false,
        },
{
    match parse_url(uri) {
        Some((scheme, pairs)) => vortex_from_parts(scheme.as_str(), &pairs),
        None => None,
    }
}

/// The URI that launches game `game_id` with the token `token`.
pub open spec fn play_uri_text(game_id: u32, token: Seq<char>) -> Seq<char> {
    "vortex://play?game="@ + decimal(game_id as nat) + "&token="@ + token
}

/// The URI that launches game `game_id` with the token `token`.
pub fn play_uri(game_id: u32, token: &str) -> (res: String)
    ensures
        res@ == play_uri_text(game_id, token@),
{
    let mut v = to_chars("vortex://play?game=");
    extend_str(&mut v, u64_to_string(game_id as u64).as_str());
    extend_str(&mut v, "&token=");
    extend_str(&mut v, token);
    from_chars(&v)
}

/// The query of a launch URI gives back its game id and token: whatever the token, a
/// `vortex` URI whose query holds `game` with the decimal id and then `token` yields them.
pub proof fn lemma_launch_query_round_trip(game_id: u32, token: Seq<char>)
    ensures
        vortex_fields(
            "vortex"@,
            seq![("game"@, decimal(game_id as nat)), ("token"@, token)],
        ) == Some((game_id, token)),
{
    let ps = seq![("game"@, decimal(game_id as nat)), ("token"@, token)];
    lemma_parse_decimal(game_id);
    reveal_strlit("game");
    reveal_strlit("token");
    let p1 = seq![("game"@, decimal(game_id as nat))];
    let e = Seq::<(Seq<char>, Seq<char>)>::empty();
    assert(query_fields(e) == (None::<u32>, None::<Seq<char>>));
    assert(p1.drop_last() =~= e);
    assert(p1.last().0 == "game"@);
    assert(query_fields(p1) == (Some(game_id), None::<Seq<char>>));
    assert(ps.drop_last() =~= p1);
    assert(ps.last().0 == "token"@);
    assert("token"@ != "game"@);
    assert(query_fields(ps) == (Some(game_id), Some(token)));
}

/// The text of the desktop entry that makes `exe` the handler of `vortex://` URIs.
pub open spec fn desktop_entry_text(exe: Seq<char>) -> Seq<char> {
    "[Desktop Entry]\nName=Tempest (Vortex Launcher)\nExec="@ + exe
        + " uri-handler %u\nType=Application\nMimeType=x-scheme-handler/vortex;\nNoDisplay=true\n"@
}

/// The desktop entry that makes `exe` the handler of `vortex://` URIs.
pub fn desktop_entry(exe: &str) -> (res: String)
    ensures
        res@ == desktop_entry_text(exe@),
{
    let mut v = to_chars("[Desktop Entry]\nName=Tempest (Vortex Launcher)\nExec=");
    extend_str(&mut v, exe);
    extend_str(
        &mut v,
        " uri-handler %u\nType=Application\nMimeType=x-scheme-handler/vortex;\nNoDisplay=true\n",
    );
    from_chars(&v)
}

/// The directory of desktop entries under the local data directory `base` (none: relative).
pub open spec fn applications_dir_text(base: Option<Seq<char>>) -> Seq<char> {
    match base {
        Some(b) => join(b, "applications"@),
        None => join(Seq::empty(), "applications"@),
    }
}

/// The directory of desktop entries under the local data directory `base`.
pub fn applications_dir_in(base: Option<String>) -> (res: String)
    ensures
        res@ == applications_dir_text(crate::text::opt_view(base)),
{
    match base {
        Some(b) => join_str(b.as_str(), "applications"),
        None => {
            let e: Vec<char> = Vec::new();
            let r = join_str(from_chars(&e).as_str(), "applications");
            assert(e@ =~= Seq::<char>::empty());
            r
        },
    }
}

/// The desktop entry file in the directory of desktop entries `apps`.
pub fn desktop_file_in(apps: &str) -> (res: String)
    ensures
        res@ == join(apps@, "tempest-vortex.desktop"@),
{
    join_str(apps, "tempest-vortex.desktop")
}

/// The directory of the user's desktop entries (in the local data directory).
pub fn applications_dir() -> (res: String)
    ensures
        exists|b: Option<Seq<char>>| res@ == applications_dir_text(b),
{
    let b = crate::config::dirs_data_local_dir();
    let ghost bv = crate::text::opt_view(b);
    let r = applications_dir_in(b);
    assert(r@ == applications_dir_text(bv));
    r
}

} // verus!
