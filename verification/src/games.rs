use vstd::prelude::*;
use crate::text::{
    back_from, contains, eq_ignore_ascii_case, eq_ignore_ascii_case_str, find, find_exec,
    from_chars, lemma_find_from, matches_at, skip_from, strip_start, strips, subvec, to_chars,
    trim, trim_exec,
};

verus! {

/// The number of bytes that the UTF-8 encoding of `c` takes.
pub open spec fn utf8_width(c: char) -> nat {
    if (c as u32) < 0x80 {
        1
    } else if (c as u32) < 0x800 {
        2
    } else if (c as u32) < 0x10000 {
        3
    } else {
        4
    }
}

/// The number of bytes that the UTF-8 encoding of `s` takes (what `str::len` gives).
pub open spec fn utf8_len(s: Seq<char>) -> nat
    decreases s.len(),
{
    if s.len() == 0 {
        0
    } else {
        utf8_len(s.drop_last()) + utf8_width(s.last())
    }
}

/// Whether the UTF-8 encoding of `s` is shorter than `limit` bytes.
fn utf8_len_below(s: &Vec<char>, limit: usize) -> (res: bool)
    ensures
        res == (utf8_len(s@) < limit),
{
    if limit == 0 {
        return false;
    }
    let mut n: usize = 0;
    let mut i: usize = 0;
    while i < s.len()
        invariant
            i <= s.len(),
            n == utf8_len(s@.take(i as int)),
            n < limit,
        decreases s.len() - i,
    {
        assert(s@.take(i as int + 1).drop_last() =~= s@.take(i as int));
        let ch: char = s[i];
        let c: u32 = ch as u32;
        let w: usize = if c < 0x80 {
            1
        } else if c < 0x800 {
            2
        } else if c < 0x10000 {
            3
        } else {
            4
        };
        if w >= limit - n {
            proof {
                lemma_utf8_len_prefix(s@, i as int + 1);
            }
            return false;
        }
        n = n + w;
        i = i + 1;
    }
    assert(s@.take(s.len() as int) =~= s@);
    true
}

proof fn lemma_utf8_len_prefix(s: Seq<char>, k: int)
    requires
        0 <= k <= s.len(),
    ensures
        utf8_len(s.take(k)) <= utf8_len(s),
    decreases s.len() - k,
{
    if k < s.len() {
        lemma_utf8_len_prefix(s.drop_last(), k);
        assert(s.drop_last().take(k) =~= s.take(k));
    } else {
        assert(s.take(k) =~= s);
    }
}

/// The part of `s` before the first `sep` (all of `s` without one), as `split(sep).next()`.
pub open spec fn first_piece(s: Seq<char>, sep: Seq<char>) -> Seq<char> {
    match find(s, sep) {
        Some(i) => s.take(i),
        None => s,
    }
}

fn first_piece_exec(s: &Vec<char>, sep: &str) -> (res: Vec<char>)
    ensures
        res@ == first_piece(s@, sep@),
{
    let sv = to_chars(sep);
    match find_exec(s, &sv, 0) {
        Some(i) => {
            proof {
                crate::text::lemma_find_from(s@, sep@, 0);
            }
            let r = subvec(s, 0, i);
            assert(r@ =~= s@.take(i as int));
            r
        },
        None => s.clone(),
    }
}

/// The game name that the `<title>` of a page gives: the title up to ` - ` and ` | `, trimmed,
/// unless it is empty or just "Vortex".
pub open spec fn title_name(html: Seq<char>) -> Option<Seq<char>> {
    match find(html, "<title>"@) {
        Some(start) => {
            let after = html.skip(start + 7);
            match find(after, "</title>"@) {
                Some(end) => {
                    let title = trim(after.take(end));
                    let clean = trim(first_piece(first_piece(title, " - "@), " | "@));
                    if clean.len() > 0 && !eq_ignore_ascii_case(clean, "vortex"@) {
                        Some(clean)
                    } else {
                        None
                    }
                },
                None => None,
            }
        },
        None => None,
    }
}

/// The game name that the first `<h2>` of a page holds, trimmed, if it is not empty and
/// shorter than 100 bytes.
pub open spec fn heading_name(html: Seq<char>) -> Option<Seq<char>> {
    match find(html, "<h2"@) {
        Some(start) => {
            let after = html.skip(start);
            match find(after, ">"@) {
                Some(vs) => {
                    let content = after.skip(vs + 1);
                    let ve = match find(content, "<"@) {
                        Some(e) => e,
                        None => content.len() as int,
                    };
                    let name = trim(content.take(ve));
                    if name.len() > 0 && utf8_len(name) < 100 {
                        Some(name)
                    } else {
                        None
                    }
                },
                None => None,
            }
        },
        None => None,
    }
}

/// The game name of a page: from its title, else from its first heading.
pub open spec fn game_title(html: Seq<char>) -> Option<Seq<char>> {
    match title_name(html) {
        Some(n) => Some(n),
        None => heading_name(html),
    }
}

/// A name taken from the page title is never empty and never the site's own name "Vortex"
/// (in any ASCII case): where the title gives only that, the game's name comes from the first
/// heading instead.
pub proof fn lemma_title_not_site_name(html: Seq<char>)
    ensures
        title_name(html) matches Some(n) ==> n.len() > 0 && !eq_ignore_ascii_case(n, "vortex"@),
        game_title(html) matches Some(n) && eq_ignore_ascii_case(n, "vortex"@) ==> title_name(html)
            is None && game_title(html) == heading_name(html),
{
}

proof fn lemma_skip_from_bounds(s: Seq<char>, i: int)
    requires
        0 <= i <= s.len(),
    ensures
        i <= skip_from(s, None, i) <= s.len(),
    decreases s.len() - i,
{
    if i < s.len() && strips(s[i], None) {
        lemma_skip_from_bounds(s, i + 1);
    }
}

proof fn lemma_back_from_bounds(s: Seq<char>, j: int)
    requires
        0 <= j <= s.len(),
    ensures
        0 <= back_from(s, None, j) <= j,
    decreases j,
{
    if 0 < j && strips(s[j - 1], None) {
        lemma_back_from_bounds(s, j - 1);
    }
}

/// A piece of a text that does not hold `p` does not hold it either.
proof fn lemma_no_match_in_piece(s: Seq<char>, p: Seq<char>, a: int, b: int)
    requires
        0 <= a <= b <= s.len(),
        !contains(s, p),
    ensures
        !contains(s.subrange(a, b), p),
{
    let x = s.subrange(a, b);
    lemma_find_from(s, p, 0);
    lemma_find_from(x, p, 0);
    if contains(x, p) {
        let j = find(x, p)->0;
        assert(s.subrange(a + j, a + j + p.len()) =~= x.subrange(j, j + p.len()));
        assert(matches_at(s, p, a + j));
    }
}

/// Trimming a text that does not hold `p` leaves a text that does not hold it.
proof fn lemma_trim_keeps_absent(s: Seq<char>, p: Seq<char>)
    requires
        !contains(s, p),
    ensures
        !contains(trim(s), p),
{
    lemma_skip_from_bounds(s, 0);
    let k = skip_from(s, None, 0);
    assert(strip_start(s, None) =~= s.subrange(k, s.len() as int));
    lemma_no_match_in_piece(s, p, k, s.len() as int);
    let t = strip_start(s, None);
    lemma_back_from_bounds(t, t.len() as int);
    let m = back_from(t, None, t.len() as int);
    assert(trim(s) =~= t.subrange(0, m));
    lemma_no_match_in_piece(t, p, 0, m);
}

/// The part of a text before the first `sep` holds no `sep`.
proof fn lemma_first_piece_has_no_sep(s: Seq<char>, sep: Seq<char>)
    requires
        sep.len() > 0,
    ensures
        !contains(first_piece(s, sep), sep),
{
    let x = first_piece(s, sep);
    lemma_find_from(s, sep, 0);
    lemma_find_from(x, sep, 0);
    if contains(x, sep) {
        let j = find(x, sep)->0;
        assert(matches_at(x, sep, j));
        if find(s, sep) is Some {
            let i = find(s, sep)->0;
            assert(x =~= s.take(i));
            assert(j < i);
            assert(s.subrange(j, j + sep.len()) =~= x.subrange(j, j + sep.len()));
            assert(matches_at(s, sep, j));
        } else {
            assert(x == s);
        }
    }
}

/// A name taken from the page title is its first part: it holds no ` - ` or ` | ` separator.
pub proof fn lemma_title_first_part(html: Seq<char>)
    ensures
        title_name(html) matches Some(n) ==> !contains(n, " - "@) && !contains(n, " | "@),
{
    match find(html, "<title>"@) {
        Some(start) => {
            let after = html.skip(start + 7);
            match find(after, "</title>"@) {
                Some(end) => {
                    let title = trim(after.take(end));
                    let p1 = first_piece(title, " - "@);
                    let p2 = first_piece(p1, " | "@);
                    reveal_strlit(" - ");
                    reveal_strlit(" | ");
                    lemma_first_piece_has_no_sep(title, " - "@);
                    lemma_first_piece_has_no_sep(p1, " | "@);
                    lemma_find_from(p1, " | "@, 0);
                    if find(p1, " | "@) is Some {
                        let i = find(p1, " | "@)->0;
                        lemma_no_match_in_piece(p1, " - "@, 0, i);
                        assert(p2 =~= p1.subrange(0, i));
                    }
                    lemma_trim_keeps_absent(p2, " - "@);
                    lemma_trim_keeps_absent(p2, " | "@);
                },
                None => {},
            }
        },
        None => {},
    }
}

fn title_name_exec(html: &Vec<char>) -> (res: Option<Vec<char>>)
    ensures
        match (res, title_name(html@)) {
            (Some(r), Some(n)) => r@ == n,
            (None, None) => true,
            _ => false,
        },
{
    let open_tag = to_chars("<title>");
    let start = match find_exec(html, &open_tag, 0) {
        Some(s) => s,
        None => {
            return None;
        },
    };
    proof {
        reveal_strlit("<title>");
        crate::text::lemma_find_from(html@, "<title>"@, 0);
        assert(html@.len() == html.len());
    }
    let after = subvec(html, start + 7, html.len());
    assert(after@ =~= html@.skip(start + 7));
    let close_tag = to_chars("</title>");
    let end = match find_exec(&after, &close_tag, 0) {
        Some(e) => e,
        None => {
            return None;
        },
    };
    proof {
        crate::text::lemma_find_from(after@, "</title>"@, 0);
    }
    let raw = subvec(&after, 0, end);
    assert(raw@ =~= after@.take(end as int));
    let title = trim_exec(&raw);
    let p1 = first_piece_exec(&title, " - ");
    let p2 = first_piece_exec(&p1, " | ");
    let clean = trim_exec(&p2);
    if clean.len() > 0 && !eq_ignore_ascii_case_str(&clean, "vortex") {
        Some(clean)
    } else {
        None
    }
}

fn heading_name_exec(html: &Vec<char>) -> (res: Option<Vec<char>>)
    ensures
        match (res, heading_name(html@)) {
            (Some(r), Some(n)) => r@ == n,
            (None, None) => true,
            _ => false,
        },
{
    let open_tag = to_chars("<h2");
    let start = match find_exec(html, &open_tag, 0) {
        Some(s) => s,
        None => {
            return None;
        },
    };
    proof {
        crate::text::lemma_find_from(html@, "<h2"@, 0);
    }
    let after = subvec(html, start, html.len());
    assert(after@ =~= html@.skip(start as int));
    let gt = to_chars(">");
    let vs = match find_exec(&after, &gt, 0) {
        Some(v) => v,
        None => {
            return None;
        },
    };
    proof {
        crate::text::lemma_find_from(after@, ">"@, 0);
        reveal_strlit(">");
    }
    let content = subvec(&after, vs + 1, after.len());
    assert(content@ =~= after@.skip(vs + 1));
    let lt = to_chars("<");
    let ve = match find_exec(&content, &lt, 0) {
        Some(e) => {
            proof {
                crate::text::lemma_find_from(content@, "<"@, 0);
            }
            e
        },
        None => content.len(),
    };
    let raw = subvec(&content, 0, ve);
    assert(raw@ =~= content@.take(ve as int));
    let name = trim_exec(&raw);
    if name.len() > 0 && utf8_len_below(&name, 100) {
        Some(name)
    } else {
        None
    }
}

/// The name of the game that a game page shows: the `<title>` up to the first ` - ` and
/// ` | ` (unless empty or "Vortex"), else the text of the first `<h2>` heading (unless empty or
/// 100 bytes or longer).
pub fn extract_game_title(html: &str) -> (res: Option<String>)
    ensures
        match (res, game_title(html@)) {
            (Some(r), Some(n)) => r@ == n,
            (None, None) => true,
            _ => false,
        },
{
    let h = to_chars(html);
    match title_name_exec(&h) {
        Some(n) => Some(from_chars(&n)),
        None => match heading_name_exec(&h) {
            Some(n) => Some(from_chars(&n)),
            None => None,
        },
    }
}

/// The name that a fetched game page yields: none where the request did not succeed.
pub fn page_title(success: bool, body: &str) -> (res: Option<String>)
    ensures
        !success ==> res is None,
        success ==> match (res, game_title(body@)) {
            (Some(r), Some(n)) => r@ == n,
            (None, None) => true,
            _ => false,
        },
{
    if !success {
        None
    } else {
        extract_game_title(body)
    }
}

/// A game of the account: its id and its name.
#[derive(Debug, Clone, PartialEq, Eq)]
pub struct Game {
    pub id: u32,
    pub name: String,
}

/// The games found so far while fetching game pages by increasing id.
pub struct GameListing {
    pub games: Vec<Game>,
}

impl GameListing {
    /// No games found yet.
    pub fn new() -> (res: GameListing)
        ensures
            res.games@.len() == 0,
    {
        GameListing { games: Vec::new() }
    }

    /// Records what the page of game `id` yielded; returns whether to fetch the next id.
    /// A page with a name adds the game; the first page without one ends the listing.
    pub fn record(&mut self, id: u32, page: Option<String>) -> (more: bool)
        ensures
            more == page is Some,
            match page {
                Some(n) => final(self).games@.len() == old(self).games@.len() + 1
                    && final(self).games@.drop_last() == old(self).games@
                    && final(self).games@.last().id == id
                    && final(self).games@.last().name@ == n@,
                None => final(self).games@ == old(self).games@,
            },
    {
        match page {
            Some(name) => {
                self.games.push(Game { id, name });
                assert(self.games@.drop_last() =~= old(self).games@);
                true
            },
            None => false,
        }
    }
}

} // verus!
