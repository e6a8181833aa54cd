use vstd::prelude::*;

verus! {

// ---------------------------------------------------------------------------
// Conversions between `str`/`String` and vectors of characters
// ---------------------------------------------------------------------------

/// Appends one character to a `String` (std's `String::push`).
#[verifier::external_body]
pub(crate) fn push_char(s: &mut String, c: char)
    ensures
        final(s)@ == old(s)@.push(c),
{
    s.push(c);
}

/// The view of an optional string.
pub open spec fn opt_view(o: Option<String>) -> Option<Seq<char>> {
    match o {
        Some(s) => Some(s@),
        None => None,
    }
}

/// The characters of `s`, in order.
pub fn to_chars(s: &str) -> (res: Vec<char>)
    ensures
        res@ == s@,
{
    let mut res: Vec<char> = Vec::new();
    for c in it: s.chars()
        invariant
            res@ == it.seq().take(it.index() as int),
    {
        res.push(c);
    }
    res
}

/// The `String` made of the characters of `v`.
pub fn from_chars(v: &Vec<char>) -> (res: String)
    ensures
        res@ == v@,
{
    let mut res = String::new();
    let mut i: usize = 0;
    while i < v.len()
        invariant
            i <= v.len(),
            res@ == v@.take(i as int),
        decreases v.len() - i,
    {
        push_char(&mut res, v[i]);
        assert(v@.take(i as int + 1) =~= v@.take(i as int).push(v@[i as int]));
        i = i + 1;
    }
    assert(v@.take(v.len() as int) =~= v@);
    res
}

/// The `String` holding the characters of a string literal or slice.
pub fn owned(s: &str) -> (res: String)
    ensures
        res@ == s@,
{
    from_chars(&to_chars(s))
}

/// Appends all characters of `t` to `v`.
pub fn extend_chars(v: &mut Vec<char>, t: &Vec<char>)
    ensures
        final(v)@ == old(v)@ + t@,
{
    let mut i: usize = 0;
    while i < t.len()
        invariant
            i <= t.len(),
            v@ == old(v)@ + t@.take(i as int),
        decreases t.len() - i,
    {
        v.push(t[i]);
        assert(t@.take(i as int + 1) =~= t@.take(i as int).push(t@[i as int]));
        i = i + 1;
    }
    assert(t@.take(t.len() as int) =~= t@);
}

/// Appends the characters of `s` to `v`.
pub fn extend_str(v: &mut Vec<char>, s: &str)
    ensures
        final(v)@ == old(v)@ + s@,
{
    let t = to_chars(s);
    extend_chars(v, &t);
}

/// The characters of `v` from `a` up to `b`.
pub fn subvec(v: &Vec<char>, a: usize, b: usize) -> (res: Vec<char>)
    requires
        a <= b <= v.len(),
    ensures
        res@ == v@.subrange(a as int, b as int),
{
    let mut res: Vec<char> = Vec::new();
    let mut i: usize = a;
    while i < b
        invariant
            a <= i <= b <= v.len(),
            res@ == v@.subrange(a as int, i as int),
        decreases b - i,
    {
        res.push(v[i]);
        assert(v@.subrange(a as int, i as int + 1) =~= v@.subrange(a as int, i as int).push(
            v@[i as int],
        ));
        i = i + 1;
    }
    res
}

/// Whether two character vectors hold the same characters.
pub fn chars_eq(a: &Vec<char>, b: &Vec<char>) -> (res: bool)
    ensures
        res == (a@ == b@),
{
    if a.len() != b.len() {
        return false;
    }
    let mut i: usize = 0;
    while i < a.len()
        invariant
            i <= a.len() == b.len(),
            a@.take(i as int) == b@.take(i as int),
        decreases a.len() - i,
    {
        if a[i] != b[i] {
            assert(a@[i as int] != b@[i as int]);
            return false;
        }
        assert(a@.take(i as int + 1) =~= a@.take(i as int).push(a@[i as int]));
        assert(b@.take(i as int + 1) =~= b@.take(i as int).push(b@[i as int]));
        i = i + 1;
    }
    assert(a@ =~= a@.take(a.len() as int));
    assert(b@ =~= b@.take(b.len() as int));
    true
}

/// Whether a character vector holds exactly the characters of `s`.
pub fn chars_eq_str(a: &Vec<char>, s: &str) -> (res: bool)
    ensures
        res == (a@ == s@),
{
    let b = to_chars(s);
    chars_eq(a, &b)
}

// ---------------------------------------------------------------------------
// Searching
// ---------------------------------------------------------------------------

/// `p` occurs in `s` at position `i`.
pub open spec fn matches_at(s: Seq<char>, p: Seq<char>, i: int) -> bool {
    0 <= i && i + p.len() <= s.len() && s.subrange(i, i + p.len()) == p
}

/// The first position at or after `i` where `p` occurs in `s` (as `str::find` does from 0).
pub open spec fn find_from(s: Seq<char>, p: Seq<char>, i: int) -> Option<int>
    decreases s.len() + 1 - i,
{
    if i < 0 || i + p.len() > s.len() {
        None
    } else if s.subrange(i, i + p.len()) == p {
        Some(i)
    } else {
        find_from(s, p, i + 1)
    }
}

/// `str::find` from the start.
pub open spec fn find(s: Seq<char>, p: Seq<char>) -> Option<int> {
    find_from(s, p, 0)
}

/// `str::contains`.
pub open spec fn contains(s: Seq<char>, p: Seq<char>) -> bool {
    find(s, p) is Some
}

/// `str::starts_with`.
pub open spec fn starts_with(s: Seq<char>, p: Seq<char>) -> bool {
    p.len() <= s.len() && s.take(p.len() as int) == p
}

/// `str::ends_with`.
pub open spec fn ends_with(s: Seq<char>, p: Seq<char>) -> bool {
    p.len() <= s.len() && s.skip(s.len() - p.len()) == p
}

/// What `find_from` returns is a match, the first one at or after `i`.
pub proof fn lemma_find_from(s: Seq<char>, p: Seq<char>, i: int)
    requires
        0 <= i,
    ensures
        match find_from(s, p, i) {
            Some(k) => i <= k && matches_at(s, p, k) && forall|j: int|
                i <= j < k ==> !matches_at(s, p, j),
            None => forall|j: int| i <= j ==> !matches_at(s, p, j),
        },
    decreases s.len() + 1 - i,
{
    if i + p.len() > s.len() {
    } else if s.subrange(i, i + p.len()) == p {
    } else {
        lemma_find_from(s, p, i + 1);
    }
}

/// Whether `p` occurs in `s` at position `i`.
pub fn matches_at_exec(s: &Vec<char>, p: &Vec<char>, i: usize) -> (res: bool)
    ensures
        res == matches_at(s@, p@, i as int),
{
    if i > s.len() || p.len() > s.len() - i {
        return false;
    }
    let mut k: usize = 0;
    while k < p.len()
        invariant
            i + p.len() <= s.len(),
            k <= p.len(),
            forall|j: int| 0 <= j < k ==> s@[i + j] == p@[j],
        decreases p.len() - k,
    {
        if s[i + k] != p[k] {
            assert(s@.subrange(i as int, i + p.len())[k as int] != p@[k as int]);
            return false;
        }
        k = k + 1;
    }
    assert(s@.subrange(i as int, i + p.len()) =~= p@);
    true
}

/// The first position at or after `from` where `p` occurs in `s`.
pub fn find_exec(s: &Vec<char>, p: &Vec<char>, from: usize) -> (res: Option<usize>)
    ensures
        res matches Some(k) ==> find_from(s@, p@, from as int) == Some(k as int),
        res is None ==> find_from(s@, p@, from as int) is None,
{
    let mut i: usize = from;
    if i > s.len() {
        return None;
    }
    while i <= s.len()
        invariant
            from <= i <= s.len() + 1,
            find_from(s@, p@, i as int) == find_from(s@, p@, from as int),
        decreases s.len() + 1 - i,
    {
        if matches_at_exec(s, p, i) {
            return Some(i);
        }
        if p.len() > s.len() - i || i == s.len() {
            assert(find_from(s@, p@, i as int + 1) is None);
            return None;
        }
        i = i + 1;
    }
    None
}

/// Whether `p` occurs in `s`.
pub fn contains_exec(s: &Vec<char>, p: &Vec<char>) -> (res: bool)
    ensures
        res == contains(s@, p@),
{
    find_exec(s, p, 0).is_some()
}

/// Whether the string literal `p` occurs in `s`.
pub fn contains_str(s: &Vec<char>, p: &str) -> (res: bool)
    ensures
        res == contains(s@, p@),
{
    let pv = to_chars(p);
    contains_exec(s, &pv)
}

/// Whether `s` starts with `p`.
pub fn starts_with_exec(s: &Vec<char>, p: &Vec<char>) -> (res: bool)
    ensures
        res == starts_with(s@, p@),
{
    let r = matches_at_exec(s, p, 0);
    assert(s@.take(p@.len() as int) =~= s@.subrange(0, p@.len() as int));
    r
}

/// Whether `s` ends with `p`.
pub fn ends_with_exec(s: &Vec<char>, p: &Vec<char>) -> (res: bool)
    ensures
        res == ends_with(s@, p@),
{
    if p.len() > s.len() {
        return false;
    }
    let r = matches_at_exec(s, p, s.len() - p.len());
    assert(s@.skip(s@.len() - p@.len()) =~= s@.subrange(
        s@.len() - p@.len(),
        s@.len() - p@.len() + p@.len(),
    ));
    r
}

/// Whether `s` starts with the string literal `p`.
pub fn starts_with_str(s: &Vec<char>, p: &str) -> (res: bool)
    ensures
        res == starts_with(s@, p@),
{
    let pv = to_chars(p);
    starts_with_exec(s, &pv)
}

/// Whether `s` ends with the string literal `p`.
pub fn ends_with_str(s: &Vec<char>, p: &str) -> (res: bool)
    ensures
        res == ends_with(s@, p@),
{
    let pv = to_chars(p);
    ends_with_exec(s, &pv)
}

/// The first position of the character `c` in `s`.
pub fn find_char(s: &Vec<char>, c: char) -> (res: Option<usize>)
    ensures
        res matches Some(k) ==> find(s@, seq![c]) == Some(k as int),
        res is None ==> find(s@, seq![c]) is None,
{
    let mut p: Vec<char> = Vec::new();
    p.push(c);
    assert(p@ =~= seq![c]);
    find_exec(s, &p, 0)
}

// ---------------------------------------------------------------------------
// Trimming
// ---------------------------------------------------------------------------

/// `char::is_whitespace`: the Unicode `White_Space` property.
pub open spec fn is_ws(c: char) -> bool {
    let n = c as u32;
    (0x9 <= n && n <= 0xd) || n == 0x20 || n == 0x85 || n == 0xa0 || n == 0x1680 || (0x2000 <= n
        && n <= 0x200a) || n == 0x2028 || n == 0x2029 || n == 0x202f || n == 0x205f || n == 0x3000
}

/// Whether `c` is whitespace in the sense of `char::is_whitespace`.
pub fn is_ws_exec(c: char) -> (res: bool)
    ensures
        res == is_ws(c),
{
    let n = c as u32;
    (0x9 <= n && n <= 0xd) || n == 0x20 || n == 0x85 || n == 0xa0 || n == 0x1680 || (0x2000 <= n
        && n <= 0x200a) || n == 0x2028 || n == 0x2029 || n == 0x202f || n == 0x205f || n == 0x3000
}

/// The character is stripped: whitespace where `q` is `None`, else equal to the character in `q`.
pub open spec fn strips(c: char, q: Option<char>) -> bool {
    match q {
        None => is_ws(c),
        Some(x) => c == x,
    }
}

fn strips_exec(c: char, q: Option<char>) -> (res: bool)
    ensures
        res == strips(c, q),
{
    match q {
        None => is_ws_exec(c),
        Some(x) => c == x,
    }
}

/// The first position at or after `i` holding a character that is not stripped.
pub open spec fn skip_from(s: Seq<char>, q: Option<char>, i: int) -> int
    decreases s.len() - i,
{
    if 0 <= i < s.len() && strips(s[i], q) {
        skip_from(s, q, i + 1)
    } else {
        i
    }
}

/// The end of `s.take(j)` once stripped characters at its end are removed.
pub open spec fn back_from(s: Seq<char>, q: Option<char>, j: int) -> int
    decreases j,
{
    if 0 < j <= s.len() && strips(s[j - 1], q) {
        back_from(s, q, j - 1)
    } else {
        j
    }
}

/// `s` without its leading stripped characters.
pub open spec fn strip_start(s: Seq<char>, q: Option<char>) -> Seq<char> {
    s.skip(skip_from(s, q, 0))
}

/// `s` without its trailing stripped characters.
pub open spec fn strip_end(s: Seq<char>, q: Option<char>) -> Seq<char> {
    s.take(back_from(s, q, s.len() as int))
}

/// `str::trim`.
pub open spec fn trim(s: Seq<char>) -> Seq<char> {
    strip_end(strip_start(s, None), None)
}

/// `str::trim_matches` with a single character.
pub open spec fn trim_char(s: Seq<char>, c: char) -> Seq<char> {
    strip_end(strip_start(s, Some(c)), Some(c))
}

fn strip_start_exec(s: &Vec<char>, q: Option<char>) -> (res: Vec<char>)
    ensures
        res@ == strip_start(s@, q),
{
    let mut i: usize = 0;
    while i < s.len() && strips_exec(s[i], q)
        invariant
            i <= s.len(),
            skip_from(s@, q, i as int) == skip_from(s@, q, 0),
        decreases s.len() - i,
    {
        i = i + 1;
    }
    subvec(s, i, s.len())
}

fn strip_end_exec(s: &Vec<char>, q: Option<char>) -> (res: Vec<char>)
    ensures
        res@ == strip_end(s@, q),
{
    let mut j: usize = s.len();
    while j > 0 && strips_exec(s[j - 1], q)
        invariant
            j <= s.len(),
            back_from(s@, q, j as int) == back_from(s@, q, s@.len() as int),
        decreases j,
    {
        j = j - 1;
    }
    let r = subvec(s, 0, j);
    assert(r@ =~= s@.take(j as int));
    r
}

/// `str::trim` on a character vector.
pub fn trim_exec(s: &Vec<char>) -> (res: Vec<char>)
    ensures
        res@ == trim(s@),
{
    let t = strip_start_exec(s, None);
    strip_end_exec(&t, None)
}

/// `str::trim_matches(c)` on a character vector.
pub fn trim_char_exec(s: &Vec<char>, c: char) -> (res: Vec<char>)
    ensures
        res@ == trim_char(s@, c),
{
    let t = strip_start_exec(s, Some(c));
    strip_end_exec(&t, Some(c))
}

/// `str::trim` from a string slice to an owned string.
pub fn trim_str(s: &str) -> (res: String)
    ensures
        res@ == trim(s@),
{
    let v = to_chars(s);
    let t = trim_exec(&v);
    from_chars(&t)
}

// ---------------------------------------------------------------------------
// Lines
// ---------------------------------------------------------------------------

/// The first position at or after `i` holding a line feed, or the length of `s`.
pub open spec fn next_nl(s: Seq<char>, i: int) -> int
    decreases s.len() - i,
{
    if 0 <= i < s.len() && s[i] != '\n' {
        next_nl(s, i + 1)
    } else {
        i
    }
}

/// The line that starts at `i`: up to the next line feed, without a `\r` right before that feed.
pub open spec fn line_at(s: Seq<char>, i: int) -> Seq<char> {
    let e = next_nl(s, i);
    let raw = s.subrange(i, e);
    if e < s.len() && raw.len() > 0 && raw.last() == '\r' {
        raw.drop_last()
    } else {
        raw
    }
}

pub proof fn lemma_next_nl_bounds(s: Seq<char>, i: int)
    requires
        0 <= i <= s.len(),
    ensures
        i <= next_nl(s, i) <= s.len(),
        next_nl(s, i) < s.len() ==> s[next_nl(s, i)] == '\n',
    decreases s.len() - i,
{
    if 0 <= i < s.len() && s[i] != '\n' {
        lemma_next_nl_bounds(s, i + 1);
    }
}

/// The lines of `s` from position `i` on, as `str::lines` gives them.
pub open spec fn lines_from(s: Seq<char>, i: int) -> Seq<Seq<char>>
    decreases s.len() + 1 - i,
{
    if 0 <= i < s.len() {
        proof {
            lemma_next_nl_bounds(s, i);
        }
        seq![line_at(s, i)] + lines_from(s, next_nl(s, i) + 1)
    } else {
        seq![]
    }
}

/// `str::lines`.
pub open spec fn lines(s: Seq<char>) -> Seq<Seq<char>> {
    lines_from(s, 0)
}

/// The views of a vector of character vectors.
pub open spec fn views(v: Seq<Vec<char>>) -> Seq<Seq<char>> {
    v.map_values(|l: Vec<char>| l@)
}

/// The lines of `s`, as `str::lines` gives them.
pub fn lines_exec(s: &Vec<char>) -> (res: Vec<Vec<char>>)
    ensures
        views(res@) == lines(s@),
{
    let mut res: Vec<Vec<char>> = Vec::new();
    let mut i: usize = 0;
    while i < s.len()
        invariant
            i <= s.len(),
            views(res@) + lines_from(s@, i as int) == lines(s@),
        decreases s.len() - i,
    {
        let mut e: usize = i;
        while e < s.len() && s[e] != '\n'
            invariant
                i <= e <= s.len(),
                next_nl(s@, e as int) == next_nl(s@, i as int),
            decreases s.len() - e,
        {
            e = e + 1;
        }
        let mut line = subvec(s, i, e);
        if e < s.len() && line.len() > 0 && line[line.len() - 1] == '\r' {
            line.pop();
        }
        proof {
            lemma_next_nl_bounds(s@, i as int);
        }
        assert(line@ == line_at(s@, i as int)) by {
            if e < s.len() && s@.subrange(i as int, e as int).len() > 0
                && s@.subrange(i as int, e as int).last() == '\r' {
                assert(line@ =~= s@.subrange(i as int, e as int).drop_last());
            }
        }
        let ghost before = res@;
        res.push(line);
        assert(views(res@) =~= views(before).push(line_at(s@, i as int)));
        assert(lines_from(s@, i as int) == seq![line_at(s@, i as int)] + lines_from(
            s@,
            e as int + 1,
        ));
        assert(views(res@) + lines_from(s@, e as int + 1) =~= views(before) + lines_from(
            s@,
            i as int,
        ));
        if e == s.len() {
            assert(lines_from(s@, e as int + 1) == Seq::<Seq<char>>::empty());
            assert(lines_from(s@, s.len() as int) == Seq::<Seq<char>>::empty());
            assert(views(res@) + lines_from(s@, s.len() as int) =~= views(res@));
            i = e;
        } else {
            i = e + 1;
        }
    }
    assert(views(res@) + lines_from(s@, i as int) =~= views(res@));
    res
}

// ---------------------------------------------------------------------------
// Replacing and stripping
// ---------------------------------------------------------------------------

/// `str::replace(from, to)` on `s` from position `i` on, for a non-empty `from`.
pub open spec fn replace_from(s: Seq<char>, from: Seq<char>, to: Seq<char>, i: int) -> Seq<char>
    decreases s.len() + 1 - i,
{
    if from.len() == 0 || i < 0 || i > s.len() {
        s.subrange(0, 0)
    } else {
        match find_from(s, from, i) {
            None => s.subrange(i, s.len() as int),
            Some(k) => {
                proof {
                    lemma_find_from(s, from, i);
                }
                s.subrange(i, k) + to + replace_from(s, from, to, k + from.len())
            },
        }
    }
}

/// `str::replace(from, to)`, for a non-empty `from`.
pub open spec fn replace_all(s: Seq<char>, from: Seq<char>, to: Seq<char>) -> Seq<char> {
    replace_from(s, from, to, 0)
}

/// Every occurrence of `from` in `s`, left to right and not overlapping, replaced by `to`.
pub fn replace_exec(s: &Vec<char>, from: &Vec<char>, to: &Vec<char>) -> (res: Vec<char>)
    requires
        from.len() > 0,
    ensures
        res@ == replace_all(s@, from@, to@),
{
    let mut res: Vec<char> = Vec::new();
    let mut i: usize = 0;
    loop
        invariant
            i <= s.len(),
            from.len() > 0,
            res@ + replace_from(s@, from@, to@, i as int) == replace_all(s@, from@, to@),
        decreases s.len() - i,
    {
        match find_exec(s, from, i) {
            None => {
                let tail = subvec(s, i, s.len());
                let ghost before = res@;
                extend_chars(&mut res, &tail);
                assert(res@ == before + replace_from(s@, from@, to@, i as int));
                return res;
            },
            Some(k) => {
                proof {
                    lemma_find_from(s@, from@, i as int);
                }
                let mid = subvec(s, i, k);
                let ghost before = res@;
                extend_chars(&mut res, &mid);
                extend_chars(&mut res, to);
                assert(res@ + replace_from(s@, from@, to@, k + from@.len()) =~= before
                    + replace_from(s@, from@, to@, i as int));
                i = k + from.len();
            },
        }
    }
}

/// `s` with every `"sudo "` in it removed.
pub fn remove_sudo(s: &str) -> (res: String)
    ensures
        res@ == replace_all(s@, "sudo "@, Seq::<char>::empty()),
{
    let v = to_chars(s);
    let from = to_chars("sudo ");
    proof {
        reveal_strlit("sudo ");
    }
    let to: Vec<char> = Vec::new();
    assert(to@ =~= Seq::<char>::empty());
    let r = replace_exec(&v, &from, &to);
    from_chars(&r)
}

/// `str::strip_prefix`.
pub open spec fn strip_prefix(s: Seq<char>, p: Seq<char>) -> Option<Seq<char>> {
    if starts_with(s, p) {
        Some(s.skip(p.len() as int))
    } else {
        None
    }
}

/// `s` without the string literal `p` in front, where it starts with `p`.
pub fn strip_prefix_str(s: &Vec<char>, p: &str) -> (res: Option<Vec<char>>)
    ensures
        res matches Some(r) ==> strip_prefix(s@, p@) == Some(r@),
        res is None ==> strip_prefix(s@, p@) is None,
{
    let pv = to_chars(p);
    if starts_with_exec(s, &pv) {
        Some(subvec(s, pv.len(), s.len()))
    } else {
        None
    }
}

// ---------------------------------------------------------------------------
// Case
// ---------------------------------------------------------------------------

/// What std's `str::to_lowercase` returns: Unicode lower-case mapping of every character.
pub uninterp spec fn lowercase(s: Seq<char>) -> Seq<char>;

/// std's `str::to_lowercase`; its result is named `lowercase`.
#[verifier::external_body]
pub(crate) fn to_lowercase(s: &str) -> (res: String)
    ensures
        res@ == lowercase(s@),
{
    s.to_lowercase()
}

/// `str::to_lowercase` on a character vector.
pub fn lowercase_exec(s: &Vec<char>) -> (res: Vec<char>)
    ensures
        res@ == lowercase(s@),
{
    let st = from_chars(s);
    let l = to_lowercase(st.as_str());
    to_chars(l.as_str())
}

/// The code of `c` with ASCII upper-case letters mapped to lower case.
pub open spec fn ascii_fold(c: char) -> u32 {
    if 65 <= c as u32 <= 90 {
        (c as u32 + 32) as u32
    } else {
        c as u32
    }
}

/// `str::eq_ignore_ascii_case`.
pub open spec fn eq_ignore_ascii_case(a: Seq<char>, b: Seq<char>) -> bool {
    a.len() == b.len() && forall|i: int| 0 <= i < a.len() ==> ascii_fold(a[i]) == ascii_fold(b[i])
}

fn ascii_fold_exec(c: char) -> (res: u32)
    ensures
        res == ascii_fold(c),
{
    let n = c as u32;
    if 65 <= n && n <= 90 {
        n + 32
    } else {
        n
    }
}

/// Whether `a` equals the string literal `b` but for ASCII case.
pub fn eq_ignore_ascii_case_str(a: &Vec<char>, b: &str) -> (res: bool)
    ensures
        res == eq_ignore_ascii_case(a@, b@),
{
    let bv = to_chars(b);
    if a.len() != bv.len() {
        return false;
    }
    let mut i: usize = 0;
    while i < a.len()
        invariant
            i <= a.len() == bv.len(),
            bv@ == b@,
            forall|j: int| 0 <= j < i ==> ascii_fold(a@[j]) == ascii_fold(bv@[j]),
        decreases a.len() - i,
    {
        if ascii_fold_exec(a[i]) != ascii_fold_exec(bv[i]) {
            assert(ascii_fold(a@[i as int]) != ascii_fold(bv@[i as int]));
            return false;
        }
        i = i + 1;
    }
    true
}

} // verus!
