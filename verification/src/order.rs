use vstd::prelude::*;

verus! {

broadcast use vstd::seq_lib::group_to_multiset_ensures;

/// `a` comes before `b` or equals it in the order of `str`'s `Ord` (by code point, then length).
pub open spec fn lex_le(a: Seq<char>, b: Seq<char>) -> bool
    decreases a.len(),
{
    if a.len() == 0 {
        true
    } else if b.len() == 0 {
        false
    } else if (a[0] as u32) < (b[0] as u32) {
        true
    } else if (a[0] as u32) > (b[0] as u32) {
        false
    } else {
        lex_le(a.drop_first(), b.drop_first())
    }
}

pub proof fn lemma_lex_total(a: Seq<char>, b: Seq<char>)
    ensures
        lex_le(a, b) || lex_le(b, a),
    decreases a.len(),
{
    if a.len() > 0 && b.len() > 0 && a[0] as u32 == b[0] as u32 {
        lemma_lex_total(a.drop_first(), b.drop_first());
    }
}

pub proof fn lemma_lex_trans(a: Seq<char>, b: Seq<char>, c: Seq<char>)
    requires
        lex_le(a, b),
        lex_le(b, c),
    ensures
        lex_le(a, c),
    decreases a.len(),
{
    if a.len() > 0 && b.len() > 0 && c.len() > 0 && a[0] as u32 == b[0] as u32 && b[0] as u32
        == c[0] as u32 {
        lemma_lex_trans(a.drop_first(), b.drop_first(), c.drop_first());
    }
}

/// Whether `a` comes before `b` or equals it.
pub fn lex_le_exec(a: &Vec<char>, b: &Vec<char>) -> (res: bool)
    ensures
        res == lex_le(a@, b@),
{
    let mut i: usize = 0;
    assert(a@.skip(0) =~= a@);
    assert(b@.skip(0) =~= b@);
    while i < a.len() && i < b.len() && (a[i] as u32) == (b[i] as u32)
        invariant
            i <= a.len(),
            i <= b.len(),
            lex_le(a@.skip(i as int), b@.skip(i as int)) == lex_le(a@, b@),
        decreases a.len() - i,
    {
        assert(a@.skip(i as int).drop_first() =~= a@.skip(i as int + 1));
        assert(b@.skip(i as int).drop_first() =~= b@.skip(i as int + 1));
        i = i + 1;
    }
    if i == a.len() {
        true
    } else if i == b.len() {
        false
    } else {
        (a[i] as u32) < (b[i] as u32)
    }
}

/// The views of strings.
pub open spec fn string_views(v: Seq<String>) -> Seq<Seq<char>> {
    v.map_values(|s: String| s@)
}

/// Every element comes before or equals every later one.
pub open spec fn is_sorted(s: Seq<Seq<char>>) -> bool {
    forall|i: int, j: int| 0 <= i < j < s.len() ==> lex_le(s[i], s[j])
}

/// The strings in ascending order (as `sort` orders them), each as often as in `names`.
pub fn sort_strings(names: Vec<String>) -> (res: Vec<String>)
    ensures
        is_sorted(string_views(res@)),
        string_views(res@).to_multiset() == string_views(names@).to_multiset(),
{
    let mut res: Vec<String> = Vec::new();
    let ghost nv = string_views(names@);
    let mut i: usize = 0;
    while i < names.len()
        invariant
            i <= names.len(),
            nv == string_views(names@),
            is_sorted(string_views(res@)),
            string_views(res@).to_multiset() == nv.take(i as int).to_multiset(),
        decreases names.len() - i,
    {
        let x = names[i].clone();
        let xv = crate::text::to_chars(x.as_str());
        let ghost rv = string_views(res@);
        let mut k: usize = 0;
        while k < res.len() && lex_le_exec(&crate::text::to_chars(res[k].as_str()), &xv)
            invariant
                k <= res.len(),
                rv == string_views(res@),
                xv@ == x@,
                forall|j: int| 0 <= j < k ==> lex_le(#[trigger] rv[j], x@),
            decreases res.len() - k,
        {
            k = k + 1;
        }
        proof {
            if k < res.len() {
                lemma_lex_total(rv[k as int], x@);
            }
        }
        res.insert(k, x);
        proof {
            let nr = string_views(res@);
            assert(nr =~= rv.insert(k as int, x@));
            assert forall|a: int, b: int| 0 <= a < b < nr.len() implies lex_le(nr[a], nr[b]) by {
                if a < k && b == k {
                } else if a < k && b > k {
                    assert(nr[b] == rv[b - 1]);
                    if k < rv.len() {
                        lemma_lex_trans(nr[a], x@, rv[k as int]);
                        if b - 1 > k {
                            lemma_lex_trans(nr[a], rv[k as int], rv[b - 1]);
                        }
                    }
                } else if a == k {
                    assert(nr[b] == rv[b - 1]);
                    if b - 1 > k {
                        lemma_lex_trans(x@, rv[k as int], rv[b - 1]);
                    }
                } else if a < k && b < k {
                } else {
                    assert(nr[a] == rv[a - 1]);
                    assert(nr[b] == rv[b - 1]);
                }
            }
            vstd::seq_lib::to_multiset_insert(rv, k as int, x@);
            assert(nv.take(i as int + 1) =~= nv.take(i as int).push(nv[i as int]));
            assert(nv[i as int] == x@);
        }
        i = i + 1;
    }
    assert(nv.take(names.len() as int) =~= nv);
    res
}

} // verus!
