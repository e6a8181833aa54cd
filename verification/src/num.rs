use vstd::prelude::*;

verus! {

/// The ASCII digit for `d`, where `d < 10`.
pub open spec fn digit_char(d: nat) -> char {
    if d == 0 {
        '0'
    } else if d == 1 {
        '1'
    } else if d == 2 {
        '2'
    } else if d == 3 {
        '3'
    } else if d == 4 {
        '4'
    } else if d == 5 {
        '5'
    } else if d == 6 {
        '6'
    } else if d == 7 {
        '7'
    } else if d == 8 {
        '8'
    } else {
        '9'
    }
}

/// The decimal representation of `n`, without sign or leading zeros.
pub open spec fn decimal(n: nat) -> Seq<char>
    decreases n,
{
    if n < 10 {
        seq![digit_char(n)]
    } else {
        decimal(n / 10).push(digit_char(n % 10))
    }
}

/// `s` padded on the left with `'0'` up to `width` characters, as `{:0width$}` does.
pub open spec fn pad_zero(s: Seq<char>, width: nat) -> Seq<char> {
    if s.len() < width {
        Seq::new((width - s.len()) as nat, |i: int| '0') + s
    } else {
        s
    }
}

/// `c` is an ASCII digit.
pub open spec fn is_digit(c: char) -> bool {
    48 <= c as u32 <= 57
}

/// Every character of `s` is an ASCII digit.
pub open spec fn all_digits(s: Seq<char>) -> bool {
    forall|i: int| 0 <= i < s.len() ==> is_digit(#[trigger] s[i])
}

/// The number that the ASCII digits `s` stand for in base ten.
pub open spec fn digits_value(s: Seq<char>) -> nat
    decreases s.len(),
{
    if s.len() == 0 {
        0
    } else {
        digits_value(s.drop_last()) * 10 + (s.last() as u32 - 48) as nat
    }
}

/// What `str::parse::<u32>` gives: an optional `+`, then one or more ASCII digits whose value
/// fits in a `u32`.
pub open spec fn parse_u32(s: Seq<char>) -> Option<u32> {
    let d = if s.len() > 0 && s[0] == '+' {
        s.drop_first()
    } else {
        s
    };
    if d.len() == 0 || !all_digits(d) || digits_value(d) > u32::MAX {
        None
    } else {
        Some(digits_value(d) as u32)
    }
}

/// The digit character for `d`.
pub fn digit_to_char(d: u64) -> (c: char)
    requires
        d < 10,
    ensures
        c == digit_char(d as nat),
{
    if d == 0 {
        '0'
    } else if d == 1 {
        '1'
    } else if d == 2 {
        '2'
    } else if d == 3 {
        '3'
    } else if d == 4 {
        '4'
    } else if d == 5 {
        '5'
    } else if d == 6 {
        '6'
    } else if d == 7 {
        '7'
    } else if d == 8 {
        '8'
    } else {
        '9'
    }
}

/// The decimal representation of `n`.
pub fn decimal_exec(n: u64) -> (res: Vec<char>)
    ensures
        res@ == decimal(n as nat),
    decreases n,
{
    if n < 10 {
        let mut v: Vec<char> = Vec::new();
        v.push(digit_to_char(n));
        assert(v@ =~= seq![digit_char(n as nat)]);
        v
    } else {
        let mut v = decimal_exec(n / 10);
        v.push(digit_to_char(n % 10));
        v
    }
}

/// The decimal representation of `n`, padded with zeros to `width` characters.
pub fn padded_exec(n: u64, width: usize) -> (res: Vec<char>)
    ensures
        res@ == pad_zero(decimal(n as nat), width as nat),
{
    let d = decimal_exec(n);
    if d.len() < width {
        let mut res: Vec<char> = Vec::new();
        let k = width - d.len();
        let mut i: usize = 0;
        while i < k
            invariant
                i <= k,
                res@ == Seq::new(i as nat, |j: int| '0'),
            decreases k - i,
        {
            res.push('0');
            assert(res@ =~= Seq::new((i + 1) as nat, |j: int| '0'));
            i = i + 1;
        }
        let mut j: usize = 0;
        let ghost zeros = res@;
        while j < d.len()
            invariant
                j <= d.len(),
                res@ == zeros + d@.take(j as int),
            decreases d.len() - j,
        {
            res.push(d[j]);
            assert(d@.take(j as int + 1) =~= d@.take(j as int).push(d@[j as int]));
            j = j + 1;
        }
        assert(d@.take(d.len() as int) =~= d@);
        res
    } else {
        d
    }
}

/// The decimal digits of `n` as a `String`.
pub fn u64_to_string(n: u64) -> (res: String)
    ensures
        res@ == decimal(n as nat),
{
    let v = decimal_exec(n);
    crate::text::from_chars(&v)
}

proof fn lemma_digits_prefix(s: Seq<char>, k: int)
    requires
        0 <= k <= s.len(),
        all_digits(s),
    ensures
        digits_value(s.take(k)) <= digits_value(s),
    decreases s.len() - k,
{
    if k < s.len() {
        lemma_digits_prefix(s.drop_last(), k);
        assert(s.drop_last().take(k) =~= s.take(k));
    } else {
        assert(s.take(k) =~= s);
    }
}

/// `str::parse::<u32>` on a character vector.
pub fn parse_u32_exec(s: &Vec<char>) -> (res: Option<u32>)
    ensures
        res == parse_u32(s@),
{
    let start: usize = if s.len() > 0 && s[0] == '+' {
        1
    } else {
        0
    };
    let ghost d = if s@.len() > 0 && s@[0] == '+' {
        s@.drop_first()
    } else {
        s@
    };
    assert(d =~= s@.skip(start as int));
    if start >= s.len() {
        return None;
    }
    let mut acc: u64 = 0;
    let mut i: usize = start;
    while i < s.len()
        invariant
            start <= i <= s.len(),
            start < s.len(),
            d == s@.skip(start as int),
            d == (if s@.len() > 0 && s@[0] == '+' {
                s@.drop_first()
            } else {
                s@
            }),
            all_digits(s@.subrange(start as int, i as int)),
            acc == digits_value(s@.subrange(start as int, i as int)),
            acc <= u32::MAX,
        decreases s.len() - i,
    {
        let c = s[i];
        let n = c as u32;
        if n < 48 || n > 57 {
            assert(d[i - start] == c);
            assert(!is_digit(d[i - start]));
            return None;
        }
        let ghost pre = s@.subrange(start as int, i as int);
        let ghost next = s@.subrange(start as int, i as int + 1);
        assert(next.drop_last() =~= pre);
        assert(all_digits(next)) by {
            assert forall|j: int| 0 <= j < next.len() implies is_digit(#[trigger] next[j]) by {
                if j < pre.len() {
                    assert(next[j] == pre[j]);
                }
            }
        }
        acc = acc * 10 + (n - 48) as u64;
        if acc > 0xffff_ffff {
            proof {
                if all_digits(d) {
                    assert(d.take(i + 1 - start) =~= next);
                    lemma_digits_prefix(d, i + 1 - start);
                }
            }
            return None;
        }
        i = i + 1;
    }
    assert(s@.subrange(start as int, s.len() as int) =~= d);
    Some(acc as u32)
}

proof fn lemma_digit_char(d: nat)
    requires
        d < 10,
    ensures
        digit_char(d) as u32 == 48 + d,
        is_digit(digit_char(d)),
{
    assert('0' as u32 == 48);
}

/// Ten to the power `k`.
pub open spec fn pow10(k: nat) -> nat
    decreases k,
{
    if k == 0 {
        1
    } else {
        10 * pow10((k - 1) as nat)
    }
}

/// A number below `10^k` has at most `k` decimal digits.
pub proof fn lemma_decimal_len(n: nat, k: nat)
    requires
        k >= 1,
        n < pow10(k),
    ensures
        decimal(n).len() <= k,
    decreases k,
{
    if n >= 10 {
        assert(k >= 2) by {
            if k == 1 {
                assert(pow10(1) == 10 * pow10(0));
            }
        }
        assert(pow10(k) == 10 * pow10((k - 1) as nat));
        assert(n / 10 < pow10((k - 1) as nat));
        lemma_decimal_len(n / 10, (k - 1) as nat);
    }
}

/// Padding to `width` gives exactly `width` characters where the number has no more digits.
pub proof fn lemma_pad_len(n: nat, width: nat)
    requires
        decimal(n).len() <= width,
    ensures
        pad_zero(decimal(n), width).len() == width,
{
}

/// The decimal digits of `n` read back give `n`.
pub proof fn lemma_decimal_value(n: nat)
    ensures
        decimal(n).len() >= 1,
        all_digits(decimal(n)),
        digits_value(decimal(n)) == n,
        decimal(n)[0] != '+',
    decreases n,
{
    lemma_digit_char(n % 10);
    if n >= 10 {
        lemma_decimal_value(n / 10);
        let s = decimal(n);
        assert(s.drop_last() =~= decimal(n / 10));
        assert(s.last() == digit_char(n % 10));
        assert(digits_value(s) == digits_value(decimal(n / 10)) * 10 + (n % 10));
        assert((n / 10) * 10 + n % 10 == n);
        assert forall|i: int| 0 <= i < s.len() implies is_digit(#[trigger] s[i]) by {
            if i < s.len() - 1 {
                assert(s[i] == decimal(n / 10)[i]);
            }
        }
    } else {
        assert(decimal(n).drop_last() =~= Seq::<char>::empty());
        assert(digits_value(Seq::<char>::empty()) == 0);
        assert(digits_value(decimal(n)) == digits_value(decimal(n).drop_last()) * 10 + (
        decimal(n).last() as u32 - 48) as nat);
    }
}

/// Parsing the decimal digits of a `u32` gives it back.
pub proof fn lemma_parse_decimal(n: u32)
    ensures
        parse_u32(decimal(n as nat)) == Some(n),
{
    lemma_decimal_value(n as nat);
}

} // verus!
