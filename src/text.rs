//! Character-level helpers shared by the scanner and the code emitter.
use vstd::prelude::*;

verus! {

/// The decimal digit `d` as a character.
pub open spec fn digit_char(d: nat) -> char {
    seq!['0', '1', '2', '3', '4', '5', '6', '7', '8', '9'][d as int]
}

/// The decimal representation of `n`, without sign or leading zeros.
pub open spec fn decimal(n: nat) -> Seq<char>
    decreases n,
{
    if n < 10 {
        seq![digit_char(n)]
    } else {
        decimal(n / 10).push(digit_char(n % 10))
    }
}

/// The one-character string of the decimal digit `d`.
fn digit_string(d: usize) -> (r: String)
    requires
        d < 10,
    ensures
        r@ == seq![digit_char(d as nat)],
{
    let digits = "0123456789";
    proof {
        reveal_strlit("0123456789");
    }
    let s = digits.substring_char(d, d + 1);
    assert(s@ =~= seq![digit_char(d as nat)]);
    String::from_str(s)
}

/// Writes `n` in decimal.
pub fn decimal_string(n: usize) -> (r: String)
    ensures
        r@ == decimal(n as nat),
    decreases n,
{
    if n < 10 {
        digit_string(n)
    } else {
        let mut s = decimal_string(n / 10);
        let d = digit_string(n % 10);
        s.append(d.as_str());
        s
    }
}

/// Whether `c` is an ASCII decimal digit.
pub open spec fn is_digit(c: char) -> bool {
    '0' <= c && c <= '9'
}

/// Whether every character of `s` is a decimal digit.
pub open spec fn all_digits(s: Seq<char>) -> bool {
    forall|i: int| 0 <= i < s.len() ==> is_digit(#[trigger] s[i])
}

/// The value of a run of decimal digits, most significant first.
pub open spec fn digits_value(s: Seq<char>) -> nat
    decreases s.len(),
{
    if s.len() == 0 {
        0
    } else {
        digits_value(s.drop_last()) * 10 + (s.last() as nat - '0' as nat) as nat
    }
}

/// The digits that follow an optional leading `+`.
pub open spec fn unsigned_digits(s: Seq<char>) -> Seq<char> {
    if s.len() > 0 && s[0] == '+' {
        s.drop_first()
    } else {
        s
    }
}

/// What reading `s` as a `usize` gives: an optional `+` and then one or more
/// decimal digits whose value fits, or nothing.
pub open spec fn parse_usize(s: Seq<char>) -> Option<usize> {
    let d = unsigned_digits(s);
    if d.len() > 0 && all_digits(d) && digits_value(d) <= usize::MAX {
        Some(digits_value(d) as usize)
    } else {
        None
    }
}

proof fn lemma_digits_value_grows(s: Seq<char>, n: int)
    requires
        0 <= n <= s.len(),
        forall|i: int| 0 <= i < s.len() ==> is_digit(#[trigger] s[i]),
    ensures
        digits_value(s.subrange(0, n)) <= digits_value(s),
    decreases s.len() - n,
{
    if n < s.len() {
        lemma_digits_value_grows(s, n + 1);
        assert(s.subrange(0, n + 1).drop_last() =~= s.subrange(0, n));
    } else {
        assert(s.subrange(0, n) =~= s);
    }
}

proof fn lemma_overflow(d: Seq<char>, n: int)
    requires
        0 <= n <= d.len(),
        digits_value(d.subrange(0, n)) > usize::MAX,
    ensures
        !(all_digits(d) && digits_value(d) <= usize::MAX),
{
    if all_digits(d) {
        lemma_digits_value_grows(d, n);
    }
}

/// Reads `s` as an unsigned decimal number, as `str::parse::<usize>` does.
pub fn parse_usize_str(s: &str) -> (r: Option<usize>)
    ensures
        r == parse_usize(s@),
{
    let len = s.unicode_len();
    let start: usize = if len > 0 && s.get_char(0) == '+' { 1 } else { 0 };
    let ghost d = unsigned_digits(s@);
    assert(d =~= s@.subrange(start as int, len as int));
    if start == len {
        return None;
    }
    let mut value: usize = 0;
    let mut i: usize = start;
    while i < len
        invariant
            start <= i <= len,
            len == s@.len(),
            d == s@.subrange(start as int, len as int),
            d == unsigned_digits(s@),
            forall|k: int| 0 <= k < i - start ==> is_digit(#[trigger] d[k]),
            value == digits_value(d.subrange(0, i - start)),
        decreases len - i,
    {
        let c = s.get_char(i);
        assert(d[i - start] == c);
        if !('0' <= c && c <= '9') {
            assert(!is_digit(d[i - start]));
            return None;
        }
        let ghost prefix = d.subrange(0, i - start + 1);
        assert(prefix.drop_last() =~= d.subrange(0, i - start));
        assert(prefix.last() == c);
        let digit = (c as u32 - '0' as u32) as usize;
        assert(digits_value(prefix) == value * 10 + digit);
        match value.checked_mul(10) {
            Some(m) => match m.checked_add(digit) {
                Some(v) => {
                    value = v;
                },
                None => {
                    proof {
                        assert forall|k: int| 0 <= k < prefix.len() implies is_digit(#[trigger] prefix[k]) by {
                            assert(prefix[k] == d[k]);
                        }
                        assert(digits_value(prefix) > usize::MAX);
                        lemma_overflow(d, (i - start + 1) as int);
                    }
                    return None;
                },
            },
            None => {
                proof {
                    assert forall|k: int| 0 <= k < prefix.len() implies is_digit(#[trigger] prefix[k]) by {
                        assert(prefix[k] == d[k]);
                    }
                    lemma_overflow(d, (i - start + 1) as int);
                }
                return None;
            },
        }
        i = i + 1;
    }
    assert(d.subrange(0, len - start) =~= d);
    Some(value)
}

/// Whether `s` begins with `p`.
pub open spec fn has_prefix(s: Seq<char>, p: Seq<char>) -> bool {
    p.len() <= s.len() && s.subrange(0, p.len() as int) == p
}

/// Whether `s` ends with `p`.
pub open spec fn has_suffix(s: Seq<char>, p: Seq<char>) -> bool {
    p.len() <= s.len() && s.subrange(s.len() - p.len(), s.len() as int) == p
}

/// Whether `s` begins with `p`.
pub fn starts_with(s: &str, p: &str) -> (r: bool)
    ensures
        r == has_prefix(s@, p@),
{
    let n = s.unicode_len();
    let m = p.unicode_len();
    if m > n {
        return false;
    }
    let mut i: usize = 0;
    while i < m
        invariant
            i <= m <= n,
            n == s@.len(),
            m == p@.len(),
            forall|k: int| 0 <= k < i ==> s@[k] == p@[k],
        decreases m - i,
    {
        if s.get_char(i) != p.get_char(i) {
            assert(s@.subrange(0, m as int)[i as int] != p@[i as int]);
            return false;
        }
        i = i + 1;
    }
    assert(s@.subrange(0, m as int) =~= p@);
    true
}

/// Whether `s` ends with `p`.
pub fn ends_with(s: &str, p: &str) -> (r: bool)
    ensures
        r == has_suffix(s@, p@),
{
    let n = s.unicode_len();
    let m = p.unicode_len();
    if m > n {
        return false;
    }
    let start = n - m;
    let mut i: usize = 0;
    while i < m
        invariant
            i <= m <= n,
            start == n - m,
            n == s@.len(),
            m == p@.len(),
            forall|k: int| 0 <= k < i ==> s@[start + k] == p@[k],
        decreases m - i,
    {
        if s.get_char(start + i) != p.get_char(i) {
            assert(s@.subrange(start as int, n as int)[i as int] != p@[i as int]);
            return false;
        }
        i = i + 1;
    }
    assert(s@.subrange(start as int, n as int) =~= p@);
    true
}

/// Whether `a` and `b` hold the same characters.
pub fn same_text(a: &str, b: &str) -> (r: bool)
    ensures
        r == (a@ == b@),
{
    let equal = a.unicode_len() == b.unicode_len() && starts_with(a, b);
    assert(a@.subrange(0, a@.len() as int) =~= a@);
    equal
}

/// The view of an optional string.
pub open spec fn opt_text(o: Option<String>) -> Option<Seq<char>> {
    match o {
        Some(s) => Some(s@),
        None => None,
    }
}

/// The views of a vector of strings.
pub open spec fn views(items: Seq<String>) -> Seq<Seq<char>> {
    items.map_values(|s: String| s@)
}

/// The items one after the other, with `sep` between two neighbours.
pub open spec fn join(items: Seq<Seq<char>>, sep: Seq<char>) -> Seq<char>
    decreases items.len(),
{
    if items.len() == 0 {
        Seq::empty()
    } else if items.len() == 1 {
        items[0]
    } else {
        join(items.drop_last(), sep) + sep + items.last()
    }
}

/// Concatenates `items` with `sep` between two neighbours.
pub fn join_strings(items: &Vec<String>, sep: &str) -> (r: String)
    ensures
        r@ == join(views(items@), sep@),
{
    let mut out = String::new();
    let mut i: usize = 0;
    while i < items.len()
        invariant
            i <= items@.len(),
            out@ == join(views(items@.subrange(0, i as int)), sep@),
        decreases items@.len() - i,
    {
        let ghost before = views(items@.subrange(0, i as int));
        let ghost after = views(items@.subrange(0, i + 1));
        assert(after.drop_last() =~= before);
        assert(after.last() == items@[i as int]@);
        if i > 0 {
            out.append(sep);
        }
        out.append(items[i].as_str());
        i = i + 1;
    }
    assert(items@.subrange(0, i as int) =~= items@);
    out
}

} // verus!
