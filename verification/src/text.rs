//! Text primitives shared by the rest of the crate: decimal rendering and
//! parsing of integers, string comparison, and substring search.
use vstd::prelude::*;

verus! {

/// The character of a decimal digit `d` (`0 <= d < 10`).
pub open spec fn digit_char(d: nat) -> char
    recommends
        d < 10,
{
    (d + 48) as char
}

/// Decimal digits of a natural number, most significant first, without
/// leading zeros (zero itself is the single digit `0`).
pub open spec fn decimal_digits(n: nat) -> Seq<char>
    decreases n,
{
    if n < 10 {
        seq![digit_char(n)]
    } else {
        decimal_digits(n / 10).push(digit_char(n % 10))
    }
}

/// Decimal text of an integer as `{}` formats it: a `-` sign for negative
/// values followed by the digits of the magnitude.
pub open spec fn decimal_text(v: int) -> Seq<char> {
    if v < 0 {
        seq!['-'] + decimal_digits((-v) as nat)
    } else {
        decimal_digits(v as nat)
    }
}

pub open spec fn is_ascii_digit(c: char) -> bool {
    '0' <= c && c <= '9'
}

pub open spec fn digit_value(c: char) -> int {
    c as int - 48
}

/// Value of a sequence of decimal digits, most significant first.
pub open spec fn digits_value(s: Seq<char>) -> int
    decreases s.len(),
{
    if s.len() == 0 {
        0
    } else {
        digits_value(s.drop_last()) * 10 + digit_value(s.last())
    }
}

pub open spec fn all_ascii_digits(s: Seq<char>) -> bool {
    forall|i: int| 0 <= i < s.len() ==> is_ascii_digit(#[trigger] s[i])
}

/// The digits that follow an optional leading sign.
pub open spec fn unsigned_part(s: Seq<char>) -> Seq<char> {
    if s.len() > 0 && (s[0] == '-' || s[0] == '+') {
        s.drop_first()
    } else {
        s
    }
}

/// What `str::parse::<i64>` yields for a text: an optional `+` or `-` sign
/// followed by at least one ASCII digit and nothing else, whose value fits in
/// an `i64`; anything else is rejected.
pub open spec fn parsed_i64(s: Seq<char>) -> Option<i64> {
    let body = unsigned_part(s);
    let magnitude = digits_value(body);
    let value = if s.len() > 0 && s[0] == '-' { -magnitude } else { magnitude };
    if body.len() == 0 || !all_ascii_digits(body) {
        None
    } else if i64::MIN <= value <= i64::MAX {
        Some(value as i64)
    } else {
        None
    }
}

/// `needle` occurs in `haystack` at position `i`.
pub open spec fn occurs_at(haystack: Seq<char>, needle: Seq<char>, i: int) -> bool {
    0 <= i && i + needle.len() <= haystack.len() && haystack.subrange(i, i + needle.len())
        == needle
}

/// `needle` occurs somewhere in `haystack`.
pub open spec fn contains_text(haystack: Seq<char>, needle: Seq<char>) -> bool {
    exists|i: int| occurs_at(haystack, needle, i)
}

/// Appends one character to a string, as `String::push` does.
#[verifier::external_body]
pub fn push_char(s: &mut String, c: char)
    ensures
        final(s)@ == old(s)@.push(c),
{
    s.push(c);
}

/// Compares two string slices character by character, as `str == str` does.
#[verifier::external_body]
pub fn str_eq(a: &str, b: &str) -> (same: bool)
    ensures
        same == (a@ == b@),
{
    a == b
}

/// The character of a decimal digit.
pub fn digit_to_char(d: u64) -> (c: char)
    requires
        d < 10,
    ensures
        c == digit_char(d as nat),
{
    let b: u8 = 48 + d as u8;
    b as char
}

/// Appends the decimal digits of `n` to `out`.
pub fn push_decimal_digits(out: &mut String, n: u128)
    ensures
        final(out)@ == old(out)@ + decimal_digits(n as nat),
    decreases n,
{
    if n >= 10 {
        push_decimal_digits(out, n / 10);
    }
    push_char(out, digit_to_char((n % 10) as u64));
    proof {
        if n >= 10 {
            assert(old(out)@ + decimal_digits(n as nat) =~= old(out)@ + decimal_digits(
                (n / 10) as nat,
            ) + seq![digit_char((n % 10) as nat)]);
        }
    }
}

/// Appends the decimal text of `v` (as `{}` formats an integer) to `out`.
pub fn push_decimal(out: &mut String, v: i128)
    ensures
        final(out)@ == old(out)@ + decimal_text(v as int),
{
    if v < 0 {
        push_char(out, '-');
        let magnitude: u128 = ((0 - (v + 1)) as u128) + 1;
        push_decimal_digits(out, magnitude);
        assert(old(out)@ + decimal_text(v as int) =~= old(out)@.push('-') + decimal_digits(
            magnitude as nat,
        ));
    } else {
        push_decimal_digits(out, v as u128);
    }
}

/// The decimal text of `v`, as `v.to_string()` renders it.
pub fn decimal_string(v: i64) -> (s: String)
    ensures
        s@ == decimal_text(v as int),
{
    let mut s = String::new();
    push_decimal(&mut s, v as i128);
    assert(s@ =~= decimal_text(v as int));
    s
}

proof fn lemma_digits_value_nonneg(s: Seq<char>)
    requires
        all_ascii_digits(s),
    ensures
        digits_value(s) >= 0,
    decreases s.len(),
{
    if s.len() > 0 {
        assert(is_ascii_digit(s[s.len() - 1]));
        lemma_digits_value_nonneg(s.drop_last());
    }
}

/// A digit string is worth at least as much as any of its prefixes.
proof fn lemma_digits_value_prefix(s: Seq<char>, k: int)
    requires
        all_ascii_digits(s),
        0 <= k <= s.len(),
    ensures
        digits_value(s.take(k)) <= digits_value(s),
    decreases s.len(),
{
    if k < s.len() {
        let p = s.drop_last();
        assert(all_ascii_digits(p));
        assert(is_ascii_digit(s[s.len() - 1]));
        lemma_digits_value_prefix(p, k);
        assert(p.take(k) =~= s.take(k));
        lemma_digits_value_nonneg(p);
    } else {
        assert(s.take(k) =~= s);
    }
}

/// Parses a decimal `i64` as `str::parse::<i64>` does.
pub fn parse_i64(s: &str) -> (r: Option<i64>)
    ensures
        r == parsed_i64(s@),
{
    let n = s.unicode_len();
    let ghost body = unsigned_part(s@);
    let mut start: usize = 0;
    let mut negative = false;
    if n > 0 {
        let c0 = s.get_char(0);
        if c0 == '-' {
            negative = true;
            start = 1;
        } else if c0 == '+' {
            start = 1;
        }
    }
    assert(body =~= s@.subrange(start as int, n as int));
    if start == n {
        return None;
    }
    let limit: i128 = 9223372036854775808;
    let mut magnitude: i128 = 0;
    let mut j: usize = start;
    while j < n
        invariant
            start <= j <= n,
            n == s@.len(),
            body =~= s@.subrange(start as int, n as int),
            body == unsigned_part(s@),
            limit == 9223372036854775808,
            all_ascii_digits(body.take(j - start)),
            magnitude == digits_value(body.take(j - start)),
            0 <= magnitude <= limit,
        decreases n - j,
    {
        let c = s.get_char(j);
        if !('0' <= c && c <= '9') {
            assert(body[j - start] == c);
            assert(!is_ascii_digit(body[j - start]));
            assert(!all_ascii_digits(body));
            return None;
        }
        let d: i128 = (c as u32 - 48) as i128;
        assert(0 <= d <= 9);
        let ghost prev = body.take(j - start);
        let ghost next = body.take(j - start + 1);
        assert(next.drop_last() =~= prev);
        assert(next.last() == c);
        magnitude = magnitude * 10 + d;
        j = j + 1;
        if magnitude > limit {
            proof {
                if all_ascii_digits(body) {
                    lemma_digits_value_prefix(body, j - start);
                }
            }
            return None;
        }
    }
    assert(body.take(n - start) =~= body);
    if negative {
        assert(s@[0] == '-');
        Some((0 - magnitude) as i64)
    } else {
        if magnitude > 9223372036854775807 {
            return None;
        }
        assert(s@.len() > 0 && s@[0] == '-' ==> false);
        Some(magnitude as i64)
    }
}

/// Whether `needle` occurs in `haystack`, as `str::contains` answers.
pub fn contains_str(haystack: &str, needle: &str) -> (found: bool)
    ensures
        found == contains_text(haystack@, needle@),
{
    let h = haystack.unicode_len();
    let m = needle.unicode_len();
    if m > h {
        assert forall|i: int| !occurs_at(haystack@, needle@, i) by {}
        return false;
    }
    let mut i: usize = 0;
    while i <= h - m
        invariant
            h == haystack@.len(),
            m == needle@.len(),
            m <= h,
            i <= h - m + 1,
            forall|k: int| 0 <= k < i ==> !occurs_at(haystack@, needle@, k),
        decreases h - m + 1 - i,
    {
        let mut j: usize = 0;
        while j < m && haystack.get_char(i + j) == needle.get_char(j)
            invariant
                h == haystack@.len(),
                m == needle@.len(),
                i + m <= h,
                j <= m,
                forall|t: int| 0 <= t < j ==> haystack@[i + t] == needle@[t],
            decreases m - j,
        {
            j = j + 1;
        }
        if j == m {
            assert(haystack@.subrange(i as int, i + m) =~= needle@);
            assert(occurs_at(haystack@, needle@, i as int));
            return true;
        }
        assert(!occurs_at(haystack@, needle@, i as int)) by {
            assert(haystack@.subrange(i as int, i + m)[j as int] == haystack@[i + j]);
        }
        i = i + 1;
    }
    assert forall|k: int| !occurs_at(haystack@, needle@, k) by {
        if 0 <= k < i {
        }
    }
    false
}

/// The digits of `n` are ASCII digits worth `n`, and there is at least one.
proof fn lemma_decimal_digits_value(n: nat)
    ensures
        decimal_digits(n).len() > 0,
        all_ascii_digits(decimal_digits(n)),
        digits_value(decimal_digits(n)) == n,
    decreases n,
{
    let s = decimal_digits(n);
    if n < 10 {
        assert(s.drop_last() =~= Seq::<char>::empty());
        assert(digits_value(s.drop_last()) == 0);
        assert(s.last() == digit_char(n));
        assert(digit_value(digit_char(n)) == n);
        assert(is_ascii_digit(s[0]));
    } else {
        lemma_decimal_digits_value(n / 10);
        let p = decimal_digits(n / 10);
        assert(s.drop_last() =~= p);
        assert(s.last() == digit_char(n % 10));
        assert(digit_value(digit_char(n % 10)) == n % 10);
        assert(digits_value(s) == digits_value(p) * 10 + digit_value(s.last()));
        assert(n == (n / 10) * 10 + n % 10);
        assert forall|i: int| 0 <= i < s.len() implies is_ascii_digit(#[trigger] s[i]) by {
            if i < p.len() {
                assert(s[i] == p[i]);
            }
        }
    }
}

/// The decimal text of an integer ends in a digit.
pub proof fn lemma_decimal_text_ends_in_digit(v: int)
    ensures
        decimal_text(v).len() > 0,
        is_ascii_digit(decimal_text(v).last()),
{
    let n: nat = if v < 0 {
        (-v) as nat
    } else {
        v as nat
    };
    lemma_decimal_digits_value(n);
    let d = decimal_digits(n);
    assert(is_ascii_digit(d[d.len() - 1]));
    if v < 0 {
        assert(decimal_text(v).last() == d.last());
    }
}

/// Parsing the decimal text of an `i64` gives the number back.
pub proof fn law_decimal_roundtrip(v: i64)
    ensures
        parsed_i64(decimal_text(v as int)) == Some(v),
{
    let s = decimal_text(v as int);
    if v < 0 {
        let d = decimal_digits((-v) as nat);
        lemma_decimal_digits_value((-v) as nat);
        assert(s[0] == '-');
        assert(s.drop_first() =~= d);
        assert(unsigned_part(s) == d);
    } else {
        let d = decimal_digits(v as nat);
        lemma_decimal_digits_value(v as nat);
        assert(is_ascii_digit(d[0]));
        assert(unsigned_part(s) == d);
    }
}

} // verus!
