//! Reading unsigned decimal numbers out of text as `str::trim` and
//! `str::parse::<u32>` do.

use vstd::prelude::*;
use crate::text::{decimal, digit_char};

verus! {

/// Whether `c` is Unicode `White_Space`, as `char::is_whitespace` and
/// `str::trim` decide it.
pub open spec fn is_whitespace_spec(c: char) -> bool {
    let u = c as u32;
    ||| 0x09 <= u <= 0x0D
    ||| u == 0x20
    ||| u == 0x85
    ||| u == 0xA0
    ||| u == 0x1680
    ||| 0x2000 <= u <= 0x200A
    ||| u == 0x2028
    ||| u == 0x2029
    ||| u == 0x202F
    ||| u == 0x205F
    ||| u == 0x3000
}

/// `s` without its leading white space.
pub open spec fn trim_start_spec(s: Seq<char>) -> Seq<char>
    decreases s.len(),
{
    if s.len() > 0 && is_whitespace_spec(s[0]) {
        trim_start_spec(s.drop_first())
    } else {
        s
    }
}

/// `s` without its trailing white space.
pub open spec fn trim_end_spec(s: Seq<char>) -> Seq<char>
    decreases s.len(),
{
    if s.len() > 0 && is_whitespace_spec(s.last()) {
        trim_end_spec(s.drop_last())
    } else {
        s
    }
}

/// `s` without leading and trailing white space, as `str::trim` returns it.
pub open spec fn trim_spec(s: Seq<char>) -> Seq<char> {
    trim_end_spec(trim_start_spec(s))
}

/// Whether `c` is an ASCII decimal digit.
pub open spec fn is_digit_spec(c: char) -> bool {
    '0' <= c <= '9'
}

/// The value of a numeral made of ASCII digits, most significant first.
pub open spec fn digits_value(s: Seq<char>) -> nat
    decreases s.len(),
{
    if s.len() == 0 {
        0
    } else {
        digits_value(s.drop_last()) * 10 + ((s.last() as u32) - ('0' as u32)) as nat
    }
}

/// `s` is one or more ASCII digits.
pub open spec fn all_digits(s: Seq<char>) -> bool {
    s.len() > 0 && forall|i: int| 0 <= i < s.len() ==> is_digit_spec(#[trigger] s[i])
}

/// `s` without one leading `+`, if it has one.
pub open spec fn sign_stripped(s: Seq<char>) -> Seq<char> {
    if s.len() > 0 && s[0] == '+' {
        s.drop_first()
    } else {
        s
    }
}

/// What `str::parse::<u32>` gives: an optional `+` followed by one or more
/// ASCII digits whose value fits in a `u32`, or nothing.
pub open spec fn parse_u32_spec(s: Seq<char>) -> Option<u32> {
    let d = sign_stripped(s);
    if all_digits(d) && digits_value(d) <= u32::MAX {
        Some(digits_value(d) as u32)
    } else {
        None
    }
}

/// Whether `c` is white space (`char::is_whitespace`).
pub fn is_whitespace(c: char) -> (r: bool)
    ensures
        r == is_whitespace_spec(c),
{
    let u = c as u32;
    (0x09 <= u && u <= 0x0D) || u == 0x20 || u == 0x85 || u == 0xA0 || u == 0x1680 || (0x2000 <= u
        && u <= 0x200A) || u == 0x2028 || u == 0x2029 || u == 0x202F || u == 0x205F || u == 0x3000
}

proof fn lemma_digits_value_step(s: Seq<char>, i: int)
    requires
        0 <= i < s.len(),
    ensures
        digits_value(s.subrange(0, i + 1)) == digits_value(s.subrange(0, i)) * 10 + ((s[i] as u32)
            - ('0' as u32)) as nat,
{
    assert(s.subrange(0, i + 1).drop_last() =~= s.subrange(0, i));
}

proof fn lemma_digits_value_grows(s: Seq<char>, i: int, j: int)
    requires
        0 <= i <= j <= s.len(),
        forall|k: int| 0 <= k < s.len() ==> is_digit_spec(#[trigger] s[k]),
    ensures
        digits_value(s.subrange(0, i)) <= digits_value(s.subrange(0, j)),
    decreases j - i,
{
    if i < j {
        lemma_digits_value_grows(s, i, j - 1);
        lemma_digits_value_step(s, j - 1);
    }
}

/// A numeral whose prefix already exceeds `u32::MAX` does not parse.
proof fn lemma_prefix_too_large(d: Seq<char>, m: int)
    requires
        0 <= m <= d.len(),
        digits_value(d.subrange(0, m)) > u32::MAX,
    ensures
        !(all_digits(d) && digits_value(d) <= u32::MAX),
{
    if all_digits(d) {
        lemma_digits_value_grows(d, m, d.len() as int);
        assert(d.subrange(0, d.len() as int) =~= d);
    }
}

/// Parses `s[lo..hi]` as `str::parse::<u32>` would.
fn parse_u32_range(s: &str, lo: usize, hi: usize) -> (r: Option<u32>)
    requires
        lo <= hi <= s@.len(),
    ensures
        r == parse_u32_spec(s@.subrange(lo as int, hi as int)),
{
    let ghost whole = s@.subrange(lo as int, hi as int);
    let mut start = lo;
    if lo < hi && s.get_char(lo) == '+' {
        start = lo + 1;
    }
    let ghost d = s@.subrange(start as int, hi as int);
    assert(d =~= sign_stripped(whole));
    if start == hi {
        return None;
    }
    let mut value: u64 = 0;
    let mut i = start;
    while i < hi
        invariant
            lo <= start <= i <= hi <= s@.len(),
            d == s@.subrange(start as int, hi as int),
            d == sign_stripped(whole),
            whole == s@.subrange(lo as int, hi as int),
            forall|k: int| 0 <= k < i - start ==> is_digit_spec(#[trigger] d[k]),
            value == digits_value(d.subrange(0, i - start)),
            value <= u32::MAX,
        decreases hi - i,
    {
        let c = s.get_char(i);
        assert(d[i - start] == c);
        if !('0' <= c && c <= '9') {
            assert(!is_digit_spec(d[i - start]));
            assert(!all_digits(d));
            return None;
        }
        proof { lemma_digits_value_step(d, i - start); }
        let digit = ((c as u32) - ('0' as u32)) as u64;
        value = value * 10 + digit;
        i = i + 1;
        if value > 0xFFFF_FFFF {
            proof { lemma_prefix_too_large(d, i - start); }
            return None;
        }
    }
    assert(d.subrange(0, d.len() as int) =~= d);
    Some(value as u32)
}

/// Parses `s` as `str::parse::<u32>` would.
pub fn parse_u32(s: &str) -> (r: Option<u32>)
    ensures
        r == parse_u32_spec(s@),
{
    let n = s.unicode_len();
    assert(s@.subrange(0, n as int) =~= s@);
    parse_u32_range(s, 0, n)
}

/// Parses `s` with the white space around it removed, as
/// `s.trim().parse::<u32>()` would.
pub fn parse_trimmed_u32(s: &str) -> (r: Option<u32>)
    ensures
        r == parse_u32_spec(trim_spec(s@)),
{
    let n = s.unicode_len();
    let ghost t = s@;
    let mut i: usize = 0;
    assert(t.subrange(0, n as int) =~= t);
    while i < n && is_whitespace(s.get_char(i))
        invariant
            0 <= i <= n,
            n == t.len(),
            t == s@,
            trim_start_spec(t) == trim_start_spec(t.subrange(i as int, n as int)),
        decreases n - i,
    {
        assert(t.subrange(i as int, n as int).drop_first() =~= t.subrange(i + 1, n as int));
        i = i + 1;
    }
    assert(trim_start_spec(t) == t.subrange(i as int, n as int));
    let mut j: usize = n;
    while j > i && is_whitespace(s.get_char(j - 1))
        invariant
            i <= j <= n,
            n == t.len(),
            t == s@,
            trim_spec(t) == trim_end_spec(t.subrange(i as int, j as int)),
        decreases j,
    {
        assert(t.subrange(i as int, j as int).drop_last() =~= t.subrange(i as int, j - 1));
        j = j - 1;
    }
    assert(trim_spec(t) == t.subrange(i as int, j as int));
    parse_u32_range(s, i, j)
}

/// What the reading refuses and accepts: nothing, a lone `+` and anything
/// starting with `-` are refused; a run of digits whose value fits a `u32`
/// reads as that value, with or without one `+` in front, leading zeros
/// allowed.
pub proof fn lemma_parse_rules(s: Seq<char>)
    ensures
        s.len() == 0 ==> parse_u32_spec(s) is None,
        s =~= seq!['+'] ==> parse_u32_spec(s) is None,
        s.len() > 0 && s[0] == '-' ==> parse_u32_spec(s) is None,
        (s.len() > 0 && forall|i: int| 0 <= i < s.len() ==> '0' <= #[trigger] s[i] <= '9')
            && digits_value(s) <= u32::MAX ==> parse_u32_spec(s) == Some(digits_value(s) as u32)
            && parse_u32_spec(seq!['+'] + s) == Some(digits_value(s) as u32),
{
    if s.len() > 0 && s[0] == '-' {
        assert(!is_digit_spec(sign_stripped(s)[0]));
    }
    assert((seq!['+'] + s).drop_first() =~= s);
}

pub proof fn lemma_digit_char_value(d: int)
    requires
        0 <= d < 10,
    ensures
        is_digit_spec(digit_char(d)),
        ((digit_char(d) as u32) - ('0' as u32)) as nat == d,
{
}

/// A decimal numeral is one or more digits and reads back as its value.
pub proof fn lemma_decimal_reads_back(n: nat)
    ensures
        all_digits(decimal(n)),
        digits_value(decimal(n)) == n,
    decreases n,
{
    lemma_digit_char_value((n % 10) as int);
    if n < 10 {
        let d = decimal(n);
        assert(d == seq![digit_char(n as int)]);
        assert(d.drop_last() =~= Seq::<char>::empty());
        assert(digits_value(d.drop_last()) == 0);
        assert(d.last() == digit_char(n as int));
        assert(digits_value(d) == n);
    } else {
        lemma_decimal_reads_back(n / 10);
        assert(n == (n / 10) * 10 + n % 10);
        let d = decimal(n);
        assert(d.drop_last() =~= decimal(n / 10));
        assert(d.last() == digit_char((n % 10) as int));
        assert(digits_value(d) == digits_value(decimal(n / 10)) * 10 + n % 10);
        assert forall|i: int| 0 <= i < d.len() implies is_digit_spec(#[trigger] d[i]) by {
            if i < d.len() - 1 {
                assert(d[i] == decimal(n / 10)[i]);
            }
        }
    }
}

} // verus!
