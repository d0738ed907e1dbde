//! The REC indicator shown on the control bar while recording.

use vstd::prelude::*;
use crate::text::{decimal, digit_char, padded2, push_padded2};

verus! {

/// The red dot that opens the indicator, as Pango markup.
pub open spec fn rec_dot() -> Seq<char> {
    "<span foreground='#ff5d6c'>\u{23fa}</span> "@
}

/// The indicator after `secs` seconds of recording: the red dot, then the
/// elapsed time as minutes and seconds, each at least two digits.
pub open spec fn rec_markup_spec(secs: nat) -> Seq<char> {
    rec_dot() + padded2(secs / 60) + seq![':'] + padded2(secs % 60)
}

/// Pango markup for the REC indicator: a red dot plus `MM:SS` elapsed.
pub fn rec_markup(secs: u32) -> (r: String)
    ensures
        r@ == rec_markup_spec(secs as nat),
        r@ == seq!['<', 's', 'p', 'a', 'n', ' ', 'f', 'o', 'r', 'e', 'g', 'r', 'o', 'u', 'n', 'd', '=', '\'', '#', 'f', 'f', '5', 'd', '6', 'c', '\'', '>', '\u{23fa}', '<', '/', 's', 'p', 'a', 'n', '>', ' '] + padded2(secs as nat / 60) + seq![':'] + padded2(secs as nat % 60),
{
    proof {
        reveal_strlit("<span foreground='#ff5d6c'>\u{23fa}</span> ");
        assert(rec_dot() =~= seq!['<', 's', 'p', 'a', 'n', ' ', 'f', 'o', 'r', 'e', 'g', 'r', 'o', 'u', 'n', 'd', '=', '\'', '#', 'f', 'f', '5', 'd', '6', 'c', '\'', '>', '\u{23fa}', '<', '/', 's', 'p', 'a', 'n', '>', ' ']);
    }
    let mut s = String::from_str("<span foreground='#ff5d6c'>\u{23fa}</span> ");
    push_padded2(&mut s, (secs / 60) as u64);
    proof { reveal_strlit(":"); }
    s.append(":");
    push_padded2(&mut s, (secs % 60) as u64);
    assert(s@ =~= rec_markup_spec(secs as nat));
    s
}

/// Below a hundred, the two-digit rendering is the tens digit then the
/// units digit.
proof fn lemma_padded2_two_digits(n: nat)
    requires
        n < 100,
    ensures
        padded2(n) == seq![digit_char((n / 10) as int), digit_char((n % 10) as int)],
{
    if n < 10 {
        assert(padded2(n) =~= seq!['0', digit_char(n as int)]);
    } else {
        assert(decimal(n / 10) == seq![digit_char((n / 10) as int)]);
        assert(padded2(n) =~= seq![digit_char((n / 10) as int), digit_char((n % 10) as int)]);
    }
}

/// Under a hundred minutes the indicator ends in exactly `MM:SS`: the
/// elapsed minutes and the seconds within the minute, two digits each.
pub proof fn lemma_rec_markup_ends_in_mm_ss(secs: nat)
    requires
        secs < 6000,
    ensures
        rec_markup_spec(secs) == rec_dot() + seq![
            digit_char((secs / 60 / 10) as int),
            digit_char((secs / 60 % 10) as int),
            ':',
            digit_char((secs % 60 / 10) as int),
            digit_char((secs % 60 % 10) as int),
        ],
{
    lemma_padded2_two_digits(secs / 60);
    lemma_padded2_two_digits(secs % 60);
    assert(rec_markup_spec(secs) =~= rec_dot() + seq![
        digit_char((secs / 60 / 10) as int),
        digit_char((secs / 60 % 10) as int),
        ':',
        digit_char((secs % 60 / 10) as int),
        digit_char((secs % 60 % 10) as int),
    ]);
}

} // verus!
