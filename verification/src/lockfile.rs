//! The single-instance lock's contents. The running instance writes its
//! process id, in decimal, to a lockfile; a second invocation deletes the
//! file to ask the first to stop, and the first keeps checking that the file
//! still names it. These are the texts written and the readings made of
//! them; the file itself is handled by the caller.

use vstd::prelude::*;
use crate::text::{decimal, push_decimal};
use crate::numeral::{
    parse_u32, parse_trimmed_u32, parse_u32_spec, trim_spec, sign_stripped, trim_start_spec,
    trim_end_spec, is_digit_spec, lemma_decimal_reads_back,
};

verus! {

/// The process id a lock file holds, read exactly as written: an optional
/// `+` and decimal digits fitting in a `u32`; anything else (a stale or
/// garbled file) reads as `None`.
pub fn parse_pid(raw: &str) -> (r: Option<u32>)
    ensures
        r == parse_u32_spec(raw@),
{
    parse_u32(raw)
}

/// Whether the lock file's contents name process `pid`, ignoring white
/// space around the number.
pub fn held_by(contents: &str, pid: u32) -> (r: bool)
    ensures
        r <==> parse_u32_spec(trim_spec(contents@)) == Some(pid),
{
    match parse_trimmed_u32(contents) {
        Some(p) => p == pid,
        None => false,
    }
}

/// The text a process writes to claim the lock: its id in decimal.
pub fn pid_text(pid: u32) -> (r: String)
    ensures
        r@ == decimal(pid as nat),
{
    let mut s = String::new();
    push_decimal(&mut s, pid as u64);
    assert(s@ =~= decimal(pid as nat));
    s
}

/// The `/proc` entry that exists while process `pid` is alive.
pub fn proc_path(pid: u32) -> (r: String)
    ensures
        r@ == "/proc/"@ + decimal(pid as nat),
{
    let mut s = String::from_str("/proc/");
    push_decimal(&mut s, pid as u64);
    s
}

/// What a claiming process writes is read back as its id: by the plain
/// reading that finds a live holder, and by the trimmed reading with which
/// the holder checks that the lock is still its own. Any other id reads as
/// not holding it.
pub proof fn lemma_claim_reads_back(pid: u32, other: u32)
    requires
        other != pid,
    ensures
        parse_u32_spec(decimal(pid as nat)) == Some(pid),
        parse_u32_spec(trim_spec(decimal(pid as nat))) == Some(pid),
        parse_u32_spec(trim_spec(decimal(pid as nat))) != Some(other),
{
    let d = decimal(pid as nat);
    lemma_decimal_reads_back(pid as nat);
    assert(is_digit_spec(d[0]));
    assert(sign_stripped(d) == d);
    assert(is_digit_spec(d.last()));
    assert(trim_start_spec(d) == d);
    assert(trim_end_spec(d) == d);
}

} // verus!
