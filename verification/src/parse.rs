//! Unsigned decimal numbers read from text the way `str::parse` reads
//! `u16` and `u32`: an optional `+`, then one or more ASCII digits, with a
//! value that fits the type.

use vstd::prelude::*;
use crate::text::chars_of;

verus! {

pub open spec fn is_digit(c: char) -> bool {
    '0' <= c && c <= '9'
}

pub open spec fn digit_value(c: char) -> nat {
    (c as u32 - '0' as u32) as nat
}

/// The value of a string of decimal digits.
pub open spec fn digits_value(d: Seq<char>) -> nat
    decreases d.len(),
{
    if d.len() == 0 {
        0
    } else {
        digits_value(d.drop_last()) * 10 + digit_value(d.last())
    }
}

/// The digits of a number: the text after an optional leading `+`.
pub open spec fn unsigned_digits(s: Seq<char>) -> Seq<char> {
    if s.len() > 0 && s[0] == '+' {
        s.drop_first()
    } else {
        s
    }
}

/// The number that `s` denotes, if it is one that does not exceed `max`.
pub open spec fn spec_parse_unsigned(s: Seq<char>, max: nat) -> Option<nat> {
    let d = unsigned_digits(s);
    if d.len() == 0 || !(forall|i: int| 0 <= i < d.len() ==> is_digit(#[trigger] d[i])) || digits_value(d) > max {
        None
    } else {
        Some(digits_value(d))
    }
}

pub open spec fn capped(v: nat, max: nat) -> nat {
    if v > max { max + 1 } else { v }
}

proof fn lemma_capped_step(p: Seq<char>, c: char, max: nat)
    requires
        is_digit(c),
    ensures
        capped(digits_value(p.push(c)), max) == capped(capped(digits_value(p), max) * 10 + digit_value(c), max),
{
    assert(p.push(c).drop_last() =~= p);
    assert(digits_value(p.push(c)) == digits_value(p) * 10 + digit_value(c));
}

/// Reads an unsigned number no larger than `max`.
fn parse_unsigned(s: &str, max: u32) -> (r: Option<u32>)
    ensures
        match spec_parse_unsigned(s@, max as nat) {
            Some(v) => r == Some(v as u32),
            None => r is None,
        },
{
    let cs = chars_of(s);
    let n = cs.len();
    let start: usize = if n > 0 && cs[0] == '+' { 1 } else { 0 };
    let ghost d = unsigned_digits(s@);
    assert(d =~= cs@.subrange(start as int, n as int));
    if start == n {
        return None;
    }
    let mut acc: u64 = 0;
    let mut i: usize = start;
    while i < n
        invariant
            n == cs@.len(),
            start <= i <= n,
            d == cs@.subrange(start as int, n as int),
            d == unsigned_digits(s@),
            forall|j: int| start <= j < i ==> is_digit(#[trigger] cs@[j]),
            acc == capped(digits_value(cs@.subrange(start as int, i as int)), max as nat),
        decreases n - i,
    {
        let c = cs[i];
        if !('0' <= c && c <= '9') {
            proof {
                assert(cs@[i as int] == c);
                assert(cs@.subrange(start as int, n as int)[i - start] == cs@[i as int]);
                assert(d[i - start] == c);
                assert(!is_digit(d[i - start]));
                assert(!(forall|j: int| 0 <= j < d.len() ==> is_digit(#[trigger] d[j])));
            }
            return None;
        }
        let dv = (c as u32 - '0' as u32) as u64;
        proof {
            lemma_capped_step(cs@.subrange(start as int, i as int), c, max as nat);
            assert(cs@.subrange(start as int, i as int).push(c) =~= cs@.subrange(start as int, i + 1));
        }
        let next = acc * 10 + dv;
        acc = if next > max as u64 { max as u64 + 1 } else { next };
        i = i + 1;
    }
    proof {
        assert(forall|j: int| 0 <= j < d.len() ==> is_digit(#[trigger] d[j]) ) by {
            assert forall|j: int| 0 <= j < d.len() implies is_digit(#[trigger] d[j]) by {
                assert(d[j] == cs@[start + j]);
            };
        };
        assert(cs@.subrange(start as int, n as int) == d);
    }
    if acc > max as u64 {
        None
    } else {
        Some(acc as u32)
    }
}

/// `str::parse::<u16>().ok()`.
pub fn parse_u16(s: &str) -> (r: Option<u16>)
    ensures
        match spec_parse_unsigned(s@, 65535) {
            Some(v) => r == Some(v as u16),
            None => r is None,
        },
{
    match parse_unsigned(s, 65535) {
        Some(v) => Some(v as u16),
        None => None,
    }
}

/// `str::parse::<u32>().ok()`.
pub fn parse_u32(s: &str) -> (r: Option<u32>)
    ensures
        match spec_parse_unsigned(s@, 4294967295) {
            Some(v) => r == Some(v as u32),
            None => r is None,
        },
{
    parse_unsigned(s, 4294967295)
}

} // verus!
