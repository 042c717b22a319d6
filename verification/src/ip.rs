//! The textual syntax of IP addresses that `str::parse::<IpAddr>` accepts.
//!
//! An IPv4 address is four decimal octets separated by dots: each octet has
//! one to three digits, no leading zero unless it is `0`, and a value up to
//! 255. An IPv6 address is made of groups of one to four hexadecimal digits
//! separated by colons: either eight groups, or six groups and an IPv4
//! address, or groups around a single `::` that stands for one or more zero
//! groups, where an IPv4 address may come last and counts as two groups.

use vstd::prelude::*;
use crate::parse::{digits_value, is_digit};
use crate::text::chars_of;

verus! {

/// The pieces of `s` between occurrences of `sep` (one more piece than
/// there are separators; pieces may be empty).
pub open spec fn split(s: Seq<char>, sep: char) -> Seq<Seq<char>>
    decreases s.len(),
{
    if s.len() == 0 {
        seq![Seq::<char>::empty()]
    } else {
        let rest = split(s.drop_last(), sep);
        if s.last() == sep {
            rest.push(Seq::<char>::empty())
        } else {
            rest.update(rest.len() - 1, rest.last().push(s.last()))
        }
    }
}

proof fn lemma_split_nonempty(s: Seq<char>, sep: char)
    ensures
        split(s, sep).len() >= 1,
    decreases s.len(),
{
    if s.len() > 0 {
        lemma_split_nonempty(s.drop_last(), sep);
    }
}

pub open spec fn is_hex(c: char) -> bool {
    ('0' <= c && c <= '9') || ('a' <= c && c <= 'f') || ('A' <= c && c <= 'F')
}

/// A group of an IPv6 address: one to four hexadecimal digits.
pub open spec fn is_h16(g: Seq<char>) -> bool {
    1 <= g.len() <= 4 && forall|i: int| 0 <= i < g.len() ==> is_hex(#[trigger] g[i])
}

/// An octet of an IPv4 address.
pub open spec fn is_dec_octet(g: Seq<char>) -> bool {
    &&& 1 <= g.len() <= 3
    &&& forall|i: int| 0 <= i < g.len() ==> is_digit(#[trigger] g[i])
    &&& (g.len() == 1 || g[0] != '0')
    &&& digits_value(g) <= 255
}

pub open spec fn is_ipv4(s: Seq<char>) -> bool {
    let parts = split(s, '.');
    parts.len() == 4 && forall|i: int| 0 <= i < 4 ==> is_dec_octet(#[trigger] parts[i])
}

/// The groups after a `::` when `head` groups precede it: hexadecimal groups,
/// the last possibly an IPv4 address counting as two, together with the head
/// at most seven groups so that the `::` stands for at least one.
pub open spec fn valid_tail(t: Seq<Seq<char>>, head: int) -> bool {
    &&& t.len() >= 1
    &&& forall|i: int| 0 <= i < t.len() - 1 ==> is_h16(#[trigger] t[i])
    &&& ((is_h16(t.last()) && head + t.len() <= 7) || (is_ipv4(t.last()) && head + t.len() + 1 <= 7))
}

pub open spec fn all_h16(g: Seq<Seq<char>>) -> bool {
    forall|i: int| 0 <= i < g.len() ==> is_h16(#[trigger] g[i])
}

pub open spec fn is_ipv6_parts(p: Seq<Seq<char>>) -> bool {
    let n = p.len() as int;
    // eight groups, or six groups and an IPv4 address
    ||| (n == 8 && all_h16(p))
    ||| (n == 7 && all_h16(p.take(6)) && is_ipv4(p[6]))
    // `::` alone
    ||| (n == 3 && p[0].len() == 0 && p[1].len() == 0 && p[2].len() == 0)
    // `::` first, groups after it
    ||| (n >= 3 && p[0].len() == 0 && p[1].len() == 0 && valid_tail(p.skip(2), 0))
    // groups, then `::` last
    ||| (n >= 3 && p[n - 1].len() == 0 && p[n - 2].len() == 0 && 1 <= n - 2 <= 7 && all_h16(p.take(n - 2)))
    // groups on both sides of `::`
    ||| (exists|k: int| 1 <= k <= n - 2 && (#[trigger] p[k]).len() == 0 && all_h16(p.take(k)) && valid_tail(p.skip(k + 1), k))
}

pub open spec fn is_ipv6(s: Seq<char>) -> bool {
    is_ipv6_parts(split(s, ':'))
}

/// What `str::parse::<IpAddr>` accepts.
pub open spec fn is_ip_addr(s: Seq<char>) -> bool {
    is_ipv4(s) || is_ipv6(s)
}

pub open spec fn part_views(v: Seq<Vec<char>>) -> Seq<Seq<char>> {
    v.map_values(|p: Vec<char>| p@)
}

/// Splits characters at a separator.
fn split_chars(cs: &Vec<char>, sep: char) -> (parts: Vec<Vec<char>>)
    ensures
        part_views(parts@) == split(cs@, sep),
{
    let mut parts: Vec<Vec<char>> = Vec::new();
    let mut cur: Vec<char> = Vec::new();
    let n = cs.len();
    let mut i: usize = 0;
    while i < n
        invariant
            n == cs@.len(),
            i <= n,
            part_views(parts@).push(cur@) == split(cs@.take(i as int), sep),
        decreases n - i,
    {
        let c = cs[i];
        proof {
            assert(cs@.take(i + 1).drop_last() =~= cs@.take(i as int));
            assert(cs@.take(i + 1).last() == c);
            lemma_split_nonempty(cs@.take(i as int), sep);
        }
        if c == sep {
            let mut done: Vec<char> = Vec::new();
            std::mem::swap(&mut done, &mut cur);
            parts.push(done);
            proof {
                assert(part_views(parts@).push(cur@) =~= split(cs@.take(i as int), sep).push(Seq::<char>::empty()));
            }
        } else {
            cur.push(c);
            proof {
                let rest = split(cs@.take(i as int), sep);
                assert(part_views(parts@).push(cur@) =~= rest.update(rest.len() - 1, rest.last().push(c)));
            }
        }
        i = i + 1;
    }
    assert(cs@.take(n as int) =~= cs@);
    parts.push(cur);
    assert(part_views(parts@) =~= split(cs@, sep));
    parts
}

fn h16(g: &Vec<char>) -> (b: bool)
    ensures
        b == is_h16(g@),
{
    let n = g.len();
    if n < 1 || n > 4 {
        return false;
    }
    let mut i: usize = 0;
    while i < n
        invariant
            n == g@.len(),
            i <= n,
            forall|j: int| 0 <= j < i ==> is_hex(#[trigger] g@[j]),
        decreases n - i,
    {
        let c = g[i];
        if !(('0' <= c && c <= '9') || ('a' <= c && c <= 'f') || ('A' <= c && c <= 'F')) {
            assert(!is_hex(g@[i as int]));
            return false;
        }
        i = i + 1;
    }
    true
}

fn dec_octet(g: &Vec<char>) -> (b: bool)
    ensures
        b == is_dec_octet(g@),
{
    let n = g.len();
    if n < 1 || n > 3 {
        return false;
    }
    let mut value: u32 = 0;
    let mut i: usize = 0;
    while i < n
        invariant
            n == g@.len(),
            1 <= n <= 3,
            i <= n,
            forall|j: int| 0 <= j < i ==> is_digit(#[trigger] g@[j]),
            value == digits_value(g@.take(i as int)),
            value < 1000,
            value < (if i == 0 { 1int } else if i == 1 { 10int } else if i == 2 { 100int } else { 1000int }),
        decreases n - i,
    {
        let c = g[i];
        if !('0' <= c && c <= '9') {
            assert(!is_digit(g@[i as int]));
            return false;
        }
        proof {
            assert(g@.take(i + 1).drop_last() =~= g@.take(i as int));
        }
        value = value * 10 + (c as u32 - '0' as u32);
        i = i + 1;
    }
    assert(g@.take(n as int) =~= g@);
    (n == 1 || g[0] != '0') && value <= 255
}

fn ipv4_chars(cs: &Vec<char>) -> (b: bool)
    ensures
        b == is_ipv4(cs@),
{
    let parts = split_chars(cs, '.');
    if parts.len() != 4 {
        return false;
    }
    let mut i: usize = 0;
    while i < 4
        invariant
            parts@.len() == 4,
            part_views(parts@) == split(cs@, '.'),
            i <= 4,
            forall|j: int| 0 <= j < i ==> is_dec_octet(#[trigger] split(cs@, '.')[j]),
        decreases 4 - i,
    {
        if !dec_octet(&parts[i]) {
            assert(split(cs@, '.')[i as int] == parts@[i as int]@);
            return false;
        }
        assert(split(cs@, '.')[i as int] == parts@[i as int]@);
        i = i + 1;
    }
    true
}

/// Whether the first `m` parts are all hexadecimal groups.
fn all_h16_upto(parts: &Vec<Vec<char>>, lo: usize, hi: usize) -> (b: bool)
    requires
        lo <= hi <= parts@.len(),
    ensures
        b == all_h16(part_views(parts@).subrange(lo as int, hi as int)),
{
    let ghost v = part_views(parts@).subrange(lo as int, hi as int);
    let mut i: usize = lo;
    while i < hi
        invariant
            lo <= i <= hi,
            hi <= parts@.len(),
            v == part_views(parts@).subrange(lo as int, hi as int),
            forall|j: int| 0 <= j < i - lo ==> is_h16(#[trigger] v[j]),
        decreases hi - i,
    {
        if !h16(&parts[i]) {
            assert(v[i - lo] == parts@[i as int]@);
            return false;
        }
        assert(v[i - lo] == parts@[i as int]@);
        i = i + 1;
    }
    true
}

/// Whether the parts from `from` on form a valid tail after `head` groups.
fn tail_ok(parts: &Vec<Vec<char>>, from: usize, head: usize) -> (b: bool)
    requires
        from <= parts@.len(),
        head <= 8,
    ensures
        b == valid_tail(part_views(parts@).skip(from as int), head as int),
{
    let n = parts.len();
    let ghost t = part_views(parts@).skip(from as int);
    if from >= n {
        return false;
    }
    let body = all_h16_upto(parts, from, n - 1);
    proof {
        assert(part_views(parts@).subrange(from as int, n - 1) =~= t.take(t.len() - 1));
        assert(t.last() == parts@[n - 1]@);
        assert(body == (forall|i: int| 0 <= i < t.len() - 1 ==> is_h16(#[trigger] t[i]))) by {
            if body {
                assert forall|i: int| 0 <= i < t.len() - 1 implies is_h16(#[trigger] t[i]) by {
                    assert(t.take(t.len() - 1)[i] == t[i]);
                };
            } else {
                let tt = t.take(t.len() - 1);
                let i = choose|i: int| 0 <= i < tt.len() && !is_h16(#[trigger] tt[i]);
                assert(tt[i] == t[i]);
            }
        };
    }
    if !body {
        return false;
    }
    let count = n - from;
    let last = &parts[n - 1];
    let cs_last: &Vec<char> = last;
    (h16(cs_last) && head <= 7 && count <= 7 - head) || (ipv4_chars(cs_last) && head <= 6 && count <= 6 - head)
}

fn ipv6_chars(cs: &Vec<char>) -> (b: bool)
    ensures
        b == is_ipv6(cs@),
{
    let parts = split_chars(cs, ':');
    let ghost p = split(cs@, ':');
    let n = parts.len();
    proof {
        lemma_split_nonempty(cs@, ':');
        assert(p.len() == n);
        assert forall|i: int| 0 <= i < n implies #[trigger] p[i] == parts@[i]@ by {};
    }
    // eight groups
    if n == 8 {
        let all = all_h16_upto(&parts, 0, 8);
        proof {
            assert(part_views(parts@).subrange(0, 8) =~= p);
        }
        if all {
            return true;
        }
    }
    // six groups and an IPv4 address
    if n == 7 {
        let head = all_h16_upto(&parts, 0, 6);
        let v4 = ipv4_chars(&parts[6]);
        proof {
            assert(part_views(parts@).subrange(0, 6) =~= p.take(6));
        }
        if head && v4 {
            return true;
        }
    }
    if n >= 3 {
        let e0 = parts[0].len() == 0;
        let e1 = parts[1].len() == 0;
        let el = parts[n - 1].len() == 0;
        let el2 = parts[n - 2].len() == 0;
        // `::` alone
        if n == 3 && e0 && e1 && el {
            return true;
        }
        // `::` first
        if e0 && e1 && tail_ok(&parts, 2, 0) {
            return true;
        }
        // `::` last
        if el && el2 && n - 2 <= 7 && all_h16_upto(&parts, 0, n - 2) {
            proof {
                assert(part_views(parts@).subrange(0, n - 2) =~= p.take(n - 2));
            }
            return true;
        }
        proof {
            assert(part_views(parts@).subrange(0, n - 2) =~= p.take(n - 2));
            assert(p.skip(2) =~= part_views(parts@).skip(2));
        }
    }
    // groups on both sides of `::`: the `::` is at the first empty part
    let mut k: usize = 0;
    while k < n && parts[k].len() > 0
        invariant
            n == parts@.len(),
            k <= n,
            forall|j: int| 0 <= j < k ==> (#[trigger] parts@[j]@).len() > 0,
        decreases n - k,
    {
        k = k + 1;
    }
    let result = if k >= 1 && k < n && n - k >= 2 && k <= 8 {
        let head = all_h16_upto(&parts, 0, k);
        head && tail_ok(&parts, k + 1, k)
    } else {
        false
    };
    proof {
        let both = exists|k2: int| 1 <= k2 <= n - 2 && (#[trigger] p[k2]).len() == 0 && all_h16(p.take(k2)) && valid_tail(p.skip(k2 + 1), k2);
        assert(p.skip(k as int + 1) =~= part_views(parts@).skip(k as int + 1));
        if k <= n && k >= 1 && k + 2 <= n {
            assert(part_views(parts@).subrange(0, k as int) =~= p.take(k as int));
        }
        if both {
            let k2 = choose|k2: int| 1 <= k2 <= n - 2 && (#[trigger] p[k2]).len() == 0 && all_h16(p.take(k2)) && valid_tail(p.skip(k2 + 1), k2);
            // every part before k2 is a group, hence not empty, so k2 is the first empty part
            assert forall|j: int| 0 <= j < k2 implies (#[trigger] parts@[j]@).len() > 0 by {
                assert(p.take(k2)[j] == p[j]);
            };
            if k < k2 {
                assert(parts@[k as int]@.len() > 0);
            }
            assert(k == k2);
            assert(p.take(k2).len() == k2);
            assert(valid_tail(p.skip(k2 + 1), k2));
            assert(k2 + (n - k2 - 1) <= 7);
        }
        if result {
            assert(p[k as int].len() == 0);
            assert(both);
        }
    }
    result
}

/// Whether `s` reads as an IPv4 or IPv6 address.
pub fn is_ip_addr_text(s: &str) -> (b: bool)
    ensures
        b == is_ip_addr(s@),
{
    let cs = chars_of(s);
    ipv4_chars(&cs) || ipv6_chars(&cs)
}

} // verus!
