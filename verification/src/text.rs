//! Text building blocks shared by the rest of the library: decimal rendering,
//! character pushes and string comparison.

use vstd::prelude::*;
use vstd::string::*;

verus! {

/// The ASCII digit for a value below ten.
pub open spec fn digit_char(d: nat) -> char {
    ((d % 10) + 48) as char
}

/// The decimal rendering of a natural number, without sign or leading zeros.
pub open spec fn decimal(n: nat) -> Seq<char>
    decreases n,
{
    if n < 10 {
        seq![digit_char(n)]
    } else {
        decimal(n / 10).push(digit_char(n % 10))
    }
}

/// Appends one character to a string (`String::push`).
#[verifier::external_body]
pub(crate) fn push_char(s: &mut String, c: char)
    ensures
        final(s)@ == old(s)@.push(c),
{
    s.push(c);
}

/// The character of a single decimal digit.
pub fn digit(d: u64) -> (c: char)
    requires
        d < 10,
    ensures
        c == digit_char(d as nat),
{
    let b: u8 = 48u8 + (d as u8);
    b as char
}

/// Appends the decimal rendering of `n` to `s`.
pub fn push_decimal(s: &mut String, n: u64)
    ensures
        final(s)@ == old(s)@ + decimal(n as nat),
    decreases n,
{
    if n >= 10 {
        push_decimal(s, n / 10);
    }
    push_char(s, digit(n % 10));
    proof {
        assert(old(s)@ + decimal(n as nat) =~= old(s)@ + (if n < 10 { seq![digit_char(n as nat)] } else { decimal((n / 10) as nat).push(digit_char((n % 10) as nat)) }));
    }
}


/// Whether two strings hold the same characters.
pub fn str_eq(a: &str, b: &str) -> (eq: bool)
    ensures
        eq == (a@ == b@),
{
    let sa = String::from_str(a);
    let sb = String::from_str(b);
    sa == sb
}

/// What a substitution table makes of one character: the replacement of the
/// first entry for it, or the character itself.
pub open spec fn subst(table: Seq<(char, &str)>, c: char) -> Seq<char>
    decreases table.len(),
{
    if table.len() == 0 {
        seq![c]
    } else if table[0].0 == c {
        table[0].1@
    } else {
        subst(table.drop_first(), c)
    }
}

/// Every character of `s` replaced as the table says.
pub open spec fn escaped(s: Seq<char>, table: Seq<(char, &str)>) -> Seq<char>
    decreases s.len(),
{
    if s.len() == 0 {
        Seq::empty()
    } else {
        escaped(s.drop_last(), table) + subst(table, s.last())
    }
}

/// Appends what the table makes of `c`.
fn push_subst(out: &mut String, table: &[(char, &str)], c: char)
    ensures
        final(out)@ == old(out)@ + subst(table@, c),
{
    let n = table.len();
    let mut i: usize = 0;
    assert(table@.subrange(0, n as int) =~= table@);
    while i < n
        invariant
            n == table@.len(),
            i <= n,
            out@ == old(out)@,
            forall|j: int| 0 <= j < i ==> table@[j].0 != c,
            subst(table@, c) == subst(table@.subrange(i as int, n as int), c),
        decreases n - i,
    {
        if table[i].0 == c {
            assert(table@.subrange(i as int, n as int)[0] == table@[i as int]);
            out.append(table[i].1);
            return;
        }
        proof {
            assert(table@.subrange(i as int, n as int).drop_first() =~= table@.subrange(i + 1, n as int));
        }
        i = i + 1;
    }
    assert(table@.subrange(n as int, n as int).len() == 0);
    push_char(out, c);
}

/// Appends `s` with every character replaced as the table says.
pub fn push_escaped(out: &mut String, s: &str, table: &[(char, &str)])
    ensures
        final(out)@ == old(out)@ + escaped(s@, table@),
{
    broadcast use vstd::string::group_string_axioms;
    let ghost start = out@;
    for c in it: s.chars()
        invariant
            out@ == start + escaped(it.seq().take(it.index()), table@),
            it.seq() == s@,
    {
        let ghost h = it.seq().take(it.index());
        proof {
            assert(it.seq()[it.index()] == c);
        }
        push_subst(out, table, c);
        proof {
            assert(it.seq().take(it.index() + 1).drop_last() =~= h);
        }
    }
    assert(s@.take(s@.len() as int) =~= s@);
}

/// `parts` joined with `sep` between consecutive parts.
pub open spec fn joined(parts: Seq<Seq<char>>, sep: Seq<char>) -> Seq<char>
    decreases parts.len(),
{
    if parts.len() == 0 {
        Seq::empty()
    } else if parts.len() == 1 {
        parts[0]
    } else {
        joined(parts.drop_last(), sep) + sep + parts.last()
    }
}


/// The characters of a string.
pub fn chars_of(s: &str) -> (cs: Vec<char>)
    ensures
        cs@ == s@,
{
    broadcast use vstd::string::group_string_axioms;
    let mut cs: Vec<char> = Vec::new();
    for c in it: s.chars()
        invariant
            cs@ == it.seq().take(it.index()),
            it.seq() == s@,
    {
        proof {
            assert(it.seq()[it.index()] == c);
        }
        cs.push(c);
        proof {
            assert(cs@ =~= it.seq().take(it.index() + 1));
        }
    }
    assert(s@.take(s@.len() as int) =~= s@);
    cs
}

} // verus!
