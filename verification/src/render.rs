//! Rendering of nonnegative integers as digit strings in bases 2 through 16.

use vstd::prelude::*;

verus! {

use vstd::arithmetic::div_mod::lemma_div_is_strictly_smaller;

/// The character that renders a single digit `d` (`d < 16`).
/// Digits ten and above render as letters, uppercase when `upper` is set.
pub open spec fn digit(d: nat, upper: bool) -> char {
    if d == 0 {
        '0'
    } else if d == 1 {
        '1'
    } else if d == 2 {
        '2'
    } else if d == 3 {
        '3'
    } else if d == 4 {
        '4'
    } else if d == 5 {
        '5'
    } else if d == 6 {
        '6'
    } else if d == 7 {
        '7'
    } else if d == 8 {
        '8'
    } else if d == 9 {
        '9'
    } else if d == 10 {
        if upper { 'A' } else { 'a' }
    } else if d == 11 {
        if upper { 'B' } else { 'b' }
    } else if d == 12 {
        if upper { 'C' } else { 'c' }
    } else if d == 13 {
        if upper { 'D' } else { 'd' }
    } else if d == 14 {
        if upper { 'E' } else { 'e' }
    } else {
        if upper { 'F' } else { 'f' }
    }
}

/// The minimal (unpadded) digit string of `n` in base `base`, most
/// significant digit first. Zero renders as a single `'0'`.
pub open spec fn digits(n: nat, base: nat, upper: bool) -> Seq<char>
    recommends
        2 <= base <= 16,
    decreases n,
    when base >= 2
    via digits_decreases
{
    if n < base {
        seq![digit(n, upper)]
    } else {
        digits(n / base, base, upper).push(digit(n % base, upper))
    }
}

#[via_fn]
proof fn digits_decreases(n: nat, base: nat, upper: bool) {
    if base >= 2 && n >= base {
        lemma_div_is_strictly_smaller(n as int, base as int);
    }
}

/// Appends the character of the single digit `d` to `s`.
pub(crate) fn push_digit(s: &mut String, d: u64, upper: bool)
    requires
        d < 16,
    ensures
        final(s)@ == old(s)@.push(digit(d as nat, upper)),
{
    let t: &str = if d == 0 {
        "0"
    } else if d == 1 {
        "1"
    } else if d == 2 {
        "2"
    } else if d == 3 {
        "3"
    } else if d == 4 {
        "4"
    } else if d == 5 {
        "5"
    } else if d == 6 {
        "6"
    } else if d == 7 {
        "7"
    } else if d == 8 {
        "8"
    } else if d == 9 {
        "9"
    } else if d == 10 {
        if upper { "A" } else { "a" }
    } else if d == 11 {
        if upper { "B" } else { "b" }
    } else if d == 12 {
        if upper { "C" } else { "c" }
    } else if d == 13 {
        if upper { "D" } else { "d" }
    } else if d == 14 {
        if upper { "E" } else { "e" }
    } else {
        if upper { "F" } else { "f" }
    };
    proof {
        reveal_strlit("0");
        reveal_strlit("1");
        reveal_strlit("2");
        reveal_strlit("3");
        reveal_strlit("4");
        reveal_strlit("5");
        reveal_strlit("6");
        reveal_strlit("7");
        reveal_strlit("8");
        reveal_strlit("9");
        reveal_strlit("A");
        reveal_strlit("a");
        reveal_strlit("B");
        reveal_strlit("b");
        reveal_strlit("C");
        reveal_strlit("c");
        reveal_strlit("D");
        reveal_strlit("d");
        reveal_strlit("E");
        reveal_strlit("e");
        reveal_strlit("F");
        reveal_strlit("f");
        assert(t@ =~= seq![digit(d as nat, upper)]);
    }
    s.append(t);
    proof {
        assert(s@ =~= old(s)@.push(digit(d as nat, upper)));
    }
}

/// Appends the minimal digit string of `n` in base `base` to `s`,
/// most significant digit first.
pub(crate) fn push_digits(s: &mut String, n: u64, base: u64, upper: bool)
    requires
        2 <= base <= 16,
    ensures
        final(s)@ == old(s)@ + digits(n as nat, base as nat, upper),
    decreases n,
{
    if n >= base {
        proof {
            lemma_div_is_strictly_smaller(n as int, base as int);
        }
        push_digits(s, n / base, base, upper);
        push_digit(s, n % base, upper);
        proof {
            assert(s@ =~= old(s)@ + digits(n as nat, base as nat, upper));
        }
    } else {
        push_digit(s, n, upper);
        proof {
            assert(s@ =~= old(s)@ + digits(n as nat, base as nat, upper));
        }
    }
}

} // verus!
