//! Small verified helpers for building display strings: decimal rendering of
//! integers, character-wise string equality, and appending single characters.

use vstd::prelude::*;

verus! {

/// The character for a single decimal digit.
pub open spec fn dec_digit(d: nat) -> char {
    if d == 0 {
        '0'
    } else if d == 1 {
        '1'
    } else if d == 2 {
        '2'
    } else if d == 3 {
        '3'
    } else if d == 4 {
        '4'
    } else if d == 5 {
        '5'
    } else if d == 6 {
        '6'
    } else if d == 7 {
        '7'
    } else if d == 8 {
        '8'
    } else {
        '9'
    }
}

/// The decimal representation of a natural number, most significant digit first.
pub open spec fn dec_rep(n: nat) -> Seq<char>
    decreases n,
{
    if n < 10 {
        seq![dec_digit(n)]
    } else {
        dec_rep(n / 10).push(dec_digit(n % 10))
    }
}

/// The decimal representation of an integer, with a leading minus sign when negative.
pub open spec fn dec_rep_int(i: int) -> Seq<char> {
    if i < 0 {
        seq!['-'] + dec_rep((-i) as nat)
    } else {
        dec_rep(i as nat)
    }
}

/// Relies on String::push: appends exactly the given character to the string.
#[verifier::external_body]
pub fn push_char(s: &mut String, c: char)
    ensures
        final(s)@ == old(s)@.push(c),
{
    s.push(c);
}

fn digit_char(d: u32) -> (c: char)
    requires
        d < 10,
    ensures
        c == dec_digit(d as nat),
{
    if d == 0 {
        '0'
    } else if d == 1 {
        '1'
    } else if d == 2 {
        '2'
    } else if d == 3 {
        '3'
    } else if d == 4 {
        '4'
    } else if d == 5 {
        '5'
    } else if d == 6 {
        '6'
    } else if d == 7 {
        '7'
    } else if d == 8 {
        '8'
    } else {
        '9'
    }
}

/// Appends the decimal representation of `n` to `s`.
pub fn push_u32_dec(s: &mut String, n: u32)
    ensures
        final(s)@ == old(s)@ + dec_rep(n as nat),
    decreases n,
{
    if n < 10 {
        push_char(s, digit_char(n));
        proof {
            assert(final(s)@ =~= old(s)@ + dec_rep(n as nat));
        }
    } else {
        push_u32_dec(s, n / 10);
        push_char(s, digit_char(n % 10));
        proof {
            assert(final(s)@ =~= old(s)@ + dec_rep(n as nat));
        }
    }
}

/// Appends the decimal representation of `x` to `s`, with a minus sign when negative.
pub fn push_i32_dec(s: &mut String, x: i32)
    ensures
        final(s)@ == old(s)@ + dec_rep_int(x as int),
{
    if x < 0 {
        push_char(s, '-');
        let wide: i64 = -(x as i64);
        let mag: u32 = wide as u32;
        proof {
            assert(0 < wide <= 0x8000_0000);
            assert(mag as int == -(x as int));
        }
        push_u32_dec(s, mag);
        proof {
            assert(final(s)@ =~= old(s)@ + dec_rep_int(x as int));
        }
    } else {
        push_u32_dec(s, x as u32);
    }
}

/// Character-wise equality of two string slices.
pub fn str_eq(a: &str, b: &str) -> (r: bool)
    ensures
        r == (a@ == b@),
{
    let an = a.unicode_len();
    let bn = b.unicode_len();
    if an != bn {
        return false;
    }
    let mut i: usize = 0;
    while i < an
        invariant
            an == a@.len(),
            an == b@.len(),
            i <= an,
            forall|j: int| 0 <= j < i ==> a@[j] == b@[j],
        decreases an - i,
    {
        if a.get_char(i) != b.get_char(i) {
            return false;
        }
        i = i + 1;
    }
    proof {
        assert(a@ =~= b@);
    }
    true
}

} // verus!
