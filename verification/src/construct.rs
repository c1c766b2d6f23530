//! Names for generated code: a number written with the letters `a` to `y` as its digits in
//! base 25.

use crate::member_parser::push_char;
use vstd::prelude::*;

verus! {

/// The letter that stands for the base-25 digit `d`: `a` for 0 to `y` for 24.
pub open spec fn radix_letter(d: nat) -> char {
    (d + 97) as char
}

/// The writing of `x` in base 25 with the digits `a` to `y`, most significant first, without
/// leading `a`s (zero is `a`).
pub open spec fn radix25(x: nat) -> Seq<char>
    decreases x,
{
    if x < 25 {
        seq![radix_letter(x)]
    } else {
        radix25(x / 25).push(radix_letter(x % 25))
    }
}

/// Appends the base-25 writing of `x` to `s`.
fn append_radix(s: &mut String, x: usize)
    ensures
        final(s)@ == old(s)@ + radix25(x as nat),
    decreases x,
{
    if x >= 25 {
        append_radix(s, x / 25);
    }
    let d = x % 25;
    let c = ((d as u8) + 97) as char;
    assert(c == radix_letter(d as nat));
    push_char(s, c);
    proof {
        if x >= 25 {
            assert(old(s)@ + radix25(x as nat) =~= old(s)@ + radix25((x / 25) as nat) + seq![c]);
        } else {
            assert(old(s)@ + radix25(x as nat) =~= old(s)@ + seq![c]);
        }
    }
}

/// Writes `x` in base 25 with the letters `a` to `y` as digits (see [`radix25`]).
pub fn format_radix(x: usize) -> (r: String)
    ensures
        r@ == radix25(x as nat),
{
    let mut s = String::new();
    append_radix(&mut s, x);
    assert(s@ =~= radix25(x as nat));
    s
}

/// A base-25 writing has one letter, or more for numbers of 25 and up.
proof fn lemma_radix_len(x: nat)
    ensures
        radix25(x).len() >= 1,
        x >= 25 ==> radix25(x).len() >= 2,
    decreases x,
{
    if x >= 25 {
        lemma_radix_len(x / 25);
    }
}

/// Distinct numbers are written differently, so the names made of them are distinct.
pub proof fn lemma_radix_injective(x: nat, y: nat)
    requires
        x != y,
    ensures
        radix25(x) != radix25(y),
    decreases x + y,
{
    lemma_radix_len(x);
    lemma_radix_len(y);
    if x < 25 && y < 25 {
        assert(radix25(x)[0] != radix25(y)[0]);
    } else if x >= 25 && y >= 25 {
        if x % 25 != y % 25 {
            assert(radix25(x).last() != radix25(y).last());
        } else {
            lemma_radix_injective(x / 25, y / 25);
            if radix25(x) == radix25(y) {
                assert(radix25(x).drop_last() =~= radix25(x / 25));
                assert(radix25(y).drop_last() =~= radix25(y / 25));
            }
        }
    }
}

} // verus!
