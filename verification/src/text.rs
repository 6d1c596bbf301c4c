//! Plain-text building blocks for the renderer: decimal numerals, repeated
//! fill characters, and right-aligned fields.

use vstd::prelude::*;
use vstd::string::StrSliceExecFns;
use vstd::string::StringExecFns;

verus! {

/// The decimal digit character for `d` in `0..10`.
pub open spec fn digit_char(d: int) -> char {
    if d == 0 {
        '0'
    } else if d == 1 {
        '1'
    } else if d == 2 {
        '2'
    } else if d == 3 {
        '3'
    } else if d == 4 {
        '4'
    } else if d == 5 {
        '5'
    } else if d == 6 {
        '6'
    } else if d == 7 {
        '7'
    } else if d == 8 {
        '8'
    } else {
        '9'
    }
}

/// The decimal numeral of a non-negative integer, most significant digit
/// first, with no leading zeros (the numeral of zero is "0").
pub open spec fn dec_rep(n: nat) -> Seq<char>
    decreases n,
{
    if n < 10 {
        seq![digit_char(n as int)]
    } else {
        dec_rep(n / 10) + seq![digit_char(n as int % 10)]
    }
}

/// The decimal numeral of an integer, with a leading '-' when negative.
pub open spec fn int_str(n: int) -> Seq<char> {
    if n < 0 {
        seq!['-'] + dec_rep((-n) as nat)
    } else {
        dec_rep(n as nat)
    }
}

/// `n` copies of the character `c`.
pub open spec fn repeat_seq(c: char, n: int) -> Seq<char> {
    Seq::new(n as nat, |i: int| c)
}

/// `s` padded on the left with spaces so that its last character stands in
/// column `w` (1-based); a string already `w` long or longer is unchanged.
pub open spec fn right_aligned(s: Seq<char>, w: int) -> Seq<char> {
    if s.len() >= w {
        s
    } else {
        repeat_seq(' ', w - s.len()) + s
    }
}

/// A numeral is never empty.
pub proof fn lemma_dec_rep_len(n: nat)
    ensures
        dec_rep(n).len() >= 1,
    decreases n,
{
    if n >= 10 {
        lemma_dec_rep_len(n / 10);
    }
}

/// The single-character string for the digit `d`.
pub(crate) fn digit_str(d: u64) -> (r: &'static str)
    requires
        d < 10,
    ensures
        r@ == seq![digit_char(d as int)],
{
    proof {
        reveal_strlit("0");
        reveal_strlit("1");
        reveal_strlit("2");
        reveal_strlit("3");
        reveal_strlit("4");
        reveal_strlit("5");
        reveal_strlit("6");
        reveal_strlit("7");
        reveal_strlit("8");
        reveal_strlit("9");
    }
    let r = match d {
        0 => "0",
        1 => "1",
        2 => "2",
        3 => "3",
        4 => "4",
        5 => "5",
        6 => "6",
        7 => "7",
        8 => "8",
        _ => "9",
    };
    proof {
        assert(r@ =~= seq![digit_char(d as int)]);
    }
    r
}

/// Appends the decimal numeral of `n` to `s`.
fn push_dec(s: &mut String, n: u64)
    ensures
        final(s)@ == old(s)@ + dec_rep(n as nat),
    decreases n,
{
    if n >= 10 {
        push_dec(s, n / 10);
        s.append(digit_str(n % 10));
    } else {
        s.append(digit_str(n));
    }
    proof {
        assert(final(s)@ =~= old(s)@ + dec_rep(n as nat));
    }
}

/// The decimal numeral of `n` as a fresh string.
pub fn u64_to_string(n: u64) -> (r: String)
    ensures
        r@ == dec_rep(n as nat),
{
    let mut s = String::new();
    push_dec(&mut s, n);
    proof {
        assert(s@ =~= dec_rep(n as nat));
    }
    s
}

/// The decimal numeral of `n`, with a leading '-' when negative.
pub fn i32_to_string(n: i32) -> (r: String)
    ensures
        r@ == int_str(n as int),
{
    let mut s = String::new();
    if n < 0 {
        proof {
            reveal_strlit("-");
        }
        s.append("-");
        let mag: u64 = (-(n as i64)) as u64;
        assert(mag == -(n as int));
        push_dec(&mut s, mag);
        proof {
            assert(s@ =~= int_str(n as int));
        }
    } else {
        push_dec(&mut s, n as u64);
        proof {
            assert(s@ =~= int_str(n as int));
        }
    }
    s
}

/// Appends `n` copies of the one-character string `piece` to `s`.
pub fn push_repeat(s: &mut String, piece: &str, n: usize)
    requires
        piece@.len() == 1,
    ensures
        final(s)@ == old(s)@ + repeat_seq(piece@[0], n as int),
{
    let mut i: usize = 0;
    while i < n
        invariant
            piece@.len() == 1,
            i <= n,
            s@ == old(s)@ + repeat_seq(piece@[0], i as int),
        decreases n - i,
    {
        s.append(piece);
        i = i + 1;
        proof {
            assert(s@ =~= old(s)@ + repeat_seq(piece@[0], i as int));
        }
    }
    proof {
        assert(s@ =~= old(s)@ + repeat_seq(piece@[0], n as int));
    }
}

/// Appends `t` to `s`, padded on the left with spaces so that the last
/// character of `t` stands in column `w` of the appended field.
pub fn push_right_aligned(s: &mut String, t: &str, w: usize)
    ensures
        final(s)@ == old(s)@ + right_aligned(t@, w as int),
{
    let len = t.unicode_len();
    if len < w {
        proof {
            reveal_strlit(" ");
        }
        push_repeat(s, " ", w - len);
        s.append(t);
        proof {
            assert(s@ =~= old(s)@ + right_aligned(t@, w as int));
        }
    } else {
        s.append(t);
    }
}

} // verus!
