//! Turning a line of user input into a guess: ASCII whitespace is trimmed,
//! then the remainder must be an optionally signed decimal numeral whose
//! value fits an `i32`.

use vstd::prelude::*;
use vstd::string::StrSliceExecFns;

verus! {

/// ASCII whitespace, the kinds a line of terminal input can carry.
pub open spec fn is_space(c: char) -> bool {
    c == ' ' || c == '\t' || c == '\r' || c == '\n'
}

/// `s` with its leading whitespace removed.
pub open spec fn trim_front(s: Seq<char>) -> Seq<char>
    decreases s.len(),
{
    if s.len() > 0 && is_space(s[0]) {
        trim_front(s.drop_first())
    } else {
        s
    }
}

/// `s` with its trailing whitespace removed.
pub open spec fn trim_back(s: Seq<char>) -> Seq<char>
    decreases s.len(),
{
    if s.len() > 0 && is_space(s.last()) {
        trim_back(s.drop_last())
    } else {
        s
    }
}

/// `s` with whitespace removed from both ends.
pub open spec fn trim_spec(s: Seq<char>) -> Seq<char> {
    trim_back(trim_front(s))
}

/// A decimal digit character.
pub open spec fn is_digit(c: char) -> bool {
    48 <= c as u32 <= 57
}

/// The value of a decimal digit character.
pub open spec fn digit_val(c: char) -> int {
    c as u32 - 48
}

/// Every character of `s` is a decimal digit.
pub open spec fn all_digits(s: Seq<char>) -> bool {
    forall|i: int| 0 <= i < s.len() ==> is_digit(#[trigger] s[i])
}

/// The value of a digit string read left to right.
pub open spec fn digits_val(s: Seq<char>) -> int
    decreases s.len(),
{
    if s.len() == 0 {
        0
    } else {
        digits_val(s.drop_last()) * 10 + digit_val(s.last())
    }
}

/// The unbounded integer a trimmed token denotes: an optional `+` or `-`
/// sign followed by at least one decimal digit. Anything else denotes
/// nothing.
pub open spec fn token_val(t: Seq<char>) -> Option<int> {
    if t.len() > 0 && (t[0] == '+' || t[0] == '-') {
        let d = t.drop_first();
        if d.len() > 0 && all_digits(d) {
            if t[0] == '-' {
                Some(-digits_val(d))
            } else {
                Some(digits_val(d))
            }
        } else {
            None
        }
    } else if t.len() > 0 && all_digits(t) {
        Some(digits_val(t))
    } else {
        None
    }
}

/// What parsing a raw input line as an `i32` yields: the value of the
/// trimmed token, if there is one and it fits an `i32`.
pub open spec fn parse_i32_spec(s: Seq<char>) -> Option<int> {
    match token_val(trim_spec(s)) {
        Some(v) => if i32::MIN <= v <= i32::MAX {
            Some(v)
        } else {
            None
        },
        None => None,
    }
}

/// A digit string's value is non-negative.
proof fn lemma_digits_val_nonneg(s: Seq<char>)
    requires
        all_digits(s),
    ensures
        digits_val(s) >= 0,
    decreases s.len(),
{
    if s.len() > 0 {
        assert(all_digits(s.drop_last()));
        lemma_digits_val_nonneg(s.drop_last());
    }
}

/// Reading more digits never decreases the value: the value of a prefix is
/// a lower bound on the value of the whole digit string.
proof fn lemma_digits_val_prefix_le(s: Seq<char>, k: int)
    requires
        all_digits(s),
        0 <= k <= s.len(),
    ensures
        digits_val(s.take(k)) <= digits_val(s),
    decreases s.len() - k,
{
    if k < s.len() {
        lemma_digits_val_prefix_le(s, k + 1);
        assert(s.take(k + 1).drop_last() =~= s.take(k));
        assert(all_digits(s.take(k)));
        lemma_digits_val_nonneg(s.take(k));
        assert(is_digit(s[k]));
        assert(s.take(k + 1).last() == s[k]);
        assert(digits_val(s.take(k + 1)) == digits_val(s.take(k)) * 10 + digit_val(s[k]));
        assert(digits_val(s.take(k)) * 10 >= digits_val(s.take(k)));
    } else {
        assert(s.take(k) =~= s);
    }
}

/// Dropping a fully-whitespace prefix is what `trim_front` does.
proof fn lemma_trim_front_subrange(s: Seq<char>, k: int)
    requires
        0 <= k <= s.len(),
        forall|i: int| 0 <= i < k ==> is_space(#[trigger] s[i]),
        k == s.len() || !is_space(s[k]),
    ensures
        trim_front(s) =~= s.subrange(k, s.len() as int),
    decreases k,
{
    if k == 0 {
        assert(trim_front(s) =~= s.subrange(0, s.len() as int));
    } else {
        assert(is_space(s[0]));
        let s1 = s.drop_first();
        assert(forall|i: int| 0 <= i < k - 1 ==> is_space(#[trigger] s1[i]));
        lemma_trim_front_subrange(s1, k - 1);
        assert(s1.subrange(k - 1, s1.len() as int) =~= s.subrange(k, s.len() as int));
    }
}

/// Dropping a fully-whitespace suffix is what `trim_back` does.
proof fn lemma_trim_back_subrange(s: Seq<char>, h: int)
    requires
        0 <= h <= s.len(),
        forall|i: int| h <= i < s.len() ==> is_space(#[trigger] s[i]),
        h == 0 || !is_space(s[h - 1]),
    ensures
        trim_back(s) =~= s.subrange(0, h),
    decreases s.len() - h,
{
    if h == s.len() {
        assert(trim_back(s) =~= s.subrange(0, h));
    } else {
        assert(is_space(s.last()));
        let s1 = s.drop_last();
        lemma_trim_back_subrange(s1, h);
    }
}

/// Whether `c` is ASCII whitespace.
fn is_space_exec(c: char) -> (r: bool)
    ensures
        r == is_space(c),
{
    c == ' ' || c == '\t' || c == '\r' || c == '\n'
}

/// Parses a line of user input as a guess.
///
/// Returns the value of the input after trimming ASCII whitespace, when
/// that remainder is an optionally signed decimal numeral fitting an
/// `i32`; `None` on an empty remainder, a stray character, or a value out
/// of range.
pub fn parse_guess(s: &str) -> (r: Option<i32>)
    ensures
        r is Some <==> parse_i32_spec(s@) is Some,
        r is Some ==> r->0 as int == parse_i32_spec(s@)->0,
{
    let n = s.unicode_len();
    let mut lo: usize = 0;
    while lo < n && is_space_exec(s.get_char(lo))
        invariant
            n == s@.len(),
            0 <= lo <= n,
            forall|i: int| 0 <= i < lo ==> is_space(#[trigger] s@[i]),
        decreases n - lo,
    {
        lo = lo + 1;
    }
    let mut hi: usize = n;
    while hi > lo && is_space_exec(s.get_char(hi - 1))
        invariant
            n == s@.len(),
            0 <= lo <= hi <= n,
            forall|i: int| 0 <= i < lo ==> is_space(#[trigger] s@[i]),
            forall|i: int| hi <= i < n ==> is_space(#[trigger] s@[i]),
            lo == n || !is_space(s@[lo as int]),
        decreases hi,
    {
        hi = hi - 1;
    }
    let ghost t = s@.subrange(lo as int, hi as int);
    proof {
        lemma_trim_front_subrange(s@, lo as int);
        let f = s@.subrange(lo as int, n as int);
        lemma_trim_back_subrange(f, hi - lo);
        assert(f.subrange(0, hi - lo) =~= t);
        assert(trim_spec(s@) == t);
    }

    if hi == lo {
        return None;
    }
    let first = s.get_char(lo);
    let mut i: usize = lo;
    let neg = first == '-';
    if first == '-' || first == '+' {
        i = i + 1;
    }
    if i == hi {
        // A bare sign with no digits.
        return None;
    }
    let ghost d = s@.subrange(i as int, hi as int);
    proof {
        if i > lo {
            assert(t.drop_first() =~= d);
        }
    }

    let mut acc: i64 = 0;
    let mut j: usize = i;
    while j < hi
        invariant
            n == s@.len(),
            lo <= i <= j <= hi <= n,
            i < hi,
            t == s@.subrange(lo as int, hi as int),
            trim_spec(s@) == t,
            first == s@[lo as int],
            neg == (first == '-'),
            i == lo || (i == lo + 1 && (first == '+' || first == '-')),
            i == lo ==> first != '+' && first != '-',
            d == s@.subrange(i as int, hi as int),
            0 <= acc <= 2147483648,
            acc == digits_val(s@.subrange(i as int, j as int)),
            all_digits(s@.subrange(i as int, j as int)),
        decreases hi - j,
    {
        let c = s.get_char(j);
        let u = c as u32;
        if u < 48 || u > 57 {
            proof {
                assert(d[j - i] == c);
                assert(!all_digits(d));
                if i > lo {
                    assert(t[0] == '+' || t[0] == '-');
                    assert(t.drop_first() =~= d);
                } else {
                    assert(t =~= d);
                    assert(t[0] == s@[lo as int]);
                }
                assert(token_val(t) is None);
            }
            return None;
        }
        acc = acc * 10 + ((u - 48) as i64);
        j = j + 1;
        proof {
            assert(s@.subrange(i as int, j as int).drop_last() =~= s@.subrange(
                i as int,
                j - 1 as int,
            ));
            assert(s@.subrange(i as int, j as int).last() == c);
        }
        if acc > 2147483648 {
            proof {
                if i > lo {
                    assert(t[0] == '+' || t[0] == '-');
                    assert(t.drop_first() =~= d);
                } else {
                    assert(t =~= d);
                }
                if all_digits(d) {
                    assert(d.take(j - i) =~= s@.subrange(i as int, j as int));
                    lemma_digits_val_prefix_le(d, j - i);
                    assert(digits_val(d) >= acc > 2147483648);
                    assert(token_val(t) matches Some(v) && (v > i32::MAX || v < i32::MIN));
                } else {
                    assert(token_val(t) is None);
                }
                assert(parse_i32_spec(s@) is None);
            }
            return None;
        }
    }
    proof {
        assert(s@.subrange(i as int, hi as int) =~= d);
        assert(all_digits(d));
        assert(acc == digits_val(d));
        if i > lo {
            assert(t[0] == '+' || t[0] == '-');
            assert(t.drop_first() =~= d);
        } else {
            assert(t =~= d);
            assert(t[0] == s@[lo as int]);
        }
        assert(token_val(t) == Some(if neg {
            -digits_val(d)
        } else {
            digits_val(d)
        }));
    }

    if neg {
        Some((-acc) as i32)
    } else {
        if acc > 2147483647 {
            return None;
        }
        Some(acc as i32)
    }
}

} // verus!
