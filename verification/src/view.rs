//! The range visualization: a five-line text block that draws the full
//! bounds as a bracketed bar of `=` characters, highlights the current
//! candidate sub-range in green, and points at its two endpoints with
//! aligned `v` and `^` markers carrying the endpoint values.
//!
//! ```text
//!  0    4   8   12
//! [----(-----)----]
//!  ^    ^   ^    ^
//!  |    |   |    max
//!  |    |   end of current range
//!  |    begin of current range
//!  min
//! ```

use vstd::prelude::*;
use vstd::string::StrSliceExecFns;
use vstd::string::StringExecFns;
use crate::color::Color;
use crate::color::Style;
use crate::color::colorize_spec;
use crate::color::fg;
use crate::span::Span;
use crate::text::dec_rep;
use crate::text::i32_to_string;
use crate::text::int_str;
use crate::text::lemma_dec_rep_len;
use crate::text::push_repeat;
use crate::text::push_right_aligned;
use crate::text::repeat_seq;
use crate::text::right_aligned;
use crate::text::u64_to_string;

verus! {

/// `current` sits inside `bounds` and neither interval is empty.
pub open spec fn nested(bounds: Span, current: Span) -> bool {
    bounds.min <= current.min && current.min <= current.max && current.max <= bounds.max
}

/// Steps from the start of the full range to the start of the candidate
/// range: the length of the fill before the highlighted segment.
pub open spec fn seg_before_len(bounds: Span, current: Span) -> int {
    current.min - bounds.min
}

/// Inclusive width of the candidate range: the length of the highlighted
/// segment.
pub open spec fn seg_range_len(current: Span) -> int {
    current.max - current.min + 1
}

/// Steps from the end of the candidate range to the end of the full range:
/// the length of the fill after the highlighted segment.
pub open spec fn seg_after_len(bounds: Span, current: Span) -> int {
    bounds.max - current.max
}

/// Characters printed before the first fill character of the bar: the
/// numeral of `bounds.min` and the literal `" ["`.
pub open spec fn prefix_width(bounds: Span) -> int {
    int_str(bounds.min as int).len() as int + 2
}

/// Column (1-based) of the first character of the highlighted segment: the
/// `v` marker and the `current.min` numeral are right-aligned to it.
pub open spec fn caret_begin_col(bounds: Span, current: Span) -> int {
    prefix_width(bounds) + seg_before_len(bounds, current) + 1
}

/// Column (1-based) of the last character of the highlighted segment: the
/// `^` marker and the `current.max` numeral are right-aligned to it.
pub open spec fn caret_end_col(bounds: Span, current: Span) -> int {
    prefix_width(bounds) + seg_before_len(bounds, current) + seg_range_len(current)
}

/// Zero-based index, in the bar line as it appears on screen (escape
/// sequences are zero-width), of the first highlighted character.
pub open spec fn highlight_start_col(bounds: Span, current: Span) -> int {
    prefix_width(bounds) + seg_before_len(bounds, current)
}

/// The bar line as it appears on screen: numeral, bracket, the three fill
/// segments tiling the full range, bracket, numeral. The escape sequences
/// that colour the middle segment are not part of this view.
pub open spec fn bar_line_plain(bounds: Span, current: Span) -> Seq<char> {
    int_str(bounds.min as int) + seq![' ', '['] + repeat_seq(
        '=',
        seg_before_len(bounds, current),
    ) + repeat_seq('=', seg_range_len(current)) + repeat_seq('=', seg_after_len(bounds, current))
        + seq![']', ' '] + int_str(bounds.max as int)
}

/// The bar line as it is sent to the terminal: as `bar_line_plain`, but with
/// the highlighted segment wrapped in the green foreground escape sequence.
pub open spec fn bar_line(bounds: Span, current: Span) -> Seq<char> {
    int_str(bounds.min as int) + seq![' ', '['] + repeat_seq(
        '=',
        seg_before_len(bounds, current),
    ) + colorize_spec(Style::Fg, Color::Green, repeat_seq('=', seg_range_len(current)))
        + repeat_seq('=', seg_after_len(bounds, current)) + seq![']', ' '] + int_str(
        bounds.max as int,
    )
}

/// The whole five-line block: the `current.min` numeral and the `v` marker
/// aligned over the start of the highlighted segment, the bar line, then
/// the `^` marker and the `current.max` numeral aligned under its end.
pub open spec fn render_spec(bounds: Span, current: Span) -> Seq<char> {
    right_aligned(int_str(current.min as int), caret_begin_col(bounds, current)) + seq!['\n']
        + right_aligned(seq!['v'], caret_begin_col(bounds, current)) + seq!['\n'] + bar_line(
        bounds,
        current,
    ) + seq!['\n'] + right_aligned(seq!['^'], caret_end_col(bounds, current)) + seq!['\n']
        + right_aligned(int_str(current.max as int), caret_end_col(bounds, current)) + seq!['\n']
}

/// The three fill segments exactly tile the full range: their lengths sum
/// to the number of integers in `bounds`, wherever `current` sits inside.
pub proof fn lemma_tiling(bounds: Span, current: Span)
    requires
        nested(bounds, current),
    ensures
        seg_before_len(bounds, current) + seg_range_len(current) + seg_after_len(bounds, current)
            == bounds.max - bounds.min + 1,
        seg_before_len(bounds, current) >= 0,
        seg_range_len(current) >= 1,
        seg_after_len(bounds, current) >= 0,
{
}

/// The markers line up with the highlighted segment: the `v` marker stands
/// exactly in the column of the first highlighted character, and the `^`
/// marker in the column of the last one.
pub proof fn lemma_alignment(bounds: Span, current: Span)
    requires
        nested(bounds, current),
    ensures
        right_aligned(seq!['v'], caret_begin_col(bounds, current)).len() == caret_begin_col(
            bounds,
            current,
        ),
        right_aligned(seq!['v'], caret_begin_col(bounds, current))[caret_begin_col(bounds, current)
            - 1] == 'v',
        caret_begin_col(bounds, current) - 1 == highlight_start_col(bounds, current),
        right_aligned(seq!['^'], caret_end_col(bounds, current)).len() == caret_end_col(
            bounds,
            current,
        ),
        right_aligned(seq!['^'], caret_end_col(bounds, current))[caret_end_col(bounds, current) - 1]
            == '^',
        caret_end_col(bounds, current) - 1 == highlight_start_col(bounds, current) + seg_range_len(
            current,
        ) - 1,
        forall|i: int|
            highlight_start_col(bounds, current) <= i < highlight_start_col(bounds, current)
                + seg_range_len(current) ==> bar_line_plain(bounds, current)[i] == '=',
{
    if bounds.min < 0 {
        lemma_dec_rep_len((-bounds.min) as nat);
    } else {
        lemma_dec_rep_len(bounds.min as nat);
    }
    assert(int_str(bounds.min as int).len() >= 1);
}

/// Ten to the `k`.
spec fn pow10(k: nat) -> int
    decreases k,
{
    if k == 0 {
        1
    } else {
        10 * pow10((k - 1) as nat)
    }
}

/// A value below `10^k` has a numeral of at most `k` digits.
proof fn lemma_dec_rep_len_le(n: nat, k: nat)
    requires
        k >= 1,
        n < pow10(k),
    ensures
        dec_rep(n).len() <= k,
    decreases k,
{
    if n >= 10 {
        assert(n / 10 < pow10((k - 1) as nat));
        lemma_dec_rep_len_le(n / 10, (k - 1) as nat);
    }
}

/// The numeral of an `i32`, sign included, is at most eleven characters.
proof fn lemma_int_str_len(n: int)
    requires
        i32::MIN <= n <= i32::MAX,
    ensures
        1 <= int_str(n).len() <= 11,
{
    reveal_with_fuel(pow10, 11);
    assert(pow10(10) == 10000000000);
    if n < 0 {
        lemma_dec_rep_len((-n) as nat);
        lemma_dec_rep_len_le((-n) as nat, 10);
    } else {
        lemma_dec_rep_len(n as nat);
        lemma_dec_rep_len_le(n as nat, 10);
    }
}

/// The numeral of a `u64` is at most twenty digits long.
proof fn lemma_u64_numeral_len(n: u64)
    ensures
        1 <= dec_rep(n as nat).len() <= 20,
{
    reveal_with_fuel(pow10, 21);
    assert(pow10(20) == 100000000000000000000);
    lemma_dec_rep_len(n as nat);
    lemma_dec_rep_len_le(n as nat, 20);
}

/// The largest bar-friendly upper bound for a terminal `width` columns
/// wide: the width, less the digits its own numeral takes, less the five
/// characters of decoration around the bar (`" ["`, `"] "` and one column
/// of slack). `None` when the terminal is too narrow for any bar at all,
/// or the result would not fit an `i32`.
pub fn fill_width_max(width: usize) -> (r: Option<i32>)
    ensures
        (if width >= dec_rep(width as nat).len() + 5 && width - dec_rep(width as nat).len() - 5
            <= i32::MAX {
            r == Some((width - dec_rep(width as nat).len() - 5) as i32)
        } else {
            r is None
        }),
{
    proof {
        lemma_u64_numeral_len(width as u64);
    }
    let numeral = u64_to_string(width as u64);
    let d = numeral.as_str().unicode_len();
    if width >= d + 5 {
        let m = width - d - 5;
        if m <= i32::MAX as usize {
            Some(m as i32)
        } else {
            None
        }
    } else {
        None
    }
}

/// Appends `t` right-aligned to column `w`, then a newline.
fn push_aligned_line(out: &mut String, t: &str, w: usize)
    ensures
        final(out)@ == old(out)@ + right_aligned(t@, w as int) + seq!['\n'],
{
    proof {
        reveal_strlit("\n");
    }
    push_right_aligned(out, t, w);
    out.append("\n");
    proof {
        assert(final(out)@ =~= old(out)@ + right_aligned(t@, w as int) + seq!['\n']);
    }
}

/// Appends the bar line (with the highlighted middle segment coloured
/// green), then a newline.
fn push_bar_line(out: &mut String, bounds: &Span, current: &Span)
    requires
        nested(*bounds, *current),
        bounds.max - bounds.min < i32::MAX,
    ensures
        final(out)@ == old(out)@ + bar_line(*bounds, *current) + seq!['\n'],
{
    proof {
        reveal_strlit("\n");
        reveal_strlit(" [");
        reveal_strlit("] ");
        reveal_strlit("=");
    }
    let before_n: usize = (current.min as i64 - bounds.min as i64) as usize;
    let range_n: usize = (current.max as i64 - current.min as i64 + 1) as usize;
    let after_n: usize = (bounds.max as i64 - current.max as i64) as usize;

    let bmin = i32_to_string(bounds.min);
    out.append(bmin.as_str());
    out.append(" [");
    push_repeat(out, "=", before_n);
    let mut fill = String::new();
    push_repeat(&mut fill, "=", range_n);
    let highlighted = fg(Color::Green, fill.as_str());
    out.append(highlighted.as_str());
    push_repeat(out, "=", after_n);
    out.append("] ");
    let bmax = i32_to_string(bounds.max);
    out.append(bmax.as_str());
    out.append("\n");
    proof {
        assert(final(out)@ =~= old(out)@ + bar_line(*bounds, *current) + seq!['\n']);
    }
}

/// The five-line visualization of `current` inside `bounds`.
///
/// Pure: the caller decides where the text goes.
pub fn render(bounds: &Span, current: &Span) -> (r: String)
    requires
        nested(*bounds, *current),
        bounds.max - bounds.min < i32::MAX,
    ensures
        r@ == render_spec(*bounds, *current),
{
    proof {
        reveal_strlit("v");
        reveal_strlit("^");
        lemma_int_str_len(bounds.min as int);
        lemma_int_str_len(current.min as int);
        lemma_int_str_len(current.max as int);
    }
    let bmin = i32_to_string(bounds.min);
    let cmin = i32_to_string(current.min);
    let cmax = i32_to_string(current.max);

    let prefix_w: usize = bmin.as_str().unicode_len() + 2;
    let before_n: usize = (current.min as i64 - bounds.min as i64) as usize;
    let range_n: usize = (current.max as i64 - current.min as i64 + 1) as usize;
    let caret_begin_w: usize = prefix_w + before_n + 1;
    let caret_end_w: usize = prefix_w + before_n + range_n;

    let mut out = String::new();
    push_aligned_line(&mut out, cmin.as_str(), caret_begin_w);
    push_aligned_line(&mut out, "v", caret_begin_w);
    push_bar_line(&mut out, bounds, current);
    push_aligned_line(&mut out, "^", caret_end_w);
    push_aligned_line(&mut out, cmax.as_str(), caret_end_w);
    proof {
        assert(out@ =~= render_spec(*bounds, *current));
    }
    out
}

} // verus!
