use range_guess::color::{colorize, fg, Color, Style};
use range_guess::span::Span;
use range_guess::text::{i32_to_string, u64_to_string};
use range_guess::view::{fill_width_max, render};

#[test]
fn colorize_builds_the_escape_sequence() {
    assert_eq!(colorize(Style::Fg, Color::Green, "hi"), "\x1b[32mhi\x1b[0m");
    assert_eq!(colorize(Style::Bg, Color::Red, "x"), "\x1b[41mx\x1b[0m");
    assert_eq!(fg(Color::Yellow, "warn"), "\x1b[33mwarn\x1b[0m");
}

#[test]
fn color_codes_match_the_ansi_table() {
    assert_eq!(Style::Fg.code(), 3);
    assert_eq!(Style::Bg.code(), 4);
    assert_eq!(Color::Black.code(), 0);
    assert_eq!(Color::Red.code(), 1);
    assert_eq!(Color::Green.code(), 2);
    assert_eq!(Color::Yellow.code(), 3);
    assert_eq!(Color::Blue.code(), 4);
    assert_eq!(Color::Magenta.code(), 5);
    assert_eq!(Color::Cyan.code(), 6);
    assert_eq!(Color::White.code(), 7);
}

#[test]
fn numerals_match_std_formatting() {
    assert_eq!(i32_to_string(0), "0");
    assert_eq!(i32_to_string(-120), "-120");
    assert_eq!(i32_to_string(i32::MAX), "2147483647");
    assert_eq!(i32_to_string(i32::MIN), "-2147483648");
    assert_eq!(u64_to_string(0), "0");
    assert_eq!(u64_to_string(18446744073709551615), "18446744073709551615");
}

#[test]
fn render_draws_the_full_block() {
    let bounds = Span { min: 1, max: 50 };
    let current = Span { min: 26, max: 29 };
    let highlighted = format!("\x1b[32m{}\x1b[0m", "=".repeat(4));
    let expected = format!(
        "{:>29}\n{:>29}\n1 [{}{}{}] 50\n{:>32}\n{:>32}\n",
        26,
        "v",
        "=".repeat(25),
        highlighted,
        "=".repeat(21),
        "^",
        29
    );
    assert_eq!(render(&bounds, &current), expected);
}

#[test]
fn render_whole_range_highlighted() {
    let bounds = Span { min: 1, max: 5 };
    let current = Span { min: 1, max: 5 };
    let expected = format!(
        "{:>4}\n{:>4}\n1 [\x1b[32m=====\x1b[0m] 5\n{:>8}\n{:>8}\n",
        1, "v", "^", 5
    );
    assert_eq!(render(&bounds, &current), expected);
}

#[test]
fn render_tiles_the_whole_range() {
    // The three fill segments always tile the bounds exactly: counting the
    // '=' characters of the bar line gives the size of the full range.
    let bounds = Span { min: 1, max: 50 };
    for (lo, hi) in [(1, 50), (1, 1), (50, 50), (13, 37), (2, 49)] {
        let current = Span { min: lo, max: hi };
        let block = render(&bounds, &current);
        let bar = block.lines().nth(2).unwrap();
        let fills = bar.chars().filter(|c| *c == '=').count();
        assert_eq!(fills, 50);
    }
}

#[test]
fn render_markers_align_with_the_highlight() {
    // Stripping the escape sequences from the bar line, the 'v' marker
    // stands over the first highlighted fill character and the '^' marker
    // under the last one.
    let bounds = Span { min: 1, max: 50 };
    let current = Span { min: 26, max: 29 };
    let block = render(&bounds, &current);
    let lines: Vec<&str> = block.lines().collect();
    let v_col = lines[1].chars().count() - 1;
    assert_eq!(lines[1].chars().nth(v_col), Some('v'));
    let caret_col = lines[3].chars().count() - 1;
    assert_eq!(lines[3].chars().nth(caret_col), Some('^'));
    let plain: String = lines[2]
        .replace("\x1b[32m", "")
        .replace("\x1b[0m", "");
    // First highlighted column: prefix "1 [" plus 25 fill characters.
    assert_eq!(v_col, 3 + 25);
    assert_eq!(caret_col, 3 + 25 + 4 - 1);
    assert_eq!(plain.chars().nth(v_col), Some('='));
    assert_eq!(plain.chars().nth(caret_col), Some('='));
}

#[test]
fn render_negative_bounds() {
    let bounds = Span { min: -5, max: 4 };
    let current = Span { min: -2, max: 0 };
    let highlighted = format!("\x1b[32m{}\x1b[0m", "=".repeat(3));
    let expected = format!(
        "{:>8}\n{:>8}\n-5 [{}{}{}] 4\n{:>10}\n{:>10}\n",
        -2,
        "v",
        "=".repeat(3),
        highlighted,
        "=".repeat(4),
        "^",
        0
    );
    assert_eq!(render(&bounds, &current), expected);
}

#[test]
fn fill_width_for_usual_terminals() {
    assert_eq!(fill_width_max(80), Some(73));
    assert_eq!(fill_width_max(120), Some(112));
}

#[test]
fn fill_width_for_narrow_terminals() {
    assert_eq!(fill_width_max(0), None);
    assert_eq!(fill_width_max(5), None);
    assert_eq!(fill_width_max(6), Some(0));
}
