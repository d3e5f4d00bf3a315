use sysfetch::bar::{bar_cells, band_hue, compute_filled_length, memory_usage_bar, render_bar, Cell};
use sysfetch::paint::Hue;

/// The text with every `ESC [ ... m` sequence taken out.
fn visible(s: &str) -> String {
    let mut out = String::new();
    let mut chars = s.chars();
    while let Some(c) = chars.next() {
        if c == '\x1b' {
            for d in chars.by_ref() {
                if d == 'm' {
                    break;
                }
            }
        } else {
            out.push(c);
        }
    }
    out
}

fn filled(cells: &[Cell]) -> usize {
    cells.iter().filter(|c| matches!(c, Cell::Filled(_))).count()
}

#[test]
fn bar_width_and_fill_follow_ratio() {
    for total in 1..=40u64 {
        for used in 0..=total {
            let len: usize = 30;
            let bar = memory_usage_bar(used, total, len);
            let shown = visible(&bar);
            assert_eq!(shown.chars().count(), len);
            let expected = ((used as f64 / total as f64) * len as f64).round() as usize;
            assert_eq!(shown.chars().filter(|c| *c == '\u{2588}').count(), expected);
            assert_eq!(filled(&bar_cells(used, total, len)), expected);
        }
    }
}

#[test]
fn bar_full_when_all_used() {
    let bar = memory_usage_bar(16000, 16000, 30);
    assert_eq!(visible(&bar), "\u{2588}".repeat(30));
    assert!(bar_cells(7, 7, 13).iter().all(|c| matches!(c, Cell::Filled(_))));
}

#[test]
fn bar_empty_when_nothing_used() {
    assert_eq!(visible(&memory_usage_bar(0, 16000, 30)), " ".repeat(30));
    assert!(bar_cells(0, 9, 11).iter().all(|c| *c == Cell::Empty));
}

#[test]
fn bar_zero_total_is_empty() {
    assert_eq!(visible(&memory_usage_bar(5, 0, 30)), " ".repeat(30));
}

#[test]
fn bar_saturates_above_total() {
    assert_eq!(visible(&memory_usage_bar(50, 10, 30)), "\u{2588}".repeat(30));
}

#[test]
fn bar_zero_length() {
    assert_eq!(memory_usage_bar(3, 4, 0), "");
}

#[test]
fn bar_half_rounds_up() {
    // 1 of 4 with 30 cells is 7.5 cells.
    assert_eq!(compute_filled_length(1, 4, 30), 8);
    assert_eq!(compute_filled_length(1, 3, 30), 10);
    assert_eq!(compute_filled_length(2, 3, 30), 20);
    assert_eq!(compute_filled_length(1, 0, 30), 0);
    assert_eq!(compute_filled_length(u64::MAX, u64::MAX, usize::MAX), usize::MAX as u128);
}

#[test]
fn bar_bands_by_tenth() {
    let cells = bar_cells(30, 30, 30);
    let hues = [
        Hue::Green,
        Hue::BrightGreen,
        Hue::BrightYellow,
        Hue::Yellow,
        Hue::BrightMagenta,
        Hue::Magenta,
        Hue::BrightRed,
        Hue::Red,
        Hue::BrightBlack,
        Hue::Black,
    ];
    for (i, c) in cells.iter().enumerate() {
        assert_eq!(*c, Cell::Filled(hues[i / 3]));
    }
    for (b, h) in hues.iter().enumerate() {
        assert_eq!(band_hue(b), *h);
    }
    let cells = bar_cells(7, 7, 7);
    let bands: Vec<Hue> = cells
        .iter()
        .map(|c| match c {
            Cell::Filled(h) => *h,
            Cell::Empty => panic!("empty cell"),
        })
        .collect();
    assert_eq!(
        bands,
        vec![
            Hue::Green,
            Hue::BrightGreen,
            Hue::BrightYellow,
            Hue::BrightMagenta,
            Hue::Magenta,
            Hue::Red,
            Hue::BrightBlack
        ]
    );
}

#[test]
fn render_paints_glyphs() {
    let cells = vec![Cell::Filled(Hue::Green), Cell::Empty, Cell::Filled(Hue::Black)];
    let text = render_bar(&cells);
    assert_eq!(visible(&text), "\u{2588} \u{2588}");
    assert!(
        text == "\u{2588} \u{2588}" || text == "\x1b[32m\u{2588}\x1b[0m \x1b[30m\u{2588}\x1b[0m"
    );
}

#[test]
fn render_with_colors_forced_on() {
    colored::control::set_override(true);
    let cells = vec![Cell::Filled(Hue::Green), Cell::Empty, Cell::Filled(Hue::BrightBlack)];
    assert_eq!(render_bar(&cells), "\x1b[32m\u{2588}\x1b[0m \x1b[90m\u{2588}\x1b[0m");
    assert_eq!(
        memory_usage_bar(1, 1, 2),
        "\x1b[32m\u{2588}\x1b[0m\x1b[35m\u{2588}\x1b[0m"
    );
}

#[test]
fn render_with_colors_forced_off() {
    colored::control::set_override(false);
    let cells = vec![Cell::Filled(Hue::Red), Cell::Empty];
    assert_eq!(render_bar(&cells), "\u{2588} ");
}
