//! The memory usage bar: a row of cells, filled from the left in proportion
//! to the share in use, each filled cell colored by its position.
use crate::paint::{ansi_wrap, paint, shows, Hue};
use vstd::prelude::*;

verus! {

/// One position of a bar.
#[derive(Clone, Copy, Debug, PartialEq, Eq, Structural)]
pub enum Cell {
    Filled(Hue),
    Empty,
}

/// The number of filled cells: `used / total * len` rounded to the nearest
/// integer, halves upward; zero when `total` is zero.
pub open spec fn filled_length(used: nat, total: nat, len: nat) -> nat {
    if total == 0 {
        0
    } else {
        ((2 * used * len + total) / (2 * total)) as nat
    }
}

/// The color band of position `i` in a bar of `len` cells: the number of
/// tenths that `i / len` has reached.
pub open spec fn band_of(i: int, len: int) -> int {
    (10 * i) / len
}

/// The colors of the ten bands, from the left end of the bar to the right.
pub open spec fn band_hues() -> Seq<Hue> {
    seq![
        Hue::Green,
        Hue::BrightGreen,
        Hue::BrightYellow,
        Hue::Yellow,
        Hue::BrightMagenta,
        Hue::Magenta,
        Hue::BrightRed,
        Hue::Red,
        Hue::BrightBlack,
        Hue::Black,
    ]
}

/// Cell `i` of the bar for `used` of `total` with `len` cells.
pub open spec fn cell_at(used: nat, total: nat, len: nat, i: int) -> Cell {
    if i < filled_length(used, total, len) {
        Cell::Filled(band_hues()[band_of(i, len as int)])
    } else {
        Cell::Empty
    }
}

/// The cells of the bar for `used` of `total` with `len` cells.
pub open spec fn bar_model(used: nat, total: nat, len: nat) -> Seq<Cell> {
    Seq::new(len, |i: int| cell_at(used, total, len, i))
}

/// The color of band `b`, for `b` in `0..10`.
pub fn band_hue(b: usize) -> (h: Hue)
    requires
        b < 10,
    ensures
        h == band_hues()[b as int],
{
    match b {
        0 => Hue::Green,
        1 => Hue::BrightGreen,
        2 => Hue::BrightYellow,
        3 => Hue::Yellow,
        4 => Hue::BrightMagenta,
        5 => Hue::Magenta,
        6 => Hue::BrightRed,
        7 => Hue::Red,
        8 => Hue::BrightBlack,
        _ => Hue::Black,
    }
}

/// The number of filled cells for `used` of `total` with `len` cells.
pub fn compute_filled_length(used: u64, total: u64, len: usize) -> (r: u128)
    ensures
        r == filled_length(used as nat, total as nat, len as nat),
{
    if total == 0 {
        return 0;
    }
    let t = total as u128;
    assert((used as u128) * (len as u128) <= 0xffff_ffff_ffff_ffffu128 * 0xffff_ffff_ffff_ffffu128)
        by (nonlinear_arith);
    let product = (used as u128) * (len as u128);
    let q = product / t;
    let rem = product % t;
    let up: u128 = if 2 * rem >= t {
        1
    } else {
        0
    };
    proof {
        let p = product as int;
        let ti = t as int;
        vstd::arithmetic::div_mod::lemma_fundamental_div_mod(p, ti);
        assert(p == ti * q + rem);
        assert(2 * p + ti == (2 * ti) * q + (2 * rem + ti)) by (nonlinear_arith)
            requires
                p == ti * q + rem,
        ;
        assert(0 <= 2 * rem + ti - (2 * ti) * up < 2 * ti);
        assert(2 * p + ti == (2 * ti) * (q + up) + (2 * rem + ti - (2 * ti) * up)) by (nonlinear_arith)
            requires
                2 * p + ti == (2 * ti) * q + (2 * rem + ti),
        ;
        assert((2 * p + ti) / (2 * ti) == q + up) by (nonlinear_arith)
            requires
                2 * p + ti == (2 * ti) * (q + up) + (2 * rem + ti - (2 * ti) * up),
                0 <= 2 * rem + ti - (2 * ti) * up < 2 * ti,
                ti > 0,
        {
            vstd::arithmetic::div_mod::lemma_fundamental_div_mod_converse(
                2 * p + ti,
                2 * ti,
                q + up,
                2 * rem + ti - (2 * ti) * up,
            );
        }
        assert(2 * used * len == 2 * p) by (nonlinear_arith)
            requires
                p == used * len,
        ;
    }
    q + up
}

/// The cells of the bar for `used_mb` of `total_mb` with `bar_length` cells.
pub fn bar_cells(used_mb: u64, total_mb: u64, bar_length: usize) -> (r: Vec<Cell>)
    ensures
        r@ == bar_model(used_mb as nat, total_mb as nat, bar_length as nat),
{
    let filled = compute_filled_length(used_mb, total_mb, bar_length);
    let mut cells: Vec<Cell> = Vec::new();
    let mut i: usize = 0;
    while i < bar_length
        invariant
            i <= bar_length,
            filled == filled_length(used_mb as nat, total_mb as nat, bar_length as nat),
            cells@ == bar_model(used_mb as nat, total_mb as nat, bar_length as nat).take(i as int),
        decreases bar_length - i,
    {
        if (i as u128) < filled {
            let band = (10 * (i as u128)) / (bar_length as u128);
            proof {
                let x = 10 * i as int;
                let l = bar_length as int;
                vstd::arithmetic::div_mod::lemma_fundamental_div_mod(x, l);
                vstd::arithmetic::div_mod::lemma_mod_bound(x, l);
                assert(x / l < 10) by (nonlinear_arith)
                    requires
                        x == l * (x / l) + x % l,
                        0 <= x % l,
                        x < 10 * l,
                        l > 0,
                ;
            }
            cells.push(Cell::Filled(band_hue(band as usize)));
        } else {
            cells.push(Cell::Empty);
        }
        i = i + 1;
        assert(cells@ =~= bar_model(used_mb as nat, total_mb as nat, bar_length as nat).take(i as int));
    }
    assert(cells@ =~= bar_model(used_mb as nat, total_mb as nat, bar_length as nat));
    cells
}

/// `t` shows cell `c`: a space when empty, else the block glyph in the cell's hue.
pub open spec fn cell_shows(c: Cell, t: Seq<char>) -> bool {
    match c {
        Cell::Empty => t == seq![' '],
        Cell::Filled(h) => shows(t, seq!['\u{2588}'], h),
    }
}

/// The pieces of `p` joined in order.
pub open spec fn concat(p: Seq<Seq<char>>) -> Seq<char>
    decreases p.len(),
{
    if p.len() == 0 {
        Seq::empty()
    } else {
        concat(p.drop_last()) + p.last()
    }
}

/// `s` is the text of `cells`: one piece per cell, in order, each showing its cell.
pub open spec fn bar_shows(cells: Seq<Cell>, s: Seq<char>) -> bool {
    exists|p: Seq<Seq<char>>|
        p.len() == cells.len() && (forall|i: int| 0 <= i < p.len() ==> cell_shows(cells[i], #[trigger] p[i]))
            && s == #[trigger] concat(p)
}

/// Renders cells as text: a space for an empty cell, the block glyph in its
/// hue for a filled one.
pub fn render_bar(cells: &Vec<Cell>) -> (r: String)
    ensures
        bar_shows(cells@, r@),
{
    let mut s = String::new();
    let ghost mut pieces: Seq<Seq<char>> = Seq::empty();
    let mut i: usize = 0;
    while i < cells.len()
        invariant
            i <= cells@.len(),
            pieces.len() == i,
            forall|j: int| 0 <= j < i ==> cell_shows(cells@[j], #[trigger] pieces[j]),
            s@ == concat(pieces),
        decreases cells@.len() - i,
    {
        let piece = match cells[i] {
            Cell::Filled(h) => {
                let glyph = "\u{2588}";
                proof {
                    reveal_strlit("\u{2588}");
                }
                assert(glyph@ == seq!['\u{2588}']);
                assert(!glyph@.contains('\x1b'));
                let t = paint(glyph, h);
                assert(cell_shows(cells@[i as int], t@));
                t
            },
            Cell::Empty => {
                proof {
                    reveal_strlit(" ");
                }
                let t = String::from_str(" ");
                assert(t@ =~= seq![' ']);
                assert(cell_shows(cells@[i as int], t@));
                t
            },
        };
        assert(cell_shows(cells@[i as int], piece@));
        s.append(piece.as_str());
        proof {
            let old_pieces = pieces;
            pieces = pieces.push(piece@);
            assert(pieces.drop_last() =~= old_pieces);
        }
        i = i + 1;
    }
    assert(bar_shows(cells@, s@));
    s
}

/// The usage bar for `used_mb` of `total_mb` megabytes with `bar_length` cells.
/// A total of zero leaves the bar empty; a used amount above the total fills it.
pub fn memory_usage_bar(used_mb: u64, total_mb: u64, bar_length: usize) -> (r: String)
    ensures
        bar_shows(bar_model(used_mb as nat, total_mb as nat, bar_length as nat), r@),
{
    let cells = bar_cells(used_mb, total_mb, bar_length);
    render_bar(&cells)
}

/// The number of filled cells in `s`.
pub open spec fn count_filled(s: Seq<Cell>) -> nat
    decreases s.len(),
{
    if s.len() == 0 {
        0
    } else {
        count_filled(s.drop_last()) + if s.last() is Filled {
            1nat
        } else {
            0nat
        }
    }
}

proof fn lemma_filled_at_most_len(used: nat, total: nat, len: nat)
    requires
        total > 0,
        used <= total,
    ensures
        filled_length(used, total, len) <= len,
{
    let a = 2 * used * len + total;
    let b = 2 * total;
    assert(a < b * (len + 1)) by (nonlinear_arith)
        requires
            a == 2 * used * len + total,
            b == 2 * total,
            used <= total,
            total > 0,
    ;
    vstd::arithmetic::div_mod::lemma_div_by_multiple_is_strongly_ordered(
        a as int, b * (len + 1) as int, (len + 1) as int, b as int);
    assert(b * (len + 1) == (len + 1) * b) by (nonlinear_arith);
    vstd::arithmetic::div_mod::lemma_div_by_multiple(((len + 1) as int), b as int);
}

proof fn lemma_count_prefix(used: nat, total: nat, len: nat, k: nat)
    requires
        k <= len,
    ensures
        count_filled(bar_model(used, total, len).take(k as int)) == if k <= filled_length(
            used,
            total,
            len,
        ) {
            k
        } else {
            filled_length(used, total, len)
        },
    decreases k,
{
    let m = bar_model(used, total, len);
    if k > 0 {
        lemma_count_prefix(used, total, len, (k - 1) as nat);
        assert(m.take(k as int).drop_last() =~= m.take(k - 1));
    } else {
        assert(m.take(0) =~= Seq::<Cell>::empty());
    }
}

/// For a total above zero and a used amount not above it, the bar has one
/// cell per position, and the number of filled cells is `used / total * len`
/// rounded to the nearest integer: it lies within one half of that ratio.
pub proof fn lemma_bar_fill(used: nat, total: nat, len: nat)
    requires
        total > 0,
        used <= total,
    ensures
        bar_model(used, total, len).len() == len,
        count_filled(bar_model(used, total, len)) == filled_length(used, total, len),
        2 * total * filled_length(used, total, len) <= 2 * used * len + total,
        2 * used * len + total < 2 * total * (filled_length(used, total, len) + 1),
{
    let f = filled_length(used, total, len);
    let m = bar_model(used, total, len);
    lemma_filled_at_most_len(used, total, len);
    lemma_count_prefix(used, total, len, len);
    assert(m.take(len as int) =~= m);
    let a = (2 * used * len + total) as int;
    let b = (2 * total) as int;
    vstd::arithmetic::div_mod::lemma_fundamental_div_mod(a, b);
    vstd::arithmetic::div_mod::lemma_mod_bound(a, b);
    assert(f == a / b);
    assert(b * f <= a < b * (f + 1)) by (nonlinear_arith)
        requires
            a == b * (a / b) + a % b,
            0 <= a % b < b,
            f == a / b,
    ;
}

/// When the whole total is in use (and the total is above zero), every cell
/// of the bar is filled.
pub proof fn lemma_full_bar(total: nat, len: nat)
    requires
        total > 0,
    ensures
        forall|i: int| 0 <= i < len ==> #[trigger] bar_model(total, total, len)[i] is Filled,
{
    let a = (2 * total * len + total) as int;
    let b = (2 * total) as int;
    assert(a == len * b + total) by (nonlinear_arith)
        requires
            a == 2 * total * len + total,
            b == 2 * total,
    ;
    vstd::arithmetic::div_mod::lemma_fundamental_div_mod_converse(a, b, len as int, total as int);
    assert(filled_length(total, total, len) == len);
}

/// When nothing is in use, no cell of the bar is filled.
pub proof fn lemma_empty_bar(total: nat, len: nat)
    ensures
        forall|i: int| 0 <= i < len ==> #[trigger] bar_model(0, total, len)[i] == Cell::Empty,
{
    assert(2 * 0 * len + total == total) by (nonlinear_arith);
    if total > 0 {
        let b = (2 * total) as int;
        vstd::arithmetic::div_mod::lemma_fundamental_div_mod_converse(total as int, b, 0, total as int);
    }
    assert(filled_length(0, total, len) == 0);
}

} // verus!
