//! How the screen is shared out: the rows left for the picture, the keys
//! line at the bottom, and the bands of rows handed to the worker threads.

use vstd::prelude::*;
use crate::view::{View, knob_title};
#[allow(unused_imports)]
use vstd::view::View as _;

verus! {

/// The rows of a terminal left for the picture: all but the header, the
/// status line and the keys line, and never fewer than one.
pub open spec fn plot_height(rows: int) -> int {
    if rows - 3 > 1 { rows - 3 } else { 1 }
}

/// The rows of a `rows`-high terminal that the picture gets.
pub fn plot_rows(rows: u16) -> (r: u16)
    ensures
        r == plot_height(rows as int),
        1 <= r <= if rows > 1 { rows } else { 1 },
{
    let left = if rows > 3 { rows - 3 } else { 0 };
    if left > 1 { left } else { 1 }
}

/// Terminals narrower than this get the short keys line.
pub const WIDE: u16 = 130;

/// The keys line at the foot of the screen: a short one on a narrow
/// terminal, a long one on a wide terminal, both naming this view's knob.
pub open spec fn keys_line(cols: u16, view: View) -> Seq<char> {
    if cols < WIDE {
        "←↓↑→ pan · +/- zoom · 1-5 view · J julia · [ ] "@ + knob_title(view) + " · ? help · q"@
    } else {
        "←↓↑→ pan · +/- zoom · 0 reset · 1-5 view · Tab next · J julia here · [ ] "@
            + knob_title(view) + " · p project · e save · c ask · ? help · q"@
    }
}

/// The keys line for a terminal `cols` wide, showing `view`.
pub fn keys_text(cols: u16, view: View) -> (s: String)
    ensures
        s@ == keys_line(cols, view),
{
    if cols < WIDE {
        let mut s = String::from_str("←↓↑→ pan · +/- zoom · 1-5 view · J julia · [ ] ");
        s.append(view.knob());
        s.append(" · ? help · q");
        s
    } else {
        let mut s = String::from_str(
            "←↓↑→ pan · +/- zoom · 0 reset · 1-5 view · Tab next · J julia here · [ ] ",
        );
        s.append(view.knob());
        s.append(" · p project · e save · c ask · ? help · q");
        s
    }
}

/// The height of each band of rows when a field `h` rows high is shared
/// among `cores` threads: as many threads as cores, but at least one and no
/// more than there are rows, each taking the rows rounded up.
pub open spec fn band_height(h: int, cores: int) -> int {
    let most = if h > 1 { h } else { 1 };
    let threads = if cores < 1 { 1 } else if cores > most { most } else { cores };
    (h + threads - 1) / threads
}

/// The rows each thread takes.
pub fn band_rows(h: usize, cores: usize) -> (band: usize)
    ensures
        band == band_height(h as int, cores as int),
        h > 0 ==> band > 0,
        band <= h,
{
    let most = if h > 1 { h } else { 1 };
    let threads = if cores < 1 { 1 } else if cores > most { most } else { cores };
    let q = h / threads;
    proof {
        if h % threads != 0 {
            assert(q < h) by (nonlinear_arith)
                requires
                    threads >= 1,
                    h % threads != 0,
                    q == h / threads,
            ;
        }
    }
    let band = if h % threads == 0 { q } else { q + 1 };
    proof {
        assert(band == (h + threads - 1) / (threads as int)) by (nonlinear_arith)
            requires
                threads >= 1,
                q == h / threads,
                band == if h % threads == 0 { q as int } else { q + 1 },
        ;
        assert(band <= h) by (nonlinear_arith)
            requires
                threads >= 1,
                threads <= most,
                most == if h > 1 { h } else { 1 },
                band == (h + threads - 1) / (threads as int),
        ;
        assert(h > 0 ==> band > 0) by (nonlinear_arith)
            requires
                threads >= 1,
                band == (h + threads - 1) / (threads as int),
        ;
    }
    band
}

/// The sub-pixel that the `i`-th value of band `b` stands for, on a field
/// `w` wide cut into bands of `band` rows.
pub fn band_point(w: usize, band: usize, b: usize, i: usize) -> (p: (usize, usize))
    requires
        w > 0,
        b * band + i / w <= usize::MAX,
    ensures
        p == ((i % w) as usize, (b * band + i / w) as usize),
{
    (i % w, b * band + i / w)
}

/// Cutting the field's values into chunks of `w * band` and walking each
/// chunk gives every value its own point: the `i`-th value of chunk `b` is
/// the one kept for the point `band_point` names.
pub proof fn lemma_bands_cover(w: int, band: int, b: int, i: int)
    requires
        w > 0,
        band > 0,
        b >= 0,
        0 <= i < w * band,
    ensures
        ({
            let x = i % w;
            let y = b * band + i / w;
            &&& 0 <= x < w
            &&& b * band <= y < (b + 1) * band
            &&& y * w + x == b * (w * band) + i
        }),
{
    let x = i % w;
    let q = i / w;
    assert(i == q * w + x && 0 <= x < w) by (nonlinear_arith)
        requires
            w > 0,
            x == i % w,
            q == i / w,
    ;
    assert(0 <= q < band) by (nonlinear_arith)
        requires
            w > 0,
            0 <= i < w * band,
            i == q * w + x,
            0 <= x < w,
    ;
    assert((b * band + q) * w + x == b * (w * band) + i) by (nonlinear_arith)
        requires
            i == q * w + x,
    ;
    assert((b + 1) * band == b * band + band) by (nonlinear_arith);
}

} // verus!
