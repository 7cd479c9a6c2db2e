//! A row of coloured cells drawn with as few colour changes as possible: a
//! colour is set only where it differs from the one in force, and reset
//! where colour gives way to a blank.

use vstd::prelude::*;

verus! {

/// What to tell the terminal before printing a cell.
#[derive(Clone, Copy, Debug, PartialEq, Eq, Structural)]
pub enum Pen {
    /// Nothing: the colour in force is the cell's.
    Keep,
    /// Set the foreground to this colour.
    Fg(u8, u8, u8),
    /// Back to the default colours.
    Reset,
}

/// What comes before a cell of colour `rgb` when the colour in force is
/// `cur`.
pub open spec fn pen(rgb: Option<(u8, u8, u8)>, cur: Option<(u8, u8, u8)>) -> Pen {
    match rgb {
        Some(c) => if cur != Some(c) {
            Pen::Fg(c.0, c.1, c.2)
        } else {
            Pen::Keep
        },
        None => if cur is Some {
            Pen::Reset
        } else {
            Pen::Keep
        },
    }
}

/// The colour in force before cell `i` of a row that starts from the
/// default colours: that of the cell before it.
pub open spec fn in_force(row: Seq<(char, Option<(u8, u8, u8)>)>, i: int) -> Option<(u8, u8, u8)> {
    if i == 0 {
        None
    } else {
        row[i - 1].1
    }
}

/// What to tell the terminal before each cell of a row, the row being drawn
/// from the default colours (and followed by a reset).
pub fn paint_row(row: &Vec<(char, Option<(u8, u8, u8)>)>) -> (out: Vec<Pen>)
    ensures
        out@.len() == row@.len(),
        forall|i: int| 0 <= i < row@.len() ==> #[trigger] out@[i] == pen(row@[i].1, in_force(row@, i)),
        forall|i: int| 0 <= i < row@.len() ==> #[trigger] colour_after(out@, i + 1) == row@[i].1,
{
    let mut out: Vec<Pen> = Vec::new();
    let mut cur: Option<(u8, u8, u8)> = None;
    let mut i: usize = 0;
    while i < row.len()
        invariant
            i <= row@.len(),
            out@.len() == i,
            cur == in_force(row@, i as int),
            forall|j: int| 0 <= j < i ==> #[trigger] out@[j] == pen(row@[j].1, in_force(row@, j)),
        decreases row@.len() - i,
    {
        let rgb = row[i].1;
        let p = match rgb {
            Some(c) => {
                let same = match cur {
                    Some(d) => d.0 == c.0 && d.1 == c.1 && d.2 == c.2,
                    None => false,
                };
                if same { Pen::Keep } else { Pen::Fg(c.0, c.1, c.2) }
            },
            None => if cur.is_some() { Pen::Reset } else { Pen::Keep },
        };
        out.push(p);
        cur = rgb;
        i = i + 1;
    }
    proof {
        assert(pens_for(row@, out@));
        assert forall|i: int| 0 <= i < row@.len() implies #[trigger] colour_after(out@, i + 1)
            == row@[i].1 by {
            lemma_pens_draw_each_cell_in_its_colour(row@, out@, i);
        }
    }
    out
}

/// A colour is set before a cell exactly when the cell is coloured and its
/// colour differs from the one in force; a reset comes exactly where a blank
/// follows a coloured cell.
pub proof fn lemma_pens_mark_changes(row: Seq<(char, Option<(u8, u8, u8)>)>, i: int)
    requires
        0 <= i < row.len(),
    ensures
        (pen(row[i].1, in_force(row, i)) is Fg) <==> (row[i].1 is Some && row[i].1
            != in_force(row, i)),
        (pen(row[i].1, in_force(row, i)) is Reset) <==> (row[i].1 is None && in_force(row, i)
            is Some),
        pen(row[i].1, in_force(row, i)) matches Pen::Fg(r, g, b) ==> row[i].1 == Some((r, g, b)),
{
}

/// The colour the terminal is left in after `p`, from colour `cur`.
pub open spec fn apply(p: Pen, cur: Option<(u8, u8, u8)>) -> Option<(u8, u8, u8)> {
    match p {
        Pen::Keep => cur,
        Pen::Fg(r, g, b) => Some((r, g, b)),
        Pen::Reset => None,
    }
}

/// The colour in force after the first `n` pens, starting from the default.
pub open spec fn colour_after(pens: Seq<Pen>, n: int) -> Option<(u8, u8, u8)>
    decreases n,
{
    if n <= 0 {
        None
    } else {
        apply(pens[n - 1], colour_after(pens, n - 1))
    }
}

/// Whether `pens` are the ones `paint_row` gives for `row`.
pub open spec fn pens_for(row: Seq<(char, Option<(u8, u8, u8)>)>, pens: Seq<Pen>) -> bool {
    &&& pens.len() == row.len()
    &&& forall|i: int| 0 <= i < row.len() ==> #[trigger] pens[i] == pen(row[i].1, in_force(row, i))
}

/// Drawing a row with its pens prints every cell in its own colour: after
/// the pens of the first `n + 1` cells, the colour in force is cell `n`'s
/// (the default for a blank cell). And a pen is given only where the colour
/// changes: a colour only before a coloured cell whose left neighbour is
/// not of that colour, a reset only before a blank cell after a coloured
/// one, nothing otherwise.
pub proof fn lemma_pens_draw_each_cell_in_its_colour(
    row: Seq<(char, Option<(u8, u8, u8)>)>,
    pens: Seq<Pen>,
    n: int,
)
    requires
        pens_for(row, pens),
        0 <= n < row.len(),
    ensures
        colour_after(pens, n + 1) == row[n].1,
        pens[n] == (match row[n].1 {
            Some(c) => if n > 0 && row[n - 1].1 == Some(c) {
                Pen::Keep
            } else {
                Pen::Fg(c.0, c.1, c.2)
            },
            None => if n > 0 && row[n - 1].1 is Some {
                Pen::Reset
            } else {
                Pen::Keep
            },
        }),
    decreases n,
{
    assert(pens[n] == pen(row[n].1, in_force(row, n)));
    if n > 0 {
        lemma_pens_draw_each_cell_in_its_colour(row, pens, n - 1);
        assert(colour_after(pens, n) == row[n - 1].1);
    } else {
        assert(colour_after(pens, 0) == None::<(u8, u8, u8)>);
    }
}

} // verus!
