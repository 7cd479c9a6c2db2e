//! Braille cells: a cell is 2×4 dots, each dot one bit of the character
//! U+2800 + bits. Rows 0-2 use bits 0,1,2 (left) and 3,4,5 (right); the
//! bottom row uses bits 6 and 7.

use vstd::prelude::*;

verus! {

/// The bit that lights the dot in column `dx` and row `dy` of a cell.
pub open spec fn dot(dx: int, dy: int) -> u8 {
    if dy == 0 {
        if dx == 0 { 0x01 } else { 0x08 }
    } else if dy == 1 {
        if dx == 0 { 0x02 } else { 0x10 }
    } else if dy == 2 {
        if dx == 0 { 0x04 } else { 0x20 }
    } else {
        if dx == 0 { 0x40 } else { 0x80 }
    }
}

/// Whether the sub-pixel at (`x`, `y`) of a `w`×`h` field, laid out row by
/// row in `lit`, is lit. Sub-pixels past the edge are dark.
pub open spec fn lit_at(lit: Seq<bool>, w: int, h: int, x: int, y: int) -> bool {
    0 <= x < w && 0 <= y < h && lit[y * w + x]
}

/// Whether the dot in column `dx` and row `dy` of cell (`cx`, `cy`) is lit.
pub open spec fn dot_lit(lit: Seq<bool>, w: int, h: int, cx: int, cy: int, dx: int, dy: int) -> bool {
    lit_at(lit, w, h, cx * 2 + dx, cy * 4 + dy)
}

/// The bit that the `k`-th dot of cell (`cx`, `cy`) adds, dots taken row by
/// row and left to right within a row.
pub open spec fn dot_term(lit: Seq<bool>, w: int, h: int, cx: int, cy: int, k: int) -> u8 {
    if lit_at(lit, w, h, cx * 2 + k % 2, cy * 4 + k / 2) {
        dot(k % 2, k / 2)
    } else {
        0
    }
}

/// The bits of the first `k` dots of cell (`cx`, `cy`).
pub open spec fn partial_mask(lit: Seq<bool>, w: int, h: int, cx: int, cy: int, k: int) -> u8
    decreases k,
{
    if k <= 0 {
        0
    } else {
        partial_mask(lit, w, h, cx, cy, k - 1) | dot_term(lit, w, h, cx, cy, k - 1)
    }
}

/// The bits of all eight dots of cell (`cx`, `cy`).
pub open spec fn mask_of(lit: Seq<bool>, w: int, h: int, cx: int, cy: int) -> u8 {
    partial_mask(lit, w, h, cx, cy, 8)
}

/// Whether `c` is the character that shows a cell with dot bits `m`: a
/// blank for no dots, else the braille pattern U+2800 + `m`.
pub open spec fn shows(c: char, m: u8) -> bool {
    if m == 0 {
        c == ' '
    } else {
        c as u32 == 0x2800 + m
    }
}

/// Whether `i` is a Unicode scalar value.
pub open spec fn is_scalar(i: u32) -> bool {
    i <= 0x10FFFF && !(0xD800 <= i <= 0xDFFF)
}

/// `char::from_u32`: as documented, `Some` of the character with that code
/// exactly when `i` is a Unicode scalar value, else `None`.
#[verifier::external_body]
fn char_from_u32(i: u32) -> (r: Option<char>)
    ensures
        r is Some <==> is_scalar(i),
        r matches Some(c) ==> c as u32 == i,
{
    char::from_u32(i)
}

/// The bit of the dot in column `dx` and row `dy` of a cell.
pub fn dot_bit(dx: usize, dy: usize) -> (b: u8)
    requires
        dx < 2,
        dy < 4,
    ensures
        b == dot(dx as int, dy as int),
{
    if dy == 0 {
        if dx == 0 { 0x01 } else { 0x08 }
    } else if dy == 1 {
        if dx == 0 { 0x02 } else { 0x10 }
    } else if dy == 2 {
        if dx == 0 { 0x04 } else { 0x20 }
    } else {
        if dx == 0 { 0x40 } else { 0x80 }
    }
}

/// The sub-pixels across and down of a field behind `cols`×`rows` cells:
/// two across and four down per cell.
pub fn field_size(cols: usize, rows: usize) -> (r: (usize, usize))
    requires
        cols * 2 <= usize::MAX,
        rows * 4 <= usize::MAX,
        cols * 2 * rows * 4 <= usize::MAX,
    ensures
        r.0 == cols * 2,
        r.1 == rows * 4,
        r.0 * r.1 <= usize::MAX,
{
    proof {
        assert((cols * 2) * (rows * 4) == cols * 2 * rows * 4) by (nonlinear_arith);
    }
    (cols * 2, rows * 4)
}

/// Where sub-pixel (`x`, `y`) of a `w`×`h` field is kept, if it lies on the
/// field.
pub fn index(w: usize, h: usize, x: usize, y: usize) -> (r: Option<usize>)
    requires
        w * h <= usize::MAX,
    ensures
        r is Some <==> x < w && y < h,
        r matches Some(i) ==> i == y * w + x && i < w * h,
{
    if x < w && y < h {
        proof {
            assert(y * w + x < w * h) by (nonlinear_arith)
                requires
                    x < w,
                    y < h,
            ;
        }
        Some(y * w + x)
    } else {
        None
    }
}

/// Where the sub-pixel at signed coordinates (`x`, `y`) is kept, if it lies
/// on the `w`×`h` field; a point off the edge has no place.
pub fn slot(w: usize, h: usize, x: i64, y: i64) -> (r: Option<usize>)
    requires
        w * h <= usize::MAX,
    ensures
        r is Some <==> 0 <= x < w && 0 <= y < h,
        r matches Some(i) ==> i == y * w + x && i < w * h,
{
    if x < 0 || y < 0 {
        return None;
    }
    if (x as u64) >= (w as u64) || (y as u64) >= (h as u64) {
        return None;
    }
    index(w, h, x as usize, y as usize)
}

/// The character that shows a cell with dot bits `m`.
pub fn glyph(m: u8) -> (c: char)
    ensures
        shows(c, m),
{
    if m == 0 {
        ' '
    } else {
        match char_from_u32(0x2800 + m as u32) {
            Some(c) => c,
            None => ' ',
        }
    }
}

/// The bits of the dots of cell (`cx`, `cy`) that are lit.
pub fn cell_mask(lit: &Vec<bool>, w: usize, h: usize, cx: usize, cy: usize) -> (m: u8)
    requires
        lit@.len() >= w * h,
        cx * 2 + 1 <= usize::MAX,
        cy * 4 + 3 <= usize::MAX,
    ensures
        m == mask_of(lit@, w as int, h as int, cx as int, cy as int),
{
    let ghost s = lit@;
    assert(w * h <= usize::MAX) by {
        assert(lit@.len() == lit.len());
    }
    let mut bits: u8 = 0;
    let mut dy: usize = 0;
    while dy < 4
        invariant
            s == lit@,
            s.len() >= w * h,
            w * h <= usize::MAX,
            cx * 2 + 1 <= usize::MAX,
            cy * 4 + 3 <= usize::MAX,
            dy <= 4,
            bits == partial_mask(s, w as int, h as int, cx as int, cy as int, 2 * dy),
        decreases 4 - dy,
    {
        let mut dx: usize = 0;
        while dx < 2
            invariant
                s == lit@,
                s.len() >= w * h,
                w * h <= usize::MAX,
                cx * 2 + 1 <= usize::MAX,
                cy * 4 + 3 <= usize::MAX,
                dy < 4,
                dx <= 2,
                bits == partial_mask(s, w as int, h as int, cx as int, cy as int, 2 * dy + dx),
            decreases 2 - dx,
        {
            let x = cx * 2 + dx;
            let y = cy * 4 + dy;
            let on = match index(w, h, x, y) {
                Some(i) => lit[i],
                None => false,
            };
            let ghost k: int = 2 * dy + dx;
            assert(k % 2 == dx && k / 2 == dy);
            assert(on == lit_at(s, w as int, h as int, x as int, y as int));
            assert(partial_mask(s, w as int, h as int, cx as int, cy as int, k + 1)
                == partial_mask(s, w as int, h as int, cx as int, cy as int, k)
                | dot_term(s, w as int, h as int, cx as int, cy as int, k));
            if on {
                bits = bits | dot_bit(dx, dy);
            } else {
                assert(bits | 0u8 == bits) by (bit_vector);
            }
            dx = dx + 1;
        }
        dy = dy + 1;
    }
    bits
}

/// The eight dots, or-ed in the order a cell is walked, keep one bit each.
proof fn lemma_dots_separate(
    l0: bool,
    l1: bool,
    l2: bool,
    l3: bool,
    l4: bool,
    l5: bool,
    l6: bool,
    l7: bool,
    m: u8,
)
    by (bit_vector)
    requires
        m == (((((((0u8 | (if l0 { 1u8 } else { 0u8 })) | (if l1 { 8u8 } else { 0u8 })) | (if l2 {
            2u8
        } else {
            0u8
        })) | (if l3 { 16u8 } else { 0u8 })) | (if l4 { 4u8 } else { 0u8 })) | (if l5 {
            32u8
        } else {
            0u8
        })) | (if l6 { 64u8 } else { 0u8 })) | (if l7 { 128u8 } else { 0u8 }),
    ensures
        (m & 1u8 != 0u8) == l0,
        (m & 8u8 != 0u8) == l1,
        (m & 2u8 != 0u8) == l2,
        (m & 16u8 != 0u8) == l3,
        (m & 4u8 != 0u8) == l4,
        (m & 32u8 != 0u8) == l5,
        (m & 64u8 != 0u8) == l6,
        (m & 128u8 != 0u8) == l7,
        (l0 && l1 && l2 && l3 && l4 && l5 && l6 && l7) ==> m == 0xFFu8,
        (!l0 && !l1 && !l2 && !l3 && !l4 && !l5 && !l6 && !l7) ==> m == 0u8,
{
}

/// The bits of a cell say exactly which of its dots are lit: the dot in
/// column `dx` and row `dy` has its bit set when, and only when, its
/// sub-pixel is lit. A cell with every dot lit is the full pattern, one with
/// none lit is empty.
pub proof fn lemma_mask_shows_each_dot(lit: Seq<bool>, w: int, h: int, cx: int, cy: int)
    ensures
        forall|dx: int, dy: int|
            0 <= dx < 2 && 0 <= dy < 4 ==> ((mask_of(lit, w, h, cx, cy) & dot(dx, dy)) != 0)
                == #[trigger] dot_lit(lit, w, h, cx, cy, dx, dy),
        (forall|dx: int, dy: int|
            0 <= dx < 2 && 0 <= dy < 4 ==> #[trigger] dot_lit(lit, w, h, cx, cy, dx, dy))
            ==> mask_of(lit, w, h, cx, cy) == 0xFF,
        (forall|dx: int, dy: int|
            0 <= dx < 2 && 0 <= dy < 4 ==> !#[trigger] dot_lit(lit, w, h, cx, cy, dx, dy))
            ==> mask_of(lit, w, h, cx, cy) == 0,
{
    let l = |dx: int, dy: int| dot_lit(lit, w, h, cx, cy, dx, dy);
    reveal_with_fuel(partial_mask, 9);
    let m = mask_of(lit, w, h, cx, cy);
    assert(m == (((((((0u8 | (if l(0, 0) { 1u8 } else { 0u8 })) | (if l(1, 0) { 8u8 } else { 0u8 }))
        | (if l(0, 1) { 2u8 } else { 0u8 })) | (if l(1, 1) { 16u8 } else { 0u8 })) | (if l(0, 2) {
        4u8
    } else {
        0u8
    })) | (if l(1, 2) { 32u8 } else { 0u8 })) | (if l(0, 3) { 64u8 } else { 0u8 })) | (if l(1, 3) {
        128u8
    } else {
        0u8
    }));
    lemma_dots_separate(l(0, 0), l(1, 0), l(0, 1), l(1, 1), l(0, 2), l(1, 2), l(0, 3), l(1, 3), m);
}

/// The characters of a `cols`×`rows` grid of cells over a `w`×`h` field of
/// lit sub-pixels, row by row: each cell shows the dots of its 2×4 block.
pub fn glyph_rows(lit: &Vec<bool>, w: usize, h: usize, cols: usize, rows: usize) -> (out: Vec<
    Vec<char>,
>)
    requires
        lit@.len() >= w * h,
        cols * 2 <= usize::MAX,
        rows * 4 <= usize::MAX,
    ensures
        out@.len() == rows,
        forall|cy: int|
            0 <= cy < rows ==> (#[trigger] out@[cy])@.len() == cols,
        forall|cy: int, cx: int|
            0 <= cy < rows && 0 <= cx < cols ==> shows(
                #[trigger] out@[cy]@[cx],
                mask_of(lit@, w as int, h as int, cx, cy),
            ),
{
    let mut out: Vec<Vec<char>> = Vec::new();
    let mut cy: usize = 0;
    while cy < rows
        invariant
            lit@.len() >= w * h,
            cols * 2 <= usize::MAX,
            rows * 4 <= usize::MAX,
            cy <= rows,
            out@.len() == cy,
            forall|j: int| 0 <= j < cy ==> (#[trigger] out@[j])@.len() == cols,
            forall|j: int, cx: int|
                0 <= j < cy && 0 <= cx < cols ==> shows(
                    #[trigger] out@[j]@[cx],
                    mask_of(lit@, w as int, h as int, cx, j),
                ),
        decreases rows - cy,
    {
        let mut row: Vec<char> = Vec::new();
        let mut cx: usize = 0;
        while cx < cols
            invariant
                lit@.len() >= w * h,
                cols * 2 <= usize::MAX,
                rows * 4 <= usize::MAX,
                cy < rows,
                cx <= cols,
                row@.len() == cx,
                forall|i: int|
                    0 <= i < cx ==> shows(
                        #[trigger] row@[i],
                        mask_of(lit@, w as int, h as int, i, cy as int),
                    ),
            decreases cols - cx,
        {
            let m = cell_mask(lit, w, h, cx, cy);
            row.push(glyph(m));
            cx = cx + 1;
        }
        out.push(row);
        cy = cy + 1;
    }
    out
}

/// The or of the eight dots, in the order a cell is walked, is the sum of
/// their bits.
proof fn lemma_dots_sum(
    l0: bool,
    l1: bool,
    l2: bool,
    l3: bool,
    l4: bool,
    l5: bool,
    l6: bool,
    l7: bool,
    m: u8,
)
    by (bit_vector)
    requires
        m == (((((((0u8 | (if l0 { 1u8 } else { 0u8 })) | (if l1 { 8u8 } else { 0u8 })) | (if l2 {
            2u8
        } else {
            0u8
        })) | (if l3 { 16u8 } else { 0u8 })) | (if l4 { 4u8 } else { 0u8 })) | (if l5 {
            32u8
        } else {
            0u8
        })) | (if l6 { 64u8 } else { 0u8 })) | (if l7 { 128u8 } else { 0u8 }),
    ensures
        m == (if l0 { 1u8 } else { 0u8 }) + (if l2 { 2u8 } else { 0u8 }) + (if l4 { 4u8 } else {
            0u8
        }) + (if l1 { 8u8 } else { 0u8 }) + (if l3 { 16u8 } else { 0u8 }) + (if l5 { 32u8 } else {
            0u8
        }) + (if l6 { 64u8 } else { 0u8 }) + (if l7 { 128u8 } else { 0u8 }),
{
}

/// A cell's bits are Unicode's braille dot numbering: the left column's top
/// three dots are bits 0, 1, 2 (values 1, 2, 4), the right column's top
/// three are bits 3, 4, 5 (8, 16, 32), and the bottom row is bit 6 (64) on
/// the left and bit 7 (128) on the right; the bits of the lit dots add up
/// to the cell's value.
pub proof fn lemma_braille_numbering(lit: Seq<bool>, w: int, h: int, cx: int, cy: int)
    ensures
        mask_of(lit, w, h, cx, cy) as int
            == (if lit_at(lit, w, h, cx * 2, cy * 4) { 1int } else { 0 })
            + (if lit_at(lit, w, h, cx * 2, cy * 4 + 1) { 2int } else { 0 })
            + (if lit_at(lit, w, h, cx * 2, cy * 4 + 2) { 4int } else { 0 })
            + (if lit_at(lit, w, h, cx * 2 + 1, cy * 4) { 8int } else { 0 })
            + (if lit_at(lit, w, h, cx * 2 + 1, cy * 4 + 1) { 16int } else { 0 })
            + (if lit_at(lit, w, h, cx * 2 + 1, cy * 4 + 2) { 32int } else { 0 })
            + (if lit_at(lit, w, h, cx * 2, cy * 4 + 3) { 64int } else { 0 })
            + (if lit_at(lit, w, h, cx * 2 + 1, cy * 4 + 3) { 128int } else { 0 }),
{
    let l = |dx: int, dy: int| lit_at(lit, w, h, cx * 2 + dx, cy * 4 + dy);
    reveal_with_fuel(partial_mask, 9);
    let m = mask_of(lit, w, h, cx, cy);
    assert(m == (((((((0u8 | (if l(0, 0) { 1u8 } else { 0u8 })) | (if l(1, 0) { 8u8 } else { 0u8 }))
        | (if l(0, 1) { 2u8 } else { 0u8 })) | (if l(1, 1) { 16u8 } else { 0u8 })) | (if l(0, 2) {
        4u8
    } else {
        0u8
    })) | (if l(1, 2) { 32u8 } else { 0u8 })) | (if l(0, 3) { 64u8 } else { 0u8 })) | (if l(1, 3) {
        128u8
    } else {
        0u8
    }));
    lemma_dots_sum(l(0, 0), l(1, 0), l(0, 1), l(1, 1), l(0, 2), l(1, 2), l(0, 3), l(1, 3), m);
    assert(l(0, 0) == lit_at(lit, w, h, cx * 2, cy * 4));
    assert(l(1, 0) == lit_at(lit, w, h, cx * 2 + 1, cy * 4));
}

/// The bit of each dot position is the one Unicode's braille block gives it.
pub proof fn lemma_dot_bits()
    ensures
        dot(0, 0) == 0x01 && dot(0, 1) == 0x02 && dot(0, 2) == 0x04 && dot(1, 0) == 0x08,
        dot(1, 1) == 0x10 && dot(1, 2) == 0x20 && dot(0, 3) == 0x40 && dot(1, 3) == 0x80,
{
}

} // verus!
