use fractal::braille::{cell_mask, dot_bit, field_size, glyph, glyph_rows, index, slot};

#[test]
fn every_dot_has_its_own_bit() {
    let mut all = 0u8;
    for dy in 0..4 {
        for dx in 0..2 {
            let b = dot_bit(dx, dy);
            assert_eq!(b.count_ones(), 1);
            assert_eq!(all & b, 0);
            all |= b;
        }
    }
    assert_eq!(all, 0xFF);
    assert_eq!(dot_bit(0, 3), 0x40);
    assert_eq!(dot_bit(1, 2), 0x20);
}

#[test]
fn glyphs_are_braille_patterns() {
    assert_eq!(glyph(0), ' ');
    assert_eq!(glyph(0xFF), '⣿');
    assert_eq!(glyph(0x01), '⠁');
    assert_eq!(glyph(0x40) as u32, 0x2840);
}

#[test]
fn full_and_empty_fields_are_solid_and_blank() {
    let (w, h) = field_size(4, 2);
    assert_eq!((w, h), (8, 8));
    let on = vec![true; w * h];
    let off = vec![false; w * h];
    let solid = glyph_rows(&on, w, h, 4, 2);
    let blank = glyph_rows(&off, w, h, 4, 2);
    assert_eq!(solid.len(), 2);
    assert!(solid.iter().flatten().all(|&c| c == '⣿'));
    assert!(blank.iter().flatten().all(|&c| c == ' '));
    assert_eq!(blank[1].len(), 4);
}

#[test]
fn a_lone_dot_lights_its_own_bit() {
    let (w, h) = field_size(1, 1);
    let mut lit = vec![false; w * h];
    lit[index(w, h, 1, 2).unwrap()] = true;
    assert_eq!(cell_mask(&lit, w, h, 0, 0), 0x20);
    assert_eq!(glyph_rows(&lit, w, h, 1, 1), vec![vec!['⠠']]);
}

#[test]
fn cells_past_the_field_are_dark() {
    // A 3×5 field under a 2×2 grid of cells: the second column and row of
    // cells hang over its edge.
    let lit = vec![true; 3 * 5];
    assert_eq!(cell_mask(&lit, 3, 5, 0, 0), 0xFF);
    assert_eq!(cell_mask(&lit, 3, 5, 1, 0), 0x01 | 0x02 | 0x04 | 0x40);
    assert_eq!(cell_mask(&lit, 3, 5, 0, 1), 0x01 | 0x08);
    assert_eq!(cell_mask(&lit, 3, 5, 1, 1), 0x01);
}

#[test]
fn points_off_the_edge_have_no_slot() {
    let (w, h) = field_size(2, 1);
    assert_eq!(slot(w, h, 3, 3), Some(15));
    assert_eq!(slot(w, h, 0, 0), Some(0));
    assert_eq!(slot(w, h, -1, 0), None);
    assert_eq!(slot(w, h, 0, -1), None);
    assert_eq!(slot(w, h, 4, 0), None);
    assert_eq!(slot(w, h, 0, 4), None);
    assert_eq!(slot(w, h, i64::MAX, 0), None);
    assert_eq!(index(w, h, 3, 1), Some(7));
    assert_eq!(index(w, h, 4, 1), None);
}

#[test]
fn values_past_the_field_are_not_read() {
    // A 2×4 field with one spare value at the end: only the first eight count.
    let mut lit = vec![false; 9];
    lit[8] = true;
    assert_eq!(glyph_rows(&lit, 2, 4, 1, 1), vec![vec![' ']]);
    lit[0] = true;
    assert_eq!(glyph_rows(&lit, 2, 4, 2, 1), vec![vec!['⠁', ' ']]);
}
