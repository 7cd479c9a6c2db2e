use fractal::paint::{paint_row, Pen};

#[test]
fn colours_change_only_where_they_differ() {
    let red = Some((255, 0, 0));
    let blue = Some((0, 0, 255));
    let row = vec![('a', red), ('b', red), ('c', blue), (' ', None), (' ', None), ('d', blue)];
    assert_eq!(
        paint_row(&row),
        vec![Pen::Fg(255, 0, 0), Pen::Keep, Pen::Fg(0, 0, 255), Pen::Reset, Pen::Keep, Pen::Fg(0, 0, 255)]
    );
}

#[test]
fn a_blank_row_needs_no_colour() {
    let row = vec![(' ', None); 3];
    assert_eq!(paint_row(&row), vec![Pen::Keep; 3]);
    assert_eq!(paint_row(&Vec::new()), Vec::<Pen>::new());
}
