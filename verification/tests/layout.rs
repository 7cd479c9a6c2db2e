use fractal::layout::{band_point, band_rows, keys_text, plot_rows};
use fractal::view::View;

#[test]
fn the_picture_leaves_three_rows() {
    assert_eq!(plot_rows(24), 21);
    assert_eq!(plot_rows(4), 1);
    assert_eq!(plot_rows(2), 1);
    assert_eq!(plot_rows(0), 1);
}

#[test]
fn the_keys_line_fits_the_width() {
    assert_eq!(
        keys_text(80, View::Lorenz),
        "←↓↑→ pan · +/- zoom · 1-5 view · J julia · [ ] ρ · ? help · q"
    );
    assert_eq!(
        keys_text(130, View::Logistic),
        "←↓↑→ pan · +/- zoom · 0 reset · 1-5 view · Tab next · J julia here · [ ] points per column · p project · e save · c ask · ? help · q"
    );
}

#[test]
fn bands_share_the_rows_out() {
    assert_eq!(band_rows(100, 8), 13);
    assert_eq!(band_rows(100, 0), 100);
    assert_eq!(band_rows(3, 16), 1);
    assert_eq!(band_rows(0, 4), 0);
    assert_eq!(band_rows(96, 8), 12);
}

#[test]
fn every_value_of_a_band_has_its_point() {
    let (w, h, cores) = (5usize, 7usize, 3usize);
    let band = band_rows(h, cores);
    assert_eq!(band, 3);
    let mut seen = vec![0; w * h];
    for b in 0..h.div_ceil(band) {
        for i in 0..w * band {
            let (x, y) = band_point(w, band, b, i);
            assert_eq!(y * w + x, b * w * band + i);
            if y < h {
                seen[y * w + x] += 1;
            }
        }
    }
    assert!(seen.iter().all(|&n| n == 1));
}
