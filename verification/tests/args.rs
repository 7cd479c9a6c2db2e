use fractal::args::{launch, Launch};
use fractal::view::View;

fn words(ws: &[&str]) -> Vec<String> {
    ws.iter().map(|w| w.to_string()).collect()
}

#[test]
fn flags_win_wherever_they_stand() {
    assert_eq!(launch(&words(&["-h"])), Launch::Help);
    assert_eq!(launch(&words(&["--help"])), Launch::Help);
    assert_eq!(launch(&words(&["lorenz", "-v"])), Launch::Version);
    assert_eq!(launch(&words(&["--version", "-h"])), Launch::Version);
}

#[test]
fn the_first_word_picks_the_view_in_any_case() {
    assert_eq!(launch(&words(&["JULIA"])), Launch::Start(View::Julia));
    assert_eq!(launch(&words(&["Logistic", "x"])), Launch::Start(View::Logistic));
    assert_eq!(launch(&words(&["HÉNON"])), Launch::Start(View::Henon));
    assert_eq!(launch(&words(&["x", "lorenz"])), Launch::Start(View::Mandelbrot));
    assert_eq!(launch(&Vec::new()), Launch::Start(View::Mandelbrot));
}
