use fractal::view::{View, VIEW_COUNT};

const ALL: [View; 5] = [View::Mandelbrot, View::Julia, View::Logistic, View::Lorenz, View::Henon];

#[test]
fn views_are_numbered_in_key_order() {
    for (i, v) in ALL.iter().enumerate() {
        assert_eq!(v.ix(), i);
        assert_eq!(View::at(i), *v);
    }
    assert_eq!(VIEW_COUNT, 5);
}

#[test]
fn every_view_has_its_name() {
    assert_eq!(View::Mandelbrot.name(), "the Mandelbrot set");
    assert_eq!(View::Julia.name(), "a Julia set");
    assert_eq!(View::Logistic.name(), "the logistic map");
    assert_eq!(View::Lorenz.name(), "the Lorenz attractor");
    assert_eq!(View::Henon.name(), "the Hénon map");
}

#[test]
fn every_view_names_its_knob() {
    assert_eq!(View::Mandelbrot.knob(), "iterations");
    assert_eq!(View::Julia.knob(), "iterations");
    assert_eq!(View::Logistic.knob(), "points per column");
    assert_eq!(View::Lorenz.knob(), "ρ");
    assert_eq!(View::Henon.knob(), "a");
}

#[test]
fn words_pick_a_view() {
    assert_eq!(View::named("julia"), View::Julia);
    assert_eq!(View::named("j"), View::Julia);
    assert_eq!(View::named("logistic"), View::Logistic);
    assert_eq!(View::named("bifurcation"), View::Logistic);
    assert_eq!(View::named("lorenz"), View::Lorenz);
    assert_eq!(View::named("henon"), View::Henon);
    assert_eq!(View::named("hénon"), View::Henon);
    assert_eq!(View::named("mandelbrot"), View::Mandelbrot);
    assert_eq!(View::named(""), View::Mandelbrot);
    assert_eq!(View::named("JULIA"), View::Mandelbrot);
    assert_eq!(View::named("juliaa"), View::Mandelbrot);
}
