use fractal::controls::{axes, Controls, Effect, DENSITY_MAX, DENSITY_MIN, ITERS_MAX, ITERS_MIN};
use fractal::keys::Key;
use fractal::view::View;

#[test]
fn the_explorer_starts_at_its_defaults() {
    let c = Controls::new(View::Lorenz);
    assert_eq!(c, Controls { view: View::Lorenz, iters: 300, density: 260, proj: 0 });
}

#[test]
fn iterations_double_and_halve_within_their_range() {
    let mut c = Controls::new(View::Mandelbrot);
    assert_eq!(c.press(Key::KnobUp), Effect::Nothing);
    assert_eq!(c.iters, 600);
    for _ in 0..10 {
        c.press(Key::KnobUp);
    }
    assert_eq!(c.iters, ITERS_MAX);
    for _ in 0..20 {
        c.press(Key::KnobDown);
    }
    assert_eq!(c.iters, ITERS_MIN);
    c.press(Key::KnobUp);
    assert_eq!(c.iters, 60);
    assert_eq!(c.density, 260);
}

#[test]
fn density_doubles_and_halves_within_its_range() {
    let mut c = Controls::new(View::Logistic);
    c.press(Key::KnobDown);
    assert_eq!(c.density, 130);
    for _ in 0..5 {
        c.press(Key::KnobDown);
    }
    assert_eq!(c.density, DENSITY_MIN);
    for _ in 0..10 {
        c.press(Key::KnobUp);
    }
    assert_eq!(c.density, DENSITY_MAX);
    assert_eq!(c.iters, 300);
}

#[test]
fn real_knobs_are_left_to_the_program() {
    let mut c = Controls::new(View::Lorenz);
    assert_eq!(c.press(Key::KnobUp), Effect::Nudge(true));
    let mut d = Controls::new(View::Henon);
    assert_eq!(d.knob(false), Effect::Nudge(false));
    assert_eq!(c, Controls::new(View::Lorenz));
    assert_eq!(d, Controls::new(View::Henon));
}

#[test]
fn tab_walks_every_view_and_comes_back() {
    let mut c = Controls::new(View::Mandelbrot);
    let mut seen = Vec::new();
    for _ in 0..5 {
        assert_eq!(c.press(Key::Next), Effect::Clear);
        seen.push(c.view);
    }
    assert_eq!(seen, vec![View::Julia, View::Logistic, View::Lorenz, View::Henon, View::Mandelbrot]);
}

#[test]
fn number_keys_pick_views() {
    let mut c = Controls::new(View::Mandelbrot);
    assert_eq!(c.press(Key::Pick(3)), Effect::Clear);
    assert_eq!(c.view, View::Lorenz);
    assert_eq!(c.press(Key::Pick(9)), Effect::Nothing);
    assert_eq!(c.view, View::Lorenz);
}

#[test]
fn j_steps_into_a_julia_set_and_back() {
    let mut c = Controls::new(View::Mandelbrot);
    assert_eq!(c.press(Key::Julia), Effect::EnterJulia);
    assert_eq!(c.view, View::Julia);
    assert_eq!(c.press(Key::Julia), Effect::LeaveJulia);
    assert_eq!(c, Controls::new(View::Mandelbrot));
    let mut l = Controls::new(View::Logistic);
    assert_eq!(l.press(Key::Julia), Effect::NotHere);
    assert_eq!(l.view, View::Logistic);
}

#[test]
fn projections_cycle_through_three_pairs() {
    let mut c = Controls::new(View::Lorenz);
    let mut names = Vec::new();
    for _ in 0..3 {
        names.push(axes(c.proj).0);
        c.press(Key::Project);
    }
    assert_eq!(names, vec!["x-z", "x-y", "y-z"]);
    assert_eq!(c.proj, 0);
    assert_eq!(axes(0), ("x-z", 0, 2));
    assert_eq!(axes(1), ("x-y", 0, 1));
    assert_eq!(axes(2), ("y-z", 1, 2));
}

#[test]
fn other_keys_pass_their_effect_on() {
    let mut c = Controls::new(View::Julia);
    assert_eq!(c.press(Key::Quit), Effect::Quit);
    assert_eq!(c.press(Key::Left), Effect::MoveFrame);
    assert_eq!(c.press(Key::Home), Effect::MoveFrame);
    assert_eq!(c.press(Key::Export), Effect::Export);
    assert_eq!(c.press(Key::Ask), Effect::Ask);
    assert_eq!(c.press(Key::Help), Effect::Help);
    assert_eq!(c.press(Key::Redraw), Effect::Clear);
    assert_eq!(c.press(Key::Other), Effect::Nothing);
    assert_eq!(c, Controls::new(View::Julia));
}
