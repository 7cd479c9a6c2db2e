use fractal::export::{context_text, export_text, history_text};
use fractal::view::View;

#[test]
fn saved_pictures_lose_trailing_blanks() {
    let rows = vec![
        vec!['⣿', ' ', '⠁', ' ', ' '],
        vec![' ', ' '],
        vec!['⠠', '\u{2800}', ' '],
    ];
    let text = export_text(View::Henon, &rows);
    assert_eq!(text, "the Hénon map\n\n⣿ ⠁\n\n⠠\u{2800}\n");
}

#[test]
fn an_empty_picture_is_just_its_name() {
    assert_eq!(export_text(View::Julia, &Vec::new()), "a Julia set\n\n");
}

#[test]
fn unicode_white_space_is_trimmed_too() {
    let rows = vec![vec!['a', '\t', '\u{3000}', '\u{a0}', '\u{2009}']];
    assert_eq!(export_text(View::Lorenz, &rows), "the Lorenz attractor\n\na\n");
}

#[test]
fn the_conversation_is_laid_out_turn_by_turn() {
    let chat = vec![
        ("why?".to_string(), "because".to_string()),
        ("and?".to_string(), "chaos".to_string()),
    ];
    assert_eq!(history_text(&chat), "User: why?\nYou: because\n\nUser: and?\nYou: chaos\n\n");
    assert_eq!(history_text(&Vec::new()), "");
}

#[test]
fn the_context_frames_the_question() {
    let none = context_text(View::Logistic, "r from 2 to 4.\n", &Vec::new(), "what is δ?");
    assert_eq!(none, "On screen: the logistic map.\nr from 2 to 4.\n\nQuestion: what is δ?\n");
    let chat = vec![("a".to_string(), "b".to_string())];
    let some = context_text(View::Mandelbrot, "", &chat, "c");
    assert_eq!(
        some,
        "On screen: the Mandelbrot set.\n\nEarlier in this conversation:\nUser: a\nYou: b\n\n\nQuestion: c\n"
    );
}
