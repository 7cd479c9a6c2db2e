use fractal::reply::{answer, first_line_of, trimmed};

#[test]
fn a_good_answer_is_trimmed() {
    assert_eq!(answer(true, "  \n δ is 4.669…\n\n", "ignored"), Ok("δ is 4.669…".to_string()));
    assert_eq!(answer(true, "\u{3000}x y\t", ""), Ok("x y".to_string()));
    assert_eq!(answer(true, " \n ", ""), Ok(String::new()));
}

#[test]
fn a_failure_keeps_the_first_line_cut_short() {
    assert_eq!(answer(false, "out", "boom\nmore"), Err("boom".to_string()));
    assert_eq!(answer(false, "", "dos\r\nline"), Err("dos".to_string()));
    assert_eq!(answer(false, "", ""), Err("(no message)".to_string()));
    assert_eq!(answer(false, "", "\nsecond"), Err(String::new()));
    let long = "é".repeat(100);
    assert_eq!(answer(false, "", &long), Err("é".repeat(80)));
}

#[test]
fn lines_end_as_str_lines_says() {
    for s in ["", "a", "a\n", "a\r\nb", "a\r", "\r\n", "\n\n", "x\ry\nz"] {
        assert_eq!(first_line_of(s), s.lines().next().map(|l| l.to_string()), "{s:?}");
    }
    for s in ["", " a ", "\t\n", "a b", "\u{a0}é\u{2028}"] {
        assert_eq!(trimmed(s), s.trim(), "{s:?}");
    }
}
