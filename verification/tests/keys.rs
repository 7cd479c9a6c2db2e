use fractal::keys::Key;

#[test]
fn keys_mean_what_the_help_says() {
    let table: [(&str, Key); 36] = [
        ("q", Key::Quit),
        ("Q", Key::Quit),
        ("RIGHT", Key::Right),
        ("l", Key::Right),
        ("LEFT", Key::Left),
        ("h", Key::Left),
        ("UP", Key::Up),
        ("k", Key::Up),
        ("DOWN", Key::Down),
        ("j", Key::Down),
        ("+", Key::ZoomIn),
        ("=", Key::ZoomIn),
        ("i", Key::ZoomIn),
        ("PgUP", Key::ZoomIn),
        ("-", Key::ZoomOut),
        ("_", Key::ZoomOut),
        ("o", Key::ZoomOut),
        ("PgDOWN", Key::ZoomOut),
        ("0", Key::Home),
        ("1", Key::Pick(0)),
        ("3", Key::Pick(2)),
        ("5", Key::Pick(4)),
        ("TAB", Key::Next),
        ("J", Key::Julia),
        ("]", Key::KnobUp),
        ("}", Key::KnobUp),
        ("[", Key::KnobDown),
        ("{", Key::KnobDown),
        ("p", Key::Project),
        ("e", Key::Export),
        ("c", Key::Ask),
        ("?", Key::Help),
        ("r", Key::Redraw),
        ("C-L", Key::Redraw),
        ("RESIZE", Key::Redraw),
        ("x", Key::Other),
    ];
    for (name, key) in table.iter() {
        assert_eq!(Key::parse(name), *key, "{name}");
    }
}

#[test]
fn unknown_keys_do_nothing() {
    assert_eq!(Key::parse(""), Key::Other);
    assert_eq!(Key::parse("6"), Key::Other);
    assert_eq!(Key::parse("tab"), Key::Other);
    assert_eq!(Key::parse("qq"), Key::Other);
}
