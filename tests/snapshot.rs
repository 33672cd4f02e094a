use gibberish::snapshot::{escape_display_char, TerminalSnapshot};

#[test]
fn render_replaces_cursor_and_adds_footer() {
    let snapshot = TerminalSnapshot {
        cols: 10,
        rows: 2,
        cursor: Some((1, 0)),
        lines: vec!["abc".to_string(), "xyz".to_string()],
    };

    assert_eq!(
        snapshot.render(),
        "a▮c\nxyz\nCursor info: row=0, col=1, char=\"b\""
    );
}

#[test]
fn render_handles_cursor_on_trimmed_trailing_space() {
    let snapshot = TerminalSnapshot {
        cols: 10,
        rows: 1,
        cursor: Some((4, 0)),
        lines: vec!["ab   ".to_string()],
    };

    assert_eq!(
        snapshot.render(),
        "ab  ▮\nCursor info: row=0, col=4, char=\" \""
    );
}

#[test]
fn render_escapes_cursor_char_in_footer() {
    let snapshot = TerminalSnapshot {
        cols: 10,
        rows: 1,
        cursor: Some((0, 0)),
        lines: vec!["\"".to_string()],
    };

    assert_eq!(
        snapshot.render(),
        "▮\nCursor info: row=0, col=0, char=\"\\\"\""
    );
}

#[test]
fn render_handles_hidden_cursor() {
    let snapshot = TerminalSnapshot {
        cols: 10,
        rows: 1,
        cursor: None,
        lines: vec!["abc".to_string()],
    };

    assert_eq!(
        snapshot.render(),
        "abc\nCursor info: row=-, col=-, char=\"\""
    );
}

#[test]
fn render_twice_gives_the_same_text() {
    let snapshot = TerminalSnapshot {
        cols: 4,
        rows: 3,
        cursor: Some((2, 1)),
        lines: vec!["a b ".to_string(), "\tq".to_string(), String::new()],
    };
    assert_eq!(snapshot.render(), snapshot.render());
}

#[test]
fn render_pads_rows_below_the_text() {
    let snapshot = TerminalSnapshot {
        cols: 10,
        rows: 3,
        cursor: Some((2, 2)),
        lines: vec!["ab".to_string()],
    };
    assert_eq!(
        snapshot.render(),
        "ab\n\n  ▮\nCursor info: row=2, col=2, char=\" \""
    );
}

#[test]
fn render_of_no_rows_is_the_footer_alone() {
    let snapshot = TerminalSnapshot {
        cols: 10,
        rows: 2,
        cursor: None,
        lines: vec![],
    };
    assert_eq!(snapshot.render(), "Cursor info: row=-, col=-, char=\"\"");
    let blank = TerminalSnapshot {
        cols: 10,
        rows: 2,
        cursor: None,
        lines: vec!["   ".to_string()],
    };
    assert_eq!(blank.render(), "Cursor info: row=-, col=-, char=\"\"");
}

#[test]
fn render_reports_tab_under_cursor_escaped() {
    let snapshot = TerminalSnapshot {
        cols: 10,
        rows: 1,
        cursor: Some((2, 0)),
        lines: vec!["ab\t".to_string()],
    };
    assert_eq!(
        snapshot.render(),
        "ab▮\nCursor info: row=0, col=2, char=\"\\t\""
    );
}

#[test]
fn render_uses_multi_digit_positions() {
    let snapshot = TerminalSnapshot {
        cols: 20,
        rows: 12,
        cursor: Some((12, 10)),
        lines: vec![],
    };
    let text = snapshot.render();
    assert!(text.ends_with("Cursor info: row=10, col=12, char=\" \""));
    assert!(text.starts_with("\n\n\n\n\n\n\n\n\n\n            ▮\n"));
}

#[test]
fn escapes_display_characters() {
    assert_eq!(escape_display_char('"'), "\\\"");
    assert_eq!(escape_display_char('\\'), "\\\\");
    assert_eq!(escape_display_char('\''), "\\'");
    assert_eq!(escape_display_char('\n'), "\\n");
    assert_eq!(escape_display_char('a'), "a");
    assert_eq!(escape_display_char('\u{7f}'), "\\u{7f}");
    assert_eq!(escape_display_char('\u{0}'), "\\u{0}");
    assert_eq!(escape_display_char('é'), "\\u{e9}");
    for c in ['"', '\t', 'x', '\u{1b}', '\u{25AE}', '\u{10FFFF}'] {
        assert_eq!(escape_display_char(c), c.escape_default().to_string());
    }
}
