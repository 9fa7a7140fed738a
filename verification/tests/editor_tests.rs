use adventure_engine::editor::{Editor, EditorAction, SaveOutcome};
use adventure_engine::key::Key;
use adventure_engine::banner::Visible;

fn doc_of(e: &Editor) -> Vec<String> {
    e.text.iter().map(|l| l.iter().collect()).collect()
}

#[test]
fn new_editor_is_one_empty_line() {
    let e = Editor::new();
    assert_eq!(e.text, vec![Vec::<char>::new()]);
    assert_eq!((e.cursor_x, e.cursor_y), (0, 0));
    assert!(!e.quit());
    assert_eq!(e.banner.default_l, "AdventureEngine 0.0.1");
    assert_eq!(e.banner.default_r, "Save: ^s  Open: ^o  Quit: ESC");
    assert!(matches!(e.banner.visible, Visible::Default));
}

#[test]
fn cursor_stays_in_bounds_under_any_moves() {
    let mut e = Editor::new();
    for c in "one".chars() {
        e.type_char(c);
    }
    e.newline();
    for c in "longer".chars() {
        e.type_char(c);
    }
    let moves = [
        Key::Up,
        Key::Up,
        Key::Left,
        Key::Down,
        Key::Right,
        Key::Right,
        Key::Down,
        Key::Up,
        Key::Left,
        Key::Right,
    ];
    for k in moves {
        e.handle_key(k, 0);
        assert!(e.cursor_y < e.text.len());
        assert!(e.cursor_x <= e.text[e.cursor_y].len());
    }
}

#[test]
fn forward_then_backward_restores_position() {
    let mut e = Editor::new();
    e.type_char('a');
    e.type_char('b');
    e.newline();
    e.type_char('c');
    // mid-line position
    e.cursor_back();
    let before = (e.cursor_x, e.cursor_y);
    e.cursor_fwd();
    e.cursor_back();
    assert_eq!((e.cursor_x, e.cursor_y), before);
    // end of a non-last line wraps down and back
    e.cursor_up();
    e.cursor_fwd();
    e.cursor_fwd();
    let before = (e.cursor_x, e.cursor_y);
    assert_eq!(before, (2, 0));
    e.cursor_fwd();
    assert_eq!((e.cursor_x, e.cursor_y), (0, 1));
    e.cursor_back();
    assert_eq!((e.cursor_x, e.cursor_y), before);
}

#[test]
fn typing_grows_line_by_one_and_advances_column() {
    let mut e = Editor::new();
    e.type_char('a');
    e.type_char('c');
    e.cursor_back();
    let len = e.text[e.cursor_y].len();
    let col = e.cursor_x;
    e.type_char('b');
    assert_eq!(e.text[e.cursor_y].len(), len + 1);
    assert_eq!(e.cursor_x, col + 1);
    assert_eq!(doc_of(&e), vec!["abc"]);
}

#[test]
fn backspace_at_origin_is_a_no_op() {
    let mut e = Editor::new();
    e.type_char('a');
    e.cursor_back();
    assert_eq!((e.cursor_x, e.cursor_y), (0, 0));
    let before = e.text.clone();
    e.backspace();
    assert_eq!(e.text, before);
    assert_eq!((e.cursor_x, e.cursor_y), (0, 0));
}

#[test]
fn typing_two_lines_leaves_expected_document() {
    let mut e = Editor::new();
    for k in [Key::Char('h'), Key::Char('i'), Key::Enter] {
        e.handle_key(k, 0);
    }
    for c in "there".chars() {
        e.handle_key(Key::Char(c), 0);
    }
    assert_eq!(doc_of(&e), vec!["hi", "there"]);
    assert_eq!((e.cursor_x, e.cursor_y), (5, 1));
}

#[test]
fn backspace_at_line_start_does_not_merge_contents() {
    let mut e = Editor::new();
    for c in "ab".chars() {
        e.type_char(c);
    }
    e.newline();
    for c in "cd".chars() {
        e.type_char(c);
    }
    e.cursor_back();
    e.cursor_back();
    assert_eq!((e.cursor_x, e.cursor_y), (0, 1));
    e.backspace();
    // The cursor lands at the end of the first line, but "cd" was not
    // empty, so the document keeps both lines: contents never merge.
    assert_eq!((e.cursor_x, e.cursor_y), (2, 0));
    assert_eq!(doc_of(&e), vec!["ab", "cd"]);
}

#[test]
fn backspace_at_line_start_removes_an_empty_line() {
    let mut e = Editor::new();
    for c in "ab".chars() {
        e.type_char(c);
    }
    e.newline();
    assert_eq!((e.cursor_x, e.cursor_y), (0, 1));
    e.backspace();
    assert_eq!((e.cursor_x, e.cursor_y), (2, 0));
    assert_eq!(doc_of(&e), vec!["ab"]);
}

#[test]
fn backspace_mid_line_removes_char_before_cursor() {
    let mut e = Editor::new();
    for c in "abc".chars() {
        e.type_char(c);
    }
    e.cursor_back();
    assert_eq!((e.cursor_x, e.cursor_y), (2, 0));
    e.backspace();
    assert_eq!(doc_of(&e), vec!["ac"]);
    assert_eq!((e.cursor_x, e.cursor_y), (1, 0));
}

#[test]
fn newline_inserts_fresh_empty_line_without_splitting() {
    let mut e = Editor::new();
    for c in "abcd".chars() {
        e.type_char(c);
    }
    e.cursor_back();
    e.cursor_back();
    e.newline();
    assert_eq!(doc_of(&e), vec!["abcd", ""]);
    assert_eq!((e.cursor_x, e.cursor_y), (0, 1));
}

#[test]
fn tab_inserts_four_spaces_at_cursor() {
    let mut e = Editor::new();
    e.type_char('x');
    e.type_char('y');
    e.cursor_back();
    e.tab();
    assert_eq!(doc_of(&e), vec!["x    y"]);
    assert_eq!((e.cursor_x, e.cursor_y), (5, 0));
}

#[test]
fn moving_up_and_down_clamps_the_column() {
    let mut e = Editor::new();
    for c in "long line".chars() {
        e.type_char(c);
    }
    e.newline();
    for c in "ab".chars() {
        e.type_char(c);
    }
    e.cursor_up();
    assert_eq!((e.cursor_x, e.cursor_y), (2, 0));
    for _ in 0..7 {
        e.cursor_fwd();
    }
    assert_eq!((e.cursor_x, e.cursor_y), (9, 0));
    e.cursor_down();
    assert_eq!((e.cursor_x, e.cursor_y), (2, 1));
}

#[test]
fn serialize_joins_lines_with_trailing_newline() {
    let mut e = Editor::new();
    for c in "hi".chars() {
        e.type_char(c);
    }
    e.newline();
    for c in "there".chars() {
        e.type_char(c);
    }
    assert_eq!(e.serialize(), "hi\nthere\n");
    let empty = Editor::new();
    assert_eq!(empty.serialize(), "\n");
}

#[test]
fn render_cells_places_each_character_at_its_cell() {
    let mut e = Editor::new();
    for c in "ab".chars() {
        e.type_char(c);
    }
    e.newline();
    e.type_char('c');
    let cells = e.render_cells();
    assert_eq!(cells, vec![(0, 0, 'a'), (1, 0, 'b'), (0, 1, 'c')]);
}

#[test]
fn escape_asks_to_quit() {
    let mut e = Editor::new();
    assert!(!e.quit());
    let act = e.handle_key(Key::Esc, 0);
    assert_eq!(act, EditorAction::Idle);
    assert!(e.quit());
}

#[test]
fn ctrl_s_starts_the_save_prompt() {
    let mut e = Editor::new();
    let act = e.handle_key(Key::Ctrl('s'), 0);
    assert_eq!(act, EditorAction::SavePrompt);
    assert!(matches!(e.banner.visible, Visible::Input));
    assert_eq!(e.banner.input_label, "Save to file: ");
    assert!(e.banner.response.is_empty());
    assert_eq!(e.banner.input_offset, 0);
}

#[test]
fn ctrl_o_shows_the_open_notice() {
    let mut e = Editor::new();
    let act = e.handle_key(Key::Ctrl('o'), 1000);
    assert_eq!(act, EditorAction::Idle);
    assert!(matches!(e.banner.visible, Visible::Msg));
    assert_eq!(e.banner.msg, "Open called!");
    assert_eq!(e.banner.msg_expiry, 4000);
}

#[test]
fn other_ctrl_keys_do_nothing() {
    let mut e = Editor::new();
    e.type_char('a');
    let before = e.text.clone();
    let act = e.handle_key(Key::Ctrl('x'), 0);
    assert_eq!(act, EditorAction::Idle);
    assert_eq!(e.text, before);
    assert!(matches!(e.banner.visible, Visible::Default));
}

#[test]
fn save_report_sets_the_banner_message() {
    let path = String::from("notes.txt");
    let mut e = Editor::new();
    e.save_report(SaveOutcome::Written, &path, 10);
    assert!(matches!(e.banner.visible, Visible::Msg));
    assert_eq!(e.banner.msg, "Saved to notes.txt");
    assert_eq!(e.banner.msg_expiry, 3010);

    let mut e = Editor::new();
    e.save_report(SaveOutcome::CreateFailed, &path, 10);
    assert_eq!(e.banner.msg, "Failed to save file");

    let mut e = Editor::new();
    e.save_report(SaveOutcome::WriteFailed, &path, 10);
    assert_eq!(e.banner.msg, "Failed to write to file");
}
