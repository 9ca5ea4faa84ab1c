use tuitalk::terminal::{App, InputMode, Key, KeyOutcome, DEFAULT_SCROLL, FAST_SCROLL};
use uuid::Uuid;

fn app() -> App {
    App::new(Uuid::from_u128(7))
}

fn editing(text: &str, cursor: usize) -> App {
    let mut app = app();
    app.input_mode = InputMode::Editing;
    app.input = text.to_string();
    app.character_index = cursor;
    app
}

fn scrolled(scroll: usize, max_scroll: usize) -> App {
    let mut app = app();
    app.scroll = scroll;
    app.max_scroll = max_scroll;
    app.auto_scroll = false;
    app
}

#[test]
fn a_new_app_moves_through_the_messages() {
    let app = app();
    assert_eq!(app.input, "");
    assert_eq!(app.character_index, 0);
    assert_eq!(app.input_mode, InputMode::Normal);
    assert_eq!(app.scroll, 0);
    assert_eq!(app.max_scroll, 0);
    assert!(app.auto_scroll);
    assert_eq!(app.username, "Client");
    assert_eq!(app.room, 0);
    assert_eq!(app.uuid, Uuid::from_u128(7));
    assert_eq!((DEFAULT_SCROLL, FAST_SCROLL), (1, 10));
}

#[test]
fn the_cursor_stays_within_the_line() {
    let mut app = editing("añ€", 0);
    assert_eq!(app.clamp_cursor(2), 2);
    assert_eq!(app.clamp_cursor(3), 3);
    assert_eq!(app.clamp_cursor(4), 3);
    app.move_cursor_left();
    assert_eq!(app.character_index, 0);
    app.move_cursor_right();
    app.move_cursor_right();
    app.move_cursor_right();
    app.move_cursor_right();
    assert_eq!(app.character_index, 3);
    app.character_index = usize::MAX;
    app.move_cursor_right();
    assert_eq!(app.character_index, 3);
    app.character_index = 100;
    app.move_cursor_left();
    assert_eq!(app.character_index, 3);
    app.reset_cursor();
    assert_eq!(app.character_index, 0);
}

#[test]
fn the_byte_index_counts_bytes_before_the_cursor() {
    let mut app = editing("añ€😀b", 0);
    let expected = [0, 1, 3, 6, 10, 11];
    for (cursor, bytes) in expected.iter().enumerate() {
        app.character_index = cursor;
        assert_eq!(app.byte_index(), *bytes);
    }
    app.character_index = 99;
    assert_eq!(app.byte_index(), app.input.len());
}

#[test]
fn characters_are_typed_at_the_cursor() {
    let mut app = editing("", 0);
    for c in "héllo".chars() {
        app.enter_char(c);
    }
    assert_eq!(app.input, "héllo");
    assert_eq!(app.character_index, 5);
    app.character_index = 1;
    app.enter_char('€');
    assert_eq!(app.input, "h€éllo");
    assert_eq!(app.character_index, 2);
    app.character_index = 50;
    app.enter_char('!');
    assert_eq!(app.input, "h€éllo!");
    assert_eq!(app.character_index, 7);
}

#[test]
fn backspace_deletes_before_the_cursor() {
    let mut app = editing("h€éllo", 2);
    app.delete_char();
    assert_eq!(app.input, "héllo");
    assert_eq!(app.character_index, 1);
    app.delete_char();
    assert_eq!(app.input, "éllo");
    assert_eq!(app.character_index, 0);
    app.delete_char();
    assert_eq!(app.input, "éllo");
    assert_eq!(app.character_index, 0);
    app.character_index = 4;
    app.delete_char();
    assert_eq!(app.input, "éll");
    assert_eq!(app.character_index, 3);
    // A cursor beyond the line deletes nothing and comes back to its end.
    app.character_index = 9;
    app.delete_char();
    assert_eq!(app.input, "éll");
    assert_eq!(app.character_index, 3);
}

#[test]
fn enter_submits_the_line() {
    let mut app = editing("/room 5", 3);
    assert_eq!(app.on_key(Key::Enter, true), KeyOutcome::Submit("/room 5".to_string()));
    assert_eq!(app.input, "");
    assert_eq!(app.character_index, 0);
    assert_eq!(app.input_mode, InputMode::Editing);
    assert_eq!(app.submit_message(), "");
}

#[test]
fn editing_keys_edit() {
    let mut app = editing("ab", 2);
    assert_eq!(app.on_key(Key::Char('q'), true), KeyOutcome::Continue);
    assert_eq!(app.input, "abq");
    assert_eq!(app.on_key(Key::Left, true), KeyOutcome::Continue);
    assert_eq!(app.character_index, 2);
    assert_eq!(app.on_key(Key::Backspace, true), KeyOutcome::Continue);
    assert_eq!(app.input, "aq");
    assert_eq!(app.on_key(Key::Right, true), KeyOutcome::Continue);
    assert_eq!(app.character_index, 2);
    assert_eq!(app.on_key(Key::Other, true), KeyOutcome::Continue);
    assert_eq!(app.on_key(Key::Esc, true), KeyOutcome::Continue);
    assert_eq!(app.input_mode, InputMode::Normal);
    assert_eq!(app.input, "aq");
}

#[test]
fn editing_ignores_keys_that_were_not_pressed() {
    let mut app = editing("ab", 2);
    for key in [Key::Char('x'), Key::Enter, Key::Backspace, Key::Left, Key::Right, Key::Esc] {
        assert_eq!(app.on_key(key, false), KeyOutcome::Continue);
    }
    assert_eq!(app.input, "ab");
    assert_eq!(app.character_index, 2);
    assert_eq!(app.input_mode, InputMode::Editing);
}

#[test]
fn normal_keys_switch_mode_and_quit() {
    let mut app = app();
    assert_eq!(app.on_key(Key::Char('x'), true), KeyOutcome::Continue);
    assert_eq!(app.on_key(Key::Enter, true), KeyOutcome::Continue);
    assert_eq!(app.input, "");
    assert_eq!(app.on_key(Key::Char('q'), false), KeyOutcome::Quit);
    assert_eq!(app.on_key(Key::Char('i'), false), KeyOutcome::Continue);
    assert_eq!(app.input_mode, InputMode::Editing);
}

#[test]
fn scrolling_one_line() {
    let mut app = scrolled(3, 5);
    app.on_key(Key::Char('k'), true);
    assert_eq!((app.scroll, app.auto_scroll), (4, false));
    app.on_key(Key::Char('k'), true);
    assert_eq!((app.scroll, app.auto_scroll), (5, true));
    app.on_key(Key::Char('k'), true);
    assert_eq!((app.scroll, app.auto_scroll), (5, true));
    app.on_key(Key::Char('j'), true);
    assert_eq!((app.scroll, app.auto_scroll), (4, false));
    let mut app = scrolled(0, 5);
    app.on_key(Key::Char('j'), true);
    assert_eq!((app.scroll, app.auto_scroll), (0, false));
}

#[test]
fn scrolling_fast() {
    let mut app = scrolled(3, 30);
    app.on_key(Key::Char('K'), true);
    assert_eq!((app.scroll, app.auto_scroll), (13, false));
    app.on_key(Key::Char('K'), true);
    assert_eq!((app.scroll, app.auto_scroll), (23, false));
    app.on_key(Key::Char('K'), true);
    assert_eq!((app.scroll, app.auto_scroll), (30, true));
    let mut app = scrolled(19, 30);
    app.on_key(Key::Char('K'), true);
    assert_eq!((app.scroll, app.auto_scroll), (29, false));
    let mut app = scrolled(2, 5);
    app.on_key(Key::Char('K'), true);
    assert_eq!((app.scroll, app.auto_scroll), (5, true));

    let mut app = scrolled(25, 30);
    app.auto_scroll = true;
    app.on_key(Key::Char('J'), true);
    assert_eq!((app.scroll, app.auto_scroll), (15, false));
    app.on_key(Key::Char('J'), true);
    assert_eq!((app.scroll, app.auto_scroll), (5, false));
    app.on_key(Key::Char('J'), true);
    assert_eq!((app.scroll, app.auto_scroll), (0, false));
    let mut app = scrolled(10, 30);
    app.on_key(Key::Char('J'), true);
    assert_eq!(app.scroll, 0);
}

#[test]
fn jumping_to_either_end() {
    let mut app = scrolled(3, 30);
    app.on_key(Key::Char('g'), true);
    assert_eq!((app.scroll, app.auto_scroll), (30, true));
    app.on_key(Key::Char('G'), true);
    assert_eq!((app.scroll, app.auto_scroll), (0, false));
}
