use raquet::add;
use raquet::collections::CollectionManager;
use raquet::config::AppConfig;
use raquet::history::History;
use raquet::input::{Action, InputHandler};
use raquet::model::{Field, InputMode, KeyCode, KeyEvent, KeyModifiers};
use raquet::state::App;
use raquet::text::{
    byte_len, decimal, erase_before, insert_char, sanitize_paste, selection_bounds, splice,
    starts_with, text_eq, text_is, text_less, text_of,
};

fn t(s: &str) -> Vec<char> {
    s.chars().collect()
}

fn s(text: &[char]) -> String {
    text.iter().collect()
}

fn fresh() -> App {
    App::new(AppConfig::default(), History::new(100, Vec::new()), CollectionManager::new(None))
}

fn plain(code: KeyCode) -> KeyEvent {
    KeyEvent::plain(code)
}

fn with(code: KeyCode, shift: bool, control: bool, super_key: bool) -> KeyEvent {
    KeyEvent {
        code,
        modifiers: KeyModifiers { shift, control, alt: false, super_key, hyper: false, meta: false },
    }
}

fn editing_url(url: &str, cursor: usize) -> App {
    let mut app = fresh();
    app.url = t(url);
    app.input_mode = InputMode::Editing(Field::Url);
    app.active_field = Field::Url;
    app.cursor_position = cursor;
    app
}

#[test]
fn it_works() {
    let result = add(2, 2);
    assert_eq!(result, 4);
}

#[test]
fn text_of_gives_the_characters() {
    assert_eq!(text_of("héllo"), vec!['h', 'é', 'l', 'l', 'o']);
    assert_eq!(text_of(""), Vec::<char>::new());
}

#[test]
fn insert_advances_cursor_by_one() {
    let mut text = t("ac");
    let mut cursor = 1;
    insert_char(&mut text, &mut cursor, 'b');
    assert_eq!(s(&text), "abc");
    assert_eq!(cursor, 2);
}

#[test]
fn insert_clamps_a_cursor_past_the_end() {
    let mut text = t("ab");
    let mut cursor = 99;
    insert_char(&mut text, &mut cursor, 'c');
    assert_eq!(s(&text), "abc");
    assert_eq!(cursor, 3);
}

#[test]
fn backspace_removes_the_character_before_the_cursor() {
    let mut text = t("abc");
    let mut cursor = 2;
    erase_before(&mut text, &mut cursor);
    assert_eq!(s(&text), "ac");
    assert_eq!(cursor, 1);
}

#[test]
fn backspace_at_the_start_does_nothing() {
    let mut text = t("abc");
    let mut cursor = 0;
    erase_before(&mut text, &mut cursor);
    assert_eq!(s(&text), "abc");
    assert_eq!(cursor, 0);
}

#[test]
fn cursor_stays_in_text_over_a_run_of_edits() {
    let mut app = editing_url("", 0);
    let keys = [
        KeyCode::Backspace,
        KeyCode::Char('a'),
        KeyCode::Char('b'),
        KeyCode::Backspace,
        KeyCode::Backspace,
        KeyCode::Backspace,
        KeyCode::Char('c'),
        KeyCode::Char('d'),
        KeyCode::Char('e'),
        KeyCode::Backspace,
    ];
    for code in keys {
        InputHandler::handle_key(&mut app, plain(code));
        assert!(app.cursor_position <= app.url.len());
    }
    assert_eq!(s(&app.url), "cd");
    assert_eq!(app.cursor_position, 2);
}

#[test]
fn splice_replaces_a_range() {
    let mut text = t("hello world");
    let end = splice(&mut text, 6, 11, &t("there"));
    assert_eq!(s(&text), "hello there");
    assert_eq!(end, 11);
    let end = splice(&mut text, 0, 0, &t(">> "));
    assert_eq!(s(&text), ">> hello there");
    assert_eq!(end, 3);
}

#[test]
fn selection_bounds_are_ordered_and_clamped() {
    assert_eq!(selection_bounds(5, 9, 16), (5, 9));
    assert_eq!(selection_bounds(9, 5, 16), (5, 9));
    assert_eq!(selection_bounds(3, 40, 10), (3, 10));
    assert_eq!(selection_bounds(40, 3, 10), (3, 10));
    assert_eq!(selection_bounds(4, 4, 10), (4, 4));
}

#[test]
fn shift_right_then_copy_yields_the_selected_slice() {
    let mut app = editing_url("example.com/path", 5);
    for _ in 0..4 {
        let action = InputHandler::handle_key(&mut app, with(KeyCode::Right, true, false, false));
        assert!(matches!(action, Action::Continue));
    }
    assert_eq!(app.selection_start, Some(5));
    assert_eq!(app.cursor_position, 9);
    let action = InputHandler::handle_key(&mut app, with(KeyCode::Char('c'), false, true, false));
    match action {
        Action::Copy(text) => assert_eq!(s(&text), "example.com/path"[5..9].to_string()),
        _ => panic!("copy expected"),
    }
    assert_eq!(s(&app.url), "example.com/path");
    assert_eq!(app.selection_start, Some(5));
}

#[test]
fn shift_left_selects_backwards() {
    let mut app = editing_url("example.com", 7);
    InputHandler::handle_key(&mut app, with(KeyCode::Left, true, false, false));
    InputHandler::handle_key(&mut app, with(KeyCode::Left, true, false, false));
    assert_eq!(app.selection_start, Some(7));
    assert_eq!(app.cursor_position, 5);
    let action = InputHandler::handle_key(&mut app, with(KeyCode::Char('c'), false, false, true));
    match action {
        Action::Copy(text) => assert_eq!(s(&text), "le"),
        _ => panic!("copy expected"),
    }
}

#[test]
fn copy_without_selection_does_nothing() {
    let mut app = editing_url("example.com", 3);
    let action = InputHandler::handle_key(&mut app, with(KeyCode::Char('c'), false, true, false));
    assert!(matches!(action, Action::Continue));
    assert_eq!(s(&app.url), "example.com");
    assert_eq!(app.cursor_position, 3);
}

#[test]
fn plain_key_ends_the_selection() {
    let mut app = editing_url("abc", 1);
    InputHandler::handle_key(&mut app, with(KeyCode::Right, true, false, false));
    assert_eq!(app.selection_start, Some(1));
    InputHandler::handle_key(&mut app, plain(KeyCode::Right));
    assert_eq!(app.selection_start, None);
    assert_eq!(app.cursor_position, 3);
}

#[test]
fn sanitize_strips_line_breaks_and_tabs() {
    assert_eq!(s(&sanitize_paste(&t("line1\nline2\tend"))), "line1line2end");
    assert_eq!(s(&sanitize_paste(&t("a\r\nb\nq"))), "abq");
    assert_eq!(s(&sanitize_paste(&t(""))), "");
}

#[test]
fn paste_into_empty_url_is_sanitized() {
    let mut app = editing_url("", 0);
    let action = InputHandler::handle_key(&mut app, with(KeyCode::Char('v'), false, true, false));
    assert!(matches!(action, Action::Paste));
    InputHandler::paste(&mut app, &t("line1\nline2\tend"));
    assert_eq!(s(&app.url), "line1line2end");
    assert_eq!(app.cursor_position, 13);
    assert_eq!(app.selection_start, None);
}

#[test]
fn paste_replaces_the_selection() {
    let mut app = editing_url("example.com/path", 5);
    for _ in 0..4 {
        InputHandler::handle_key(&mut app, with(KeyCode::Right, true, false, false));
    }
    InputHandler::paste(&mut app, &t("XY\n"));
    assert_eq!(s(&app.url), "exampXYom/path");
    assert_eq!(app.cursor_position, 7);
    assert_eq!(app.selection_start, None);
}

#[test]
fn paste_outside_url_editing_does_nothing() {
    let mut app = fresh();
    app.url = t("abc");
    InputHandler::paste(&mut app, &t("zzz"));
    assert_eq!(s(&app.url), "abc");
}

#[test]
fn enter_on_url_starts_editing_at_the_end() {
    let mut app = fresh();
    app.url = t("example.com");
    InputHandler::handle_key(&mut app, plain(KeyCode::Enter));
    assert_eq!(app.input_mode, InputMode::Editing(Field::Url));
    assert_eq!(app.cursor_position, 11);
}

#[test]
fn escape_leaves_editing_and_resets_the_cursor() {
    let mut app = editing_url("example.com", 4);
    InputHandler::handle_key(&mut app, plain(KeyCode::Esc));
    assert_eq!(app.input_mode, InputMode::Normal);
    assert_eq!(app.cursor_position, 0);
}

#[test]
fn enter_in_url_leaves_editing() {
    let mut app = editing_url("example.com", 4);
    InputHandler::handle_key(&mut app, plain(KeyCode::Enter));
    assert_eq!(app.input_mode, InputMode::Normal);
    assert_eq!(app.cursor_position, 0);
    assert_eq!(s(&app.url), "example.com");
}

#[test]
fn right_arrow_stops_at_the_end() {
    let mut app = editing_url("ab", 1);
    InputHandler::handle_key(&mut app, plain(KeyCode::Right));
    assert_eq!(app.cursor_position, 2);
    InputHandler::handle_key(&mut app, plain(KeyCode::Right));
    assert_eq!(app.cursor_position, 2);
}

#[test]
fn tab_in_body_inserts_four_spaces() {
    let mut app = fresh();
    app.body = t("{}");
    app.input_mode = InputMode::Editing(Field::RequestBody);
    app.cursor_position = 1;
    InputHandler::handle_key(&mut app, plain(KeyCode::Tab));
    assert_eq!(s(&app.body), "{    }");
    assert_eq!(app.cursor_position, 5);
    assert_eq!(app.input_mode, InputMode::Editing(Field::RequestBody));
}

#[test]
fn tab_in_url_leaves_editing() {
    let mut app = editing_url("ab", 1);
    InputHandler::handle_key(&mut app, plain(KeyCode::Tab));
    assert_eq!(app.input_mode, InputMode::Normal);
    assert_eq!(s(&app.url), "ab");
}

#[test]
fn enter_in_body_inserts_newline_and_updates_content_length() {
    let mut app = fresh();
    app.body = t("ab");
    app.input_mode = InputMode::Editing(Field::RequestBody);
    app.cursor_position = 1;
    InputHandler::handle_key(&mut app, plain(KeyCode::Enter));
    assert_eq!(s(&app.body), "a\nb");
    assert_eq!(app.cursor_position, 2);
    assert_eq!(app.input_mode, InputMode::Editing(Field::RequestBody));
    let row = app.headers.position(&t("Content-Length")).unwrap();
    assert_eq!(s(&app.headers.entries[row].value), "3");
}

#[test]
fn decimal_writes_numerals() {
    assert_eq!(s(&decimal(0)), "0");
    assert_eq!(s(&decimal(7)), "7");
    assert_eq!(s(&decimal(10)), "10");
    assert_eq!(s(&decimal(1234567890)), "1234567890");
    assert_eq!(s(&decimal(u128::MAX)), u128::MAX.to_string());
}

#[test]
fn byte_len_counts_utf8_bytes() {
    assert_eq!(byte_len(&t("")), 0);
    assert_eq!(byte_len(&t("abc")), 3);
    assert_eq!(byte_len(&t("é")), 2);
    assert_eq!(byte_len(&t("€")), 3);
    assert_eq!(byte_len(&t("😀")), 4);
    assert_eq!(byte_len(&t("a€😀é")) as usize, "a€😀é".len());
}

#[test]
fn text_order_is_lexicographic() {
    assert!(text_less(&t("Accept"), &t("Accept-Encoding")));
    assert!(text_less(&t("Accept-Encoding"), &t("Connection")));
    assert!(!text_less(&t("Host"), &t("Host")));
    assert!(!text_less(&t("b"), &t("a")));
    assert!(text_less(&t(""), &t("a")));
    assert!(text_less(&t("Z"), &t("a")));
    assert!(text_eq(&t("abc"), &t("abc")));
    assert!(!text_eq(&t("abc"), &t("abd")));
    assert!(text_is(&t("GET"), "GET"));
    assert!(!text_is(&t("GET"), "get"));
    assert!(starts_with(&t("https://x"), "https://"));
    assert!(!starts_with(&t("http"), "http://"));
}
