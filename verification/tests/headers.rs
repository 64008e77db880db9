use raquet::collections::CollectionManager;
use raquet::config::{
    default_history_size, default_max_response_size, default_timeout, AppConfig, AppSettings,
};
use raquet::headers::{Header, HeaderList};
use raquet::history::History;
use raquet::input::{Action, InputHandler};
use raquet::model::{Field, HeaderEditState, KeyCode, KeyEvent};
use raquet::state::App;

fn t(s: &str) -> Vec<char> {
    s.chars().collect()
}

fn s(text: &[char]) -> String {
    text.iter().collect()
}

fn keys(list: &HeaderList) -> Vec<String> {
    list.entries.iter().map(|h| s(&h.key)).collect()
}

fn bare() -> App {
    let mut config = AppConfig::default();
    config.app.default_headers = HeaderList::new();
    App::new(config, History::new(100, Vec::new()), CollectionManager::new(None))
}

fn with_headers(pairs: &[(&str, &str)]) -> App {
    let mut app = bare();
    for (k, v) in pairs {
        app.headers.store(t(k), t(v), Some(true));
    }
    app.active_field = Field::Headers;
    app
}

fn press(app: &mut App, code: KeyCode) -> Action {
    InputHandler::handle_key(app, KeyEvent::plain(code))
}

fn type_text(app: &mut App, text: &str) {
    for c in text.chars() {
        press(app, KeyCode::Char(c));
    }
}

#[test]
fn store_keeps_names_sorted() {
    let mut list = HeaderList::new();
    assert_eq!(list.store(t("Host"), t("a"), None), 0);
    assert_eq!(list.store(t("Accept"), t("b"), None), 0);
    assert_eq!(list.store(t("User-Agent"), t("c"), None), 2);
    assert_eq!(list.store(t("Connection"), t("d"), None), 1);
    assert_eq!(keys(&list), vec!["Accept", "Connection", "Host", "User-Agent"]);
    assert!(list.entries.iter().all(|h| h.enabled));
}

#[test]
fn store_replaces_a_value_in_place() {
    let mut list = HeaderList::new();
    list.store(t("A"), t("1"), None);
    list.store(t("B"), t("2"), None);
    list.toggle_at(1);
    assert_eq!(list.store(t("B"), t("3"), None), 1);
    assert_eq!(list.len(), 2);
    assert_eq!(s(&list.entries[1].value), "3");
    assert!(!list.entries[1].enabled);
    list.store(t("B"), t("4"), Some(true));
    assert!(list.entries[1].enabled);
    assert_eq!(s(&list.entries[1].value), "4");
}

#[test]
fn names_are_case_sensitive() {
    let mut list = HeaderList::new();
    list.store(t("host"), t("1"), None);
    list.store(t("Host"), t("2"), None);
    assert_eq!(keys(&list), vec!["Host", "host"]);
    assert_eq!(list.position(&t("HOST")), None);
    assert_eq!(list.position(&t("host")), Some(1));
    assert_eq!(list.find_slot(&t("Zed")), 1);
}

#[test]
fn absent_header_counts_as_enabled() {
    let mut list = HeaderList::new();
    assert!(list.is_enabled(&t("X")));
    list.store(t("X"), t("1"), Some(false));
    assert!(!list.is_enabled(&t("X")));
    assert!(list.is_enabled(&t("Y")));
}

#[test]
fn toggling_twice_restores_the_flag() {
    let mut app = with_headers(&[("A", "1"), ("B", "2")]);
    app.selected_header_index = 1;
    assert!(app.headers.entries[1].enabled);
    press(&mut app, KeyCode::Char(' '));
    assert!(!app.headers.entries[1].enabled);
    assert!(app.headers.entries[0].enabled);
    press(&mut app, KeyCode::Char(' '));
    assert!(app.headers.entries[1].enabled);
    assert_eq!(keys(&app.headers), vec!["A", "B"]);
}

#[test]
fn toggle_on_the_add_row_does_nothing() {
    let mut app = with_headers(&[("A", "1")]);
    app.selected_header_index = 1;
    press(&mut app, KeyCode::Char(' '));
    assert!(app.headers.entries[0].enabled);
    assert_eq!(app.headers.len(), 1);
}

#[test]
fn adding_a_header_stores_it_in_order() {
    let mut app = with_headers(&[("Accept", "*/*"), ("Zeta", "z")]);
    press(&mut app, KeyCode::Char('n'));
    assert_eq!(app.header_edit_state, HeaderEditState::EditingKey);
    assert_eq!(app.selected_header_index, 2);
    type_text(&mut app, "X");
    press(&mut app, KeyCode::Enter);
    assert_eq!(app.header_edit_state, HeaderEditState::EditingValue);
    type_text(&mut app, "Y");
    press(&mut app, KeyCode::Enter);
    assert_eq!(app.header_edit_state, HeaderEditState::Selecting);
    assert_eq!(keys(&app.headers), vec!["Accept", "X", "Zeta"]);
    assert_eq!(app.selected_header_index, 1);
    let row = app.headers.position(&t("X")).unwrap();
    assert_eq!(s(&app.headers.entries[row].value), "Y");
    assert!(app.headers.entries[row].enabled);
    assert!(app.headers.is_enabled(&t("X")));
}

#[test]
fn letters_n_and_d_and_space_are_typed_while_editing() {
    let mut app = with_headers(&[]);
    press(&mut app, KeyCode::Char('n'));
    type_text(&mut app, "and d");
    assert_eq!(s(&app.header_edit_key), "and d");
    assert_eq!(app.header_key_cursor, 5);
    assert_eq!(app.headers.len(), 0);
}

#[test]
fn committing_an_empty_name_stores_nothing() {
    let mut app = with_headers(&[("A", "1")]);
    press(&mut app, KeyCode::Char('n'));
    press(&mut app, KeyCode::Enter);
    type_text(&mut app, "value");
    press(&mut app, KeyCode::Enter);
    assert_eq!(app.header_edit_state, HeaderEditState::Selecting);
    assert_eq!(keys(&app.headers), vec!["A"]);
}

#[test]
fn escape_abandons_a_header_edit() {
    let mut app = with_headers(&[("A", "1")]);
    press(&mut app, KeyCode::Char('n'));
    type_text(&mut app, "Q");
    press(&mut app, KeyCode::Esc);
    assert_eq!(app.header_edit_state, HeaderEditState::Selecting);
    assert_eq!(keys(&app.headers), vec!["A"]);
    assert_eq!(app.header_key_cursor, 0);
    assert_eq!(app.header_value_cursor, 0);
}

#[test]
fn enter_on_a_row_edits_that_header() {
    let mut app = with_headers(&[("A", "1"), ("B", "22")]);
    app.selected_header_index = 1;
    press(&mut app, KeyCode::Enter);
    assert_eq!(app.header_edit_state, HeaderEditState::EditingKey);
    assert_eq!(s(&app.header_edit_key), "B");
    assert_eq!(s(&app.header_edit_value), "22");
    assert_eq!(app.header_key_cursor, 1);
    assert_eq!(app.header_value_cursor, 2);
    press(&mut app, KeyCode::Enter);
    press(&mut app, KeyCode::Backspace);
    type_text(&mut app, "3");
    press(&mut app, KeyCode::Enter);
    assert_eq!(s(&app.headers.entries[1].value), "23");
    assert_eq!(app.selected_header_index, 1);
}

#[test]
fn placeholder_header_is_dropped_when_its_name_is_confirmed() {
    let mut app = with_headers(&[("A", "1"), ("zzz_new_header_1", "")]);
    app.selected_header_index = 1;
    app.header_edit_state = HeaderEditState::EditingKey;
    app.header_edit_key = t("Real");
    press(&mut app, KeyCode::Enter);
    assert_eq!(app.header_edit_state, HeaderEditState::EditingValue);
    assert_eq!(keys(&app.headers), vec!["A"]);
}

#[test]
fn deleting_the_first_of_three_leaves_two() {
    let mut app = with_headers(&[("A", "1"), ("B", "2"), ("C", "3")]);
    app.selected_header_index = 0;
    press(&mut app, KeyCode::Char('d'));
    assert_eq!(app.headers.len(), 2);
    assert_eq!(app.selected_header_index, 0);
    assert_eq!(keys(&app.headers), vec!["B", "C"]);
    assert!(app.headers.is_enabled(&t("A")));
    assert_eq!(app.headers.position(&t("A")), None);
}

#[test]
fn deleting_a_later_row_moves_the_selection_up() {
    let mut app = with_headers(&[("A", "1"), ("B", "2"), ("C", "3")]);
    app.selected_header_index = 2;
    press(&mut app, KeyCode::Char('d'));
    assert_eq!(keys(&app.headers), vec!["A", "B"]);
    assert_eq!(app.selected_header_index, 1);
}

#[test]
fn deleting_the_last_header_leaves_the_add_row() {
    let mut app = with_headers(&[("A", "1")]);
    press(&mut app, KeyCode::Char('d'));
    assert_eq!(app.headers.len(), 0);
    assert_eq!(app.selected_header_index, 0);
    press(&mut app, KeyCode::Char('d'));
    assert_eq!(app.headers.len(), 0);
    assert_eq!(app.selected_header_index, 0);
}

#[test]
fn header_selection_is_clamped() {
    let mut app = with_headers(&[("A", "1"), ("B", "2")]);
    press(&mut app, KeyCode::Up);
    assert_eq!(app.selected_header_index, 0);
    press(&mut app, KeyCode::Down);
    press(&mut app, KeyCode::Down);
    assert_eq!(app.selected_header_index, 2);
    press(&mut app, KeyCode::Down);
    assert_eq!(app.selected_header_index, 2);
    press(&mut app, KeyCode::Up);
    assert_eq!(app.selected_header_index, 1);
}

#[test]
fn ordered_headers_come_with_their_flags() {
    let mut app = with_headers(&[("B", "2"), ("A", "1")]);
    app.headers.toggle_at(0);
    let rows = app.get_ordered_headers();
    assert_eq!(rows.len(), 2);
    assert_eq!(s(&rows[0].key), "A");
    assert_eq!(s(&rows[0].value), "1");
    assert!(!rows[0].enabled);
    assert_eq!(s(&rows[1].key), "B");
    assert!(rows[1].enabled);
}

#[test]
fn update_request_body_sets_content_length() {
    let mut app = bare();
    app.update_request_body(t("héllo"));
    assert_eq!(s(&app.body), "héllo");
    let row = app.headers.position(&t("Content-Length")).unwrap();
    assert_eq!(s(&app.headers.entries[row].value), "6");
    assert!(app.headers.entries[row].enabled);
}

#[test]
fn stock_settings() {
    assert_eq!(default_timeout(), 30);
    assert_eq!(default_max_response_size(), 10 * 1024 * 1024);
    assert_eq!(default_history_size(), 100);
    let settings = AppSettings::default();
    assert_eq!(settings.timeout_seconds, 30);
    assert_eq!(settings.max_response_size, 10485760);
    assert_eq!(settings.history_size, 100);
    assert!(settings.default_url.is_empty());
    assert_eq!(
        keys(&settings.default_headers),
        vec![
            "Accept",
            "Accept-Encoding",
            "Connection",
            "Content-Length",
            "Content-Type",
            "Host",
            "Random-Token",
            "User-Agent",
        ]
    );
    let row = settings.default_headers.position(&t("User-Agent")).unwrap();
    assert_eq!(s(&settings.default_headers.entries[row].value), "raquet/1.0");
}

#[test]
fn load_without_a_file_gives_the_stock_settings() {
    let config = AppConfig::load(None);
    assert_eq!(config.app.history_size, 100);
    assert_eq!(config.app.default_headers.len(), 8);
    assert_eq!(config.default_headers.len(), 0);
}

#[test]
fn load_stores_top_level_headers_over_the_settings() {
    let mut app_headers = HeaderList::new();
    app_headers.store(t("Accept"), t("*/*"), None);
    app_headers.store(t("X-One"), t("1"), None);
    let mut top = HeaderList::new();
    top.store(t("Accept"), t("text/plain"), None);
    top.store(t("X-Two"), t("2"), None);
    let parsed = AppConfig {
        app: AppSettings {
            timeout_seconds: 5,
            max_response_size: 1000,
            history_size: 3,
            default_url: t("http://localhost"),
            default_headers: app_headers,
        },
        default_headers: top,
    };
    let config = AppConfig::load(Some(parsed));
    assert_eq!(config.app.timeout_seconds, 5);
    assert_eq!(config.app.history_size, 3);
    assert_eq!(s(&config.app.default_url), "http://localhost");
    assert_eq!(keys(&config.app.default_headers), vec!["Accept", "X-One", "X-Two"]);
    assert_eq!(s(&config.app.default_headers.entries[0].value), "text/plain");
    assert_eq!(config.default_headers.len(), 2);
}

#[test]
fn new_state_carries_the_settings_headers() {
    let app = App::new(
        AppConfig::default(),
        History::new(100, Vec::new()),
        CollectionManager::new(None),
    );
    assert_eq!(app.headers.len(), 8);
    assert!(app.headers.entries.iter().all(|h| h.enabled));
    assert!(app.url.is_empty());
    assert_eq!(app.active_field, Field::Url);
    assert!(app.response.is_none());
}

#[test]
fn load_rebuilds_headers_with_old_switches() {
    let mut before = HeaderList::new();
    before.store(t("A"), t("old"), Some(false));
    let pairs = vec![
        Header { key: t("B"), value: t("1"), enabled: true },
        Header { key: t("A"), value: t("2"), enabled: true },
        Header { key: t("B"), value: t("3"), enabled: true },
    ];
    let list = HeaderList::load(&pairs, &before);
    assert_eq!(keys(&list), vec!["A", "B"]);
    assert_eq!(s(&list.entries[0].value), "2");
    assert!(!list.entries[0].enabled);
    assert_eq!(s(&list.entries[1].value), "3");
    assert!(list.entries[1].enabled);
}

#[test]
fn well_formedness_is_checked() {
    let mut list = HeaderList::new();
    assert!(list.is_well_formed());
    list.store(t("B"), t("1"), None);
    list.store(t("A"), t("2"), None);
    list.store(t("C"), t("3"), None);
    assert!(list.is_well_formed());
    list.entries.swap(0, 1);
    assert!(!list.is_well_formed());
    list.entries.swap(0, 1);
    list.entries.push(Header { key: t("C"), value: t("again"), enabled: true });
    assert!(!list.is_well_formed());
    let mut app = with_headers(&[("A", "1")]);
    assert!(app.is_well_formed());
    app.headers.entries.push(Header { key: t("A"), value: t("x"), enabled: true });
    assert!(!app.is_well_formed());
}

#[test]
fn state_methods_forward_to_the_handlers() {
    let mut app = with_headers(&[("A", "1")]);
    app.active_field = Field::Url;
    let action = app.handle_key(KeyEvent::plain(KeyCode::Tab));
    assert!(matches!(action, Action::Continue));
    assert_eq!(app.active_field, Field::SendButton);
    app.url = t("example.org/a");
    let request = app.send_request();
    assert_eq!(s(&request.url), "http://example.org/a");
    assert_eq!(s(&app.url), "http://example.org/a");
    let row = app.headers.position(&t("Host")).unwrap();
    assert_eq!(s(&app.headers.entries[row].value), "example.org");
}
