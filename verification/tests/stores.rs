use raquet::collections::{
    count_requests, create_default_collection, default_collection_at, get_request_items,
    Collection, CollectionError, CollectionInfo, CollectionItem, CollectionManager, Folder,
    Request, SavedRequest,
};
use raquet::config::AppConfig;
use raquet::headers::Header;
use raquet::history::{History, HistoryEntry, RequestData};
use raquet::http::{choose_body, format_response_body, media_type_of};
use raquet::input::{Action, InputHandler};
use raquet::model::{CollectionView, Field, HttpMethod, KeyCode, KeyEvent};
use raquet::state::{contains_request, App};

fn t(s: &str) -> Vec<char> {
    s.chars().collect()
}

fn s(text: &[char]) -> String {
    text.iter().collect()
}

fn entry(url: &str) -> HistoryEntry {
    HistoryEntry {
        timestamp: 0,
        request: RequestData { url: t(url), method: t("GET"), headers: Vec::new(), body: None },
        response: None,
    }
}

fn urls(log: &History) -> Vec<String> {
    log.get_entries().iter().map(|e| s(&e.request.url)).collect()
}

fn named(name: &str) -> Collection {
    Collection {
        info: CollectionInfo { name: t(name), description: t(""), created_at: 1 },
        requests: Vec::new(),
    }
}

fn names(m: &CollectionManager) -> Vec<String> {
    m.get_collections().iter().map(|c| s(&c.info.name)).collect()
}

fn fresh() -> App {
    App::new(AppConfig::default(), History::new(100, Vec::new()), CollectionManager::new(None))
}

fn press(app: &mut App, code: KeyCode) -> Action {
    InputHandler::handle_key(app, KeyEvent::plain(code))
}

#[test]
fn history_evicts_the_oldest_first() {
    let mut log = History::new(3, Vec::new());
    for (i, url) in ["a", "b", "c", "d", "e"].iter().enumerate() {
        log.push_entry(entry(url));
        assert!(log.get_entries().len() <= 3);
        assert_eq!(log.get_entries().len(), (i + 1).min(3));
    }
    assert_eq!(urls(&log), vec!["c", "d", "e"]);
}

#[test]
fn history_of_capacity_zero_stays_empty() {
    let mut log = History::new(0, Vec::new());
    log.push_entry(entry("a"));
    assert_eq!(log.get_entries().len(), 0);
}

#[test]
fn history_keeps_the_newest_of_what_was_kept() {
    let log = History::new(2, vec![entry("a"), entry("b"), entry("c")]);
    assert_eq!(urls(&log), vec!["b", "c"]);
    let log = History::new(5, vec![entry("a"), entry("b")]);
    assert_eq!(urls(&log), vec!["a", "b"]);
}

#[test]
fn add_entry_records_the_request() {
    let mut log = History::new(2, Vec::new());
    log.add_entry(
        t("http://x"),
        HttpMethod::PUT,
        vec![Header { key: t("A"), value: t("1"), enabled: true }],
        Some(t("body")),
        None,
    );
    assert_eq!(log.get_entries().len(), 1);
    let e = &log.get_entries()[0];
    assert_eq!(s(&e.request.url), "http://x");
    assert_eq!(s(&e.request.method), "PUT");
    assert_eq!(e.request.headers.len(), 1);
    assert_eq!(e.request.body.as_ref().map(|b| s(b)), Some("body".to_string()));
    assert!(e.timestamp > 1_600_000_000_000);
}

#[test]
fn new_store_starts_with_the_default_collection() {
    let m = CollectionManager::new(None);
    assert_eq!(names(&m), vec!["Default Collection"]);
    let c = m.get_collection(&t("Default Collection")).unwrap();
    assert_eq!(s(&c.info.description), "Default collection for saved requests");
    assert!(c.requests.is_empty());
    assert!(c.info.created_at > 1_600_000_000_000);
    let d = default_collection_at(42);
    assert_eq!(d.info.created_at, 42);
    assert_eq!(s(&create_default_collection().info.name), "Default Collection");
}

#[test]
fn kept_collections_keep_their_order() {
    let m = CollectionManager::new(Some(vec![named("b"), named("a"), named("c")]));
    assert_eq!(names(&m), vec!["b", "a", "c"]);
    let m = CollectionManager::new(Some(Vec::new()));
    assert!(m.get_collections().is_empty());
}

#[test]
fn kept_collections_with_one_name_collapse() {
    let mut second = named("a");
    second.info.description = t("later");
    let m = CollectionManager::new(Some(vec![named("a"), named("b"), second]));
    assert_eq!(names(&m), vec!["a", "b"]);
    assert_eq!(s(&m.get_collection(&t("a")).unwrap().info.description), "later");
}

#[test]
fn saving_a_request_round_trips() {
    let mut m = CollectionManager::new(None);
    let headers = vec![
        Header { key: t("Accept"), value: t("*/*"), enabled: true },
        Header { key: t("X"), value: t("Y"), enabled: false },
    ];
    let saved = m.save_request(
        &t("Default Collection"),
        &t("GET http://x"),
        &t("GET"),
        &t("http://x"),
        &headers,
        &t("{}"),
    );
    assert_eq!(saved, Ok(()));
    let c = m.get_collection(&t("Default Collection")).unwrap();
    assert_eq!(c.requests.len(), 1);
    match &c.requests[0] {
        CollectionItem::Request(r) => {
            assert_eq!(s(&r.name), "GET http://x");
            assert_eq!(s(&r.request.method), "GET");
            assert_eq!(s(&r.request.url), "http://x");
            assert_eq!(r.request.body.as_ref().map(|b| s(b)), Some("{}".to_string()));
            assert_eq!(r.request.headers.len(), 2);
            assert_eq!(s(&r.request.headers[1].key), "X");
            assert_eq!(s(&r.request.headers[1].value), "Y");
        },
        CollectionItem::Folder(_) => panic!("request expected"),
    }
}

#[test]
fn saving_into_a_missing_collection_fails() {
    let mut m = CollectionManager::new(None);
    let saved = m.save_request(&t("nope"), &t("n"), &t("GET"), &t("u"), &Vec::new(), &t(""));
    assert_eq!(saved, Err(CollectionError::NotFound));
    assert_eq!(names(&m), vec!["Default Collection"]);
    assert!(m.get_collection(&t("Default Collection")).unwrap().requests.is_empty());
    assert!(m.get_collection(&t("nope")).is_none());
}

#[test]
fn save_collection_replaces_by_name_and_stamps() {
    let mut m = CollectionManager::new(Some(vec![named("a"), named("b")]));
    let mut again = named("a");
    again.info.description = t("new");
    again.info.created_at = 7;
    m.save_collection(again);
    assert_eq!(names(&m), vec!["a", "b"]);
    assert_eq!(s(&m.get_collections()[0].info.description), "new");
    assert!(m.get_collections()[0].info.created_at > 1_600_000_000_000);
    m.save_collection(named("c"));
    assert_eq!(names(&m), vec!["a", "b", "c"]);
    m.put_collection(named("d"));
    assert_eq!(m.get_collections()[3].info.created_at, 1);
    assert_eq!(m.find(&t("c")), 2);
    assert_eq!(m.find(&t("zz")), 4);
}

#[test]
fn delete_collection_removes_by_name() {
    let mut m = CollectionManager::new(Some(vec![named("a"), named("b"), named("c")]));
    m.delete_collection(&t("b"));
    assert_eq!(names(&m), vec!["a", "c"]);
    m.delete_collection(&t("b"));
    assert_eq!(names(&m), vec!["a", "c"]);
}

#[test]
fn save_dialog_saves_the_request_being_composed() {
    let mut app = fresh();
    app.url = t("http://example.com/a");
    app.method = HttpMethod::POST;
    app.body = t("hi");
    app.active_field = Field::SaveButton;
    press(&mut app, KeyCode::Enter);
    assert!(app.save_dialog_visible);
    let action = press(&mut app, KeyCode::Enter);
    assert!(matches!(action, Action::Persist));
    assert!(!app.save_dialog_visible);
    let c = app.collection_manager.get_collection(&t("Default Collection")).unwrap();
    assert_eq!(c.requests.len(), 1);
    match &c.requests[0] {
        CollectionItem::Request(r) => {
            assert_eq!(s(&r.name), "POST http://example.com/a");
            assert_eq!(s(&r.request.method), "POST");
            assert_eq!(s(&r.request.url), "http://example.com/a");
            assert_eq!(r.request.body.as_ref().map(|b| s(b)), Some("hi".to_string()));
            assert_eq!(r.request.headers.len(), 8);
        },
        CollectionItem::Folder(_) => panic!("request expected"),
    }
    app.selected_collection = Some(t("Default Collection"));
    assert!(app.is_request_in_collection());
    app.method = HttpMethod::GET;
    assert!(!app.is_request_in_collection());
}

#[test]
fn save_dialog_without_collections_only_closes() {
    let mut app = App::new(
        AppConfig::default(),
        History::new(100, Vec::new()),
        CollectionManager::new(Some(Vec::new())),
    );
    app.url = t("http://example.com");
    app.save_dialog_visible = true;
    press(&mut app, KeyCode::Down);
    press(&mut app, KeyCode::Up);
    assert_eq!(app.save_dialog_selected_index, 0);
    let action = press(&mut app, KeyCode::Enter);
    assert!(matches!(action, Action::Continue));
    assert!(!app.save_dialog_visible);
    assert!(app.collection_manager.get_collections().is_empty());
}

#[test]
fn save_to_collection_reports_a_missing_collection() {
    let mut app = fresh();
    assert_eq!(app.save_to_collection(&t("nope")), Err(CollectionError::NotFound));
    assert_eq!(app.save_to_collection(&t("Default Collection")), Ok(()));
}

#[test]
fn collections_browser_opens_and_closes() {
    let mut app = App::new(
        AppConfig::default(),
        History::new(100, Vec::new()),
        CollectionManager::new(Some(vec![named("a"), named("b")])),
    );
    app.show_collections = true;
    app.active_field = Field::Collections;
    press(&mut app, KeyCode::Down);
    assert_eq!(app.collection_selected_index, 1);
    press(&mut app, KeyCode::Down);
    assert_eq!(app.collection_selected_index, 0);
    press(&mut app, KeyCode::Up);
    assert_eq!(app.collection_selected_index, 0);
    press(&mut app, KeyCode::Down);
    press(&mut app, KeyCode::Enter);
    assert_eq!(app.collection_view, CollectionView::Requests);
    assert_eq!(app.selected_collection.as_ref().map(|n| s(n)), Some("b".to_string()));
    assert_eq!(app.request_selected_index, 0);
    press(&mut app, KeyCode::Down);
    assert_eq!(app.request_selected_index, 0);
    press(&mut app, KeyCode::Esc);
    assert_eq!(app.collection_view, CollectionView::List);
    assert!(app.selected_collection.is_none());
    assert!(app.show_collections);
    press(&mut app, KeyCode::Esc);
    assert!(!app.show_collections);
    assert_eq!(app.active_field, Field::NavPanel);
}

#[test]
fn collections_browser_deletes_the_selected_collection() {
    let mut app = App::new(
        AppConfig::default(),
        History::new(100, Vec::new()),
        CollectionManager::new(Some(vec![named("a"), named("b")])),
    );
    app.show_collections = true;
    app.collection_selected_index = 1;
    let action = press(&mut app, KeyCode::Char('d'));
    assert!(matches!(action, Action::Persist));
    assert_eq!(names(&app.collection_manager), vec!["a"]);
    let action = press(&mut app, KeyCode::Char('d'));
    assert!(matches!(action, Action::Continue));
    assert_eq!(names(&app.collection_manager), vec!["a"]);
    let action = press(&mut app, KeyCode::Char('n'));
    assert!(matches!(action, Action::Continue));
}

#[test]
fn contains_request_skips_folders() {
    let items = vec![
        CollectionItem::Folder(Folder { name: t("f"), item: Vec::new() }),
        CollectionItem::Request(SavedRequest {
            name: t("r"),
            request: Request { method: t("GET"), url: t("u"), headers: Vec::new(), body: None },
        }),
    ];
    assert!(contains_request(&items, &t("GET"), &t("u")));
    assert!(!contains_request(&items, &t("POST"), &t("u")));
    assert!(!contains_request(&Vec::new(), &t("GET"), &t("u")));
}

#[test]
fn json_bodies_are_laid_out() {
    assert_eq!(
        format_response_body("application/json", "{\"a\":1,\"b\":[true,null]}"),
        "{\n  \"a\": 1,\n  \"b\": [\n    true,\n    null\n  ]\n}"
    );
    assert_eq!(
        format_response_body(" application/json ; charset=utf-8", "[1]"),
        "[\n  1\n]"
    );
    assert_eq!(format_response_body("application/json", "not json"), "not json");
    assert_eq!(format_response_body("text/plain", "{\"a\":1}"), "{\"a\":1}");
    assert_eq!(format_response_body("", "{\"a\":1}"), "{\"a\":1}");
    assert_eq!(format_response_body("Application/JSON", "[1]"), "[1]");
    assert_eq!(format_response_body(";application/json", "[1]"), "[1]");
}

#[test]
fn media_type_is_trimmed() {
    assert_eq!(s(&media_type_of(&t("  text/html ; q=1"))), "text/html");
    assert_eq!(s(&media_type_of(&t("   "))), "");
    assert_eq!(s(&media_type_of(&t("a b"))), "a b");
    assert_eq!(s(&media_type_of(&t("\u{a0}x\t;"))), "x");
    assert_eq!(choose_body("application/json", "raw", Some("laid".to_string())), "laid");
    assert_eq!(choose_body("application/json", "raw", None), "raw");
    assert_eq!(choose_body("text/css", "raw", Some("laid".to_string())), "raw");
}

#[test]
fn collection_names_are_checked() {
    let mut m = CollectionManager::new(Some(vec![named("a"), named("b")]));
    assert!(m.is_well_formed());
    m.collections.push(named("a"));
    assert!(!m.is_well_formed());
    assert!(CollectionManager::empty().is_well_formed());
}

fn saved(name: &str, method: &str) -> CollectionItem {
    CollectionItem::Request(SavedRequest {
        name: t(name),
        request: Request { method: t(method), url: t("u"), headers: Vec::new(), body: None },
    })
}

#[test]
fn requests_are_counted_through_folders() {
    let items = vec![
        saved("a", "GET"),
        CollectionItem::Folder(Folder {
            name: t("f"),
            item: vec![
                saved("b", "POST"),
                CollectionItem::Folder(Folder { name: t("g"), item: vec![saved("c", "PUT")] }),
                CollectionItem::Folder(Folder { name: t("h"), item: Vec::new() }),
            ],
        }),
        saved("d", "DELETE"),
    ];
    assert_eq!(count_requests(&items), 4);
    assert_eq!(count_requests(&Vec::new()), 0);
    let labels: Vec<(String, String)> =
        get_request_items(&items).iter().map(|(n, m)| (s(n), s(m))).collect();
    assert_eq!(
        labels,
        vec![("a".to_string(), "GET".to_string()), ("d".to_string(), "DELETE".to_string())]
    );
}
