//! The one object that a session works on: the request being composed, the
//! focus, the editors' scratch state, the overlays, the last response, and
//! the stores.

use vstd::prelude::*;
use crate::collections::{request_saved, CollectionError, CollectionItem, CollectionManager};
use crate::config::AppConfig;
use crate::headers::{merged, stored, Header, HeaderList, HeaderView};
use crate::history::History;
use crate::model::{
    CollectionView, CollectionsFocus, Emphasis, Field, HeaderEditState, HttpMethod, InputMode,
    NavItem,
};
use crate::text::{byte_len, decimal, decimal_digits, join, text_eq, text_of, utf8_size};

verus! {

/// What is known of the last completed exchange.
#[derive(Debug)]
pub struct ResponseMetadata {
    pub status: u16,
    pub status_text: String,
    pub time_ms: u128,
    pub size_bytes: usize,
    pub response_headers: Vec<(String, String)>,
    pub timestamp: i64,
}

/// The overlay that owns the keyboard.
#[derive(Debug, Clone, Copy, PartialEq, Eq, Structural)]
pub enum Overlay {
    Closed,
    Collections(CollectionView),
    MethodSelector,
    SaveDialog,
}

/// The state of a session.
#[derive(Debug)]
pub struct App {
    pub url: Vec<char>,
    pub method: HttpMethod,
    pub headers: HeaderList,
    pub body: Vec<char>,
    pub input_mode: InputMode,
    pub active_field: Field,
    pub cursor_position: usize,
    pub response: Option<String>,
    pub response_metadata: Option<ResponseMetadata>,
    pub response_scroll: u16,
    pub show_history: bool,
    pub history_selected_index: usize,
    pub show_method_selector: bool,
    pub selector_method_index: usize,
    pub nav_selected: NavItem,
    pub header_edit_state: HeaderEditState,
    pub selected_header_index: usize,
    pub header_edit_key: Vec<char>,
    pub header_edit_value: Vec<char>,
    pub headers_scroll: u16,
    pub config: AppConfig,
    pub history: History,
    pub collection_manager: CollectionManager,
    pub show_collections: bool,
    pub collections_focus: CollectionsFocus,
    pub show_collection_selector: bool,
    pub selector_collection_index: usize,
    pub collection_view: CollectionView,
    pub selected_collection: Option<Vec<char>>,
    pub selected_request: Option<Vec<char>>,
    pub collection_selected_index: usize,
    pub request_selected_index: usize,
    pub header_key_cursor: usize,
    pub header_value_cursor: usize,
    pub save_dialog_visible: bool,
    pub save_dialog_selected_index: usize,
    pub selection_start: Option<usize>,
}

/// The text of the `Content-Length` header for a body.
pub open spec fn length_text(body: Seq<char>) -> Seq<char> {
    decimal_digits(utf8_size(body))
}

/// The name under which a request is saved: its method, a space, its URL.
pub open spec fn saved_name(method: HttpMethod, url: Seq<char>) -> Seq<char> {
    method.name() + " "@ + url
}

/// Whether one of the items is a saved request with this method and URL.
pub open spec fn holds_request(items: Seq<CollectionItem>, method: Seq<char>, url: Seq<char>) -> bool {
    exists|i: int|
        0 <= i < items.len() && match #[trigger] items[i] {
            CollectionItem::Request(saved) => saved.request.method@ == method
                && saved.request.url@ == url,
            CollectionItem::Folder(_) => false,
        }
}

/// Whether one of the items is a saved request with this method and URL.
pub fn contains_request(items: &Vec<CollectionItem>, method: &Vec<char>, url: &Vec<char>) -> (yes:
    bool)
    ensures
        yes == holds_request(items@, method@, url@),
{
    let mut i: usize = 0;
    while i < items.len()
        invariant
            i <= items@.len(),
            !holds_request(items@.subrange(0, i as int), method@, url@),
        decreases items@.len() - i,
    {
        match &items[i] {
            CollectionItem::Request(saved) => {
                if text_eq(&saved.request.method, method) && text_eq(&saved.request.url, url) {
                    assert(holds_request(items@, method@, url@)) by {
                        assert(items@[i as int] is Request);
                    }
                    return true;
                }
            },
            CollectionItem::Folder(_) => {},
        }
        proof {
            let shorter = items@.subrange(0, i as int);
            let longer = items@.subrange(0, i + 1);
            if holds_request(longer, method@, url@) {
                let k = choose|k: int|
                    0 <= k < longer.len() && match #[trigger] longer[k] {
                        CollectionItem::Request(saved) => saved.request.method@ == method@
                            && saved.request.url@ == url@,
                        CollectionItem::Folder(_) => false,
                    };
                if k < i {
                    assert(shorter[k] == longer[k]);
                }
            }
        }
        i = i + 1;
    }
    assert(items@.subrange(0, i as int) =~= items@);
    false
}

impl App {
    /// The headers are sorted without a repeated name, and no two collections
    /// share a name.
    pub open spec fn well_formed(&self) -> bool {
        self.headers.well_formed() && self.collection_manager.well_formed()
    }

    /// Every cursor lies inside the text it belongs to, and the header
    /// selection on a header row or on the row behind the last.
    pub open spec fn in_bounds(&self) -> bool {
        &&& self.input_mode == InputMode::Editing(Field::Url) ==> self.cursor_position
            <= self.url@.len()
        &&& self.input_mode == InputMode::Editing(Field::RequestBody) ==> self.cursor_position
            <= self.body@.len()
        &&& self.header_key_cursor <= self.header_edit_key@.len()
        &&& self.header_value_cursor <= self.header_edit_value@.len()
        &&& self.selected_header_index <= self.headers@.len()
    }

    /// Whether the headers are sorted without a repeated name and no two
    /// collections share a name.
    pub fn is_well_formed(&self) -> (ok: bool)
        ensures
            ok == self.well_formed(),
    {
        self.headers.is_well_formed() && self.collection_manager.is_well_formed()
    }

    /// The overlay that owns the keyboard: of several that are flagged as
    /// shown, the collections browser comes before the method selector, and
    /// that before the save dialog.
    pub open spec fn overlay(&self) -> Overlay {
        if self.show_collections {
            Overlay::Collections(self.collection_view)
        } else if self.show_method_selector {
            Overlay::MethodSelector
        } else if self.save_dialog_visible {
            Overlay::SaveDialog
        } else {
            Overlay::Closed
        }
    }

    /// How much `field` stands out: most while it is edited, less while it
    /// has the focus.
    pub open spec fn emphasis(&self, field: Field) -> Emphasis {
        if self.input_mode == InputMode::Editing(field) {
            Emphasis::Editing
        } else if self.active_field == field {
            Emphasis::Active
        } else {
            Emphasis::Idle
        }
    }

    /// How much `field` stands out on screen.
    pub fn style_for_field(&self, field: Field) -> (e: Emphasis)
        ensures
            e == self.emphasis(field),
    {
        if self.input_mode == InputMode::Editing(field) {
            Emphasis::Editing
        } else if self.active_field == field {
            Emphasis::Active
        } else {
            Emphasis::Idle
        }
    }

    /// The overlay that owns the keyboard.
    pub fn capturing_overlay(&self) -> (o: Overlay)
        ensures
            o == self.overlay(),
    {
        if self.show_collections {
            Overlay::Collections(self.collection_view)
        } else if self.show_method_selector {
            Overlay::MethodSelector
        } else if self.save_dialog_visible {
            Overlay::SaveDialog
        } else {
            Overlay::Closed
        }
    }

    /// The state at the start of a session: an empty GET request that carries
    /// the settings' headers, all switched on; the focus on the URL; no
    /// overlay, no selection, no response.
    pub fn new(config: AppConfig, history: History, collection_manager: CollectionManager) -> (app:
        App)
        requires
            collection_manager.well_formed(),
        ensures
            app.well_formed(),
            app.in_bounds(),
            app.url@.len() == 0,
            app.body@.len() == 0,
            app.method == HttpMethod::GET,
            app.headers@ == merged(Seq::empty(), config.app.default_headers@),
            app.input_mode == InputMode::Normal,
            app.active_field == Field::Url,
            app.cursor_position == 0,
            app.selection_start is None,
            app.response is None,
            app.response_metadata is None,
            app.overlay() == Overlay::Closed,
            !app.show_history,
            app.nav_selected == NavItem::Collections,
            app.header_edit_state == HeaderEditState::Selecting,
            app.selected_header_index == 0,
            app.header_edit_key@.len() == 0,
            app.header_edit_value@.len() == 0,
            app.selected_collection is None,
            app.selected_request is None,
            app.collection_view == CollectionView::List,
            app.collections_focus == CollectionsFocus::List,
            !app.show_collection_selector,
            app.history_selected_index == 0,
            app.selector_method_index == 0,
            app.selector_collection_index == 0,
            app.collection_selected_index == 0,
            app.request_selected_index == 0,
            app.save_dialog_selected_index == 0,
            app.header_key_cursor == 0,
            app.header_value_cursor == 0,
            app.response_scroll == 0,
            app.headers_scroll == 0,
            app.config == config,
            app.history == history,
            app.collection_manager == collection_manager,
    {
        let mut headers = HeaderList::new();
        assert(config.app.default_headers.entries.deep_view() =~= config.app.default_headers@);
        headers.merge(&config.app.default_headers.entries);
        App {
            url: Vec::new(),
            method: HttpMethod::GET,
            headers,
            body: Vec::new(),
            input_mode: InputMode::Normal,
            active_field: Field::Url,
            cursor_position: 0,
            response: None,
            response_metadata: None,
            response_scroll: 0,
            show_history: false,
            history_selected_index: 0,
            show_method_selector: false,
            selector_method_index: 0,
            nav_selected: NavItem::Collections,
            header_edit_state: HeaderEditState::Selecting,
            selected_header_index: 0,
            header_edit_key: Vec::new(),
            header_edit_value: Vec::new(),
            headers_scroll: 0,
            config,
            history,
            collection_manager,
            show_collections: false,
            collections_focus: CollectionsFocus::List,
            show_collection_selector: false,
            selector_collection_index: 0,
            collection_view: CollectionView::List,
            selected_collection: None,
            selected_request: None,
            collection_selected_index: 0,
            request_selected_index: 0,
            header_key_cursor: 0,
            header_value_cursor: 0,
            save_dialog_visible: false,
            save_dialog_selected_index: 0,
            selection_start: None,
        }
    }

    /// The headers in the order of their names, each with its switch.
    pub fn get_ordered_headers(&self) -> (rows: Vec<Header>)
        ensures
            rows.deep_view() == self.headers@,
    {
        let list = self.headers.duplicate();
        assert(list.entries.deep_view() =~= list@);
        list.entries
    }

    /// Whether the collection that is open holds a request with the method
    /// and URL of the request being composed.
    pub fn is_request_in_collection(&self) -> (yes: bool)
        ensures
            yes == match self.selected_collection {
                Some(name) => {
                    let at = crate::collections::first_named(
                        self.collection_manager.collections@,
                        name@,
                    );
                    at < self.collection_manager.collections@.len() && holds_request(
                        self.collection_manager.collections@[at].requests@,
                        self.method.name(),
                        self.url@,
                    )
                },
                None => false,
            },
    {
        match &self.selected_collection {
            None => false,
            Some(name) => {
                match self.collection_manager.get_collection(name) {
                    None => false,
                    Some(collection) => {
                        let method = text_of(self.method.as_str());
                        contains_request(&collection.requests, &method, &self.url)
                    },
                }
            },
        }
    }

    /// Saves the request being composed, with all its headers, into the
    /// collection named `collection_name`, under its method and URL as name.
    pub fn save_to_collection(&mut self, collection_name: &Vec<char>) -> (saved: Result<
        (),
        CollectionError,
    >)
        requires
            old(self).well_formed(),
        ensures
            final(self).well_formed(),
            *final(self) == (App {
                collection_manager: final(self).collection_manager,
                ..*old(self)
            }),
            request_saved(
                old(self).collection_manager.collections@,
                final(self).collection_manager.collections@,
                saved,
                collection_name@,
                saved_name(old(self).method, old(self).url@),
                old(self).method.name(),
                old(self).url@,
                old(self).headers@,
                old(self).body@,
            ),
    {
        let method = text_of(self.method.as_str());
        let request_name = join(&join(&method, &text_of(" ")), &self.url);
        assert(self.headers.entries.deep_view() =~= self.headers@);
        self.collection_manager.save_request(
            collection_name,
            &request_name,
            &method,
            &self.url,
            &self.headers.entries,
            &self.body,
        )
    }

    /// Replaces the body and brings the `Content-Length` header in line with
    /// it.
    pub fn update_request_body(&mut self, new_body: Vec<char>)
        requires
            old(self).well_formed(),
        ensures
            final(self).well_formed(),
            *final(self) == (App { body: new_body, headers: final(self).headers, ..*old(self) }),
            final(self).headers@ == stored(
                old(self).headers@,
                "Content-Length"@,
                length_text(new_body@),
                None,
            ),
    {
        self.body = new_body;
        self.refresh_content_length();
    }

    /// Brings the `Content-Length` header in line with the body.
    pub fn refresh_content_length(&mut self)
        requires
            old(self).well_formed(),
        ensures
            final(self).well_formed(),
            *final(self) == (App { headers: final(self).headers, ..*old(self) }),
            final(self).headers@ == stored(
                old(self).headers@,
                "Content-Length"@,
                length_text(old(self).body@),
                None,
            ),
    {
        let size = decimal(byte_len(&self.body));
        self.headers.store(text_of("Content-Length"), size, None);
    }
}

} // verus!
