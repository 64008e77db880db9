//! The focusable regions of the interface, the input modes, and the small
//! enumerations that the rest of the state is built from.

use vstd::prelude::*;
use crate::text::{text_is, text_of};

verus! {

/// A focusable region of the interface.
#[derive(Debug, Clone, Copy, PartialEq, Eq, Structural)]
pub enum Field {
    Url,
    SendButton,
    SaveButton,
    Headers,
    RequestBody,
    Method,
    NavPanel,
    Collections,
    History,
}

/// Whether keys navigate, or edit the text of one field.
#[derive(Debug, Clone, Copy, PartialEq, Eq, Structural)]
pub enum InputMode {
    Normal,
    Editing(Field),
}

impl Field {
    /// Whether the field takes part in the Tab cycle. The two overlay fields
    /// are entered from the navigation panel and do not.
    pub open spec fn is_cyclic(self) -> bool {
        !(self is Collections || self is History)
    }

    /// The field that Tab moves to.
    pub open spec fn successor(self) -> Field {
        match self {
            Field::Url => Field::SendButton,
            Field::SendButton => Field::SaveButton,
            Field::SaveButton => Field::Headers,
            Field::Headers => Field::RequestBody,
            Field::RequestBody => Field::Method,
            Field::Method => Field::NavPanel,
            Field::NavPanel => Field::Url,
            Field::Collections => Field::Collections,
            Field::History => Field::History,
        }
    }

    /// The field that Shift-Tab moves to.
    pub open spec fn predecessor(self) -> Field {
        match self {
            Field::Url => Field::NavPanel,
            Field::SendButton => Field::Url,
            Field::SaveButton => Field::SendButton,
            Field::Headers => Field::SaveButton,
            Field::RequestBody => Field::Headers,
            Field::Method => Field::RequestBody,
            Field::NavPanel => Field::Method,
            Field::Collections => Field::Collections,
            Field::History => Field::History,
        }
    }

    /// The field after this one in the Tab cycle; an overlay field stays.
    pub fn next(&self) -> (to: Field)
        ensures
            to == self.successor(),
    {
        match self {
            Field::Url => Field::SendButton,
            Field::SendButton => Field::SaveButton,
            Field::SaveButton => Field::Headers,
            Field::Headers => Field::RequestBody,
            Field::RequestBody => Field::Method,
            Field::Method => Field::NavPanel,
            Field::NavPanel => Field::Url,
            Field::Collections => Field::Collections,
            Field::History => Field::History,
        }
    }

    /// The field before this one in the Tab cycle; an overlay field stays.
    pub fn previous(&self) -> (to: Field)
        ensures
            to == self.predecessor(),
    {
        match self {
            Field::Url => Field::NavPanel,
            Field::SendButton => Field::Url,
            Field::SaveButton => Field::SendButton,
            Field::Headers => Field::SaveButton,
            Field::RequestBody => Field::Headers,
            Field::Method => Field::RequestBody,
            Field::NavPanel => Field::Method,
            Field::Collections => Field::Collections,
            Field::History => Field::History,
        }
    }
}

/// The colours in which methods are shown.
#[derive(Debug, Clone, Copy, PartialEq, Eq, Structural)]
pub enum Tone {
    Green,
    Cyan,
    Magenta,
    Yellow,
}

/// How much a field stands out on screen.
#[derive(Debug, Clone, Copy, PartialEq, Eq, Structural)]
pub enum Emphasis {
    /// The field is being edited.
    Editing,
    /// The field has the focus.
    Active,
    /// Neither.
    Idle,
}

/// The request methods on offer.
#[derive(Debug, Clone, Copy, PartialEq, Eq, Structural)]
pub enum HttpMethod {
    GET,
    POST,
    PUT,
    DELETE,
    PATCH,
}

impl HttpMethod {
    /// The method's name on the wire.
    pub open spec fn name(self) -> Seq<char> {
        match self {
            HttpMethod::GET => "GET"@,
            HttpMethod::POST => "POST"@,
            HttpMethod::PUT => "PUT"@,
            HttpMethod::DELETE => "DELETE"@,
            HttpMethod::PATCH => "PATCH"@,
        }
    }

    /// The methods in the order in which the selector lists them.
    pub open spec fn listing() -> Seq<HttpMethod> {
        seq![
            HttpMethod::GET,
            HttpMethod::POST,
            HttpMethod::PUT,
            HttpMethod::DELETE,
            HttpMethod::PATCH,
        ]
    }

    /// The method's place in `listing`.
    pub open spec fn rank(self) -> int {
        match self {
            HttpMethod::GET => 0,
            HttpMethod::POST => 1,
            HttpMethod::PUT => 2,
            HttpMethod::DELETE => 3,
            HttpMethod::PATCH => 4,
        }
    }

    /// The method that a name stands for, if any. Names are case-sensitive.
    pub open spec fn named(name: Seq<char>) -> Option<HttpMethod> {
        if name == "GET"@ {
            Some(HttpMethod::GET)
        } else if name == "POST"@ {
            Some(HttpMethod::POST)
        } else if name == "PUT"@ {
            Some(HttpMethod::PUT)
        } else if name == "DELETE"@ {
            Some(HttpMethod::DELETE)
        } else if name == "PATCH"@ {
            Some(HttpMethod::PATCH)
        } else {
            None
        }
    }

    /// The colour in which the method is shown.
    pub open spec fn tone(self) -> Tone {
        match self {
            HttpMethod::GET => Tone::Green,
            HttpMethod::POST => Tone::Cyan,
            HttpMethod::PUT => Tone::Magenta,
            HttpMethod::PATCH => Tone::Magenta,
            HttpMethod::DELETE => Tone::Yellow,
        }
    }

    /// The colour in which the method is shown.
    pub fn color(&self) -> (tone: Tone)
        ensures
            tone == self.tone(),
    {
        match self {
            HttpMethod::GET => Tone::Green,
            HttpMethod::POST => Tone::Cyan,
            HttpMethod::PUT => Tone::Magenta,
            HttpMethod::PATCH => Tone::Magenta,
            HttpMethod::DELETE => Tone::Yellow,
        }
    }

    /// The method's name on the wire.
    pub fn as_str(&self) -> (s: &'static str)
        ensures
            s@ == self.name(),
    {
        match self {
            HttpMethod::GET => "GET",
            HttpMethod::POST => "POST",
            HttpMethod::PUT => "PUT",
            HttpMethod::DELETE => "DELETE",
            HttpMethod::PATCH => "PATCH",
        }
    }

    /// The methods in the order in which the selector lists them.
    pub fn all() -> (methods: Vec<HttpMethod>)
        ensures
            methods@ == HttpMethod::listing(),
    {
        let methods = vec![
            HttpMethod::GET,
            HttpMethod::POST,
            HttpMethod::PUT,
            HttpMethod::DELETE,
            HttpMethod::PATCH,
        ];
        assert(methods@ =~= HttpMethod::listing());
        methods
    }

    /// The method that a name stands for, if any. Names are case-sensitive.
    pub fn from_str(s: &str) -> (method: Option<HttpMethod>)
        ensures
            method == HttpMethod::named(s@),
    {
        HttpMethod::from_text(&text_of(s))
    }

    /// As `from_str`, for a name held as text.
    pub fn from_text(name: &Vec<char>) -> (method: Option<HttpMethod>)
        ensures
            method == HttpMethod::named(name@),
    {
        if text_is(name, "GET") {
            Some(HttpMethod::GET)
        } else if text_is(name, "POST") {
            Some(HttpMethod::POST)
        } else if text_is(name, "PUT") {
            Some(HttpMethod::PUT)
        } else if text_is(name, "DELETE") {
            Some(HttpMethod::DELETE)
        } else if text_is(name, "PATCH") {
            Some(HttpMethod::PATCH)
        } else {
            None
        }
    }

    /// The method's place in the selector's list.
    pub fn position(&self) -> (at: usize)
        ensures
            at == self.rank(),
            at < 5,
            HttpMethod::listing()[at as int] == *self,
    {
        match self {
            HttpMethod::GET => 0,
            HttpMethod::POST => 1,
            HttpMethod::PUT => 2,
            HttpMethod::DELETE => 3,
            HttpMethod::PATCH => 4,
        }
    }

    /// The method at a place in the selector's list.
    pub fn at(index: usize) -> (method: Option<HttpMethod>)
        ensures
            index < 5 ==> method == Some(HttpMethod::listing()[index as int]),
            index >= 5 ==> method is None,
    {
        if index == 0 {
            Some(HttpMethod::GET)
        } else if index == 1 {
            Some(HttpMethod::POST)
        } else if index == 2 {
            Some(HttpMethod::PUT)
        } else if index == 3 {
            Some(HttpMethod::DELETE)
        } else if index == 4 {
            Some(HttpMethod::PATCH)
        } else {
            None
        }
    }
}

/// An entry of the navigation panel.
#[derive(Debug, Clone, Copy, PartialEq, Eq, Structural)]
pub enum NavItem {
    Collections,
    Environments,
    History,
    Quit,
}

impl NavItem {
    /// The entry's label.
    pub open spec fn label(self) -> Seq<char> {
        match self {
            NavItem::Collections => "Collections"@,
            NavItem::Environments => "Environments"@,
            NavItem::History => "History"@,
            NavItem::Quit => "Quit"@,
        }
    }

    /// The entries from top to bottom.
    pub open spec fn listing() -> Seq<NavItem> {
        seq![NavItem::Collections, NavItem::Environments, NavItem::History, NavItem::Quit]
    }

    /// The entry below this one; the last wraps to the first.
    pub open spec fn below(self) -> NavItem {
        match self {
            NavItem::Collections => NavItem::Environments,
            NavItem::Environments => NavItem::History,
            NavItem::History => NavItem::Quit,
            NavItem::Quit => NavItem::Collections,
        }
    }

    /// The entry above this one; the first wraps to the last.
    pub open spec fn above(self) -> NavItem {
        match self {
            NavItem::Collections => NavItem::Quit,
            NavItem::Environments => NavItem::Collections,
            NavItem::History => NavItem::Environments,
            NavItem::Quit => NavItem::History,
        }
    }

    /// The entries from top to bottom.
    pub fn all() -> (items: Vec<NavItem>)
        ensures
            items@ == NavItem::listing(),
    {
        let items = vec![
            NavItem::Collections,
            NavItem::Environments,
            NavItem::History,
            NavItem::Quit,
        ];
        assert(items@ =~= NavItem::listing());
        items
    }

    /// The entry's label.
    pub fn as_str(&self) -> (s: &'static str)
        ensures
            s@ == self.label(),
    {
        match self {
            NavItem::Collections => "Collections",
            NavItem::Environments => "Environments",
            NavItem::History => "History",
            NavItem::Quit => "Quit",
        }
    }

    /// The entry that Down moves to.
    pub fn down(&self) -> (to: NavItem)
        ensures
            to == self.below(),
    {
        match self {
            NavItem::Collections => NavItem::Environments,
            NavItem::Environments => NavItem::History,
            NavItem::History => NavItem::Quit,
            NavItem::Quit => NavItem::Collections,
        }
    }

    /// The entry that Up moves to.
    pub fn up(&self) -> (to: NavItem)
        ensures
            to == self.above(),
    {
        match self {
            NavItem::Collections => NavItem::Quit,
            NavItem::Environments => NavItem::Collections,
            NavItem::History => NavItem::Environments,
            NavItem::Quit => NavItem::History,
        }
    }
}

/// Where the header editor stands.
#[derive(Debug, Clone, Copy, PartialEq, Eq, Structural)]
pub enum HeaderEditState {
    Selecting,
    EditingKey,
    EditingValue,
}

/// Which list the collections overlay shows.
#[derive(Debug, Clone, Copy, PartialEq, Eq, Structural)]
pub enum CollectionView {
    List,
    Requests,
}

/// Which part of the collections overlay has the focus.
#[derive(Debug, Clone, Copy, PartialEq, Eq, Structural)]
pub enum CollectionsFocus {
    List,
    NewButton,
}

/// A key, as far as the engine tells keys apart.
#[derive(Debug, Clone, Copy, PartialEq, Eq, Structural)]
pub enum KeyCode {
    Char(char),
    Enter,
    Esc,
    Tab,
    BackTab,
    Backspace,
    Up,
    Down,
    Left,
    Right,
    Other,
}

/// The modifier keys held while a key was pressed.
#[derive(Debug, Clone, Copy, PartialEq, Eq, Structural)]
pub struct KeyModifiers {
    pub shift: bool,
    pub control: bool,
    pub alt: bool,
    pub super_key: bool,
    pub hyper: bool,
    pub meta: bool,
}

impl KeyModifiers {
    /// No modifier is held.
    pub open spec fn none_held(self) -> bool {
        !self.shift && !self.control && !self.alt && !self.super_key && !self.hyper && !self.meta
    }

    /// Control is held, and nothing else.
    pub open spec fn only_control(self) -> bool {
        self.control && !self.shift && !self.alt && !self.super_key && !self.hyper && !self.meta
    }

    /// Super is held, and nothing else.
    pub open spec fn only_super(self) -> bool {
        self.super_key && !self.shift && !self.alt && !self.control && !self.hyper && !self.meta
    }

    /// The modifiers of a plain key press.
    pub fn none() -> (m: KeyModifiers)
        ensures
            m.none_held(),
    {
        KeyModifiers {
            shift: false,
            control: false,
            alt: false,
            super_key: false,
            hyper: false,
            meta: false,
        }
    }

    /// Whether no modifier is held.
    pub fn is_empty(&self) -> (yes: bool)
        ensures
            yes == self.none_held(),
    {
        !self.shift && !self.control && !self.alt && !self.super_key && !self.hyper && !self.meta
    }

    /// Whether exactly Control is held.
    pub fn is_control(&self) -> (yes: bool)
        ensures
            yes == self.only_control(),
    {
        self.control && !self.shift && !self.alt && !self.super_key && !self.hyper && !self.meta
    }

    /// Whether exactly Super is held.
    pub fn is_super(&self) -> (yes: bool)
        ensures
            yes == self.only_super(),
    {
        self.super_key && !self.shift && !self.alt && !self.control && !self.hyper && !self.meta
    }
}

/// One key press.
#[derive(Debug, Clone, Copy, PartialEq, Eq, Structural)]
pub struct KeyEvent {
    pub code: KeyCode,
    pub modifiers: KeyModifiers,
}

impl KeyEvent {
    /// A key pressed with no modifier held.
    pub fn plain(code: KeyCode) -> (key: KeyEvent)
        ensures
            key.code == code,
            key.modifiers.none_held(),
    {
        KeyEvent { code, modifiers: KeyModifiers::none() }
    }
}

} // verus!
