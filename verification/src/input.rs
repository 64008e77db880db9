//! The key router: for every key press, the one handler that consumes it and
//! what that handler does to the state.
//!
//! In editing mode the field's editor takes the key. Otherwise an open overlay
//! takes it, the collections browser before the method selector before the
//! save dialog; then the header editor, when the headers have the focus;
//! then the handling by field. What the engine cannot do itself (dispatch,
//! clipboard, persistence) it asks of its caller through the `Action` it
//! returns.

use vstd::prelude::*;
use crate::actions::{sent, OutgoingRequest, RequestHandler};
use crate::collections::{first_named, lemma_first_named_of, request_saved};
use crate::headers::{loaded, slot, stored, toggled, without_row, HeaderList};
use crate::model::{
    CollectionView, CollectionsFocus, Field, HeaderEditState, HttpMethod, InputMode, KeyCode,
    KeyEvent, NavItem,
};
use crate::state::{length_text, saved_name, App};
use crate::text::{
    clamp_cursor, clamped, copy_text, cursor_after_erase, erase_before, has_prefix, insert_char,
    sanitize_paste, sanitized, selection_bounds, selection_hi, selection_lo, slice_text, splice,
    spliced, starts_with, text_of, with_char_erased, with_char_inserted,
};

verus! {

/// What the caller is asked to do after a key was handled.
#[derive(Debug)]
pub enum Action {
    /// Nothing: go on with the next key.
    Continue,
    /// End the session.
    Quit,
    /// Dispatch this request and report how it ended.
    Send(OutgoingRequest),
    /// Put this text on the clipboard.
    Copy(Vec<char>),
    /// Read the clipboard and hand its text to `InputHandler::paste`.
    Paste,
    /// Write the collections to disk: they have changed.
    Persist,
}

/// The index after Down in a list of `len` rows: one further, the last
/// wrapping to the first; unchanged in an empty list.
pub open spec fn cycled_down(index: int, len: int) -> int {
    if len > 0 {
        (index + 1) % len
    } else {
        index
    }
}

/// The index after Up in a list of `len` rows: one back, the first wrapping
/// to the last; unchanged in an empty list.
pub open spec fn cycled_up(index: int, len: int) -> int {
    if len <= 0 {
        index
    } else if index > 0 {
        index - 1
    } else {
        len - 1
    }
}

/// The index after Up in a list that does not wrap.
pub open spec fn stepped_up(index: int) -> int {
    if index > 0 {
        index - 1
    } else {
        index
    }
}

/// The place of the collection that is open, if one is.
pub open spec fn open_collection(app: App) -> Option<int> {
    match app.selected_collection {
        Some(name) => {
            let at = first_named(app.collection_manager.collections@, name@);
            if at < app.collection_manager.collections@.len() {
                Some(at)
            } else {
                None
            }
        },
        None => None,
    }
}

/// A character typed into the header editor's scratch text: it goes into
/// the name or the value, whichever is being edited, at that text's cursor.
pub open spec fn scratch_typed(pre: App, c: char, post: App) -> bool {
    match pre.header_edit_state {
        HeaderEditState::EditingKey => {
            &&& post == (App {
                header_edit_key: post.header_edit_key,
                header_key_cursor: post.header_key_cursor,
                ..pre
            })
            &&& post.header_edit_key@ == with_char_inserted(
                pre.header_edit_key@,
                pre.header_key_cursor as int,
                c,
            )
            &&& post.header_key_cursor == clamped(
                pre.header_key_cursor as int,
                pre.header_edit_key@.len() as int,
            ) + 1
        },
        HeaderEditState::EditingValue => {
            &&& post == (App {
                header_edit_value: post.header_edit_value,
                header_value_cursor: post.header_value_cursor,
                ..pre
            })
            &&& post.header_edit_value@ == with_char_inserted(
                pre.header_edit_value@,
                pre.header_value_cursor as int,
                c,
            )
            &&& post.header_value_cursor == clamped(
                pre.header_value_cursor as int,
                pre.header_edit_value@.len() as int,
            ) + 1
        },
        HeaderEditState::Selecting => post == pre,
    }
}

/// Backspace in the header editor's scratch text.
pub open spec fn scratch_erased(pre: App, post: App) -> bool {
    match pre.header_edit_state {
        HeaderEditState::EditingKey => {
            &&& post == (App {
                header_edit_key: post.header_edit_key,
                header_key_cursor: post.header_key_cursor,
                ..pre
            })
            &&& post.header_edit_key@ == with_char_erased(
                pre.header_edit_key@,
                pre.header_key_cursor as int,
            )
            &&& post.header_key_cursor == cursor_after_erase(
                pre.header_edit_key@,
                pre.header_key_cursor as int,
            )
        },
        HeaderEditState::EditingValue => {
            &&& post == (App {
                header_edit_value: post.header_edit_value,
                header_value_cursor: post.header_value_cursor,
                ..pre
            })
            &&& post.header_edit_value@ == with_char_erased(
                pre.header_edit_value@,
                pre.header_value_cursor as int,
            )
            &&& post.header_value_cursor == cursor_after_erase(
                pre.header_edit_value@,
                pre.header_value_cursor as int,
            )
        },
        HeaderEditState::Selecting => post == pre,
    }
}

/// Opening the collection under the selection: it becomes the open one and
/// the browser shows its requests from the top. Without a collection there,
/// nothing happens.
pub open spec fn collection_opened(pre: App, post: App) -> bool {
    let list = pre.collection_manager.collections@;
    let at = pre.collection_selected_index as int;
    if at < list.len() {
        &&& post == (App {
            selected_collection: post.selected_collection,
            collection_view: CollectionView::Requests,
            request_selected_index: 0,
            ..pre
        })
        &&& post.selected_collection is Some
        &&& post.selected_collection->0@ == list[at].info.name@
    } else {
        post == pre
    }
}

/// A key in the collections browser. Keys that it does not know are
/// swallowed.
pub open spec fn collections_key(pre: App, code: KeyCode, post: App, action: Action) -> bool {
    let list = pre.collection_manager.collections@;
    let at = pre.collection_selected_index as int;
    match code {
        KeyCode::Char(c) => {
            if c == 'd' && at < list.len() {
                &&& action is Persist
                &&& post == (App { collection_manager: post.collection_manager, ..pre })
                &&& post.collection_manager.collections@ == list.remove(at)
            } else {
                action is Continue && post == pre
            }
        },
        KeyCode::Esc => {
            &&& action is Continue
            &&& match pre.collection_view {
                CollectionView::List => post == (App {
                    show_collections: false,
                    active_field: Field::NavPanel,
                    ..pre
                }),
                CollectionView::Requests => post == (App {
                    collection_view: CollectionView::List,
                    selected_collection: None,
                    ..pre
                }),
            }
        },
        KeyCode::Enter => {
            &&& action is Continue
            &&& if pre.collection_view == CollectionView::List {
                collection_opened(pre, post)
            } else {
                post == pre
            }
        },
        KeyCode::Up => {
            &&& action is Continue
            &&& match pre.collection_view {
                CollectionView::List => post == (App {
                    collection_selected_index: stepped_up(at) as usize,
                    ..pre
                }),
                CollectionView::Requests => if open_collection(pre) is Some {
                    post == (App {
                        request_selected_index: stepped_up(
                            pre.request_selected_index as int,
                        ) as usize,
                        ..pre
                    })
                } else {
                    post == pre
                },
            }
        },
        KeyCode::Down => {
            &&& action is Continue
            &&& match pre.collection_view {
                CollectionView::List => post == (App {
                    collection_selected_index: cycled_down(at, list.len() as int) as usize,
                    ..pre
                }),
                CollectionView::Requests => match open_collection(pre) {
                    Some(open) => post == (App {
                        request_selected_index: cycled_down(
                            pre.request_selected_index as int,
                            list[open].requests@.len() as int,
                        ) as usize,
                        ..pre
                    }),
                    None => post == pre,
                },
            }
        },
        _ => action is Continue && post == pre,
    }
}

/// A key in the method selector. Keys that it does not know are swallowed.
pub open spec fn selector_key(pre: App, code: KeyCode, post: App) -> bool {
    let at = pre.selector_method_index as int;
    match code {
        KeyCode::Esc => post == (App { show_method_selector: false, ..pre }),
        KeyCode::Enter => post == (App {
            method: if at < 5 {
                HttpMethod::listing()[at]
            } else {
                pre.method
            },
            show_method_selector: false,
            ..pre
        }),
        KeyCode::Up => post == (App { selector_method_index: cycled_up(at, 5) as usize, ..pre }),
        KeyCode::Down => post == (App {
            selector_method_index: cycled_down(at, 5) as usize,
            ..pre
        }),
        _ => post == pre,
    }
}

/// A key in the save dialog. Keys that it does not know are swallowed.
pub open spec fn save_dialog_key(pre: App, code: KeyCode, post: App, action: Action) -> bool {
    let list = pre.collection_manager.collections@;
    let at = pre.save_dialog_selected_index as int;
    match code {
        KeyCode::Esc => action is Continue && post == (App { save_dialog_visible: false, ..pre }),
        KeyCode::Enter => {
            if at < list.len() {
                &&& action is Persist
                &&& post == (App {
                    collection_manager: post.collection_manager,
                    save_dialog_visible: false,
                    ..pre
                })
                &&& request_saved(
                    list,
                    post.collection_manager.collections@,
                    Ok(()),
                    list[at].info.name@,
                    saved_name(pre.method, pre.url@),
                    pre.method.name(),
                    pre.url@,
                    pre.headers@,
                    pre.body@,
                )
            } else {
                action is Continue && post == (App { save_dialog_visible: false, ..pre })
            }
        },
        KeyCode::Up => action is Continue && post == (App {
            save_dialog_selected_index: cycled_up(at, list.len() as int) as usize,
            ..pre
        }),
        KeyCode::Down => action is Continue && post == (App {
            save_dialog_selected_index: cycled_down(at, list.len() as int) as usize,
            ..pre
        }),
        _ => action is Continue && post == pre,
    }
}

/// Whether the header editor claims the key when the headers have the focus.
pub open spec fn is_header_key(code: KeyCode) -> bool {
    match code {
        KeyCode::Char(c) => c == 'n' || c == 'd' || c == ' ',
        KeyCode::Up => true,
        KeyCode::Down => true,
        _ => false,
    }
}

/// A key that the header editor claims. While a header is being edited the
/// three letters are typed into it; while rows are being selected `n` starts
/// a new header on the row behind the last, `d` deletes the selected header,
/// and the space bar flips its switch. Up and Down move over the rows and the
/// row behind the last, without wrapping.
pub open spec fn header_key(pre: App, code: KeyCode, post: App) -> bool {
    let rows = pre.headers@;
    let at = pre.selected_header_index as int;
    match code {
        KeyCode::Char(c) => {
            if pre.header_edit_state != HeaderEditState::Selecting {
                scratch_typed(pre, c, post)
            } else if c == 'n' {
                &&& post == (App {
                    selected_header_index: rows.len() as usize,
                    header_edit_state: HeaderEditState::EditingKey,
                    header_edit_key: post.header_edit_key,
                    header_edit_value: post.header_edit_value,
                    header_key_cursor: 0,
                    header_value_cursor: 0,
                    ..pre
                })
                &&& post.header_edit_key@.len() == 0
                &&& post.header_edit_value@.len() == 0
            } else if c == 'd' {
                &&& post == (App {
                    headers: post.headers,
                    selected_header_index: if at < rows.len() {
                        stepped_up(at) as usize
                    } else {
                        pre.selected_header_index
                    },
                    ..pre
                })
                &&& post.headers@ == without_row(rows, at)
            } else {
                &&& post == (App { headers: post.headers, ..pre })
                &&& post.headers@ == toggled(rows, at)
            }
        },
        KeyCode::Up => post == (App { selected_header_index: stepped_up(at) as usize, ..pre }),
        KeyCode::Down => post == (App {
            selected_header_index: if at < rows.len() {
                (at + 1) as usize
            } else {
                pre.selected_header_index
            },
            ..pre
        }),
        _ => post == pre,
    }
}

/// Enter in the header editor: from the rows into the name of the selected
/// header, from the name into the value, and from the value back to the rows
/// with the header stored, switched on and selected. A header that still
/// carries a placeholder name is dropped when its name is confirmed; an
/// empty name stores nothing.
pub open spec fn header_enter(pre: App, post: App) -> bool {
    let rows = pre.headers@;
    let at = pre.selected_header_index as int;
    match pre.header_edit_state {
        HeaderEditState::Selecting => {
            if at < rows.len() {
                &&& post == (App {
                    header_edit_state: HeaderEditState::EditingKey,
                    header_edit_key: post.header_edit_key,
                    header_edit_value: post.header_edit_value,
                    header_key_cursor: rows[at].key.len() as usize,
                    header_value_cursor: rows[at].value.len() as usize,
                    ..pre
                })
                &&& post.header_edit_key@ == rows[at].key
                &&& post.header_edit_value@ == rows[at].value
            } else {
                post == pre
            }
        },
        HeaderEditState::EditingKey => {
            &&& post == (App {
                headers: post.headers,
                header_edit_state: HeaderEditState::EditingValue,
                ..pre
            })
            &&& post.headers@ == if at < rows.len() && has_prefix(
                rows[at].key,
                "zzz_new_header_"@,
            ) {
                without_row(rows, at)
            } else {
                rows
            }
        },
        HeaderEditState::EditingValue => {
            if pre.header_edit_key@.len() > 0 {
                &&& post == (App {
                    headers: post.headers,
                    selected_header_index: slot(rows, pre.header_edit_key@) as usize,
                    header_edit_state: HeaderEditState::Selecting,
                    ..pre
                })
                &&& post.headers@ == stored(
                    rows,
                    pre.header_edit_key@,
                    pre.header_edit_value@,
                    Some(true),
                )
            } else {
                post == (App { header_edit_state: HeaderEditState::Selecting, ..pre })
            }
        },
    }
}

/// Loading the selected history entry into the request: URL, method (GET
/// where the entry's method is unknown), headers and body are replaced, each
/// header keeps the switch that its name had, the header selection is
/// brought back onto the rows, the history closes and the focus goes to the
/// URL. Without an entry there, nothing happens.
pub open spec fn history_loaded(pre: App, post: App) -> bool {
    let log = pre.history.entries@;
    let at = pre.history_selected_index as int;
    if at < log.len() {
        let request = log[at].request;
        &&& post == (App {
            url: post.url,
            method: match HttpMethod::named(request.method@) {
                Some(method) => method,
                None => HttpMethod::GET,
            },
            headers: post.headers,
            body: post.body,
            selected_header_index: clamped(
                pre.selected_header_index as int,
                post.headers@.len() as int,
            ) as usize,
            show_history: false,
            active_field: Field::Url,
            ..pre
        })
        &&& post.url@ == request.url@
        &&& post.headers@ == loaded(request.headers.deep_view(), pre.headers@)
        &&& post.body@ == match request.body {
            Some(body) => body@,
            None => Seq::empty(),
        }
    } else {
        post == pre
    }
}

/// Enter outside the overlays, by the field that has the focus.
pub open spec fn enter_key(pre: App, post: App, action: Action) -> bool {
    match pre.active_field {
        Field::SendButton => {
            if pre.url@.len() > 0 {
                &&& action is Send
                &&& exists|token: Seq<char>| #[trigger] sent(pre, token, post, action->Send_0)
            } else {
                action is Continue && post == pre
            }
        },
        Field::Url => action is Continue && post == (App {
            input_mode: InputMode::Editing(Field::Url),
            cursor_position: pre.url@.len() as usize,
            ..pre
        }),
        Field::RequestBody => action is Continue && post == (App {
            input_mode: InputMode::Editing(Field::RequestBody),
            cursor_position: pre.body@.len() as usize,
            ..pre
        }),
        Field::Headers => action is Continue && header_enter(pre, post),
        Field::NavPanel => match pre.nav_selected {
            NavItem::Collections => action is Continue && post == (App {
                show_collections: true,
                show_history: false,
                collections_focus: CollectionsFocus::List,
                collection_selected_index: 0,
                input_mode: InputMode::Normal,
                active_field: Field::Collections,
                ..pre
            }),
            NavItem::History => action is Continue && post == (App {
                show_history: true,
                show_collections: false,
                history_selected_index: 0,
                input_mode: InputMode::Normal,
                active_field: Field::History,
                ..pre
            }),
            NavItem::Quit => action is Quit && post == pre,
            NavItem::Environments => action is Continue && post == pre,
        },
        Field::History => action is Continue && history_loaded(pre, post),
        Field::Collections => action is Continue && collection_opened(pre, post),
        Field::Method => action is Continue && post == (App {
            show_method_selector: true,
            selector_method_index: pre.method.rank() as usize,
            ..pre
        }),
        Field::SaveButton => action is Continue && post == (App {
            save_dialog_visible: true,
            save_dialog_selected_index: 0,
            show_collections: false,
            ..pre
        }),
    }
}

/// A key outside the overlays that the header editor did not claim.
pub open spec fn generic_key(pre: App, code: KeyCode, post: App, action: Action) -> bool {
    match code {
        KeyCode::Tab => {
            &&& action is Continue
            &&& if pre.header_edit_state == HeaderEditState::EditingKey {
                post == (App {
                    header_edit_state: HeaderEditState::EditingValue,
                    header_value_cursor: pre.header_edit_value@.len() as usize,
                    ..pre
                })
            } else {
                post == (App { active_field: pre.active_field.successor(), ..pre })
            }
        },
        KeyCode::BackTab => {
            &&& action is Continue
            &&& if pre.header_edit_state == HeaderEditState::EditingValue {
                post == (App {
                    header_edit_state: HeaderEditState::EditingKey,
                    header_key_cursor: pre.header_edit_key@.len() as usize,
                    ..pre
                })
            } else {
                post == (App { active_field: pre.active_field.predecessor(), ..pre })
            }
        },
        KeyCode::Char(c) => action is Continue && scratch_typed(pre, c, post),
        KeyCode::Backspace => action is Continue && scratch_erased(pre, post),
        KeyCode::Esc => {
            &&& action is Continue
            &&& if pre.header_edit_state != HeaderEditState::Selecting {
                post == (App {
                    header_edit_state: HeaderEditState::Selecting,
                    header_key_cursor: 0,
                    header_value_cursor: 0,
                    ..pre
                })
            } else {
                post == pre
            }
        },
        KeyCode::Enter => enter_key(pre, post, action),
        KeyCode::Up => {
            &&& action is Continue
            &&& match pre.active_field {
                Field::NavPanel => post == (App { nav_selected: pre.nav_selected.above(), ..pre }),
                Field::History => post == (App {
                    history_selected_index: stepped_up(pre.history_selected_index as int) as usize,
                    ..pre
                }),
                Field::Collections => post == (App {
                    collection_selected_index: stepped_up(
                        pre.collection_selected_index as int,
                    ) as usize,
                    ..pre
                }),
                _ => post == pre,
            }
        },
        KeyCode::Down => {
            &&& action is Continue
            &&& match pre.active_field {
                Field::NavPanel => post == (App { nav_selected: pre.nav_selected.below(), ..pre }),
                Field::History => post == (App {
                    history_selected_index: cycled_down(
                        pre.history_selected_index as int,
                        pre.history.entries@.len() as int,
                    ) as usize,
                    ..pre
                }),
                Field::Collections => post == (App {
                    collection_selected_index: cycled_down(
                        pre.collection_selected_index as int,
                        pre.collection_manager.collections@.len() as int,
                    ) as usize,
                    ..pre
                }),
                _ => post == pre,
            }
        },
        _ => action is Continue && post == pre,
    }
}

/// A key in normal mode: the first of the handlers that applies, in the
/// order overlay, header editor, field.
pub open spec fn normal_step(pre: App, key: KeyEvent, post: App, action: Action) -> bool {
    if pre.show_collections {
        collections_key(pre, key.code, post, action)
    } else if pre.show_method_selector {
        action is Continue && selector_key(pre, key.code, post)
    } else if pre.save_dialog_visible {
        save_dialog_key(pre, key.code, post, action)
    } else if pre.active_field == Field::Headers && is_header_key(key.code) {
        action is Continue && header_key(pre, key.code, post)
    } else {
        generic_key(pre, key.code, post, action)
    }
}

/// Shift with Left or Right in the URL: the selection is anchored at the
/// cursor unless it is anchored already, and the cursor moves by one inside
/// the text.
pub open spec fn selection_moved(pre: App, code: KeyCode, post: App) -> bool {
    let cursor = pre.cursor_position as int;
    post == (App {
        selection_start: Some(
            match pre.selection_start {
                Some(anchor) => anchor,
                None => pre.cursor_position,
            },
        ),
        cursor_position: if code == KeyCode::Left {
            stepped_up(cursor) as usize
        } else if cursor < pre.url@.len() {
            (cursor + 1) as usize
        } else {
            pre.cursor_position
        },
        ..pre
    })
}

/// The text that Copy puts on the clipboard: the URL between the bounds of
/// the selection.
pub open spec fn selected_text(app: App) -> Seq<char> {
    let len = app.url@.len() as int;
    let anchor = app.selection_start->0 as int;
    let cursor = app.cursor_position as int;
    app.url@.subrange(selection_lo(anchor, cursor, len), selection_hi(anchor, cursor, len))
}

/// A character typed into a text field.
pub open spec fn field_typed(pre: App, field: Field, c: char, post: App) -> bool {
    match field {
        Field::Url => {
            &&& post == (App { url: post.url, cursor_position: post.cursor_position, ..pre })
            &&& post.url@ == with_char_inserted(pre.url@, pre.cursor_position as int, c)
            &&& post.cursor_position == clamped(pre.cursor_position as int, pre.url@.len() as int)
                + 1
        },
        Field::RequestBody => {
            &&& post == (App { body: post.body, cursor_position: post.cursor_position, ..pre })
            &&& post.body@ == with_char_inserted(pre.body@, pre.cursor_position as int, c)
            &&& post.cursor_position == clamped(pre.cursor_position as int, pre.body@.len() as int)
                + 1
        },
        _ => post == pre,
    }
}

/// Backspace in a text field.
pub open spec fn field_erased(pre: App, field: Field, post: App) -> bool {
    match field {
        Field::Url => {
            &&& post == (App { url: post.url, cursor_position: post.cursor_position, ..pre })
            &&& post.url@ == with_char_erased(pre.url@, pre.cursor_position as int)
            &&& post.cursor_position == cursor_after_erase(pre.url@, pre.cursor_position as int)
        },
        Field::RequestBody => {
            &&& post == (App { body: post.body, cursor_position: post.cursor_position, ..pre })
            &&& post.body@ == with_char_erased(pre.body@, pre.cursor_position as int)
            &&& post.cursor_position == cursor_after_erase(pre.body@, pre.cursor_position as int)
        },
        _ => post == pre,
    }
}

/// The cursor after Right in a text of length `len`.
pub open spec fn stepped_right(cursor: int, len: int) -> int {
    if cursor < len {
        cursor + 1
    } else {
        len
    }
}

/// A key in a text field, once selection and clipboard keys are dealt with.
pub open spec fn edit_key(pre: App, field: Field, code: KeyCode, post: App) -> bool {
    match code {
        KeyCode::Esc => post == (App { input_mode: InputMode::Normal, cursor_position: 0, ..pre }),
        KeyCode::Enter => {
            if field == Field::RequestBody {
                &&& post == (App {
                    body: post.body,
                    cursor_position: post.cursor_position,
                    headers: post.headers,
                    ..pre
                })
                &&& post.body@ == with_char_inserted(pre.body@, pre.cursor_position as int, '\n')
                &&& post.cursor_position == clamped(
                    pre.cursor_position as int,
                    pre.body@.len() as int,
                ) + 1
                &&& post.headers@ == stored(
                    pre.headers@,
                    "Content-Length"@,
                    length_text(post.body@),
                    None,
                )
            } else {
                post == (App { input_mode: InputMode::Normal, cursor_position: 0, ..pre })
            }
        },
        KeyCode::Tab => {
            if field == Field::RequestBody {
                let at = clamped(pre.cursor_position as int, pre.body@.len() as int);
                &&& post == (App { body: post.body, cursor_position: post.cursor_position, ..pre })
                &&& post.body@ == spliced(pre.body@, at, at, "    "@)
                &&& post.cursor_position == at + "    "@.len()
            } else {
                post == (App { input_mode: InputMode::Normal, ..pre })
            }
        },
        KeyCode::Char(c) => field_typed(pre, field, c, post),
        KeyCode::Backspace => field_erased(pre, field, post),
        KeyCode::Right => match field {
            Field::Url => post == (App {
                cursor_position: stepped_right(
                    pre.cursor_position as int,
                    pre.url@.len() as int,
                ) as usize,
                ..pre
            }),
            Field::RequestBody => post == (App {
                cursor_position: stepped_right(
                    pre.cursor_position as int,
                    pre.body@.len() as int,
                ) as usize,
                ..pre
            }),
            _ => post == pre,
        },
        _ => post == pre,
    }
}

/// Whether a key with these modifiers ends the selection.
pub open spec fn ends_selection(key: KeyEvent) -> bool {
    key.modifiers.none_held() || key.modifiers.only_control() || key.modifiers.only_super()
}

/// Whether the key is a clipboard chord: Control or Super alone, with a
/// letter.
pub open spec fn is_chord(key: KeyEvent, letter: char) -> bool {
    (key.modifiers.only_control() || key.modifiers.only_super()) && key.code == KeyCode::Char(
        letter,
    )
}

/// A key in editing mode. In the URL, Shift with an arrow selects, and the
/// clipboard chords copy the selection or ask for a paste without touching
/// the state. Every other key first ends the selection, unless it comes with
/// other modifiers, and then edits the field.
pub open spec fn editing_step(pre: App, field: Field, key: KeyEvent, post: App, action: Action) -> bool {
    if field == Field::Url && key.modifiers.shift && (key.code == KeyCode::Left || key.code
        == KeyCode::Right) {
        action is Continue && selection_moved(pre, key.code, post)
    } else if field == Field::Url && is_chord(key, 'c') {
        &&& post == pre
        &&& if pre.selection_start is Some {
            action is Copy && action->Copy_0@ == selected_text(pre)
        } else {
            action is Continue
        }
    } else if field == Field::Url && is_chord(key, 'v') {
        post == pre && action is Paste
    } else {
        &&& action is Continue
        &&& edit_key(
            if ends_selection(key) {
                App { selection_start: None, ..pre }
            } else {
                pre
            },
            field,
            key.code,
            post,
        )
    }
}

/// What a key press does, in either mode.
pub open spec fn step(pre: App, key: KeyEvent, post: App, action: Action) -> bool {
    match pre.input_mode {
        InputMode::Normal => normal_step(pre, key, post, action),
        InputMode::Editing(field) => editing_step(pre, field, key, post, action),
    }
}

/// What a paste does while the URL is being edited: the clipboard text,
/// sanitized, replaces the selection or goes in at the cursor; the cursor
/// lands behind it and the selection ends. In any other mode nothing happens.
pub open spec fn pasted(pre: App, clipboard: Seq<char>, post: App) -> bool {
    if pre.input_mode == InputMode::Editing(Field::Url) {
        let len = pre.url@.len() as int;
        let cursor = pre.cursor_position as int;
        let clean = sanitized(clipboard);
        let lo = match pre.selection_start {
            Some(anchor) => selection_lo(anchor as int, cursor, len),
            None => clamped(cursor, len),
        };
        let hi = match pre.selection_start {
            Some(anchor) => selection_hi(anchor as int, cursor, len),
            None => clamped(cursor, len),
        };
        &&& post == (App {
            url: post.url,
            cursor_position: post.cursor_position,
            selection_start: None,
            ..pre
        })
        &&& post.url@ == spliced(pre.url@, lo, hi, clean)
        &&& post.cursor_position == lo + clean.len()
    } else {
        post == pre
    }
}

/// The index after Down in a list of `len` rows.
pub fn cycle_down(index: usize, len: usize) -> (to: usize)
    ensures
        to == cycled_down(index as int, len as int),
        len > 0 ==> to < len,
{
    if len > 0 {
        let wide: u128 = (index as u128 + 1) % (len as u128);
        wide as usize
    } else {
        index
    }
}

/// The index after Up in a list of `len` rows.
pub fn cycle_up(index: usize, len: usize) -> (to: usize)
    ensures
        to == cycled_up(index as int, len as int),
{
    if len == 0 {
        index
    } else if index > 0 {
        index - 1
    } else {
        len - 1
    }
}

/// The index after Up in a list that does not wrap.
pub fn step_up(index: usize) -> (to: usize)
    ensures
        to == stepped_up(index as int),
{
    if index > 0 {
        index - 1
    } else {
        index
    }
}

impl App {
    /// Handles one key press and says what is left for the caller to do.
    pub fn handle_key(&mut self, key: KeyEvent) -> (action: Action)
        requires
            old(self).well_formed(),
        ensures
            final(self).well_formed(),
            step(*old(self), key, *final(self), action),
    {
        InputHandler::handle_key(self, key)
    }
}

/// The handling of keys.
pub struct InputHandler;

impl InputHandler {
    /// Handles one key press and says what is left for the caller to do.
    pub fn handle_key(app: &mut App, key: KeyEvent) -> (action: Action)
        requires
            old(app).well_formed(),
        ensures
            final(app).well_formed(),
            step(*old(app), key, *final(app), action),
    {
        match app.input_mode {
            InputMode::Normal => InputHandler::handle_normal_mode(app, key),
            InputMode::Editing(field) => InputHandler::handle_editing_mode(app, field, key),
        }
    }

    /// Handles one key press in normal mode.
    pub fn handle_normal_mode(app: &mut App, key: KeyEvent) -> (action: Action)
        requires
            old(app).well_formed(),
        ensures
            final(app).well_formed(),
            normal_step(*old(app), key, *final(app), action),
    {
        if app.show_collections {
            InputHandler::collections_overlay_key(app, key.code)
        } else if app.show_method_selector {
            InputHandler::method_selector_key(app, key.code);
            Action::Continue
        } else if app.save_dialog_visible {
            InputHandler::save_dialog_key(app, key.code)
        } else if app.active_field == Field::Headers && InputHandler::claims_header_key(key.code) {
            InputHandler::header_editor_key(app, key.code);
            Action::Continue
        } else {
            InputHandler::field_key(app, key.code)
        }
    }

    /// Whether the header editor claims the key.
    pub fn claims_header_key(code: KeyCode) -> (yes: bool)
        ensures
            yes == is_header_key(code),
    {
        match code {
            KeyCode::Char(c) => c == 'n' || c == 'd' || c == ' ',
            KeyCode::Up => true,
            KeyCode::Down => true,
            _ => false,
        }
    }

    /// Types a character into the header editor's scratch text.
    pub fn type_into_scratch(app: &mut App, c: char)
        ensures
            scratch_typed(*old(app), c, *final(app)),
    {
        match app.header_edit_state {
            HeaderEditState::EditingKey => {
                insert_char(&mut app.header_edit_key, &mut app.header_key_cursor, c);
            },
            HeaderEditState::EditingValue => {
                insert_char(&mut app.header_edit_value, &mut app.header_value_cursor, c);
            },
            HeaderEditState::Selecting => {},
        }
    }

    /// Backspace in the header editor's scratch text.
    pub fn erase_in_scratch(app: &mut App)
        ensures
            scratch_erased(*old(app), *final(app)),
    {
        match app.header_edit_state {
            HeaderEditState::EditingKey => {
                erase_before(&mut app.header_edit_key, &mut app.header_key_cursor);
            },
            HeaderEditState::EditingValue => {
                erase_before(&mut app.header_edit_value, &mut app.header_value_cursor);
            },
            HeaderEditState::Selecting => {},
        }
    }

    /// Opens the collection under the selection.
    pub fn open_selected_collection(app: &mut App)
        ensures
            collection_opened(*old(app), *final(app)),
    {
        let at = app.collection_selected_index;
        if at < app.collection_manager.collections.len() {
            let name = copy_text(&app.collection_manager.collections[at].info.name);
            app.selected_collection = Some(name);
            app.collection_view = CollectionView::Requests;
            app.request_selected_index = 0;
        }
    }

    /// A key in the collections browser.
    pub fn collections_overlay_key(app: &mut App, code: KeyCode) -> (action: Action)
        requires
            old(app).well_formed(),
        ensures
            final(app).well_formed(),
            collections_key(*old(app), code, *final(app), action),
    {
        match code {
            KeyCode::Char(c) => {
                let at = app.collection_selected_index;
                if c == 'd' && at < app.collection_manager.collections.len() {
                    let name = copy_text(&app.collection_manager.collections[at].info.name);
                    proof {
                        lemma_first_named_of(app.collection_manager.collections@, at as int);
                    }
                    app.collection_manager.delete_collection(&name);
                    Action::Persist
                } else {
                    Action::Continue
                }
            },
            KeyCode::Esc => {
                match app.collection_view {
                    CollectionView::List => {
                        app.show_collections = false;
                        app.active_field = Field::NavPanel;
                    },
                    CollectionView::Requests => {
                        app.collection_view = CollectionView::List;
                        app.selected_collection = None;
                    },
                }
                Action::Continue
            },
            KeyCode::Enter => {
                if app.collection_view == CollectionView::List {
                    InputHandler::open_selected_collection(app);
                }
                Action::Continue
            },
            KeyCode::Up => {
                match app.collection_view {
                    CollectionView::List => {
                        app.collection_selected_index = step_up(app.collection_selected_index);
                    },
                    CollectionView::Requests => {
                        if InputHandler::open_collection_len(app).is_some() {
                            app.request_selected_index = step_up(app.request_selected_index);
                        }
                    },
                }
                Action::Continue
            },
            KeyCode::Down => {
                match app.collection_view {
                    CollectionView::List => {
                        app.collection_selected_index = cycle_down(
                            app.collection_selected_index,
                            app.collection_manager.collections.len(),
                        );
                    },
                    CollectionView::Requests => {
                        match InputHandler::open_collection_len(app) {
                            Some(len) => {
                                app.request_selected_index = cycle_down(
                                    app.request_selected_index,
                                    len,
                                );
                            },
                            None => {},
                        }
                    },
                }
                Action::Continue
            },
            _ => Action::Continue,
        }
    }

    /// The number of items in the collection that is open, if one is.
    pub fn open_collection_len(app: &App) -> (len: Option<usize>)
        ensures
            len is Some <==> open_collection(*app) is Some,
            len is Some ==> len->0 == app.collection_manager.collections@[open_collection(
                *app,
            )->0].requests@.len(),
    {
        match &app.selected_collection {
            Some(name) => {
                match app.collection_manager.get_collection(name) {
                    Some(collection) => Some(collection.requests.len()),
                    None => None,
                }
            },
            None => None,
        }
    }

    /// A key in the method selector.
    pub fn method_selector_key(app: &mut App, code: KeyCode)
        ensures
            selector_key(*old(app), code, *final(app)),
    {
        match code {
            KeyCode::Esc => {
                app.show_method_selector = false;
            },
            KeyCode::Enter => {
                match HttpMethod::at(app.selector_method_index) {
                    Some(method) => {
                        app.method = method;
                    },
                    None => {},
                }
                app.show_method_selector = false;
            },
            KeyCode::Up => {
                app.selector_method_index = cycle_up(app.selector_method_index, 5);
            },
            KeyCode::Down => {
                app.selector_method_index = cycle_down(app.selector_method_index, 5);
            },
            _ => {},
        }
    }

    /// A key in the save dialog.
    pub fn save_dialog_key(app: &mut App, code: KeyCode) -> (action: Action)
        requires
            old(app).well_formed(),
        ensures
            final(app).well_formed(),
            save_dialog_key(*old(app), code, *final(app), action),
    {
        match code {
            KeyCode::Esc => {
                app.save_dialog_visible = false;
                Action::Continue
            },
            KeyCode::Enter => {
                let at = app.save_dialog_selected_index;
                if at < app.collection_manager.collections.len() {
                    let name = copy_text(&app.collection_manager.collections[at].info.name);
                    proof {
                        lemma_first_named_of(app.collection_manager.collections@, at as int);
                    }
                    let _ = app.save_to_collection(&name);
                    app.save_dialog_visible = false;
                    Action::Persist
                } else {
                    app.save_dialog_visible = false;
                    Action::Continue
                }
            },
            KeyCode::Up => {
                app.save_dialog_selected_index = cycle_up(
                    app.save_dialog_selected_index,
                    app.collection_manager.collections.len(),
                );
                Action::Continue
            },
            KeyCode::Down => {
                app.save_dialog_selected_index = cycle_down(
                    app.save_dialog_selected_index,
                    app.collection_manager.collections.len(),
                );
                Action::Continue
            },
            _ => Action::Continue,
        }
    }

    /// A key that the header editor claims.
    pub fn header_editor_key(app: &mut App, code: KeyCode)
        requires
            old(app).well_formed(),
        ensures
            final(app).well_formed(),
            header_key(*old(app), code, *final(app)),
    {
        match code {
            KeyCode::Char(c) => {
                if app.header_edit_state != HeaderEditState::Selecting {
                    InputHandler::type_into_scratch(app, c);
                } else if c == 'n' {
                    app.selected_header_index = app.headers.len();
                    app.header_edit_state = HeaderEditState::EditingKey;
                    app.header_edit_key = Vec::new();
                    app.header_edit_value = Vec::new();
                    app.header_key_cursor = 0;
                    app.header_value_cursor = 0;
                } else if c == 'd' {
                    let at = app.selected_header_index;
                    if at < app.headers.len() {
                        app.headers.remove_at(at);
                        app.selected_header_index = step_up(at);
                    }
                } else {
                    app.headers.toggle_at(app.selected_header_index);
                }
            },
            KeyCode::Up => {
                app.selected_header_index = step_up(app.selected_header_index);
            },
            KeyCode::Down => {
                if app.selected_header_index < app.headers.len() {
                    app.selected_header_index = app.selected_header_index + 1;
                }
            },
            _ => {},
        }
    }

    /// Enter on a header row: its name and value go into the scratch texts.
    fn begin_header_edit(app: &mut App)
        requires
            old(app).header_edit_state == HeaderEditState::Selecting,
        ensures
            header_enter(*old(app), *final(app)),
            final(app).headers == old(app).headers,
    {
        let at = app.selected_header_index;
        if at < app.headers.len() {
            let key = copy_text(&app.headers.entries[at].key);
            let value = copy_text(&app.headers.entries[at].value);
            app.header_key_cursor = key.len();
            app.header_value_cursor = value.len();
            app.header_edit_key = key;
            app.header_edit_value = value;
            app.header_edit_state = HeaderEditState::EditingKey;
        }
    }

    /// Enter on a header's name: on to its value.
    fn confirm_header_name(app: &mut App)
        requires
            old(app).well_formed(),
            old(app).header_edit_state == HeaderEditState::EditingKey,
        ensures
            final(app).well_formed(),
            header_enter(*old(app), *final(app)),
    {
        let at = app.selected_header_index;
        if at < app.headers.len() && starts_with(&app.headers.entries[at].key, "zzz_new_header_") {
            app.headers.remove_at(at);
        }
        app.header_edit_state = HeaderEditState::EditingValue;
    }

    /// Enter on a header's value: the header is stored.
    fn commit_header(app: &mut App)
        requires
            old(app).well_formed(),
            old(app).header_edit_state == HeaderEditState::EditingValue,
        ensures
            final(app).well_formed(),
            header_enter(*old(app), *final(app)),
    {
        if app.header_edit_key.len() > 0 {
            let key = copy_text(&app.header_edit_key);
            let value = copy_text(&app.header_edit_value);
            let row = app.headers.store(key, value, Some(true));
            app.selected_header_index = row;
        }
        app.header_edit_state = HeaderEditState::Selecting;
    }

    /// Enter in the header editor.
    pub fn header_editor_enter(app: &mut App)
        requires
            old(app).well_formed(),
        ensures
            final(app).well_formed(),
            header_enter(*old(app), *final(app)),
    {
        match app.header_edit_state {
            HeaderEditState::Selecting => InputHandler::begin_header_edit(app),
            HeaderEditState::EditingKey => InputHandler::confirm_header_name(app),
            HeaderEditState::EditingValue => InputHandler::commit_header(app),
        }
    }

    /// Loads the selected history entry into the request.
    pub fn load_from_history(app: &mut App)
        ensures
            history_loaded(*old(app), *final(app)),
            final(app).headers.well_formed() || final(app).headers == old(app).headers,
    {
        let at = app.history_selected_index;
        if at < app.history.entries.len() {
            let entry = &app.history.entries[at];
            let url = copy_text(&entry.request.url);
            let method = match HttpMethod::from_text(&entry.request.method) {
                Some(method) => method,
                None => HttpMethod::GET,
            };
            let headers = HeaderList::load(&entry.request.headers, &app.headers);
            let body = match &entry.request.body {
                Some(body) => copy_text(body),
                None => Vec::new(),
            };
            app.selected_header_index = clamp_cursor(app.selected_header_index, headers.len());
            app.url = url;
            app.method = method;
            app.headers = headers;
            app.body = body;
            app.show_history = false;
            app.active_field = Field::Url;
        }
    }

    /// Enter on the send button.
    fn enter_on_send(app: &mut App) -> (action: Action)
        requires
            old(app).well_formed(),
            old(app).active_field == Field::SendButton,
        ensures
            final(app).well_formed(),
            enter_key(*old(app), *final(app), action),
    {
        if app.url.len() > 0 {
            let request = RequestHandler::send_request(app);
            Action::Send(request)
        } else {
            Action::Continue
        }
    }

    /// Enter on the navigation panel.
    fn enter_on_nav(app: &mut App) -> (action: Action)
        requires
            old(app).active_field == Field::NavPanel,
        ensures
            enter_key(*old(app), *final(app), action),
            final(app).headers == old(app).headers,
            final(app).collection_manager == old(app).collection_manager,
    {
        match app.nav_selected {
            NavItem::Collections => {
                app.show_collections = true;
                app.show_history = false;
                app.collections_focus = CollectionsFocus::List;
                app.collection_selected_index = 0;
                app.input_mode = InputMode::Normal;
                app.active_field = Field::Collections;
                Action::Continue
            },
            NavItem::History => {
                app.show_history = true;
                app.show_collections = false;
                app.history_selected_index = 0;
                app.input_mode = InputMode::Normal;
                app.active_field = Field::History;
                Action::Continue
            },
            NavItem::Quit => Action::Quit,
            NavItem::Environments => Action::Continue,
        }
    }

    /// Enter on a text field or a button that opens an overlay.
    fn enter_on_plain_field(app: &mut App) -> (action: Action)
        requires
            old(app).active_field == Field::Url || old(app).active_field == Field::RequestBody
                || old(app).active_field == Field::Method || old(app).active_field
                == Field::SaveButton,
        ensures
            enter_key(*old(app), *final(app), action),
            final(app).headers == old(app).headers,
            final(app).collection_manager == old(app).collection_manager,
    {
        match app.active_field {
            Field::Url => {
                app.input_mode = InputMode::Editing(Field::Url);
                app.cursor_position = app.url.len();
            },
            Field::RequestBody => {
                app.input_mode = InputMode::Editing(Field::RequestBody);
                app.cursor_position = app.body.len();
            },
            Field::Method => {
                app.show_method_selector = true;
                app.selector_method_index = app.method.position();
            },
            _ => {
                app.save_dialog_visible = true;
                app.save_dialog_selected_index = 0;
                app.show_collections = false;
            },
        }
        Action::Continue
    }

    /// Enter outside the overlays.
    pub fn field_enter(app: &mut App) -> (action: Action)
        requires
            old(app).well_formed(),
        ensures
            final(app).well_formed(),
            enter_key(*old(app), *final(app), action),
    {
        match app.active_field {
            Field::SendButton => InputHandler::enter_on_send(app),
            Field::Headers => {
                InputHandler::header_editor_enter(app);
                Action::Continue
            },
            Field::NavPanel => InputHandler::enter_on_nav(app),
            Field::History => {
                InputHandler::load_from_history(app);
                Action::Continue
            },
            Field::Collections => {
                InputHandler::open_selected_collection(app);
                Action::Continue
            },
            _ => InputHandler::enter_on_plain_field(app),
        }
    }

    /// A key outside the overlays that the header editor did not claim.
    pub fn field_key(app: &mut App, code: KeyCode) -> (action: Action)
        requires
            old(app).well_formed(),
        ensures
            final(app).well_formed(),
            generic_key(*old(app), code, *final(app), action),
    {
        match code {
            KeyCode::Tab => {
                if app.header_edit_state == HeaderEditState::EditingKey {
                    app.header_edit_state = HeaderEditState::EditingValue;
                    app.header_value_cursor = app.header_edit_value.len();
                } else {
                    app.active_field = app.active_field.next();
                }
                Action::Continue
            },
            KeyCode::BackTab => {
                if app.header_edit_state == HeaderEditState::EditingValue {
                    app.header_edit_state = HeaderEditState::EditingKey;
                    app.header_key_cursor = app.header_edit_key.len();
                } else {
                    app.active_field = app.active_field.previous();
                }
                Action::Continue
            },
            KeyCode::Char(c) => {
                InputHandler::type_into_scratch(app, c);
                Action::Continue
            },
            KeyCode::Backspace => {
                InputHandler::erase_in_scratch(app);
                Action::Continue
            },
            KeyCode::Esc => {
                if app.header_edit_state != HeaderEditState::Selecting {
                    app.header_edit_state = HeaderEditState::Selecting;
                    app.header_key_cursor = 0;
                    app.header_value_cursor = 0;
                }
                Action::Continue
            },
            KeyCode::Enter => InputHandler::field_enter(app),
            KeyCode::Up => {
                match app.active_field {
                    Field::NavPanel => {
                        app.nav_selected = app.nav_selected.up();
                    },
                    Field::History => {
                        app.history_selected_index = step_up(app.history_selected_index);
                    },
                    Field::Collections => {
                        app.collection_selected_index = step_up(app.collection_selected_index);
                    },
                    _ => {},
                }
                Action::Continue
            },
            KeyCode::Down => {
                match app.active_field {
                    Field::NavPanel => {
                        app.nav_selected = app.nav_selected.down();
                    },
                    Field::History => {
                        app.history_selected_index = cycle_down(
                            app.history_selected_index,
                            app.history.entries.len(),
                        );
                    },
                    Field::Collections => {
                        app.collection_selected_index = cycle_down(
                            app.collection_selected_index,
                            app.collection_manager.collections.len(),
                        );
                    },
                    _ => {},
                }
                Action::Continue
            },
            _ => Action::Continue,
        }
    }

    /// Shift with Left or Right in the URL.
    fn move_selection(app: &mut App, code: KeyCode)
        ensures
            selection_moved(*old(app), code, *final(app)),
    {
        if app.selection_start.is_none() {
            app.selection_start = Some(app.cursor_position);
        }
        if code == KeyCode::Left {
            app.cursor_position = step_up(app.cursor_position);
        } else if app.cursor_position < app.url.len() {
            app.cursor_position = app.cursor_position + 1;
        }
    }

    /// The copy chord in the URL.
    fn copy_selection(app: &App) -> (action: Action)
        ensures
            if app.selection_start is Some {
                action is Copy && action->Copy_0@ == selected_text(*app)
            } else {
                action is Continue
            },
    {
        match app.selection_start {
            Some(anchor) => {
                let (lo, hi) = selection_bounds(anchor, app.cursor_position, app.url.len());
                Action::Copy(slice_text(&app.url, lo, hi))
            },
            None => Action::Continue,
        }
    }

    /// Handles one key press while `field` is being edited.
    pub fn handle_editing_mode(app: &mut App, field: Field, key: KeyEvent) -> (action: Action)
        requires
            old(app).well_formed(),
        ensures
            final(app).well_formed(),
            editing_step(*old(app), field, key, *final(app), action),
    {
        let chord = key.modifiers.is_control() || key.modifiers.is_super();
        if field == Field::Url && key.modifiers.shift && (key.code == KeyCode::Left || key.code
            == KeyCode::Right) {
            InputHandler::move_selection(app, key.code);
            Action::Continue
        } else if field == Field::Url && chord && key.code == KeyCode::Char('c') {
            InputHandler::copy_selection(app)
        } else if field == Field::Url && chord && key.code == KeyCode::Char('v') {
            Action::Paste
        } else {
            if key.modifiers.is_empty() || chord {
                app.selection_start = None;
            }
            InputHandler::edit_field_key(app, field, key.code);
            Action::Continue
        }
    }

    /// Enter in a text field.
    fn edit_enter(app: &mut App, field: Field)
        requires
            old(app).well_formed(),
        ensures
            final(app).well_formed(),
            edit_key(*old(app), field, KeyCode::Enter, *final(app)),
    {
        if field == Field::RequestBody {
            insert_char(&mut app.body, &mut app.cursor_position, '\n');
            app.refresh_content_length();
        } else {
            app.input_mode = InputMode::Normal;
            app.cursor_position = 0;
        }
    }

    /// Tab in a text field.
    fn edit_tab(app: &mut App, field: Field)
        ensures
            edit_key(*old(app), field, KeyCode::Tab, *final(app)),
            final(app).headers == old(app).headers,
            final(app).collection_manager == old(app).collection_manager,
    {
        if field == Field::RequestBody {
            let at = clamp_cursor(app.cursor_position, app.body.len());
            let spaces = text_of("    ");
            app.cursor_position = splice(&mut app.body, at, at, &spaces);
        } else {
            app.input_mode = InputMode::Normal;
        }
    }

    /// A character typed into a text field.
    fn edit_char(app: &mut App, field: Field, c: char)
        ensures
            field_typed(*old(app), field, c, *final(app)),
            final(app).headers == old(app).headers,
            final(app).collection_manager == old(app).collection_manager,
    {
        match field {
            Field::Url => {
                insert_char(&mut app.url, &mut app.cursor_position, c);
            },
            Field::RequestBody => {
                insert_char(&mut app.body, &mut app.cursor_position, c);
            },
            _ => {},
        }
    }

    /// Backspace in a text field.
    fn edit_backspace(app: &mut App, field: Field)
        ensures
            field_erased(*old(app), field, *final(app)),
            final(app).headers == old(app).headers,
            final(app).collection_manager == old(app).collection_manager,
    {
        match field {
            Field::Url => {
                erase_before(&mut app.url, &mut app.cursor_position);
            },
            Field::RequestBody => {
                erase_before(&mut app.body, &mut app.cursor_position);
            },
            _ => {},
        }
    }

    /// Right in a text field.
    fn edit_right(app: &mut App, field: Field)
        ensures
            edit_key(*old(app), field, KeyCode::Right, *final(app)),
            final(app).headers == old(app).headers,
            final(app).collection_manager == old(app).collection_manager,
    {
        match field {
            Field::Url => {
                if app.cursor_position < app.url.len() {
                    app.cursor_position = app.cursor_position + 1;
                } else {
                    app.cursor_position = app.url.len();
                }
            },
            Field::RequestBody => {
                if app.cursor_position < app.body.len() {
                    app.cursor_position = app.cursor_position + 1;
                } else {
                    app.cursor_position = app.body.len();
                }
            },
            _ => {},
        }
    }

    /// A key in a text field, once selection and clipboard keys are dealt with.
    pub fn edit_field_key(app: &mut App, field: Field, code: KeyCode)
        requires
            old(app).well_formed(),
        ensures
            final(app).well_formed(),
            edit_key(*old(app), field, code, *final(app)),
    {
        match code {
            KeyCode::Esc => {
                app.input_mode = InputMode::Normal;
                app.cursor_position = 0;
            },
            KeyCode::Enter => InputHandler::edit_enter(app, field),
            KeyCode::Tab => InputHandler::edit_tab(app, field),
            KeyCode::Char(c) => InputHandler::edit_char(app, field, c),
            KeyCode::Backspace => InputHandler::edit_backspace(app, field),
            KeyCode::Right => InputHandler::edit_right(app, field),
            _ => {},
        }
    }

    /// Takes in the clipboard's text after `Action::Paste`.
    pub fn paste(app: &mut App, clipboard: &Vec<char>)
        ensures
            pasted(*old(app), clipboard@, *final(app)),
            old(app).well_formed() ==> final(app).well_formed(),
    {
        if app.input_mode == InputMode::Editing(Field::Url) {
            let clean = sanitize_paste(clipboard);
            let (lo, hi) = match app.selection_start {
                Some(anchor) => selection_bounds(anchor, app.cursor_position, app.url.len()),
                None => {
                    let at = clamp_cursor(app.cursor_position, app.url.len());
                    (at, at)
                },
            };
            app.cursor_position = splice(&mut app.url, lo, hi, &clean);
            app.selection_start = None;
        }
    }
}

} // verus!
