//! What holds of the engine as a whole, proved from the contracts of its
//! parts.

use vstd::prelude::*;
use crate::collections::{
    first_named, is_saved_request, lemma_first_named_bounds, lemma_first_named_is, request_saved,
    Collection, CollectionError,
};
use crate::headers::{
    has_key, lemma_slot_bounds, lemma_slot_is, lemma_stored, lookup, slot, stored,
    strictly_sorted, toggled, HeaderView,
};
use crate::history::{appended, HistoryEntry};
use crate::input::{header_enter, header_key, step, Action};
use crate::model::{Field, HeaderEditState, InputMode, KeyCode, KeyEvent};
use crate::state::App;
use crate::text::{
    clamped, cursor_after_erase, lemma_lex_asymmetric, lemma_lex_total, lemma_lex_transitive,
    lex_less, with_char_erased, with_char_inserted,
};

verus! {

/// One edit of a text field.
pub enum EditOp {
    Insert(char),
    Backspace,
}

/// The text and the cursor after a run of edits, first to last.
pub open spec fn replayed(text: Seq<char>, cursor: int, ops: Seq<EditOp>) -> (Seq<char>, int)
    decreases ops.len(),
{
    if ops.len() == 0 {
        (text, cursor)
    } else {
        let before = replayed(text, cursor, ops.drop_last());
        match ops.last() {
            EditOp::Insert(c) => (
                with_char_inserted(before.0, before.1, c),
                clamped(before.1, before.0.len() as int) + 1,
            ),
            EditOp::Backspace => (
                with_char_erased(before.0, before.1),
                cursor_after_erase(before.0, before.1),
            ),
        }
    }
}

/// Whatever is typed and erased, in whatever order, the cursor stays inside
/// the text.
pub proof fn law_cursor_stays_in_text(text: Seq<char>, cursor: int, ops: Seq<EditOp>)
    requires
        0 <= cursor <= text.len(),
    ensures
        0 <= replayed(text, cursor, ops).1 <= replayed(text, cursor, ops).0.len(),
    decreases ops.len(),
{
    if ops.len() > 0 {
        law_cursor_stays_in_text(text, cursor, ops.drop_last());
    }
}

/// A key typed or erased in a text field leaves the cursor inside that
/// field's text, wherever it stood before.
pub proof fn law_editing_key_clamps_cursor(pre: App, key: KeyEvent, post: App, action: Action)
    requires
        step(pre, key, post, action),
        pre.input_mode == InputMode::Editing(Field::Url) || pre.input_mode == InputMode::Editing(
            Field::RequestBody,
        ),
        key.modifiers.none_held(),
        key.code is Char || key.code is Backspace,
    ensures
        pre.input_mode == InputMode::Editing(Field::Url) ==> post.cursor_position
            <= post.url@.len(),
        pre.input_mode == InputMode::Editing(Field::RequestBody) ==> post.cursor_position
            <= post.body@.len(),
{
}

/// No key press takes a cursor out of its text or the header selection off
/// the rows: a state that is in bounds stays so.
pub proof fn law_step_keeps_bounds(pre: App, key: KeyEvent, post: App, action: Action)
    requires
        pre.well_formed(),
        pre.in_bounds(),
        step(pre, key, post, action),
    ensures
        post.in_bounds(),
{
    match pre.input_mode {
        InputMode::Normal => law_normal_step_keeps_bounds(pre, key, post, action),
        InputMode::Editing(field) => law_editing_step_keeps_bounds(pre, field, key, post, action),
    }
}

proof fn law_editing_step_keeps_bounds(
    pre: App,
    field: Field,
    key: KeyEvent,
    post: App,
    action: Action,
)
    requires
        pre.well_formed(),
        pre.in_bounds(),
        pre.input_mode == InputMode::Editing(field),
        crate::input::editing_step(pre, field, key, post, action),
    ensures
        post.in_bounds(),
{
    if field == Field::Url && key.modifiers.shift && (key.code == KeyCode::Left || key.code
        == KeyCode::Right) {
    } else if field == Field::Url && crate::input::is_chord(key, 'c') {
    } else if field == Field::Url && crate::input::is_chord(key, 'v') {
    } else {
        let mid = if crate::input::ends_selection(key) {
            App { selection_start: None, ..pre }
        } else {
            pre
        };
        assert(mid.in_bounds());
        law_edit_key_keeps_bounds(mid, field, key.code, post);
    }
}

proof fn law_edit_key_keeps_bounds(pre: App, field: Field, code: KeyCode, post: App)
    requires
        pre.well_formed(),
        pre.in_bounds(),
        pre.input_mode == InputMode::Editing(field),
        crate::input::edit_key(pre, field, code, post),
    ensures
        post.in_bounds(),
{
    match code {
        KeyCode::Enter => {
            if field == Field::RequestBody {
                lemma_stored(
                    pre.headers@,
                    "Content-Length"@,
                    crate::state::length_text(post.body@),
                    None,
                );
            }
        },
        _ => {},
    }
}

/// A paste leaves the cursor inside the URL.
pub proof fn law_paste_keeps_bounds(pre: App, clipboard: Seq<char>, post: App)
    requires
        pre.in_bounds(),
        crate::input::pasted(pre, clipboard, post),
    ensures
        post.in_bounds(),
{
}

proof fn law_normal_step_keeps_bounds(pre: App, key: KeyEvent, post: App, action: Action)
    requires
        pre.well_formed(),
        pre.in_bounds(),
        pre.input_mode == InputMode::Normal,
        crate::input::normal_step(pre, key, post, action),
    ensures
        post.in_bounds(),
{
    assert(pre.headers@.len() == pre.headers.entries.len());
    if pre.show_collections {
    } else if pre.show_method_selector {
    } else if pre.save_dialog_visible {
    } else if pre.active_field == Field::Headers && crate::input::is_header_key(key.code) {
    } else {
        match key.code {
            KeyCode::Enter => {
                match pre.active_field {
                    Field::SendButton => {
                        if pre.url@.len() > 0 {
                            let token = choose|token: Seq<char>| #[trigger]
                                crate::actions::sent(pre, token, post, action->Send_0);
                            lemma_refreshed_grows(
                                pre.headers@,
                                crate::actions::parsed_host(
                                    crate::actions::with_scheme(pre.url@),
                                ),
                                token,
                                pre.body@,
                            );
                        }
                    },
                    Field::Headers => {
                        lemma_stored(
                            pre.headers@,
                            pre.header_edit_key@,
                            pre.header_edit_value@,
                            Some(true),
                        );
                        lemma_slot_bounds(pre.headers@, pre.header_edit_key@);
                    },
                    _ => {},
                }
            },
            _ => {},
        }
    }
}

/// Refreshing the headers of a sorted list never takes a row away.
pub proof fn lemma_refreshed_grows(
    rows: Seq<HeaderView>,
    host: Option<Option<Seq<char>>>,
    token: Seq<char>,
    body: Seq<char>,
)
    requires
        strictly_sorted(rows),
    ensures
        crate::actions::refreshed(rows, host, token, body).len() >= rows.len(),
        strictly_sorted(crate::actions::refreshed(rows, host, token, body)),
{
    let with_host = match host {
        Some(Some(name)) => stored(rows, "Host"@, name, None),
        _ => rows,
    };
    match host {
        Some(Some(name)) => lemma_stored(rows, "Host"@, name, None),
        _ => {},
    }
    lemma_stored(with_host, "Random-Token"@, token, None);
    let with_token = stored(with_host, "Random-Token"@, token, None);
    lemma_stored(with_token, "Content-Length"@, crate::state::length_text(body), None);
}

/// While an overlay is open, Tab and Shift-Tab are swallowed: the focus and
/// everything else stay as they are.
pub proof fn law_overlay_swallows_focus_keys(pre: App, key: KeyEvent, post: App, action: Action)
    requires
        pre.input_mode == InputMode::Normal,
        pre.overlay() != crate::state::Overlay::Closed,
        key.code == KeyCode::Tab || key.code == KeyCode::BackTab,
        step(pre, key, post, action),
    ensures
        post == pre,
        action is Continue,
{
}

/// Every method is the one that its name stands for, and no two methods share
/// a name.
pub proof fn law_method_names_round_trip(method: crate::model::HttpMethod)
    ensures
        crate::model::HttpMethod::named(method.name()) == Some(method),
{
    reveal_strlit("GET");
    reveal_strlit("POST");
    reveal_strlit("PUT");
    reveal_strlit("DELETE");
    reveal_strlit("PATCH");
    assert("GET"@.len() == 3 && "PUT"@.len() == 3 && "POST"@.len() == 4);
    assert("PATCH"@.len() == 5 && "DELETE"@.len() == 6);
    assert("GET"@[0] == 'G' && "PUT"@[0] == 'P');
}

/// Storing under one name changes no header of another name.
pub proof fn law_store_leaves_other_names(
    rows: Seq<HeaderView>,
    key: Seq<char>,
    value: Seq<char>,
    enable: Option<bool>,
    other: Seq<char>,
)
    requires
        strictly_sorted(rows),
        other != key,
    ensures
        lookup(stored(rows, key, value, enable), other) == lookup(rows, other),
{
    let at = slot(rows, key);
    let after = stored(rows, key, value, enable);
    let k = slot(rows, other);
    lemma_slot_bounds(rows, key);
    lemma_slot_bounds(rows, other);
    lemma_stored(rows, key, value, enable);
    lemma_lex_total(key, other);
    if has_key(rows, key) {
        assert forall|i: int| 0 <= i < k implies lex_less(#[trigger] after[i].key, other) by {
            assert(after[i].key == rows[i].key);
        }
        if k < rows.len() {
            assert(after[k].key == rows[k].key);
        }
        lemma_slot_is(after, other, k);
        if k < rows.len() && k != at {
            assert(after[k] == rows[k]);
        }
    } else if lex_less(other, key) {
        // `other` stands before the new row: nothing before its slot moved.
        if k > at {
            assert(lex_less(rows[at].key, other));
            lemma_lex_total(rows[at].key, key);
            lemma_lex_transitive(key, rows[at].key, other);
            lemma_lex_asymmetric(key, other);
        }
        assert forall|i: int| 0 <= i < k implies lex_less(#[trigger] after[i].key, other) by {
            assert(after[i] == rows[i]);
        }
        if k < at {
            assert(after[k] == rows[k]);
        } else {
            assert(after[k].key == key);
            lemma_lex_asymmetric(other, key);
        }
        lemma_slot_is(after, other, k);
        if k == at {
            if k < rows.len() && rows[k].key == other {
                assert(lex_less(key, rows[at].key) || rows[at].key == key) by {
                    lemma_lex_total(rows[at].key, key);
                }
                lemma_lex_asymmetric(other, key);
            }
        }
    } else {
        // `other` stands behind the new row: its slot moves down by one.
        assert(lex_less(key, other));
        if k < at {
            assert(lex_less(rows[k].key, key));
            lemma_lex_transitive(rows[k].key, key, other);
        }
        assert(k >= at);
        assert forall|i: int| 0 <= i < k + 1 implies lex_less(#[trigger] after[i].key, other) by {
            if i < at {
                assert(after[i] == rows[i]);
            } else if i == at {
            } else {
                assert(after[i] == rows[i - 1]);
            }
        }
        if k < rows.len() {
            assert(after[k + 1] == rows[k]);
        }
        lemma_slot_is(after, other, k + 1);
    }
}

/// Sending puts `http://` in front of a URL that names no web scheme, and
/// where the URL then names a host, the `Host` header holds that host when
/// the request leaves.
pub proof fn law_send_names_the_host(
    pre: App,
    token: Seq<char>,
    post: App,
    request: crate::actions::OutgoingRequest,
    host: Seq<char>,
)
    requires
        pre.well_formed(),
        crate::actions::sent(pre, token, post, request),
        crate::actions::parsed_host(crate::actions::with_scheme(pre.url@)) == Some(Some(host)),
    ensures
        !crate::text::has_prefix(pre.url@, "http://"@) && !crate::text::has_prefix(
            pre.url@,
            "https://"@,
        ) ==> post.url@ == "http://"@ + pre.url@,
        request.url@ == post.url@,
        lookup(post.headers@, "Host"@) is Some,
        lookup(post.headers@, "Host"@)->0.value == host,
{
    reveal_strlit("Host");
    reveal_strlit("Random-Token");
    reveal_strlit("Content-Length");
    assert("Host"@.len() == 4 && "Random-Token"@.len() == 12 && "Content-Length"@.len() == 14);
    let rows = pre.headers@;
    let with_host = stored(rows, "Host"@, host, None);
    lemma_stored(rows, "Host"@, host, None);
    let with_token = stored(with_host, "Random-Token"@, token, None);
    lemma_stored(with_host, "Random-Token"@, token, None);
    law_store_leaves_other_names(with_host, "Random-Token"@, token, None, "Host"@);
    law_store_leaves_other_names(
        with_token,
        "Content-Length"@,
        crate::state::length_text(pre.body@),
        None,
        "Host"@,
    );
}

/// What a paste carries into the URL holds no line break, carriage return or
/// tab, and a text without them is carried over unchanged.
pub proof fn law_sanitized_is_clean(text: Seq<char>)
    ensures
        forall|i: int|
            0 <= i < crate::text::sanitized(text).len() ==> !crate::text::is_line_noise(
                #[trigger] crate::text::sanitized(text)[i],
            ),
        crate::text::sanitized(text).len() <= text.len(),
        (forall|i: int| 0 <= i < text.len() ==> !crate::text::is_line_noise(#[trigger] text[i]))
            ==> crate::text::sanitized(text) == text,
    decreases text.len(),
{
    if text.len() > 0 {
        law_sanitized_is_clean(text.drop_last());
        if forall|i: int| 0 <= i < text.len() ==> !crate::text::is_line_noise(#[trigger] text[i]) {
            assert forall|i: int| 0 <= i < text.drop_last().len() implies !crate::text::is_line_noise(
                #[trigger] text.drop_last()[i],
            ) by {
                assert(text.drop_last()[i] == text[i]);
            }
            assert(text.drop_last().push(text.last()) =~= text);
        }
    } else {
        assert(crate::text::sanitized(text) =~= text);
    }
}

/// Flipping a header's switch twice leaves the headers as they were.
pub proof fn law_toggle_twice(rows: Seq<HeaderView>, at: int)
    ensures
        toggled(toggled(rows, at), at) == rows,
{
    assert(toggled(toggled(rows, at), at) =~= rows);
}

/// Two presses of the space bar on a header row leave the state as it was.
pub proof fn law_space_twice_restores(pre: App, mid: App, post: App, first: Action, second: Action)
    requires
        pre.input_mode == InputMode::Normal,
        !pre.show_collections && !pre.show_method_selector && !pre.save_dialog_visible,
        pre.active_field == Field::Headers,
        pre.header_edit_state == HeaderEditState::Selecting,
        step(pre, KeyEvent { code: KeyCode::Char(' '), modifiers: no_modifiers() }, mid, first),
        step(mid, KeyEvent { code: KeyCode::Char(' '), modifiers: no_modifiers() }, post, second),
    ensures
        post.headers@ == pre.headers@,
        post == (App { headers: post.headers, ..pre }),
{
    law_toggle_twice(pre.headers@, pre.selected_header_index as int);
}

/// The modifiers of an unmodified key press.
pub open spec fn no_modifiers() -> crate::model::KeyModifiers {
    crate::model::KeyModifiers {
        shift: false,
        control: false,
        alt: false,
        super_key: false,
        hyper: false,
        meta: false,
    }
}

/// Committing a header with a name stores it under that name with the value
/// that was typed, switched on, and selects it; the headers stay sorted, so
/// every row above it has a smaller name and every row below a larger one.
pub proof fn law_commit_places_header(pre: App, post: App)
    requires
        pre.well_formed(),
        pre.header_edit_state == HeaderEditState::EditingValue,
        pre.header_edit_key@.len() > 0,
        header_enter(pre, post),
    ensures
        strictly_sorted(post.headers@),
        lookup(post.headers@, pre.header_edit_key@) == Some(
            HeaderView { key: pre.header_edit_key@, value: pre.header_edit_value@, enabled: true },
        ),
        0 <= post.selected_header_index < post.headers@.len(),
        post.headers@[post.selected_header_index as int].key == pre.header_edit_key@,
        forall|i: int|
            0 <= i < post.selected_header_index ==> lex_less(
                #[trigger] post.headers@[i].key,
                pre.header_edit_key@,
            ),
        forall|i: int|
            post.selected_header_index < i < post.headers@.len() ==> lex_less(
                pre.header_edit_key@,
                #[trigger] post.headers@[i].key,
            ),
        post.header_edit_state == HeaderEditState::Selecting,
{
    let key = pre.header_edit_key@;
    lemma_stored(pre.headers@, key, pre.header_edit_value@, Some(true));
    lemma_slot_bounds(pre.headers@, key);
    lemma_slot_bounds(post.headers@, key);
    let at = slot(pre.headers@, key);
    assert(pre.headers@.len() == pre.headers.entries.len());
    assert(post.selected_header_index == at);
    assert forall|i: int| at < i < post.headers@.len() implies lex_less(
        key,
        #[trigger] post.headers@[i].key,
    ) by {
        assert(lex_less(post.headers@[at].key, post.headers@[i].key));
    }
}

/// Deleting the first header leaves the others, in order, and the selection
/// on the first row.
pub proof fn law_delete_first_header(pre: App, post: App)
    requires
        pre.header_edit_state == HeaderEditState::Selecting,
        pre.selected_header_index == 0,
        pre.headers@.len() > 0,
        header_key(pre, KeyCode::Char('d'), post),
    ensures
        post.headers@ == pre.headers@.drop_first(),
        post.headers@.len() == pre.headers@.len() - 1,
        post.selected_header_index == 0,
{
    assert(pre.headers@.remove(0) =~= pre.headers@.drop_first());
}

/// A request saved into an empty collection is, on looking the collection up
/// again, its one entry, with the method, URL, headers and body it was saved
/// with.
pub proof fn law_saved_request_round_trip(
    before: Seq<Collection>,
    after: Seq<Collection>,
    answer: Result<(), CollectionError>,
    collection_name: Seq<char>,
    request_name: Seq<char>,
    method: Seq<char>,
    url: Seq<char>,
    headers: Seq<HeaderView>,
    body: Seq<char>,
)
    requires
        request_saved(
            before,
            after,
            answer,
            collection_name,
            request_name,
            method,
            url,
            headers,
            body,
        ),
        first_named(before, collection_name) < before.len(),
        before[first_named(before, collection_name)].requests@.len() == 0,
    ensures
        answer is Ok,
        first_named(after, collection_name) == first_named(before, collection_name),
        after[first_named(after, collection_name)].requests@.len() == 1,
        is_saved_request(
            after[first_named(after, collection_name)].requests@[0],
            request_name,
            method,
            url,
            headers,
            body,
        ),
{
    let at = first_named(before, collection_name);
    lemma_first_named_bounds(before, collection_name);
    assert forall|i: int| 0 <= i < at implies (#[trigger] after[i]).info.name@
        != collection_name by {
        assert(after[i] == before[i]);
    }
    lemma_first_named_is(after, collection_name, at);
}

/// A log within its capacity stays within it when an entry is appended; a
/// full log gives up its oldest entry and keeps the others in order, the new
/// entry last.
pub proof fn law_history_bounded(log: Seq<HistoryEntry>, entry: HistoryEntry, max: int)
    requires
        0 <= max,
        log.len() <= max,
    ensures
        appended(log, entry, max).len() <= max,
        log.len() < max ==> appended(log, entry, max) == log.push(entry),
        log.len() == max && max > 0 ==> appended(log, entry, max) == log.drop_first().push(entry),
        max > 0 ==> appended(log, entry, max).last() == entry,
{
    if log.len() == max && max > 0 {
        assert(log.push(entry).drop_first() =~= log.drop_first().push(entry));
    }
}

/// The seven fields of the Tab cycle form one ring: Tab and Shift-Tab undo
/// each other, seven Tabs lead back to the start, Tab from the last field
/// reaches the first and Shift-Tab from the first the last. The two overlay
/// fields stay where they are.
pub proof fn law_tab_cycle(field: Field)
    ensures
        field.successor().predecessor() == field,
        field.predecessor().successor() == field,
        field.is_cyclic() ==> field.successor().is_cyclic() && field.successor() != field,
        field.successor().successor().successor().successor().successor().successor().successor()
            == field,
        !field.is_cyclic() ==> field.successor() == field && field.predecessor() == field,
        Field::NavPanel.successor() == Field::Url,
        Field::Url.predecessor() == Field::NavPanel,
{
}

} // verus!
