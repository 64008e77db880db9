//! The request's headers: name/value pairs with a switch each, kept sorted by
//! name so that a row number always means the same header on screen and in
//! the store.

use vstd::prelude::*;
use crate::text::{copy_text, lemma_lex_total, lemma_lex_transitive, lex_less, text_eq, text_less};

verus! {

/// One header of the outgoing request.
#[derive(Debug)]
pub struct Header {
    pub key: Vec<char>,
    pub value: Vec<char>,
    pub enabled: bool,
}

/// What a header is, apart from how it is stored.
pub ghost struct HeaderView {
    pub key: Seq<char>,
    pub value: Seq<char>,
    pub enabled: bool,
}

impl View for Header {
    type V = HeaderView;

    open spec fn view(&self) -> HeaderView {
        HeaderView { key: self.key@, value: self.value@, enabled: self.enabled }
    }
}

impl DeepView for Header {
    type V = HeaderView;

    open spec fn deep_view(&self) -> HeaderView {
        self@
    }
}

impl Header {
    /// A copy of this header.
    pub fn duplicate(&self) -> (h: Header)
        ensures
            h@ == self@,
    {
        Header { key: copy_text(&self.key), value: copy_text(&self.value), enabled: self.enabled }
    }
}

/// Names strictly increasing: sorted, and no name twice.
pub open spec fn strictly_sorted(rows: Seq<HeaderView>) -> bool {
    forall|i: int, j: int| 0 <= i < j < rows.len() ==> lex_less(#[trigger] rows[i].key, #[trigger] rows[j].key)
}

/// The row at which `key` stands or would be inserted: the number of leading
/// rows whose name comes before it.
pub open spec fn slot(rows: Seq<HeaderView>, key: Seq<char>) -> int
    decreases rows.len(),
{
    if rows.len() == 0 || !lex_less(rows[0].key, key) {
        0
    } else {
        1 + slot(rows.drop_first(), key)
    }
}

/// Whether a header named `key` is among the rows.
pub open spec fn has_key(rows: Seq<HeaderView>, key: Seq<char>) -> bool {
    slot(rows, key) < rows.len() && rows[slot(rows, key)].key == key
}

/// The header named `key`, if there is one.
pub open spec fn lookup(rows: Seq<HeaderView>, key: Seq<char>) -> Option<HeaderView> {
    if has_key(rows, key) {
        Some(rows[slot(rows, key)])
    } else {
        None
    }
}

/// The switch of the header named `key` after a store: the one asked for,
/// else the one it had, else on.
pub open spec fn switch_after(rows: Seq<HeaderView>, key: Seq<char>, switch: Option<bool>) -> bool {
    match switch {
        Some(on) => on,
        None => if has_key(rows, key) {
            rows[slot(rows, key)].enabled
        } else {
            true
        },
    }
}

/// The rows after `key` was given `value`: in place where the name exists, on
/// a new row at its slot where it does not.
pub open spec fn stored(
    rows: Seq<HeaderView>,
    key: Seq<char>,
    value: Seq<char>,
    switch: Option<bool>,
) -> Seq<HeaderView> {
    let at = slot(rows, key);
    let row = HeaderView { key, value, enabled: switch_after(rows, key, switch) };
    if has_key(rows, key) {
        rows.update(at, row)
    } else {
        rows.insert(at, row)
    }
}

/// Whether the header named `key` is sent; a name that is not among the rows
/// counts as enabled.
pub open spec fn enabled_in(rows: Seq<HeaderView>, key: Seq<char>) -> bool {
    switch_after(rows, key, None)
}

/// The rows that hold exactly the given headers, the later of two with one
/// name winning, each with the switch that `before` had under its name.
pub open spec fn loaded(pairs: Seq<HeaderView>, before: Seq<HeaderView>) -> Seq<HeaderView>
    decreases pairs.len(),
{
    if pairs.len() == 0 {
        Seq::empty()
    } else {
        stored(
            loaded(pairs.drop_last(), before),
            pairs.last().key,
            pairs.last().value,
            Some(enabled_in(before, pairs.last().key)),
        )
    }
}

/// The rows after the switch of row `at` was flipped.
pub open spec fn toggled(rows: Seq<HeaderView>, at: int) -> Seq<HeaderView> {
    if 0 <= at < rows.len() {
        rows.update(
            at,
            HeaderView { key: rows[at].key, value: rows[at].value, enabled: !rows[at].enabled },
        )
    } else {
        rows
    }
}

/// The rows after row `at` was deleted.
pub open spec fn without_row(rows: Seq<HeaderView>, at: int) -> Seq<HeaderView> {
    if 0 <= at < rows.len() {
        rows.remove(at)
    } else {
        rows
    }
}

/// `base` after every header of `extra` was stored into it, switched on, the
/// later of two with one name winning.
pub open spec fn merged(base: Seq<HeaderView>, extra: Seq<HeaderView>) -> Seq<HeaderView>
    decreases extra.len(),
{
    if extra.len() == 0 {
        base
    } else {
        stored(
            merged(base, extra.drop_last()),
            extra.last().key,
            extra.last().value,
            Some(true),
        )
    }
}

/// `slot` is the one row number with only smaller names before it and no
/// smaller name on it.
pub proof fn lemma_slot_is(rows: Seq<HeaderView>, key: Seq<char>, k: int)
    requires
        0 <= k <= rows.len(),
        forall|i: int| 0 <= i < k ==> lex_less(#[trigger] rows[i].key, key),
        k == rows.len() || !lex_less(rows[k].key, key),
    ensures
        slot(rows, key) == k,
    decreases rows.len(),
{
    if k > 0 {
        assert(lex_less(rows[0].key, key));
        let rest = rows.drop_first();
        assert forall|i: int| 0 <= i < k - 1 implies lex_less(#[trigger] rest[i].key, key) by {
            assert(rest[i] == rows[i + 1]);
        }
        lemma_slot_is(rest, key, k - 1);
    }
}

/// What `slot` means: where it points, and what lies before.
pub proof fn lemma_slot_bounds(rows: Seq<HeaderView>, key: Seq<char>)
    ensures
        0 <= slot(rows, key) <= rows.len(),
        forall|i: int| 0 <= i < slot(rows, key) ==> lex_less(#[trigger] rows[i].key, key),
        slot(rows, key) == rows.len() || !lex_less(rows[slot(rows, key)].key, key),
    decreases rows.len(),
{
    if rows.len() == 0 || !lex_less(rows[0].key, key) {
    } else {
        let rest = rows.drop_first();
        lemma_slot_bounds(rest, key);
        assert forall|i: int| 0 <= i < slot(rows, key) implies lex_less(
            #[trigger] rows[i].key,
            key,
        ) by {
            if i > 0 {
                assert(rows[i] == rest[i - 1]);
            }
        }
        if slot(rows, key) < rows.len() {
            assert(rows[slot(rows, key)] == rest[slot(rest, key)]);
        }
    }
}

/// Storing a header keeps the rows sorted, puts it on its slot, and leaves
/// every other name as it was.
pub proof fn lemma_stored(
    rows: Seq<HeaderView>,
    key: Seq<char>,
    value: Seq<char>,
    enable: Option<bool>,
)
    requires
        strictly_sorted(rows),
    ensures
        strictly_sorted(stored(rows, key, value, enable)),
        slot(stored(rows, key, value, enable), key) == slot(rows, key),
        has_key(stored(rows, key, value, enable), key),
        lookup(stored(rows, key, value, enable), key) == Some(
            HeaderView { key, value, enabled: switch_after(rows, key, enable) },
        ),
        stored(rows, key, value, enable).len() == rows.len() + (if has_key(rows, key) {
            0int
        } else {
            1int
        }),
{
    let at = slot(rows, key);
    let after = stored(rows, key, value, enable);
    lemma_slot_bounds(rows, key);
    if has_key(rows, key) {
        assert forall|i: int, j: int| 0 <= i < j < after.len() implies lex_less(
            #[trigger] after[i].key,
            #[trigger] after[j].key,
        ) by {
            assert(after[i].key == rows[i].key);
            assert(after[j].key == rows[j].key);
        }
        assert forall|i: int| 0 <= i < at implies lex_less(#[trigger] after[i].key, key) by {
            assert(after[i] == rows[i]);
        }
        crate::text::lemma_lex_irreflexive(key);
        lemma_slot_is(after, key, at);
    } else {
        if at < rows.len() {
            lemma_lex_total(rows[at].key, key);
        }
        assert forall|i: int, j: int| 0 <= i < j < after.len() implies lex_less(
            #[trigger] after[i].key,
            #[trigger] after[j].key,
        ) by {
            if j < at {
                assert(after[i] == rows[i] && after[j] == rows[j]);
            } else if j == at {
                assert(after[i] == rows[i]);
            } else if i == at {
                assert(after[j] == rows[j - 1]);
                if j - 1 > at {
                    assert(lex_less(rows[at].key, rows[j - 1].key));
                    lemma_lex_transitive(key, rows[at].key, rows[j - 1].key);
                }
            } else if i < at {
                assert(after[i] == rows[i] && after[j] == rows[j - 1]);
            } else {
                assert(after[i] == rows[i - 1] && after[j] == rows[j - 1]);
            }
        }
        assert forall|i: int| 0 <= i < at implies lex_less(#[trigger] after[i].key, key) by {
            assert(after[i] == rows[i]);
        }
        crate::text::lemma_lex_irreflexive(key);
        lemma_slot_is(after, key, at);
    }
}

/// The headers of a request, in order of their names.
#[derive(Debug)]
pub struct HeaderList {
    pub entries: Vec<Header>,
}

impl View for HeaderList {
    type V = Seq<HeaderView>;

    open spec fn view(&self) -> Seq<HeaderView> {
        Seq::new(self.entries@.len(), |i: int| self.entries@[i]@)
    }
}

impl HeaderList {
    /// The list is sorted by name and holds no name twice.
    pub open spec fn well_formed(&self) -> bool {
        strictly_sorted(self@)
    }

    /// A list without headers.
    pub fn new() -> (list: HeaderList)
        ensures
            list@ == Seq::<HeaderView>::empty(),
            list.well_formed(),
    {
        let list = HeaderList { entries: Vec::new() };
        assert(list@ =~= Seq::<HeaderView>::empty());
        list
    }

    /// Whether the list is sorted by name and holds no name twice.
    pub fn is_well_formed(&self) -> (ok: bool)
        ensures
            ok == self.well_formed(),
    {
        let mut i: usize = 1;
        while i < self.entries.len()
            invariant
                1 <= i,
                forall|a: int, b: int|
                    0 <= a < b < i && b < self@.len() ==> lex_less(
                        #[trigger] self@[a].key,
                        #[trigger] self@[b].key,
                    ),
            decreases self.entries@.len() - i,
        {
            if !text_less(&self.entries[i - 1].key, &self.entries[i].key) {
                assert(!strictly_sorted(self@)) by {
                    if strictly_sorted(self@) {
                        assert(lex_less(self@[i - 1].key, self@[i as int].key));
                    }
                }
                return false;
            }
            proof {
                assert forall|a: int, b: int| 0 <= a < b < i + 1 && b < self@.len() implies lex_less(
                    #[trigger] self@[a].key,
                    #[trigger] self@[b].key,
                ) by {
                    if b == i && a < i - 1 {
                        lemma_lex_transitive(self@[a].key, self@[i - 1].key, self@[i as int].key);
                    }
                }
            }
            i = i + 1;
        }
        true
    }

    /// Number of headers.
    pub fn len(&self) -> (n: usize)
        ensures
            n == self@.len(),
    {
        self.entries.len()
    }

    /// The row on which `key` stands or would be inserted.
    pub fn find_slot(&self, key: &Vec<char>) -> (at: usize)
        ensures
            at == slot(self@, key@),
            at <= self@.len(),
    {
        let mut at: usize = 0;
        while at < self.entries.len() && text_less(&self.entries[at].key, key)
            invariant
                at <= self.entries@.len(),
                forall|i: int| 0 <= i < at ==> lex_less(#[trigger] self@[i].key, key@),
            decreases self.entries@.len() - at,
        {
            at = at + 1;
        }
        proof {
            lemma_slot_is(self@, key@, at as int);
        }
        at
    }

    /// The row of the header named `key`, if there is one.
    pub fn position(&self, key: &Vec<char>) -> (at: Option<usize>)
        ensures
            at is Some <==> has_key(self@, key@),
            at is Some ==> at->0 == slot(self@, key@) && at->0 < self@.len(),
    {
        let k = self.find_slot(key);
        if k < self.entries.len() && text_eq(&self.entries[k].key, key) {
            Some(k)
        } else {
            None
        }
    }

    /// Whether the header named `key` is sent: a header that is not in the
    /// list counts as enabled.
    pub fn is_enabled(&self, key: &Vec<char>) -> (on: bool)
        ensures
            on == enabled_in(self@, key@),
    {
        match self.position(key) {
            Some(k) => self.entries[k].enabled,
            None => true,
        }
    }

    /// Gives `key` the value `value`, in place or on a new row, and returns
    /// the row. The switch is set as `enable` says; without a word the header
    /// keeps the one it had, and a new header is on.
    pub fn store(&mut self, key: Vec<char>, value: Vec<char>, enable: Option<bool>) -> (at: usize)
        requires
            old(self).well_formed(),
        ensures
            final(self)@ == stored(old(self)@, key@, value@, enable),
            final(self).well_formed(),
            at == slot(old(self)@, key@),
            at == slot(final(self)@, key@),
            at < final(self)@.len(),
            final(self)@[at as int].key == key@,
            final(self)@[at as int].value == value@,
    {
        let at = self.find_slot(&key);
        proof {
            lemma_stored(self@, key@, value@, enable);
        }
        if at < self.entries.len() && text_eq(&self.entries[at].key, &key) {
            let before = self.entries.remove(at);
            let on = match enable {
                Some(on) => on,
                None => before.enabled,
            };
            self.entries.insert(at, Header { key, value, enabled: on });
        } else {
            let on = match enable {
                Some(on) => on,
                None => true,
            };
            self.entries.insert(at, Header { key, value, enabled: on });
        }
        assert(self@ =~= stored(old(self)@, key@, value@, enable));
        at
    }

    /// Deletes row `at`; a row number past the last header deletes nothing.
    pub fn remove_at(&mut self, at: usize)
        requires
            old(self).well_formed(),
        ensures
            final(self)@ == without_row(old(self)@, at as int),
            final(self).well_formed(),
    {
        if at < self.entries.len() {
            self.entries.remove(at);
            assert(self@ =~= old(self)@.remove(at as int));
            assert forall|i: int, j: int| 0 <= i < j < self@.len() implies lex_less(
                #[trigger] self@[i].key,
                #[trigger] self@[j].key,
            ) by {
                let oi = if i < at { i } else { i + 1 };
                let oj = if j < at { j } else { j + 1 };
                assert(self@[i] == old(self)@[oi]);
                assert(self@[j] == old(self)@[oj]);
            }
        }
    }

    /// Flips the switch of row `at`; a row number past the last header does
    /// nothing.
    pub fn toggle_at(&mut self, at: usize)
        requires
            old(self).well_formed(),
        ensures
            final(self)@ == toggled(old(self)@, at as int),
            final(self).well_formed(),
    {
        if at < self.entries.len() {
            let before = self.entries.remove(at);
            let on = !before.enabled;
            self.entries.insert(at, Header { key: before.key, value: before.value, enabled: on });
            assert(self@ =~= toggled(old(self)@, at as int));
            assert forall|i: int, j: int| 0 <= i < j < self@.len() implies lex_less(
                #[trigger] self@[i].key,
                #[trigger] self@[j].key,
            ) by {
                assert(self@[i].key == old(self)@[i].key);
                assert(self@[j].key == old(self)@[j].key);
            }
        }
    }

    /// The list that holds exactly the given headers, each with the switch
    /// that `before` has under its name.
    pub fn load(pairs: &Vec<Header>, before: &HeaderList) -> (list: HeaderList)
        ensures
            list@ == loaded(pairs.deep_view(), before@),
            list.well_formed(),
    {
        let mut list = HeaderList::new();
        let mut i: usize = 0;
        assert(pairs.deep_view().subrange(0, 0) =~= Seq::<HeaderView>::empty());
        while i < pairs.len()
            invariant
                i <= pairs.len(),
                list.well_formed(),
                list@ == loaded(pairs.deep_view().subrange(0, i as int), before@),
            decreases pairs.len() - i,
        {
            let on = before.is_enabled(&pairs[i].key);
            proof {
                let next = pairs.deep_view().subrange(0, i + 1);
                assert(next.drop_last() =~= pairs.deep_view().subrange(0, i as int));
                assert(next.last() == pairs@[i as int]@);
            }
            list.store(copy_text(&pairs[i].key), copy_text(&pairs[i].value), Some(on));
            i = i + 1;
        }
        assert(pairs.deep_view().subrange(0, i as int) =~= pairs.deep_view());
        list
    }

    /// Stores every header of `extra` into this list, switched on.
    pub fn merge(&mut self, extra: &Vec<Header>)
        requires
            old(self).well_formed(),
        ensures
            final(self)@ == merged(old(self)@, extra.deep_view()),
            final(self).well_formed(),
    {
        let mut i: usize = 0;
        assert(extra.deep_view().subrange(0, 0) =~= Seq::<HeaderView>::empty());
        while i < extra.len()
            invariant
                i <= extra.len(),
                self.well_formed(),
                self@ == merged(old(self)@, extra.deep_view().subrange(0, i as int)),
            decreases extra.len() - i,
        {
            proof {
                let next = extra.deep_view().subrange(0, i + 1);
                assert(next.drop_last() =~= extra.deep_view().subrange(0, i as int));
                assert(next.last() == extra@[i as int]@);
            }
            self.store(copy_text(&extra[i].key), copy_text(&extra[i].value), Some(true));
            i = i + 1;
        }
        assert(extra.deep_view().subrange(0, i as int) =~= extra.deep_view());
    }

    /// A copy of the list.
    pub fn duplicate(&self) -> (list: HeaderList)
        ensures
            list@ == self@,
    {
        let mut entries: Vec<Header> = Vec::new();
        let mut i: usize = 0;
        while i < self.entries.len()
            invariant
                i <= self.entries@.len(),
                entries@.len() == i,
                forall|k: int| 0 <= k < i ==> (#[trigger] entries@[k])@ == self.entries@[k]@,
            decreases self.entries@.len() - i,
        {
            entries.push(self.entries[i].duplicate());
            i = i + 1;
        }
        let list = HeaderList { entries };
        assert(list@ =~= self@);
        list
    }
}

} // verus!
