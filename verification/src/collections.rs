//! Named groups of saved requests, held in memory in the order in which they
//! were created. A name stands for at most one collection.

use vstd::prelude::*;
use crate::clock::clock_millis;
use crate::headers::{Header, HeaderView};
use crate::text::{copy_text, text_eq, text_of};

verus! {

/// A request as it is saved.
#[derive(Debug)]
pub struct Request {
    pub method: Vec<char>,
    pub url: Vec<char>,
    pub headers: Vec<Header>,
    pub body: Option<Vec<char>>,
}

/// A request under the name it was saved with.
#[derive(Debug)]
pub struct SavedRequest {
    pub name: Vec<char>,
    pub request: Request,
}

/// A named group of items inside a collection.
#[derive(Debug)]
pub struct Folder {
    pub name: Vec<char>,
    pub item: Vec<CollectionItem>,
}

/// What a collection holds: requests, and folders of them.
#[derive(Debug)]
pub enum CollectionItem {
    Request(SavedRequest),
    Folder(Folder),
}

/// A saved response; nothing of it is kept so far.
#[derive(Debug)]
pub struct Response {}

/// Name, description and time of creation (milliseconds since the Unix
/// epoch) of a collection.
#[derive(Debug)]
pub struct CollectionInfo {
    pub name: Vec<char>,
    pub description: Vec<char>,
    pub created_at: i64,
}

/// A named group of saved requests.
#[derive(Debug)]
pub struct Collection {
    pub info: CollectionInfo,
    pub requests: Vec<CollectionItem>,
}

/// Why a request could not be saved.
#[derive(Debug, Clone, Copy, PartialEq, Eq, Structural)]
pub enum CollectionError {
    /// No collection has the name that was given.
    NotFound,
}

/// The place of the first collection named `name`; the length of the list
/// where there is none.
pub open spec fn first_named(list: Seq<Collection>, name: Seq<char>) -> int
    decreases list.len(),
{
    if list.len() == 0 || list[0].info.name@ == name {
        0
    } else {
        1 + first_named(list.drop_first(), name)
    }
}

/// No two collections of the list share a name.
pub open spec fn distinct_names(list: Seq<Collection>) -> bool {
    forall|i: int, j: int|
        0 <= i < j < list.len() ==> (#[trigger] list[i]).info.name@ != (#[trigger] list[j]).info.name@
}

/// Number of requests among the items, those inside folders included.
pub open spec fn request_count(items: Seq<CollectionItem>) -> nat
    decreases items,
{
    if items.len() == 0 {
        0
    } else {
        request_count(items.drop_last()) + match items.last() {
            CollectionItem::Request(_) => 1nat,
            CollectionItem::Folder(folder) => request_count(folder.item@),
        }
    }
}

/// Number of requests among the items, those inside folders included; the
/// count stops at the largest number that fits.
pub fn count_requests(items: &Vec<CollectionItem>) -> (count: usize)
    ensures
        count == if request_count(items@) > usize::MAX {
            usize::MAX as nat
        } else {
            request_count(items@)
        },
    decreases items,
{
    let mut count: usize = 0;
    let mut i: usize = 0;
    assert(items@.subrange(0, 0) =~= Seq::<CollectionItem>::empty());
    while i < items.len()
        invariant
            i <= items@.len(),
            count == if request_count(items@.subrange(0, i as int)) > usize::MAX {
                usize::MAX as nat
            } else {
                request_count(items@.subrange(0, i as int))
            },
        decreases items@.len() - i,
    {
        proof {
            let next = items@.subrange(0, i + 1);
            assert(next.drop_last() =~= items@.subrange(0, i as int));
            assert(next.last() == items@[i as int]);
        }
        let inner: usize = match &items[i] {
            CollectionItem::Request(_) => 1,
            CollectionItem::Folder(folder) => count_requests(&folder.item),
        };
        count = count.saturating_add(inner);
        i = i + 1;
    }
    assert(items@.subrange(0, i as int) =~= items@);
    count
}

/// Name and method of each request among the items, in order; folders are
/// passed over.
pub open spec fn request_labels(items: Seq<CollectionItem>) -> Seq<(Seq<char>, Seq<char>)>
    decreases items.len(),
{
    if items.len() == 0 {
        Seq::empty()
    } else {
        match items.last() {
            CollectionItem::Request(saved) => request_labels(items.drop_last()).push(
                (saved.name@, saved.request.method@),
            ),
            CollectionItem::Folder(_) => request_labels(items.drop_last()),
        }
    }
}

/// The labels as plain values.
pub open spec fn label_views(labels: Seq<(Vec<char>, Vec<char>)>) -> Seq<(Seq<char>, Seq<char>)> {
    Seq::new(labels.len(), |i: int| (labels[i].0@, labels[i].1@))
}

/// Name and method of each request among the items, in order; folders are
/// passed over.
pub fn get_request_items(items: &Vec<CollectionItem>) -> (labels: Vec<(Vec<char>, Vec<char>)>)
    ensures
        label_views(labels@) == request_labels(items@),
{
    let mut labels: Vec<(Vec<char>, Vec<char>)> = Vec::new();
    let mut i: usize = 0;
    assert(items@.subrange(0, 0) =~= Seq::<CollectionItem>::empty());
    assert(label_views(labels@) =~= Seq::<(Seq<char>, Seq<char>)>::empty());
    while i < items.len()
        invariant
            i <= items@.len(),
            label_views(labels@) == request_labels(items@.subrange(0, i as int)),
        decreases items@.len() - i,
    {
        proof {
            let next = items@.subrange(0, i + 1);
            assert(next.drop_last() =~= items@.subrange(0, i as int));
            assert(next.last() == items@[i as int]);
        }
        match &items[i] {
            CollectionItem::Request(saved) => {
                let ghost before = label_views(labels@);
                let name = copy_text(&saved.name);
                let method = copy_text(&saved.request.method);
                labels.push((name, method));
                assert(label_views(labels@) =~= before.push((saved.name@, saved.request.method@)));
            },
            CollectionItem::Folder(_) => {},
        }
        i = i + 1;
    }
    assert(items@.subrange(0, i as int) =~= items@);
    labels
}

/// The collection with `now` as its time of creation.
pub open spec fn stamped(collection: Collection, now: i64) -> Collection {
    Collection {
        info: CollectionInfo {
            name: collection.info.name,
            description: collection.info.description,
            created_at: now,
        },
        requests: collection.requests,
    }
}

/// The list after `collection` was put into it: in place of the collection
/// with its name, or behind the last one.
pub open spec fn with_collection(list: Seq<Collection>, collection: Collection) -> Seq<Collection> {
    let at = first_named(list, collection.info.name@);
    if at < list.len() {
        list.update(at, collection)
    } else {
        list.push(collection)
    }
}

/// The list that comes of putting the kept collections in, one after the
/// other: of two with one name the later stays, at the place of the earlier.
pub open spec fn collected(kept: Seq<Collection>) -> Seq<Collection>
    decreases kept.len(),
{
    if kept.len() == 0 {
        Seq::empty()
    } else {
        with_collection(collected(kept.drop_last()), kept.last())
    }
}

/// Whether `item` is the saved request with exactly these parts.
pub open spec fn is_saved_request(
    item: CollectionItem,
    name: Seq<char>,
    method: Seq<char>,
    url: Seq<char>,
    headers: Seq<HeaderView>,
    body: Seq<char>,
) -> bool {
    match item {
        CollectionItem::Request(saved) => {
            &&& saved.name@ == name
            &&& saved.request.method@ == method
            &&& saved.request.url@ == url
            &&& saved.request.headers.deep_view() == headers
            &&& saved.request.body is Some
            &&& saved.request.body->0@ == body
        },
        CollectionItem::Folder(_) => false,
    }
}

/// What saving a request does to the list of collections: with a collection
/// of that name, the request is appended to it and nothing else changes;
/// without one, nothing changes and the answer is `NotFound`.
pub open spec fn request_saved(
    before: Seq<Collection>,
    after: Seq<Collection>,
    answer: Result<(), CollectionError>,
    collection_name: Seq<char>,
    request_name: Seq<char>,
    method: Seq<char>,
    url: Seq<char>,
    headers: Seq<HeaderView>,
    body: Seq<char>,
) -> bool {
    let at = first_named(before, collection_name);
    if at < before.len() {
        &&& answer is Ok
        &&& after.len() == before.len()
        &&& after[at].info == before[at].info
        &&& after[at].requests@.len() == before[at].requests@.len() + 1
        &&& after[at].requests@.drop_last() == before[at].requests@
        &&& is_saved_request(after[at].requests@.last(), request_name, method, url, headers, body)
        &&& forall|i: int| 0 <= i < before.len() && i != at ==> after[i] == before[i]
    } else {
        &&& answer == Err::<(), CollectionError>(CollectionError::NotFound)
        &&& after == before
    }
}

/// In a list without a repeated name, a collection is the first of its name.
pub proof fn lemma_first_named_of(list: Seq<Collection>, at: int)
    requires
        distinct_names(list),
        0 <= at < list.len(),
    ensures
        first_named(list, list[at].info.name@) == at,
{
    lemma_first_named_is(list, list[at].info.name@, at);
}

/// `first_named` is the one place with the name on it and not before it.
pub proof fn lemma_first_named_is(list: Seq<Collection>, name: Seq<char>, k: int)
    requires
        0 <= k <= list.len(),
        forall|i: int| 0 <= i < k ==> (#[trigger] list[i]).info.name@ != name,
        k == list.len() || list[k].info.name@ == name,
    ensures
        first_named(list, name) == k,
    decreases list.len(),
{
    if k > 0 {
        assert(list[0].info.name@ != name);
        let rest = list.drop_first();
        assert forall|i: int| 0 <= i < k - 1 implies (#[trigger] rest[i]).info.name@ != name by {
            assert(rest[i] == list[i + 1]);
        }
        lemma_first_named_is(rest, name, k - 1);
    }
}

/// What `first_named` means.
pub proof fn lemma_first_named_bounds(list: Seq<Collection>, name: Seq<char>)
    ensures
        0 <= first_named(list, name) <= list.len(),
        forall|i: int| 0 <= i < first_named(list, name) ==> (#[trigger] list[i]).info.name@ != name,
        first_named(list, name) < list.len() ==> list[first_named(list, name)].info.name@ == name,
    decreases list.len(),
{
    if list.len() == 0 || list[0].info.name@ == name {
    } else {
        let rest = list.drop_first();
        lemma_first_named_bounds(rest, name);
        assert forall|i: int| 0 <= i < first_named(list, name) implies (
        #[trigger] list[i]).info.name@ != name by {
            if i > 0 {
                assert(list[i] == rest[i - 1]);
            }
        }
        if first_named(list, name) < list.len() {
            assert(list[first_named(list, name)] == rest[first_named(rest, name)]);
        }
    }
}

/// The collection that a new store starts with, created at `now`.
pub fn default_collection_at(now: i64) -> (c: Collection)
    ensures
        c.info.name@ == "Default Collection"@,
        c.info.description@ == "Default collection for saved requests"@,
        c.info.created_at == now,
        c.requests@.len() == 0,
{
    Collection {
        info: CollectionInfo {
            name: text_of("Default Collection"),
            description: text_of("Default collection for saved requests"),
            created_at: now,
        },
        requests: Vec::new(),
    }
}

/// The collection that a new store starts with, created now.
pub fn create_default_collection() -> (c: Collection)
    ensures
        c.info.name@ == "Default Collection"@,
        c.info.description@ == "Default collection for saved requests"@,
        c.requests@.len() == 0,
{
    default_collection_at(clock_millis())
}

/// The collections of the user.
#[derive(Debug)]
pub struct CollectionManager {
    pub collections: Vec<Collection>,
}

impl CollectionManager {
    /// No two collections share a name.
    pub open spec fn well_formed(&self) -> bool {
        distinct_names(self.collections@)
    }

    /// Whether no two collections share a name.
    pub fn is_well_formed(&self) -> (ok: bool)
        ensures
            ok == self.well_formed(),
    {
        let mut j: usize = 0;
        while j < self.collections.len()
            invariant
                j <= self.collections@.len(),
                forall|a: int, b: int|
                    0 <= a < b < j ==> (#[trigger] self.collections@[a]).info.name@ != (
                    #[trigger] self.collections@[b]).info.name@,
            decreases self.collections@.len() - j,
        {
            let mut i: usize = 0;
            while i < j
                invariant
                    i <= j < self.collections@.len(),
                    forall|a: int|
                        0 <= a < i ==> (#[trigger] self.collections@[a]).info.name@
                            != self.collections@[j as int].info.name@,
                decreases j - i,
            {
                if text_eq(&self.collections[i].info.name, &self.collections[j].info.name) {
                    assert(!distinct_names(self.collections@)) by {
                        if distinct_names(self.collections@) {
                            assert(self.collections@[i as int].info.name@
                                != self.collections@[j as int].info.name@);
                        }
                    }
                    return false;
                }
                i = i + 1;
            }
            j = j + 1;
        }
        true
    }

    /// A store without collections.
    pub fn empty() -> (m: CollectionManager)
        ensures
            m.collections@.len() == 0,
            m.well_formed(),
    {
        CollectionManager { collections: Vec::new() }
    }

    /// The store over what was kept from earlier sessions. Where nothing was
    /// kept it starts with the default collection; of two kept collections
    /// with one name the later stays, at the place of the earlier.
    pub fn new(kept: Option<Vec<Collection>>) -> (m: CollectionManager)
        ensures
            m.well_formed(),
            kept is None ==> m.collections@.len() == 1 && m.collections@[0].info.name@
                == "Default Collection"@ && m.collections@[0].info.description@
                == "Default collection for saved requests"@ && m.collections@[0].requests@.len()
                == 0,
            kept is Some ==> m.collections@ == collected(kept->0@),
    {
        let mut m = CollectionManager::empty();
        match kept {
            None => {
                m.put_collection(create_default_collection());
            },
            Some(list) => {
                let ghost all = list@;
                let mut rest = list;
                assert(all.subrange(0, 0) =~= Seq::<Collection>::empty());
                while rest.len() > 0
                    invariant
                        m.well_formed(),
                        rest@.len() <= all.len(),
                        rest@ == all.subrange(all.len() - rest@.len(), all.len() as int),
                        m.collections@ == collected(all.subrange(0, all.len() - rest@.len())),
                    decreases rest@.len(),
                {
                    let ghost done = all.len() - rest@.len();
                    let c = rest.remove(0);
                    proof {
                        assert(c == all[done]);
                        assert(rest@ =~= all.subrange(all.len() - rest@.len(), all.len() as int));
                        let next = all.subrange(0, done + 1);
                        assert(next.drop_last() =~= all.subrange(0, done));
                        assert(next.last() == c);
                    }
                    m.put_collection(c);
                }
                assert(all.subrange(0, all.len() as int) =~= all);
            },
        }
        m
    }

    /// The place of the collection named `name`; the number of collections
    /// where there is none.
    pub fn find(&self, name: &Vec<char>) -> (at: usize)
        ensures
            at == first_named(self.collections@, name@),
            at <= self.collections@.len(),
            at < self.collections@.len() ==> self.collections@[at as int].info.name@ == name@,
            forall|i: int| 0 <= i < at ==> (#[trigger] self.collections@[i]).info.name@ != name@,
    {
        let mut at: usize = 0;
        while at < self.collections.len() && !text_eq(&self.collections[at].info.name, name)
            invariant
                at <= self.collections@.len(),
                forall|i: int| 0 <= i < at ==> (#[trigger] self.collections@[i]).info.name@ != name@,
            decreases self.collections@.len() - at,
        {
            at = at + 1;
        }
        proof {
            lemma_first_named_is(self.collections@, name@, at as int);
        }
        at
    }

    /// The collections, in the order in which they were created.
    pub fn get_collections(&self) -> (list: &Vec<Collection>)
        ensures
            list == self.collections,
    {
        &self.collections
    }

    /// The collection named `name`, if there is one.
    pub fn get_collection(&self, name: &Vec<char>) -> (found: Option<&Collection>)
        ensures
            first_named(self.collections@, name@) < self.collections@.len() ==> found is Some
                && *found->0 == self.collections@[first_named(self.collections@, name@)],
            first_named(self.collections@, name@) >= self.collections@.len() ==> found is None,
    {
        let at = self.find(name);
        if at < self.collections.len() {
            Some(&self.collections[at])
        } else {
            None
        }
    }

    /// Puts `collection` into the store as it is: in place of the collection
    /// with its name, or behind the last one.
    pub fn put_collection(&mut self, collection: Collection)
        requires
            old(self).well_formed(),
        ensures
            final(self).well_formed(),
            final(self).collections@ == with_collection(old(self).collections@, collection),
    {
        let at = self.find(&collection.info.name);
        if at < self.collections.len() {
            self.collections.remove(at);
            self.collections.insert(at, collection);
            assert(self.collections@ =~= old(self).collections@.update(at as int, collection));
            assert forall|i: int, j: int| 0 <= i < j < self.collections@.len() implies (
            #[trigger] self.collections@[i]).info.name@ != (
            #[trigger] self.collections@[j]).info.name@ by {
                assert(self.collections@[i].info.name@ == old(self).collections@[i].info.name@);
                assert(self.collections@[j].info.name@ == old(self).collections@[j].info.name@);
            }
        } else {
            self.collections.push(collection);
            assert forall|i: int, j: int| 0 <= i < j < self.collections@.len() implies (
            #[trigger] self.collections@[i]).info.name@ != (
            #[trigger] self.collections@[j]).info.name@ by {
                assert(self.collections@[i] == old(self).collections@[i]);
                if j < old(self).collections@.len() {
                    assert(self.collections@[j] == old(self).collections@[j]);
                }
            }
        }
    }

    /// Puts `collection` into the store, created now: in place of the
    /// collection with its name, or behind the last one.
    pub fn save_collection(&mut self, collection: Collection)
        requires
            old(self).well_formed(),
        ensures
            final(self).well_formed(),
            exists|now: i64|
                final(self).collections@ == with_collection(
                    old(self).collections@,
                    #[trigger] stamped(collection, now),
                ),
    {
        proof {
            lemma_first_named_bounds(self.collections@, collection.info.name@);
        }
        let now = clock_millis();
        let fresh = Collection {
            info: CollectionInfo {
                name: collection.info.name,
                description: collection.info.description,
                created_at: now,
            },
            requests: collection.requests,
        };
        assert(fresh == stamped(collection, now));
        self.put_collection(fresh);
    }

    /// Appends a request to the collection named `collection_name`. Without
    /// such a collection nothing changes and `NotFound` comes back.
    pub fn save_request(
        &mut self,
        collection_name: &Vec<char>,
        request_name: &Vec<char>,
        method: &Vec<char>,
        url: &Vec<char>,
        headers: &Vec<Header>,
        body: &Vec<char>,
    ) -> (saved: Result<(), CollectionError>)
        requires
            old(self).well_formed(),
        ensures
            final(self).well_formed(),
            request_saved(
                old(self).collections@,
                final(self).collections@,
                saved,
                collection_name@,
                request_name@,
                method@,
                url@,
                headers.deep_view(),
                body@,
            ),
    {
        let at = self.find(collection_name);
        if at >= self.collections.len() {
            return Err(CollectionError::NotFound);
        }
        let mut copied: Vec<Header> = Vec::new();
        let mut i: usize = 0;
        while i < headers.len()
            invariant
                i <= headers.len(),
                copied@.len() == i,
                forall|k: int| 0 <= k < i ==> (#[trigger] copied@[k])@ == headers@[k]@,
            decreases headers.len() - i,
        {
            copied.push(headers[i].duplicate());
            i = i + 1;
        }
        assert(copied.deep_view() =~= headers.deep_view());
        let item = CollectionItem::Request(
            SavedRequest {
                name: copy_text(request_name),
                request: Request {
                    method: copy_text(method),
                    url: copy_text(url),
                    headers: copied,
                    body: Some(copy_text(body)),
                },
            },
        );
        let mut target = self.collections.remove(at);
        let ghost before = target.requests@;
        target.requests.push(item);
        assert(target.requests@.drop_last() =~= before);
        self.collections.insert(at, target);
        assert forall|i: int, j: int| 0 <= i < j < self.collections@.len() implies (
        #[trigger] self.collections@[i]).info.name@ != (
        #[trigger] self.collections@[j]).info.name@ by {
            assert(self.collections@[i].info.name@ == old(self).collections@[i].info.name@);
            assert(self.collections@[j].info.name@ == old(self).collections@[j].info.name@);
        }
        Ok(())
    }

    /// Removes the collection named `name`, if there is one.
    pub fn delete_collection(&mut self, name: &Vec<char>)
        requires
            old(self).well_formed(),
        ensures
            final(self).well_formed(),
            first_named(old(self).collections@, name@) < old(self).collections@.len() ==> final(self).collections@ == old(self).collections@.remove(
                first_named(old(self).collections@, name@),
            ),
            first_named(old(self).collections@, name@) >= old(self).collections@.len() ==> final(self).collections@ == old(self).collections@,
    {
        let at = self.find(name);
        if at < self.collections.len() {
            self.collections.remove(at);
            assert forall|i: int, j: int| 0 <= i < j < self.collections@.len() implies (
            #[trigger] self.collections@[i]).info.name@ != (
            #[trigger] self.collections@[j]).info.name@ by {
                let oi = if i < at { i } else { i + 1 };
                let oj = if j < at { j } else { j + 1 };
                assert(self.collections@[i] == old(self).collections@[oi]);
                assert(self.collections@[j] == old(self).collections@[oj]);
            }
        }
    }
}

} // verus!
