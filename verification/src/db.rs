//! The local cache: every list by its name, a flag that says whether the
//! cache has changed since it was last synchronised, and the time of the last
//! successful push.

use vstd::prelude::*;
use vstd::string::*;
use crate::error::{ErrorView, TodoError, TodoResult};
use crate::models::{clone_items, clone_lists, items_view, lists_view, Item, ItemView, List, ListView};

verus! {

#[verifier::external_type_specification]
#[verifier::external_body]
pub struct ExSystemTime(std::time::SystemTime);

/// The present moment, from `std::time::SystemTime::now`. Nothing is claimed
/// of the value: two calls may give any two times.
#[verifier::external_body]
fn system_now() -> (t: std::time::SystemTime) {
    std::time::SystemTime::now()
}

/// What a cache holds: each list's items, in their order, under the list's name.
pub type CacheView = Map<Seq<char>, Seq<ItemView>>;

/// Whether a cache has a list of the name with an item of the number. Items
/// are counted from one.
pub open spec fn has_item(cache: CacheView, name: Seq<char>, number: int) -> bool {
    cache.contains_key(name) && 1 <= number <= cache[name].len()
}

/// The cache with one item more at the end of a list.
pub open spec fn appended(cache: CacheView, name: Seq<char>, item: ItemView) -> CacheView {
    cache.insert(name, cache[name].push(item))
}

/// The cache with one item marked as done or not done.
pub open spec fn with_status(
    cache: CacheView,
    name: Seq<char>,
    number: int,
    completed: bool,
) -> CacheView {
    cache.insert(
        name,
        cache[name].update(
            number - 1,
            ItemView { description: cache[name][number - 1].description, completed },
        ),
    )
}

/// The cache with one item taken out of a list.
pub open spec fn without_item(cache: CacheView, name: Seq<char>, number: int) -> CacheView {
    cache.insert(name, cache[name].remove(number - 1))
}

/// No two documents of the sequence have the same name.
pub open spec fn names_distinct(docs: Seq<ListView>) -> bool {
    forall|i: int, j: int| 0 <= i < j < docs.len() ==> docs[i].name != docs[j].name
}

/// The mapping that a sequence of documents stands for: each name with the
/// items of the last document that bears it.
pub open spec fn as_map(docs: Seq<ListView>) -> CacheView
    decreases docs.len(),
{
    if docs.len() == 0 {
        Map::empty()
    } else {
        as_map(docs.drop_last()).insert(docs.last().name, docs.last().items)
    }
}

/// Whether some document of the sequence has the name.
pub open spec fn has_name(docs: Seq<ListView>, name: Seq<char>) -> bool {
    exists|i: int| 0 <= i < docs.len() && #[trigger] docs[i].name == name
}

/// The names of the mapping are the names of the documents, and a document
/// that no later one shadows gives its name its items.
pub proof fn lemma_as_map(docs: Seq<ListView>)
    ensures
        forall|name: Seq<char>| #[trigger] as_map(docs).contains_key(name) <==> has_name(docs, name),
        forall|i: int|
            0 <= i < docs.len() && (forall|j: int| i < j < docs.len() ==> docs[j].name != docs[i].name)
                ==> as_map(docs)[#[trigger] docs[i].name] == docs[i].items,
    decreases docs.len(),
{
    if docs.len() > 0 {
        let front = docs.drop_last();
        lemma_as_map(front);
        assert forall|name: Seq<char>| #[trigger]
            as_map(docs).contains_key(name) <==> has_name(docs, name) by {
            if has_name(docs, name) {
                let i = choose|i: int| 0 <= i < docs.len() && #[trigger] docs[i].name == name;
                if i < docs.len() - 1 {
                    assert(front[i].name == name);
                    assert(as_map(front).contains_key(name));
                }
            }
            if as_map(docs).contains_key(name) && name != docs.last().name {
                assert(as_map(front).contains_key(name));
                let i = choose|i: int| 0 <= i < front.len() && #[trigger] front[i].name == name;
                assert(docs[i].name == name);
            }
        }
        assert forall|i: int|
            0 <= i < docs.len() && (forall|j: int|
                i < j < docs.len() ==> docs[j].name != docs[i].name) implies as_map(
            docs,
        )[#[trigger] docs[i].name] == docs[i].items by {
            if i < docs.len() - 1 {
                assert(front[i] == docs[i]);
                assert forall|j: int| i < j < front.len() implies front[j].name
                    != front[i].name by {
                    assert(front[j] == docs[j]);
                }
            }
        }
    }
}

/// With distinct names, each document gives its name its items.
pub proof fn lemma_as_map_distinct(docs: Seq<ListView>)
    requires
        names_distinct(docs),
    ensures
        forall|name: Seq<char>| #[trigger] as_map(docs).contains_key(name) <==> has_name(docs, name),
        forall|i: int| 0 <= i < docs.len() ==> as_map(docs)[#[trigger] docs[i].name] == docs[i].items,
{
    lemma_as_map(docs);
}

/// Appending a document whose name is new keeps the names distinct; in any
/// case it binds the document's name to its items.
pub proof fn lemma_as_map_push(docs: Seq<ListView>, doc: ListView)
    ensures
        as_map(docs.push(doc)) == as_map(docs).insert(doc.name, doc.items),
        names_distinct(docs) && !has_name(docs, doc.name) ==> names_distinct(docs.push(doc)),
{
    assert(docs.push(doc).drop_last() =~= docs);
    if names_distinct(docs) && !has_name(docs, doc.name) {
        let next = docs.push(doc);
        assert forall|i: int, j: int| 0 <= i < j < next.len() implies next[i].name
            != next[j].name by {
            if j == docs.len() {
                assert(docs[i].name == next[i].name);
            }
        }
    }
}

/// Replacing a document by one of the same name rebinds that name and leaves
/// the rest as it was.
pub proof fn lemma_as_map_update(docs: Seq<ListView>, at: int, doc: ListView)
    requires
        names_distinct(docs),
        0 <= at < docs.len(),
        doc.name == docs[at].name,
    ensures
        names_distinct(docs.update(at, doc)),
        as_map(docs.update(at, doc)) == as_map(docs).insert(doc.name, doc.items),
{
    let next = docs.update(at, doc);
    assert forall|i: int, j: int| 0 <= i < j < next.len() implies next[i].name
        != next[j].name by {
        assert(next[i].name == docs[i].name);
        assert(next[j].name == docs[j].name);
    }
    lemma_as_map_distinct(docs);
    lemma_as_map_distinct(next);
    let left = as_map(next);
    let right = as_map(docs).insert(doc.name, doc.items);
    assert forall|name: Seq<char>| left.contains_key(name) <==> right.contains_key(name) by {
        if has_name(next, name) {
            let i = choose|i: int| 0 <= i < next.len() && #[trigger] next[i].name == name;
            assert(docs[i].name == name);
        }
        if has_name(docs, name) {
            let i = choose|i: int| 0 <= i < docs.len() && #[trigger] docs[i].name == name;
            assert(next[i].name == name);
        }
    }
    assert forall|name: Seq<char>| left.contains_key(name) implies left[name] == right[name] by {
        let i = choose|i: int| 0 <= i < next.len() && #[trigger] next[i].name == name;
        assert(left[next[i].name] == next[i].items);
        if i != at {
            assert(as_map(docs)[docs[i].name] == docs[i].items);
        }
    }
}

/// Where the document at a position stood before the one at `at` was taken out.
pub open spec fn came_from(at: int, position: int) -> int {
    if position < at {
        position
    } else {
        position + 1
    }
}

/// Taking a document out unbinds its name and leaves the rest as it was.
pub proof fn lemma_as_map_remove(docs: Seq<ListView>, at: int)
    requires
        names_distinct(docs),
        0 <= at < docs.len(),
    ensures
        names_distinct(docs.remove(at)),
        as_map(docs.remove(at)) == as_map(docs).remove(docs[at].name),
{
    let next = docs.remove(at);
    assert forall|i: int| 0 <= i < next.len() implies #[trigger] next[i] == docs[came_from(
        at,
        i,
    )] by {}
    assert forall|i: int, j: int| 0 <= i < j < next.len() implies next[i].name
        != next[j].name by {
        assert(next[i] == docs[came_from(at, i)]);
        assert(next[j] == docs[came_from(at, j)]);
    }
    lemma_as_map_distinct(docs);
    lemma_as_map_distinct(next);
    let left = as_map(next);
    let right = as_map(docs).remove(docs[at].name);
    assert forall|name: Seq<char>| left.contains_key(name) <==> right.contains_key(name) by {
        if has_name(next, name) {
            let i = choose|i: int| 0 <= i < next.len() && #[trigger] next[i].name == name;
            assert(docs[came_from(at, i)].name == name);
        }
        if has_name(docs, name) && name != docs[at].name {
            let i = choose|i: int| 0 <= i < docs.len() && #[trigger] docs[i].name == name;
            let after = if i < at {
                i
            } else {
                i - 1
            };
            assert(next[after].name == name);
        }
    }
    assert forall|name: Seq<char>| left.contains_key(name) implies left[name] == right[name] by {
        let i = choose|i: int| 0 <= i < next.len() && #[trigger] next[i].name == name;
        assert(left[next[i].name] == next[i].items);
        assert(as_map(docs)[docs[came_from(at, i)].name] == docs[came_from(at, i)].items);
    }
}

/// Where the lists of a vector stand whose name is the one asked for.
fn position(lists: &Vec<List>, name: &str) -> (r: Option<usize>)
    ensures
        match r {
            Some(at) => at < lists.len() && lists@[at as int].name@ == name@,
            None => !has_name(lists_view(lists@), name@),
        },
{
    let key = name.to_owned();
    let mut at: usize = 0;
    while at < lists.len()
        invariant
            at <= lists.len(),
            key@ == name@,
            forall|j: int| 0 <= j < at ==> lists@[j].name@ != name@,
        decreases lists.len() - at,
    {
        if lists[at].name == key {
            return Some(at);
        }
        at += 1;
    }
    assert(!has_name(lists_view(lists@), name@)) by {
        if has_name(lists_view(lists@), name@) {
            let i = choose|i: int|
                0 <= i < lists_view(lists@).len() && #[trigger] lists_view(lists@)[i].name
                    == name@;
            assert(lists@[i].name@ == name@);
        }
    }
    None
}

/// Appends an item to the list at a position.
fn push_item(lists: &mut Vec<List>, at: usize, item: Item)
    requires
        at < old(lists).len(),
    ensures
        lists_view(final(lists)@) == lists_view(old(lists)@).update(
            at as int,
            (ListView {
                name: old(lists)@[at as int].name@,
                items: old(lists)@[at as int]@.items.push(item@),
            }),
        ),
{
    let ghost before = lists_view(lists@);
    let ghost added = item@;
    lists[at].items.push(item);
    proof {
        assert(items_view(lists@[at as int].items@) =~= before[at as int].items.push(added));
    }
}

/// Sets the `completed` field of one item of the list at a position.
fn set_status(lists: &mut Vec<List>, at: usize, index: usize, completed: bool)
    requires
        at < old(lists).len(),
        index < old(lists)@[at as int].items.len(),
    ensures
        lists_view(final(lists)@) == lists_view(old(lists)@).update(
            at as int,
            (ListView {
                name: old(lists)@[at as int].name@,
                items: old(lists)@[at as int]@.items.update(
                    index as int,
                    (ItemView {
                        description: old(lists)@[at as int]@.items[index as int].description,
                        completed,
                    }),
                ),
            }),
        ),
{
    let ghost before = lists_view(lists@);
    lists[at].items[index].completed = completed;
    proof {
        let item = ItemView {
            description: before[at as int].items[index as int].description,
            completed,
        };
        assert(items_view(lists@[at as int].items@) =~= before[at as int].items.update(
            index as int,
            item,
        ));
    }
}

/// Takes one item out of the list at a position; the items behind it move up.
fn take_item(lists: &mut Vec<List>, at: usize, index: usize)
    requires
        at < old(lists).len(),
        index < old(lists)@[at as int].items.len(),
    ensures
        lists_view(final(lists)@) == lists_view(old(lists)@).update(
            at as int,
            (ListView {
                name: old(lists)@[at as int].name@,
                items: old(lists)@[at as int]@.items.remove(index as int),
            }),
        ),
{
    let ghost before = lists_view(lists@);
    let _ = lists[at].items.remove(index);
    proof {
        assert(items_view(lists@[at as int].items@) =~= before[at as int].items.remove(
            index as int,
        ));
    }
}

/// The lists of a sequence of documents, one for each name: where a name
/// comes more than once, the last document that bears it counts.
pub fn distinct_lists(docs: &Vec<List>) -> (r: Vec<List>)
    ensures
        names_distinct(lists_view(r@)),
        as_map(lists_view(r@)) == as_map(lists_view(docs@)),
{
    let mut out: Vec<List> = Vec::new();
    let mut k: usize = 0;
    while k < docs.len()
        invariant
            k <= docs.len(),
            names_distinct(lists_view(out@)),
            as_map(lists_view(out@)) == as_map(lists_view(docs@).take(k as int)),
        decreases docs.len() - k,
    {
        let doc = docs[k].clone();
        let ghost before = lists_view(out@);
        proof {
            lemma_as_map_push(lists_view(docs@).take(k as int), doc@);
            assert(lists_view(docs@).take(k as int).push(doc@) =~= lists_view(docs@).take(
                k as int + 1,
            ));
        }
        match position(&out, doc.name.as_str()) {
            Some(at) => {
                proof {
                    lemma_as_map_update(before, at as int, doc@);
                }
                out[at] = doc;
                assert(lists_view(out@) =~= before.update(at as int, doc@));
            },
            None => {
                proof {
                    lemma_as_map_push(before, doc@);
                }
                out.push(doc);
                assert(lists_view(out@) =~= before.push(doc@));
            },
        }
        k += 1;
    }
    assert(lists_view(docs@).take(k as int) =~= lists_view(docs@));
    out
}

/// The address of the remote store as the configuration gave it, or the
/// error that says that it gave none.
pub fn configured_address(uri: Option<String>) -> (r: TodoResult<String>)
    ensures
        uri matches Some(address) ==> (r matches Ok(got) && got@ == address@),
        uri is None ==> (r matches Err(e) && e@ == ErrorView::ConfigError(
            "MONGODB_URI must be set"@,
        )),
{
    match uri {
        None => Err(TodoError::ConfigError(String::from_str("MONGODB_URI must be set"))),
        Some(address) => Ok(address),
    }
}

/// The local cache.
///
/// Its value is the mapping from each list's name to that list's items; the
/// order in which the lists are kept is of no account.
pub struct Database {
    lists: Vec<List>,
    dirty: bool,
    last_modified: std::time::SystemTime,
    remote_uri: String,
    remote_name: String,
}

impl View for Database {
    type V = CacheView;

    closed spec fn view(&self) -> CacheView {
        as_map(lists_view(self.lists@))
    }
}

impl Database {
    #[verifier::type_invariant]
    spec fn names_are_keys(&self) -> bool {
        names_distinct(lists_view(self.lists@))
    }

    /// Whether the cache has changed since it was last synchronised.
    pub closed spec fn dirty(&self) -> bool {
        self.dirty
    }

    /// When the cache was made or last pushed with success.
    pub closed spec fn last_modified(&self) -> std::time::SystemTime {
        self.last_modified
    }

    /// The address of the remote store that this cache is synchronised with.
    pub closed spec fn remote_uri(&self) -> Seq<char> {
        self.remote_uri@
    }

    /// The name of the remote database that holds the collection of lists.
    pub closed spec fn remote_name(&self) -> Seq<char> {
        self.remote_name@
    }

    /// Whether two caches were made with the same remote store and bear the
    /// same time: what the operations on lists and items never touch.
    pub open spec fn same_origin(&self, other: &Database) -> bool {
        &&& self.last_modified() == other.last_modified()
        &&& self.remote_uri() == other.remote_uri()
        &&& self.remote_name() == other.remote_name()
    }

    /// Moves the lists out of the cache, to be put back once they are changed.
    fn take_lists(&mut self) -> (lists: Vec<List>)
        ensures
            lists == old(self).lists,
            final(self).lists@.len() == 0,
            final(self).dirty == old(self).dirty,
            final(self).same_origin(old(self)),
    {
        let mut lists: Vec<List> = Vec::new();
        core::mem::swap(&mut self.lists, &mut lists);
        lists
    }

    /// A cache of the lists that were loaded, to be synchronised with the
    /// remote store at the address that the configuration gave. Without an
    /// address there is no cache.
    pub fn new(uri: Option<String>, local: Vec<List>) -> (r: TodoResult<Database>)
        ensures
            uri matches Some(address) ==> (r matches Ok(db) && db@ == as_map(lists_view(local@))
                && !db.dirty() && db.remote_uri() == address@ && db.remote_name() == "todo_app"@),
            uri is None ==> (r matches Err(e) && e@ == ErrorView::ConfigError(
                "MONGODB_URI must be set"@,
            )),
    {
        match configured_address(uri) {
            Err(e) => Err(e),
            Ok(address) => Ok(
                Database {
                    lists: distinct_lists(&local),
                    dirty: false,
                    last_modified: system_now(),
                    remote_uri: address,
                    remote_name: String::from_str("todo_app"),
                },
            ),
        }
    }

    /// A cache of the lists that were loaded, for work that stays local: its
    /// remote store is a stand-in on this machine.
    pub fn new_local_only(local: Vec<List>) -> (r: TodoResult<Database>)
        ensures
            r matches Ok(db) && db@ == as_map(lists_view(local@)) && !db.dirty() && db.remote_uri()
                == "mongodb://localhost:27017"@ && db.remote_name() == "dummy_db"@,
    {
        Ok(
            Database {
                lists: distinct_lists(&local),
                dirty: false,
                last_modified: system_now(),
                remote_uri: String::from_str("mongodb://localhost:27017"),
                remote_name: String::from_str("dummy_db"),
            },
        )
    }

    /// Binds a name to an empty list, whether or not it was bound before, and
    /// marks the cache as changed.
    pub fn create_list(&mut self, list_name: &str) -> (r: TodoResult<()>)
        ensures
            r is Ok,
            final(self)@ == old(self)@.insert(list_name@, Seq::empty()),
            final(self).dirty(),
            final(self).same_origin(old(self)),
    {
        proof {
            use_type_invariant(&*self);
        }
        let found = position(&self.lists, list_name);
        let mut lists = self.take_lists();
        let ghost before = lists_view(lists@);
        let fresh = List { name: list_name.to_owned(), items: Vec::new() };
        assert(fresh@.items =~= Seq::<ItemView>::empty());
        match found {
            Some(at) => {
                proof {
                    lemma_as_map_update(before, at as int, fresh@);
                }
                lists[at] = fresh;
                assert(lists_view(lists@) =~= before.update(at as int, fresh@));
            },
            None => {
                proof {
                    lemma_as_map_push(before, fresh@);
                }
                lists.push(fresh);
                assert(lists_view(lists@) =~= before.push(fresh@));
            },
        }
        self.lists = lists;
        self.dirty = true;
        Ok(())
    }

    /// Appends an item to a list that exists and marks the cache as changed.
    /// Without such a list nothing changes and the error names the list.
    pub fn add_item(&mut self, list_name: &str, item: Item) -> (r: TodoResult<()>)
        ensures
            old(self)@.contains_key(list_name@) ==> r is Ok && final(self)@ == appended(
                old(self)@,
                list_name@,
                item@,
            ) && final(self).dirty(),
            !old(self)@.contains_key(list_name@) ==> (r matches Err(e) && e@
                == ErrorView::ListNotFound(list_name@)) && *final(self) == *old(self),
            final(self).same_origin(old(self)),
    {
        proof {
            use_type_invariant(&*self);
            lemma_as_map_distinct(lists_view(self.lists@));
        }
        match position(&self.lists, list_name) {
            None => Err(TodoError::ListNotFound(list_name.to_owned())),
            Some(at) => {
                let mut lists = self.take_lists();
                proof {
                    let before = lists_view(lists@);
                    lemma_as_map_update(
                        before,
                        at as int,
                        (ListView {
                            name: before[at as int].name,
                            items: before[at as int].items.push(item@),
                        }),
                    );
                }
                push_item(&mut lists, at, item);
                self.lists = lists;
                self.dirty = true;
                Ok(())
            },
        }
    }

    /// A copy of every list, one document for each.
    pub(crate) fn documents(&self) -> (lists: Vec<List>)
        ensures
            names_distinct(lists_view(lists@)),
            as_map(lists_view(lists@)) == self@,
    {
        proof {
            use_type_invariant(self);
        }
        clone_lists(&self.lists)
    }

    /// A copy of every list. The order of the lists is not fixed; no list is
    /// left out and none comes twice.
    pub fn get_lists(&self) -> (r: TodoResult<Vec<List>>)
        ensures
            r matches Ok(lists) && names_distinct(lists_view(lists@)) && as_map(lists_view(lists@))
                == self@,
    {
        Ok(self.documents())
    }

    /// A copy of the list with a name, or the error that names the list that
    /// is not there.
    pub fn get_list(&self, name: &str) -> (r: TodoResult<List>)
        ensures
            self@.contains_key(name@) ==> (r matches Ok(list) && list@ == (ListView {
                name: name@,
                items: self@[name@],
            })),
            !self@.contains_key(name@) ==> (r matches Err(e) && e@ == ErrorView::ListNotFound(
                name@,
            )),
    {
        proof {
            use_type_invariant(self);
            lemma_as_map_distinct(lists_view(self.lists@));
        }
        match position(&self.lists, name) {
            None => Err(TodoError::ListNotFound(name.to_owned())),
            Some(at) => {
                assert(lists_view(self.lists@)[at as int].name == name@);
                Ok(List { name: name.to_owned(), items: clone_items(&self.lists[at].items) })
            },
        }
    }

    /// Sets whether an item is done. Items are counted from one; the item's
    /// text and every other item stay as they are. A list that is not there,
    /// or a number that no item of the list has, is an error and changes
    /// nothing.
    pub fn update_item_status(&mut self, list_name: &str, item_number: usize, completed: bool) -> (r:
        TodoResult<()>)
        ensures
            !old(self)@.contains_key(list_name@) ==> (r matches Err(e) && e@
                == ErrorView::ListNotFound(list_name@)) && *final(self) == *old(self),
            old(self)@.contains_key(list_name@) && !has_item(
                old(self)@,
                list_name@,
                item_number as int,
            ) ==> (r matches Err(e) && e@ == ErrorView::ItemNotFound(
                list_name@,
                item_number as nat,
            )) && *final(self) == *old(self),
            has_item(old(self)@, list_name@, item_number as int) ==> r is Ok
                && final(self).dirty() && final(self)@ == with_status(
                old(self)@,
                list_name@,
                item_number as int,
                completed,
            ),
            final(self).same_origin(old(self)),
    {
        proof {
            use_type_invariant(&*self);
            lemma_as_map_distinct(lists_view(self.lists@));
        }
        match position(&self.lists, list_name) {
            None => Err(TodoError::ListNotFound(list_name.to_owned())),
            Some(at) => {
                assert(lists_view(self.lists@)[at as int].name == list_name@);
                if item_number == 0 || item_number > self.lists[at].items.len() {
                    return Err(TodoError::ItemNotFound(list_name.to_owned(), item_number));
                }
                let mut lists = self.take_lists();
                proof {
                    let before = lists_view(lists@);
                    lemma_as_map_update(
                        before,
                        at as int,
                        (ListView {
                            name: before[at as int].name,
                            items: before[at as int].items.update(
                                item_number - 1,
                                (ItemView {
                                    description: before[at as int].items[item_number
                                        - 1].description,
                                    completed,
                                }),
                            ),
                        }),
                    );
                }
                set_status(&mut lists, at, item_number - 1, completed);
                self.lists = lists;
                self.dirty = true;
                Ok(())
            },
        }
    }

    /// Takes an item out of a list. Items are counted from one; the items
    /// behind the one that leaves move up by one and keep their order. A list
    /// that is not there, or a number that no item of the list has, is an
    /// error and changes nothing.
    pub fn remove_item(&mut self, list_name: &str, item_number: usize) -> (r: TodoResult<()>)
        ensures
            !old(self)@.contains_key(list_name@) ==> (r matches Err(e) && e@
                == ErrorView::ListNotFound(list_name@)) && *final(self) == *old(self),
            old(self)@.contains_key(list_name@) && !has_item(
                old(self)@,
                list_name@,
                item_number as int,
            ) ==> (r matches Err(e) && e@ == ErrorView::ItemNotFound(
                list_name@,
                item_number as nat,
            )) && *final(self) == *old(self),
            has_item(old(self)@, list_name@, item_number as int) ==> r is Ok
                && final(self).dirty() && final(self)@ == without_item(old(self)@, list_name@, item_number as int),
            final(self).same_origin(old(self)),
    {
        proof {
            use_type_invariant(&*self);
            lemma_as_map_distinct(lists_view(self.lists@));
        }
        match position(&self.lists, list_name) {
            None => Err(TodoError::ListNotFound(list_name.to_owned())),
            Some(at) => {
                assert(lists_view(self.lists@)[at as int].name == list_name@);
                if item_number == 0 || item_number > self.lists[at].items.len() {
                    return Err(TodoError::ItemNotFound(list_name.to_owned(), item_number));
                }
                let mut lists = self.take_lists();
                proof {
                    let before = lists_view(lists@);
                    lemma_as_map_update(
                        before,
                        at as int,
                        (ListView {
                            name: before[at as int].name,
                            items: before[at as int].items.remove(item_number - 1),
                        }),
                    );
                }
                take_item(&mut lists, at, item_number - 1);
                self.lists = lists;
                self.dirty = true;
                Ok(())
            },
        }
    }

    /// Removes a list with all its items and marks the cache as changed.
    /// Without such a list nothing changes and the error names the list.
    pub fn remove_list(&mut self, list_name: &str) -> (r: TodoResult<()>)
        ensures
            old(self)@.contains_key(list_name@) ==> r is Ok && final(self)@ == old(self)@.remove(
                list_name@,
            ) && final(self).dirty(),
            !old(self)@.contains_key(list_name@) ==> (r matches Err(e) && e@
                == ErrorView::ListNotFound(list_name@)) && *final(self) == *old(self),
            final(self).same_origin(old(self)),
    {
        proof {
            use_type_invariant(&*self);
            lemma_as_map_distinct(lists_view(self.lists@));
        }
        match position(&self.lists, list_name) {
            None => Err(TodoError::ListNotFound(list_name.to_owned())),
            Some(at) => {
                let mut lists = self.take_lists();
                let ghost before = lists_view(lists@);
                proof {
                    lemma_as_map_remove(before, at as int);
                }
                let _ = lists.remove(at);
                assert(lists_view(lists@) =~= before.remove(at as int));
                self.lists = lists;
                self.dirty = true;
                Ok(())
            },
        }
    }

    /// Removes every list and marks the cache as changed.
    pub fn remove_all_lists(&mut self) -> (r: TodoResult<()>)
        ensures
            r is Ok,
            final(self)@ == CacheView::empty(),
            final(self).dirty(),
            final(self).same_origin(old(self)),
    {
        self.lists = Vec::new();
        self.dirty = true;
        Ok(())
    }

    /// Says whether the cache differs from what was last synchronised.
    pub fn set_dirty(&mut self, value: bool)
        ensures
            final(self).dirty() == value,
            final(self)@ == old(self)@,
            final(self).same_origin(old(self)),
    {
        proof {
            use_type_invariant(&*self);
        }
        self.dirty = value;
    }

    /// Whether the cache has changed since it was last synchronised.
    pub fn is_dirty(&self) -> (r: bool)
        ensures
            r == self.dirty(),
    {
        self.dirty
    }

    /// Replaces everything in the cache by the lists of the documents given.
    /// Where two documents have one name, the later one counts. The flag
    /// that says whether the cache has changed is left as it is.
    pub fn update_local_db(&mut self, new_db: Vec<List>) -> (r: TodoResult<()>)
        ensures
            r is Ok,
            final(self)@ == as_map(lists_view(new_db@)),
            final(self).dirty() == old(self).dirty(),
            final(self).same_origin(old(self)),
    {
        self.lists = distinct_lists(&new_db);
        Ok(())
    }

    /// A copy of the whole cache as documents, one for each list.
    pub fn get_local_db(&self) -> (r: TodoResult<Vec<List>>)
        ensures
            r matches Ok(lists) && names_distinct(lists_view(lists@)) && as_map(lists_view(lists@))
                == self@,
    {
        Ok(self.documents())
    }

    /// Records a time as that of the last successful push.
    pub fn set_last_modified(&mut self, at: std::time::SystemTime)
        ensures
            final(self).last_modified() == at,
            final(self)@ == old(self)@,
            final(self).dirty() == old(self).dirty(),
            final(self).remote_uri() == old(self).remote_uri(),
            final(self).remote_name() == old(self).remote_name(),
    {
        proof {
            use_type_invariant(&*self);
        }
        self.last_modified = at;
    }

    /// Records the present moment as the time of the last successful push.
    /// The lists and the flag stay as they are. Of the time itself nothing
    /// is claimed: it is whatever the clock gives, which may be the time that
    /// was recorded before. `set_last_modified` says what recording a given
    /// time does.
    pub fn update_last_modified(&mut self)
        ensures
            final(self)@ == old(self)@,
            final(self).dirty() == old(self).dirty(),
            final(self).remote_uri() == old(self).remote_uri(),
            final(self).remote_name() == old(self).remote_name(),
    {
        let now = system_now();
        self.set_last_modified(now);
    }

    /// When the cache was made or last pushed with success.
    pub fn last_modified_time(&self) -> (r: std::time::SystemTime)
        ensures
            r == self.last_modified(),
    {
        self.last_modified
    }

    /// The address of the remote store.
    pub fn remote_address(&self) -> (r: &str)
        ensures
            r@ == self.remote_uri(),
    {
        self.remote_uri.as_str()
    }

    /// The name of the remote database.
    pub fn remote_database(&self) -> (r: &str)
        ensures
            r@ == self.remote_name(),
    {
        self.remote_name.as_str()
    }
}

} // verus!
