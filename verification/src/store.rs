//! The item store: an immutable-snapshot keyed collection of task records.
//!
//! A [`Todos`] value is one snapshot. Mutations (`insert`, `remove`) take the
//! snapshot by shared reference and return a new snapshot, so every value
//! obtained earlier keeps its contents. The collection itself is
//! `im::HashMap`, a persistent hash-array-mapped trie with structural
//! sharing; its contents are abstracted by the spec-level map
//! [`store_entries`].

use vstd::prelude::*;

verus! {

/// One task record: a numeric identifier, unique and immutable once created,
/// and the stored text.
#[derive(Debug, Clone, PartialEq)]
pub struct TodoItem {
    pub id: u32,
    pub contents: String,
}

#[verifier::external_type_specification]
#[verifier::external_body]
#[verifier::reject_recursive_types(K)]
#[verifier::reject_recursive_types(V)]
#[verifier::reject_recursive_types(S)]
pub struct ExImHashMap<K, V, S>(im::HashMap<K, V, S>);

/// The entries a persistent hash map holds, as a mathematical map from each
/// key to the text of the record stored under it.
pub uninterp spec fn store_entries(m: im::HashMap<u32, TodoItem>) -> Map<u32, Seq<char>>;

/// The contents of a snapshot with no records.
pub open spec fn empty_entries() -> Map<u32, Seq<char>> {
    Map::empty()
}

/// Relies on `im::HashMap::new`: constructs an empty map.
#[verifier::external_body]
fn im_new() -> (r: im::HashMap<u32, TodoItem>)
    ensures
        store_entries(r) == empty_entries(),
{
    im::HashMap::new()
}

/// Relies on `im::HashMap::update`: returns a copy of the map with the given
/// key now mapped to the given value; the map passed in is not touched.
#[verifier::external_body]
fn im_update(m: &im::HashMap<u32, TodoItem>, id: u32, item: TodoItem) -> (r: im::HashMap<
    u32,
    TodoItem,
>)
    ensures
        store_entries(r) == store_entries(*m).insert(id, item.contents@),
{
    m.update(id, item)
}

/// Relies on `im::HashMap::without`: returns a copy of the map absent the
/// given key, whether or not it was present; the map passed in is not touched.
#[verifier::external_body]
fn im_without(m: &im::HashMap<u32, TodoItem>, id: u32) -> (r: im::HashMap<u32, TodoItem>)
    ensures
        store_entries(r) == store_entries(*m).remove(id),
{
    m.without(&id)
}

/// Relies on `im::HashMap::get`: returns the value stored under the key, or
/// `None` when the key is absent.
#[verifier::external_body]
fn im_get(m: &im::HashMap<u32, TodoItem>, id: u32) -> (r: Option<String>)
    ensures
        match r {
            Some(t) => store_entries(*m).dom().contains(id) && t@ == store_entries(*m)[id],
            None => !store_entries(*m).dom().contains(id),
        },
{
    m.get(&id).map(|item: &TodoItem| item.contents.clone())
}

/// Relies on `im::HashMap::len`: returns the number of key/value pairs.
#[verifier::external_body]
fn im_len(m: &im::HashMap<u32, TodoItem>) -> (r: usize)
    ensures
        r == store_entries(*m).dom().len(),
{
    m.len()
}

/// Relies on `im::HashMap::iter`: visits every key/value pair exactly once,
/// in no particular order. Each pair is handed out as a fresh record built
/// from the key and the stored text.
#[verifier::external_body]
fn im_items(m: &im::HashMap<u32, TodoItem>) -> (r: Vec<TodoItem>)
    ensures
        r@.len() == store_entries(*m).dom().len(),
        forall|i: int|
            0 <= i < r@.len() ==> #[trigger] store_entries(*m).contains_pair(
                r@[i].id,
                r@[i].contents@,
            ),
        forall|i: int, j: int|
            0 <= i < r@.len() && 0 <= j < r@.len() && i != j ==> r@[i].id != r@[j].id,
        forall|k: u32|
            store_entries(*m).dom().contains(k) ==> exists|i: int|
                0 <= i < r@.len() && #[trigger] r@[i].id == k,
{
    m.iter().map(|entry: (&u32, &TodoItem)| TodoItem {
        id: *entry.0,
        contents: entry.1.contents.clone(),
    }).collect()
}

/// Relies on `im::HashMap`'s `Clone`: a clone holds the same key/value pairs
/// (the underlying trie is shared, not copied).
#[verifier::external_body]
fn im_clone(m: &im::HashMap<u32, TodoItem>) -> (r: im::HashMap<u32, TodoItem>)
    ensures
        store_entries(r) == store_entries(*m),
{
    m.clone()
}

/// One immutable snapshot of the keyed collection `id -> record`.
///
/// Its view is the mathematical map from identifier to stored text. Every
/// mutation takes the snapshot by shared reference and returns a new value,
/// so a snapshot obtained before a mutation keeps its contents.
pub struct Todos {
    map: im::HashMap<u32, TodoItem>,
}

impl View for Todos {
    type V = Map<u32, Seq<char>>;

    closed spec fn view(&self) -> Map<u32, Seq<char>> {
        store_entries(self.map)
    }
}

impl Todos {
    /// A snapshot is well formed when it holds finitely many records; every
    /// snapshot reachable from `new` is.
    pub open spec fn wf(&self) -> bool {
        self@.dom().finite()
    }

    /// The empty snapshot.
    pub fn new() -> (r: Todos)
        ensures
            r@ == empty_entries(),
            r.wf(),
    {
        let r = Todos { map: im_new() };
        proof {
            assert(r@ =~= empty_entries());
        }
        r
    }

    /// A new snapshot with the record at `id` added, or overwritten if `id`
    /// was already bound. Always succeeds; `self` is unchanged.
    pub fn insert(&self, id: u32, text: String) -> (r: Todos)
        ensures
            r@ == self@.insert(id, text@),
            r.wf() <== self.wf(),
    {
        Todos { map: im_update(&self.map, id, TodoItem { id, contents: text }) }
    }

    /// A new snapshot without the record at `id`; removing an absent
    /// identifier is a no-op that still yields a (content-equal) snapshot.
    pub fn remove(&self, id: u32) -> (r: Todos)
        ensures
            r@ == self@.remove(id),
            r.wf() <== self.wf(),
    {
        Todos { map: im_without(&self.map, id) }
    }

    /// The text of the record at `id`, or `None` when `id` is absent.
    pub fn get(&self, id: u32) -> (r: Option<String>)
        ensures
            match r {
                Some(t) => self@.dom().contains(id) && t@ == self@[id],
                None => !self@.dom().contains(id),
            },
    {
        im_get(&self.map, id)
    }

    /// How many records the snapshot holds.
    pub fn len(&self) -> (r: usize)
        ensures
            r == self@.dom().len(),
    {
        im_len(&self.map)
    }

    /// All records of the snapshot, one per identifier, in no particular
    /// order.
    pub fn items(&self) -> (r: Vec<TodoItem>)
        ensures
            r@.len() == self@.dom().len(),
            forall|i: int|
                0 <= i < r@.len() ==> #[trigger] self@.contains_pair(r@[i].id, r@[i].contents@),
            forall|i: int, j: int|
                0 <= i < r@.len() && 0 <= j < r@.len() && i != j ==> r@[i].id != r@[j].id,
            forall|k: u32|
                self@.dom().contains(k) ==> exists|i: int|
                    0 <= i < r@.len() && #[trigger] r@[i].id == k,
    {
        im_items(&self.map)
    }

    /// The same snapshot as a fresh value (the underlying trie is shared).
    pub fn snapshot(&self) -> (r: Todos)
        ensures
            r@ == self@,
            r.wf() <== self.wf(),
    {
        Todos { map: im_clone(&self.map) }
    }
}

} // verus!
