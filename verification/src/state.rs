//! The root-owned application state and its update protocol.
//!
//! The root owns three pieces of state: the canonical store snapshot, the
//! identifier counter and the input buffer. Every user event becomes one of
//! three total, synchronous transitions — a keystroke replaces the buffer, a
//! submit creates a record under a fresh identifier, a remove drops one
//! identifier — each modelled by a spec-level transition function on
//! [`StateView`] that the executable methods of [`AppState`] are proved to
//! implement.

use vstd::prelude::*;
use crate::store::{Todos, TodoItem, empty_entries};

verus! {

/// The mathematical model of the whole application state: the snapshot's
/// contents, the in-progress text, and the next identifier to issue.
#[verifier::ext_equal]
pub struct StateView {
    pub todos: Map<u32, Seq<char>>,
    pub buffer: Seq<char>,
    pub next_id: nat,
}

impl StateView {
    /// State invariant: the store holds finitely many records and every
    /// issued identifier lies below the counter, so the next identifier is
    /// always fresh.
    pub open spec fn inv(self) -> bool {
        &&& self.todos.dom().finite()
        &&& forall|k: u32| self.todos.dom().contains(k) ==> k < self.next_id
    }
}

/// The state the application starts in: empty store, empty buffer, counter
/// at zero.
pub open spec fn init_state() -> StateView {
    StateView { todos: empty_entries(), buffer: Seq::empty(), next_id: 0 }
}

/// A keystroke: the buffer is replaced with the field's full current text;
/// store and counter keep their values.
pub open spec fn set_buffer_spec(s: StateView, text: Seq<char>) -> StateView {
    StateView { buffer: text, ..s }
}

/// A submit: with a non-empty buffer, one record holding the buffer's text
/// is created under the next identifier, the counter advances by exactly
/// one, and the buffer is reset; with an empty buffer, nothing changes and
/// no identifier is consumed.
pub open spec fn submit_spec(s: StateView) -> StateView {
    if s.buffer.len() == 0 {
        s
    } else {
        StateView {
            todos: s.todos.insert(s.next_id as u32, s.buffer),
            buffer: Seq::empty(),
            next_id: s.next_id + 1,
        }
    }
}

/// A remove: the record under `id` is dropped if present; removing an
/// absent identifier leaves the contents unchanged. Buffer and counter keep
/// their values either way.
pub open spec fn remove_spec(s: StateView, id: u32) -> StateView {
    StateView { todos: s.todos.remove(id), ..s }
}

/// The three pieces of shared state, exclusively owned by the root of the
/// view tree. Descendant components hold borrowed references and request
/// mutations through the methods; none holds a second source of truth.
pub struct AppState {
    todos: Todos,
    buffer: String,
    next_id: u32,
}

impl View for AppState {
    type V = StateView;

    closed spec fn view(&self) -> StateView {
        StateView { todos: self.todos@, buffer: self.buffer@, next_id: self.next_id as nat }
    }
}

impl AppState {
    /// Well-formedness: the model invariant holds of the state.
    pub open spec fn wf(&self) -> bool {
        self@.inv()
    }

    /// The initial state: empty store, empty buffer, counter at zero.
    pub fn new() -> (r: AppState)
        ensures
            r@ == init_state(),
            r.wf(),
    {
        let r = AppState { todos: Todos::new(), buffer: String::new(), next_id: 0 };
        proof {
            assert(r@ =~= init_state());
        }
        r
    }

    /// Replace the input buffer with the field's current full text (the
    /// composer does this on every keystroke).
    pub fn set_buffer(&mut self, text: String)
        ensures
            final(self)@ == set_buffer_spec(old(self)@, text@),
            final(self).wf() <== old(self).wf(),
    {
        self.buffer = text;
        proof {
            assert(self@ =~= set_buffer_spec(old(self)@, text@));
        }
    }

    /// The in-progress text, for the composer to display.
    pub fn buffer(&self) -> (r: &String)
        ensures
            r@ == self@.buffer,
    {
        &self.buffer
    }

    /// The next identifier the generator will issue.
    pub fn next_id(&self) -> (r: u32)
        ensures
            r as nat == self@.next_id,
    {
        self.next_id
    }

    /// Submit the buffer: with non-empty text, insert a record under a
    /// fresh identifier, advance the counter by one and clear the buffer;
    /// with an empty buffer, change nothing and consume no identifier.
    /// Whitespace-only text counts as non-empty; the stored text is not
    /// trimmed.
    pub fn submit(&mut self)
        requires
            old(self)@.next_id < u32::MAX,
        ensures
            final(self)@ == submit_spec(old(self)@),
            final(self).wf() <== old(self).wf(),
    {
        if !self.buffer.as_str().is_empty() {
            let id = self.next_id;
            let text = self.buffer.clone();
            self.todos = self.todos.insert(id, text);
            self.next_id = id + 1;
            self.buffer = String::new();
        }
        proof {
            assert(self@ =~= submit_spec(old(self)@));
        }
    }

    /// Remove the record under `id`; removing an absent identifier is a
    /// benign no-op, not an error. Buffer and counter are untouched, so a
    /// removed identifier is never reissued.
    pub fn remove(&mut self, id: u32)
        ensures
            final(self)@ == remove_spec(old(self)@, id),
            final(self).wf() <== old(self).wf(),
    {
        self.todos = self.todos.remove(id);
        proof {
            assert(self@ =~= remove_spec(old(self)@, id));
        }
    }

    /// The current snapshot, as an independent value: later mutations of
    /// this state leave it untouched. Read access never fails.
    pub fn read(&self) -> (r: Todos)
        ensures
            r@ == self@.todos,
            r.wf() <== self.wf(),
    {
        self.todos.snapshot()
    }

    /// What a row bound to `id` shows: the record's text, or `None` when
    /// the identifier has already been removed — the stale row renders
    /// nothing rather than failing.
    pub fn row_text(&self, id: u32) -> (r: Option<String>)
        ensures
            match r {
                Some(t) => self@.todos.dom().contains(id) && t@ == self@.todos[id],
                None => !self@.todos.dom().contains(id),
            },
    {
        self.todos.get(id)
    }

    /// All records of the current snapshot, one per identifier, in no
    /// particular order (the list view makes one keyed row per record).
    pub fn items(&self) -> (r: Vec<TodoItem>)
        ensures
            r@.len() == self@.todos.dom().len(),
            forall|i: int|
                0 <= i < r@.len() ==> #[trigger] self@.todos.contains_pair(
                    r@[i].id,
                    r@[i].contents@,
                ),
            forall|i: int, j: int|
                0 <= i < r@.len() && 0 <= j < r@.len() && i != j ==> r@[i].id != r@[j].id,
            forall|k: u32|
                self@.todos.dom().contains(k) ==> exists|i: int|
                    0 <= i < r@.len() && #[trigger] r@[i].id == k,
    {
        self.todos.items()
    }

    /// How many records the store currently holds.
    pub fn len(&self) -> (r: usize)
        ensures
            r == self@.todos.dom().len(),
    {
        self.todos.len()
    }
}

} // verus!
