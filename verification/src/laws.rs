//! Laws of the update protocol, stated over the spec-level transitions and
//! proved once and for all: identifier uniqueness across arbitrary event
//! sequences, idempotence of removal, and the empty-submit no-op.

use vstd::prelude::*;
use crate::state::{StateView, init_state, set_buffer_spec, submit_spec, remove_spec};

verus! {

/// One user event, as the model sees it: a keystroke replacing the buffer, a
/// submit, or a remove of one identifier.
pub enum Event {
    Input(Seq<char>),
    Submit,
    Remove(u32),
}

/// The transition one event makes.
pub open spec fn step(s: StateView, e: Event) -> StateView {
    match e {
        Event::Input(text) => set_buffer_spec(s, text),
        Event::Submit => submit_spec(s),
        Event::Remove(id) => remove_spec(s, id),
    }
}

/// The state after a whole sequence of events, first to last.
pub open spec fn run(s: StateView, es: Seq<Event>) -> StateView
    decreases es.len(),
{
    if es.len() == 0 {
        s
    } else {
        run(step(s, es[0]), es.subrange(1, es.len() as int))
    }
}

/// The identifiers the generator hands out over a sequence of events, in
/// issuance order: one per successful submit (non-empty buffer), none for
/// anything else.
pub open spec fn issued(s: StateView, es: Seq<Event>) -> Seq<nat>
    decreases es.len(),
{
    if es.len() == 0 {
        Seq::empty()
    } else {
        let rest = issued(step(s, es[0]), es.subrange(1, es.len() as int));
        if es[0] is Submit && s.buffer.len() > 0 {
            seq![s.next_id] + rest
        } else {
            rest
        }
    }
}

/// Law: every event keeps the state invariant — in particular, every
/// identifier in the store stays below the counter, so the next identifier
/// is always fresh and a duplicate collision is structurally impossible.
pub proof fn lemma_step_preserves_inv(s: StateView, e: Event)
    requires
        s.inv(),
    ensures
        step(s, e).inv(),
{
}

/// Law: identifier uniqueness. Over any event sequence the generator issues
/// consecutive identifiers starting at the counter's initial value — so N
/// successful submits yield pairwise-distinct identifiers, in issuance
/// order, however many removals happen in between — and the counter ends
/// advanced by exactly the number of identifiers issued.
pub proof fn lemma_issued_consecutive(s: StateView, es: Seq<Event>)
    ensures
        run(s, es).next_id == s.next_id + issued(s, es).len(),
        forall|i: int| 0 <= i < issued(s, es).len() ==> #[trigger] issued(s, es)[i] == s.next_id + i,
        forall|i: int, j: int|
            0 <= i < issued(s, es).len() && 0 <= j < issued(s, es).len() && i != j ==> issued(
                s,
                es,
            )[i] != issued(s, es)[j],
    decreases es.len(),
{
    if es.len() > 0 {
        lemma_issued_consecutive(step(s, es[0]), es.subrange(1, es.len() as int));
    }
}

/// Law: identifier uniqueness from the start state. From the initial state
/// the identifiers issued over any event sequence are exactly 0, 1, ... in
/// issuance order, whatever removals happen in between.
pub proof fn lemma_issued_from_start(es: Seq<Event>)
    ensures
        forall|i: int|
            0 <= i < issued(init_state(), es).len() ==> #[trigger] issued(init_state(), es)[i] == i,
{
    lemma_issued_consecutive(init_state(), es);
}

/// The event sequence of a row of successful submits: for each text, a
/// keystroke filling the buffer with it, then the submit key.
pub open spec fn submit_events(texts: Seq<Seq<char>>) -> Seq<Event>
    decreases texts.len(),
{
    if texts.len() == 0 {
        Seq::empty()
    } else {
        seq![Event::Input(texts[0]), Event::Submit] + submit_events(
            texts.subrange(1, texts.len() as int),
        )
    }
}

/// Law: a row of submits of non-empty texts adds exactly one record per
/// text, under the consecutive identifiers starting at the counter, leaves
/// every record that was already there untouched, and advances the counter
/// by exactly the number of texts.
pub proof fn lemma_submit_sequence(s: StateView, texts: Seq<Seq<char>>)
    requires
        s.inv(),
        forall|i: int| 0 <= i < texts.len() ==> texts[i].len() > 0,
        s.next_id + texts.len() <= u32::MAX,
    ensures
        run(s, submit_events(texts)).next_id == s.next_id + texts.len(),
        forall|i: int|
            0 <= i < texts.len() ==> run(s, submit_events(texts)).todos.contains_pair(
                (s.next_id + i) as u32,
                texts[i],
            ),
        forall|k: u32|
            s.todos.dom().contains(k) ==> run(s, submit_events(texts)).todos.contains_pair(
                k,
                s.todos[k],
            ),
        forall|k: u32|
            run(s, submit_events(texts)).todos.dom().contains(k) ==> s.todos.dom().contains(k)
                || s.next_id <= k < s.next_id + texts.len(),
        run(s, submit_events(texts)).inv(),
    decreases texts.len(),
{
    let es = submit_events(texts);
    if texts.len() > 0 {
        let rest = texts.subrange(1, texts.len() as int);
        let s1 = set_buffer_spec(s, texts[0]);
        let s2 = submit_spec(s1);
        let es1 = es.subrange(1, es.len() as int);
        assert(es[0] == Event::Input(texts[0]));
        assert(es1[0] == Event::Submit);
        assert(es1.subrange(1, es1.len() as int) =~= submit_events(rest));
        lemma_submit_sequence(s2, rest);
        assert(run(s, es) == run(s1, es1));
        assert(run(s1, es1) == run(s2, submit_events(rest)));
        assert((s.next_id as u32) as nat == s.next_id);
        assert forall|k: u32| s.todos.dom().contains(k) implies run(s, es).todos.contains_pair(
            k,
            s.todos[k],
        ) by {
            assert(k != s.next_id as u32);
            assert(s2.todos.contains_pair(k, s.todos[k]));
            assert(run(s2, submit_events(rest)).todos.contains_pair(k, s2.todos[k]));
        }
        assert forall|i: int| 0 <= i < texts.len() implies run(s, es).todos.contains_pair(
            (s.next_id + i) as u32,
            texts[i],
        ) by {
            if i == 0 {
                assert(s2.todos.contains_pair(s.next_id as u32, texts[0]));
                assert(run(s2, submit_events(rest)).todos.contains_pair(
                    s.next_id as u32,
                    s2.todos[s.next_id as u32],
                ));
            } else {
                assert(rest[i - 1] == texts[i]);
                assert(run(s2, submit_events(rest)).todos.contains_pair(
                    (s2.next_id + (i - 1)) as u32,
                    rest[i - 1],
                ));
            }
        }
        assert forall|k: u32| run(s, es).todos.dom().contains(k) implies s.todos.dom().contains(k)
            || s.next_id <= k < s.next_id + texts.len() by {
            assert(run(s2, submit_events(rest)).todos.dom().contains(k));
            if s2.todos.dom().contains(k) {
                assert(s.todos.dom().contains(k) || k == s.next_id as u32);
            }
        }
    }
}

/// Law: N successful submits from the start state yield exactly N records
/// whose pairwise-distinct identifiers are 0 .. N-1 in issuance order, each
/// holding the text submitted at that position.
pub proof fn lemma_submits_from_start(texts: Seq<Seq<char>>)
    requires
        forall|i: int| 0 <= i < texts.len() ==> texts[i].len() > 0,
        texts.len() <= u32::MAX,
    ensures
        run(init_state(), submit_events(texts)).next_id == texts.len(),
        forall|i: int|
            0 <= i < texts.len() ==> run(init_state(), submit_events(texts)).todos.contains_pair(
                i as u32,
                texts[i],
            ),
        forall|k: u32|
            run(init_state(), submit_events(texts)).todos.dom().contains(k) ==> k < texts.len(),
{
    lemma_submit_sequence(init_state(), texts);
}

/// Law: removal idempotence. Removing the same identifier twice yields the
/// same state as removing it once; the second removal is a no-op.
pub proof fn lemma_remove_idempotent(s: StateView, id: u32)
    ensures
        remove_spec(remove_spec(s, id), id) == remove_spec(s, id),
{
    assert(remove_spec(remove_spec(s, id), id) =~= remove_spec(s, id));
}

/// Law: removing an identifier that is not in the store yields a state with
/// the same contents — a benign no-op, not an error.
pub proof fn lemma_remove_absent_noop(s: StateView, id: u32)
    requires
        !s.todos.dom().contains(id),
    ensures
        remove_spec(s, id) == s,
{
    assert(remove_spec(s, id) =~= s);
}

/// Law: empty-submit no-op. A submit with an empty buffer changes nothing:
/// store contents, store size and counter all keep their values.
pub proof fn lemma_empty_submit_noop(s: StateView)
    requires
        s.buffer.len() == 0,
    ensures
        submit_spec(s) == s,
{
}

} // verus!
