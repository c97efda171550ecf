//! What holds of the transitions, whatever the state.

use crate::model::ModelView;
use crate::text::{is_blank, trimmed, trimmed_is_tight};
use crate::todo::{Filter, TodoView};
use crate::update::{step, Msg};
use vstd::prelude::*;

verus! {

/// The state after toggling, one after the other, the items named in `ids`.
pub open spec fn toggle_each(v: ModelView, ids: Seq<u128>) -> ModelView
    decreases ids.len(),
{
    if ids.len() == 0 {
        v
    } else {
        toggle_each(v, ids.drop_last()).toggle_todo(ids.last())
    }
}

/// How often `id` occurs in `ids`.
pub open spec fn occurrences(ids: Seq<u128>, id: u128) -> nat
    decreases ids.len(),
{
    if ids.len() == 0 {
        0
    } else {
        occurrences(ids.drop_last(), id) + if ids.last() == id {
            1nat
        } else {
            0nat
        }
    }
}

/// After any sequence of toggles an item is what it was, except that its
/// flag has flipped if and only if the item was toggled an odd number of
/// times. Nothing else of the state changes, and no item comes or goes.
pub proof fn toggle_parity(v: ModelView, ids: Seq<u128>, id: u128)
    requires
        v.todos.contains_key(id),
    ensures
        toggle_each(v, ids).todos.contains_key(id),
        toggle_each(v, ids).todos[id] == (TodoView {
            completed: v.todos[id].completed != (occurrences(ids, id) % 2 == 1),
            ..v.todos[id]
        }),
        toggle_each(v, ids).todos.dom() == v.todos.dom(),
        toggle_each(v, ids).draft == v.draft,
        toggle_each(v, ids).editing == v.editing,
        toggle_each(v, ids).filter == v.filter,
    decreases ids.len(),
{
    if ids.len() > 0 {
        toggle_parity(v, ids.drop_last(), id);
        let mid = toggle_each(v, ids.drop_last());
        assert(mid.toggle_todo(ids.last()).todos.dom() =~= mid.todos.dom());
    }
}

/// Whether no item is completed.
pub open spec fn all_active(v: ModelView) -> bool {
    forall|k: u128| #[trigger] v.todos.contains_key(k) ==> !v.todos[k].completed
}

/// Checking all twice: unless every item was completed, the first call
/// completes every item and the second makes every item active. The two
/// calls together give back the state they started from exactly when the
/// items all had the same flag.
pub proof fn toggle_all_twice(v: ModelView)
    ensures
        !v.all_completed() ==> v.toggle_all().all_completed() && all_active(
            v.toggle_all().toggle_all(),
        ),
        v.toggle_all().toggle_all() == v <==> v.all_completed() || all_active(v),
{
    let v1 = v.toggle_all();
    let v2 = v1.toggle_all();
    if v.all_completed() {
        if exists|k: u128| v.todos.contains_key(k) {
            let k = choose|k: u128| v.todos.contains_key(k);
            assert(v1.todos.contains_key(k) && !v1.todos[k].completed);
            assert(!v1.all_completed());
        }
        assert(v2.todos =~= v.todos);
    } else {
        assert(v1.all_completed());
        assert(all_active(v2));
        if all_active(v) {
            assert(v2.todos =~= v.todos);
        }
        if v2 == v {
            assert forall|k: u128| #[trigger] v.todos.contains_key(k) implies !v.todos[k].completed by {
                assert(v2.todos.contains_key(k));
            }
        }
    }
}

/// Clearing leaves no completed item, and leaves every active item as it
/// was, under its identifier.
pub proof fn clear_completed_keeps_the_active(v: ModelView)
    ensures
        forall|k: u128| #[trigger]
            v.clear_completed().todos.contains_key(k) <==> v.todos.contains_key(k)
                && !v.todos[k].completed,
        forall|k: u128| #[trigger]
            v.clear_completed().todos.contains_key(k) ==> v.clear_completed().todos[k]
                == v.todos[k],
        forall|k: u128| #[trigger]
            v.clear_completed().todos.contains_key(k) ==> !v.clear_completed().todos[k].completed,
        v.clear_completed().clear_completed().todos == v.clear_completed().todos,
{
    assert(v.clear_completed().clear_completed().todos =~= v.clear_completed().todos);
}

/// A draft of nothing but white space is not committed: the state stays as
/// it is, whatever identifier was on offer.
pub proof fn blank_draft_is_not_committed(v: ModelView, id: u128)
    requires
        is_blank(v.draft),
    ensures
        v.commit_draft(id) == v,
{
    trimmed_is_tight(v.draft);
}

/// A draft with more than white space in it, committed under an identifier
/// that is not taken, adds exactly one item: active, under that identifier,
/// with the trimmed draft as its title. The other items stay as they are and
/// the draft is cleared.
pub proof fn commit_adds_one(v: ModelView, id: u128)
    requires
        v.wf(),
        !is_blank(v.draft),
        !v.todos.contains_key(id),
    ensures
        v.commit_draft(id).todos.len() == v.todos.len() + 1,
        v.commit_draft(id).todos.remove(id) == v.todos,
        v.commit_draft(id).todos[id] == (TodoView {
            id,
            title: trimmed(v.draft),
            completed: false,
        }),
        v.commit_draft(id).draft.len() == 0,
{
    trimmed_is_tight(v.draft);
    assert(v.commit_draft(id).todos.remove(id) =~= v.todos);
}

/// Removing under an identifier that is not in the list changes nothing.
pub proof fn remove_absent_changes_nothing(v: ModelView, id: u128)
    requires
        v.wf(),
        !v.todos.contains_key(id),
    ensures
        v.remove_todo(id) == v,
{
    assert(v.todos.remove(id) =~= v.todos);
}

/// Saving an editing session with a title of more than white space gives the
/// item that title, trimmed, keeps its flag, and ends the session.
pub proof fn save_writes_title(v: ModelView)
    requires
        v.wf(),
        v.editing is Some,
        !is_blank(v.editing.unwrap().title),
    ensures
        v.save_editing_session().editing is None,
        v.save_editing_session().todos.dom() == v.todos.dom(),
        v.save_editing_session().todos[v.editing.unwrap().id] == (TodoView {
            title: trimmed(v.editing.unwrap().title),
            ..v.todos[v.editing.unwrap().id]
        }),
{
    trimmed_is_tight(v.editing.unwrap().title);
    assert(v.save_editing_session().todos.dom() =~= v.todos.dom());
}

/// Saving an editing session with a blank title removes the item.
pub proof fn save_blank_removes(v: ModelView)
    requires
        v.editing is Some,
        is_blank(v.editing.unwrap().title),
    ensures
        v.save_editing_session() == v.remove_todo(v.editing.unwrap().id),
{
    trimmed_is_tight(v.editing.unwrap().title);
}

/// Every transition keeps the invariant: the items stay filed under their
/// own identifiers, and an editing session never points outside the list.
pub proof fn step_keeps_invariant(v: ModelView, msg: Msg, fresh: u128)
    requires
        v.wf(),
    ensures
        step(v, msg, fresh).wf(),
{
    let w = step(v, msg, fresh);
    match msg {
        Msg::CheckOrUncheckAll => {
            assert(w.todos.dom() =~= v.todos.dom());
        },
        Msg::ClearCompleted => {
            let keep = |k: u128| !v.todos[k].completed;
            v.todos.dom().lemma_len_filter(keep);
            assert(w.todos.dom() =~= v.todos.dom().filter(keep));
        },
        _ => {},
    }
}

/// Only the making of an item looks at the identifier on offer.
pub proof fn step_ignores_unused_identifier(v: ModelView, msg: Msg, a: u128, b: u128)
    requires
        !(msg is CreateTodo),
    ensures
        step(v, msg, a) == step(v, msg, b),
{
}

/// The three filters: all items are shown under `All`, and every item is
/// shown under exactly one of `Active` and `Completed`, so that the counts
/// of the two add up to the length of the list.
pub proof fn filters_split_the_list(v: ModelView)
    requires
        v.wf(),
    ensures
        v.shown_ids(Filter::All) == v.todos.dom(),
        v.shown_ids(Filter::Active).disjoint(v.shown_ids(Filter::Completed)),
        v.shown_ids(Filter::Active).union(v.shown_ids(Filter::Completed)) == v.todos.dom(),
        v.shown_ids(Filter::Active).len() + v.shown_ids(Filter::Completed).len()
            == v.todos.len(),
{
    let active = v.shown_ids(Filter::Active);
    let completed = v.shown_ids(Filter::Completed);
    assert(v.shown_ids(Filter::All) =~= v.todos.dom());
    assert(active.union(completed) =~= v.todos.dom());
    v.todos.dom().lemma_len_filter(|k: u128| Filter::Active.admits(v.todos[k].completed));
    v.todos.dom().lemma_len_filter(|k: u128| Filter::Completed.admits(v.todos[k].completed));
    vstd::set_lib::lemma_set_disjoint_lens(active, completed);
}

/// The filter decides what is shown and touches nothing else.
pub proof fn filter_changes_only_the_view(v: ModelView, filter: Filter)
    ensures
        v.set_filter(filter).todos == v.todos,
        v.set_filter(filter).draft == v.draft,
        v.set_filter(filter).editing == v.editing,
{
}

} // verus!
