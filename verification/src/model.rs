//! The state of the list and its transitions.
//!
//! [`ModelView`] is the mathematical state: a finite map from identifier to
//! item, the draft, the editing session and the filter. Each transition is a
//! spec function on it, and each method of [`Model`] is proved to carry out
//! the transition of the same name.

use crate::ident::fresh_id;
use crate::text::{trim, trimmed};
use crate::todo::{EditingView, Filter, SelectedTodo, Todo, TodoView};
use crate::store::{count, holds, keys_of, lookup, put, take_out};
use std::collections::BTreeMap;
use vstd::prelude::*;

verus! {

broadcast use vstd::std_specs::btree::axiom_btree_map_view_finite_dom;

/// The state that a [`Model`] stands for.
pub struct ModelView {
    pub todos: Map<u128, TodoView>,
    pub draft: Seq<char>,
    pub editing: Option<EditingView>,
    pub filter: Filter,
}

impl ModelView {
    /// The invariant of the state: finitely many items, each filed under its
    /// own identifier, and an editing session only for an item of the list.
    pub open spec fn wf(self) -> bool {
        &&& self.todos.dom().finite()
        &&& forall|k: u128| #[trigger] self.todos.contains_key(k) ==> self.todos[k].id == k
        &&& (self.editing matches Some(e) ==> self.todos.contains_key(e.id))
    }

    /// No items, an empty draft, no editing session, every item shown.
    pub open spec fn empty() -> ModelView {
        ModelView {
            todos: Map::empty(),
            draft: Seq::empty(),
            editing: None,
            filter: Filter::All,
        }
    }

    /// Whether every item is completed.
    pub open spec fn all_completed(self) -> bool {
        forall|k: u128| #[trigger] self.todos.contains_key(k) ==> self.todos[k].completed
    }

    /// The identifiers of the items that `filter` shows.
    pub open spec fn shown_ids(self, filter: Filter) -> Set<u128> {
        self.todos.dom().filter(|k: u128| filter.admits(self.todos[k].completed))
    }

    pub open spec fn set_draft_title(self, text: Seq<char>) -> ModelView {
        ModelView { draft: text, ..self }
    }

    /// The draft, trimmed, becomes the title of a new item under `id`, and
    /// the draft is cleared. Nothing changes if the trimmed draft is empty
    /// or `id` is taken.
    pub open spec fn commit_draft(self, id: u128) -> ModelView {
        let title = trimmed(self.draft);
        if title.len() == 0 || self.todos.contains_key(id) {
            self
        } else {
            ModelView {
                todos: self.todos.insert(id, TodoView { id, title, completed: false }),
                draft: Seq::empty(),
                ..self
            }
        }
    }

    pub open spec fn toggle_todo(self, id: u128) -> ModelView {
        if self.todos.contains_key(id) {
            let t = self.todos[id];
            ModelView {
                todos: self.todos.insert(id, TodoView { completed: !t.completed, ..t }),
                ..self
            }
        } else {
            self
        }
    }

    /// The item leaves the list, and with it an editing session on it.
    pub open spec fn remove_todo(self, id: u128) -> ModelView {
        ModelView {
            todos: self.todos.remove(id),
            editing: if self.editing is Some && self.editing.unwrap().id != id {
                self.editing
            } else {
                None
            },
            ..self
        }
    }

    /// Every item gets the same flag: completed, unless all of them were
    /// completed already.
    pub open spec fn toggle_all(self) -> ModelView {
        let target = !self.all_completed();
        ModelView {
            todos: Map::new(
                |k: u128| self.todos.contains_key(k),
                |k: u128| TodoView { completed: target, ..self.todos[k] },
            ),
            ..self
        }
    }

    /// The completed items leave the list, and with them an editing session
    /// on one of them.
    pub open spec fn clear_completed(self) -> ModelView {
        ModelView {
            todos: Map::new(
                |k: u128| self.todos.contains_key(k) && !self.todos[k].completed,
                |k: u128| self.todos[k],
            ),
            editing: if self.editing is Some && self.todos.contains_key(self.editing.unwrap().id)
                && !self.todos[self.editing.unwrap().id].completed {
                self.editing
            } else {
                None
            },
            ..self
        }
    }

    /// `None` ends the editing session. An identifier of the list starts one
    /// on that item, with the item's title; any other identifier changes
    /// nothing.
    pub open spec fn select_for_editing(self, target: Option<u128>) -> ModelView {
        match target {
            None => ModelView { editing: None, ..self },
            Some(id) => if self.todos.contains_key(id) {
                ModelView {
                    editing: Some(EditingView { id, title: self.todos[id].title }),
                    ..self
                }
            } else {
                self
            },
        }
    }

    pub open spec fn update_editing_title(self, text: Seq<char>) -> ModelView {
        match self.editing {
            Some(e) => ModelView { editing: Some(EditingView { id: e.id, title: text }), ..self },
            None => self,
        }
    }

    /// The session's title, trimmed, becomes the item's title and the
    /// session ends; if the trimmed title is empty, the item is removed
    /// instead. Without a session nothing changes.
    pub open spec fn save_editing_session(self) -> ModelView {
        match self.editing {
            None => self,
            Some(e) => {
                let title = trimmed(e.title);
                if title.len() == 0 {
                    self.remove_todo(e.id)
                } else {
                    ModelView {
                        todos: self.todos.insert(e.id, TodoView { title, ..self.todos[e.id] }),
                        editing: None,
                        ..self
                    }
                }
            },
        }
    }

    pub open spec fn set_filter(self, filter: Filter) -> ModelView {
        ModelView { filter, ..self }
    }

    /// The two sample items `a` and `b`, a sample draft, and an editing
    /// session on `b`.
    pub open spec fn add_mock_data(self, a: u128, b: u128) -> ModelView {
        ModelView {
            todos: self.todos.insert(
                a,
                TodoView { id: a, title: "I'm todo A"@, completed: false },
            ).insert(b, TodoView { id: b, title: "I'm todo B"@, completed: true }),
            draft: "I'm a new todo title."@,
            editing: Some(EditingView { id: b, title: "I'm better todo B"@ }),
            ..self
        }
    }
}

/// The items of a stored map, each by its view.
pub open spec fn todos_view(m: Map<u128, Todo>) -> Map<u128, TodoView> {
    Map::new(|k: u128| m.contains_key(k), |k: u128| m[k]@)
}

/// The view of an optional editing session.
pub open spec fn editing_view(s: Option<SelectedTodo>) -> Option<EditingView> {
    match s {
        Some(s) => Some(s@),
        None => None,
    }
}

/// The state of the to-do list.
pub struct Model {
    todos: BTreeMap<u128, Todo>,
    new_todo_title: String,
    selected_todo: Option<SelectedTodo>,
    filter: Filter,
}

impl View for Model {
    type V = ModelView;

    closed spec fn view(&self) -> ModelView {
        ModelView {
            todos: todos_view(self.todos@),
            draft: self.new_todo_title@,
            editing: editing_view(self.selected_todo),
            filter: self.filter,
        }
    }
}

impl Model {
    /// The invariant that every constructor establishes and every method
    /// keeps.
    pub open spec fn wf(&self) -> bool {
        self@.wf()
    }

    /// A model without items.
    pub fn new() -> (m: Model)
        ensures
            m.wf(),
            m@ == ModelView::empty(),
    {
        let m = Model {
            todos: BTreeMap::new(),
            new_todo_title: String::new(),
            selected_todo: None,
            filter: Filter::All,
        };
        assert(m@.todos =~= Map::empty());
        m
    }

    /// The identifiers of the items, in increasing order.
    pub fn ids(&self) -> (keys: Vec<u128>)
        ensures
            forall|k: u128| keys@.contains(k) <==> self@.todos.contains_key(k),
            forall|i: int, j: int| 0 <= i < j < keys.len() ==> keys[i] < keys[j],
    {
        keys_of(&self.todos)
    }

    /// The number of items.
    pub fn len(&self) -> (n: usize)
        ensures
            n == self@.todos.len(),
    {
        assert(self@.todos.dom() =~= self.todos@.dom());
        count(&self.todos)
    }

    /// Whether the list has no item.
    pub fn is_empty(&self) -> (r: bool)
        ensures
            r == self@.todos.is_empty(),
    {
        assert(self@.todos.dom() =~= self.todos@.dom());
        self.todos.is_empty()
    }

    /// The item under `id`, if there is one.
    pub fn get(&self, id: u128) -> (r: Option<&Todo>)
        ensures
            match r {
                Some(t) => self@.todos.contains_key(id) && t@ == self@.todos[id],
                None => !self@.todos.contains_key(id),
            },
    {
        lookup(&self.todos, id)
    }

    /// The draft of the next item's title.
    pub fn draft_title(&self) -> (r: &str)
        ensures
            r@ == self@.draft,
    {
        self.new_todo_title.as_str()
    }

    /// The editing session, if one is open.
    pub fn editing(&self) -> (r: &Option<SelectedTodo>)
        ensures
            editing_view(*r) == self@.editing,
    {
        &self.selected_todo
    }

    /// The active filter.
    pub fn filter(&self) -> (r: Filter)
        ensures
            r == self@.filter,
    {
        self.filter
    }

    /// Whether every item is completed.
    pub fn all_completed(&self) -> (r: bool)
        ensures
            r == self@.all_completed(),
    {
        let keys = keys_of(&self.todos);
        let mut all = true;
        let mut i: usize = 0;
        while i < keys.len()
            invariant
                i <= keys.len(),
                forall|k: u128| keys@.contains(k) <==> self.todos@.contains_key(k),
                all <==> forall|j: int| 0 <= j < i ==> self.todos@[#[trigger] keys@[j]].completed,
            decreases keys.len() - i,
        {
            assert(keys@.contains(keys@[i as int]));
            match lookup(&self.todos, keys[i]) {
                Some(t) => {
                    if !t.completed {
                        all = false;
                    }
                },
                None => {},
            }
            i += 1;
        }
        proof {
            if all {
                assert forall|k: u128| #[trigger]
                    self@.todos.contains_key(k) implies self@.todos[k].completed by {
                    assert(keys@.contains(k));
                    let j = choose|j: int| 0 <= j < keys.len() && keys@[j] == k;
                    assert(self.todos@[keys@[j]].completed);
                }
            } else {
                let j = choose|j: int| 0 <= j < i && !self.todos@[#[trigger] keys@[j]].completed;
                assert(keys@.contains(keys@[j]));
                assert(self@.todos.contains_key(keys@[j]));
                assert(!self@.todos[keys@[j]].completed);
            }
        }
        all
    }

    /// The identifiers of the items that `filter` shows, in increasing
    /// order.
    pub fn shown_ids(&self, filter: Filter) -> (out: Vec<u128>)
        ensures
            out@.no_duplicates(),
            out@.to_set() == self@.shown_ids(filter),
            forall|i: int, j: int| 0 <= i < j < out.len() ==> out[i] < out[j],
    {
        let keys = keys_of(&self.todos);
        let mut out: Vec<u128> = Vec::new();
        let mut i: usize = 0;
        while i < keys.len()
            invariant
                i <= keys.len(),
                forall|k: u128| keys@.contains(k) <==> self.todos@.contains_key(k),
                forall|a: int, b: int| 0 <= a < b < keys.len() ==> keys[a] < keys[b],
                forall|a: int, b: int| 0 <= a < b < out.len() ==> out[a] < out[b],
                forall|a: int, b: int| 0 <= a < out.len() && i <= b < keys.len() ==> out[a] < keys[b],
                forall|a: int|
                    0 <= a < out.len() ==> self.todos@.contains_key(#[trigger] out[a])
                        && filter.admits(self.todos@[out[a]].completed),
                forall|b: int|
                    0 <= b < i && filter.admits(self.todos@[#[trigger] keys[b]].completed)
                        ==> out@.contains(keys[b]),
            decreases keys.len() - i,
        {
            let k = keys[i];
            assert(keys@.contains(keys@[i as int]));
            let show = match lookup(&self.todos, k) {
                Some(t) => filter.shows(t.completed),
                None => false,
            };
            if show {
                let ghost prev = out@;
                out.push(k);
                assert forall|b: int|
                    0 <= b < i + 1 && filter.admits(
                        self.todos@[#[trigger] keys[b]].completed,
                    ) implies out@.contains(keys[b]) by {
                    if b < i {
                        let a = choose|a: int| 0 <= a < prev.len() && prev[a] == keys[b];
                        assert(out@[a] == keys[b]);
                    } else {
                        assert(out@[out.len() - 1] == keys[b]);
                    }
                }
            }
            i += 1;
        }
        proof {
            assert forall|k: u128| out@.to_set().contains(k) <==> self@.shown_ids(
                filter,
            ).contains(k) by {
                if out@.contains(k) {
                    let a = choose|a: int| 0 <= a < out.len() && out[a] == k;
                    assert(self.todos@.contains_key(out[a]));
                }
                if self@.shown_ids(filter).contains(k) {
                    assert(keys@.contains(k));
                    let b = choose|b: int| 0 <= b < keys.len() && keys[b] == k;
                    assert(filter.admits(self.todos@[keys[b]].completed));
                }
            }
            assert(out@.to_set() =~= self@.shown_ids(filter));
        }
        out
    }

    /// The items that the active filter shows, in the order of their
    /// identifiers.
    pub fn visible_todos(&self) -> (out: Vec<Todo>)
        requires
            self.wf(),
        ensures
            forall|i: int, j: int| 0 <= i < j < out.len() ==> out[i].id < out[j].id,
            forall|i: int|
                0 <= i < out.len() ==> self@.shown_ids(self@.filter).contains(#[trigger] out[i].id)
                    && out[i]@ == self@.todos[out[i].id],
            forall|k: u128|
                self@.shown_ids(self@.filter).contains(k) ==> exists|i: int|
                    0 <= i < out.len() && #[trigger] out[i].id == k,
    {
        let ids = self.shown_ids(self.filter);
        let mut out: Vec<Todo> = Vec::new();
        let mut i: usize = 0;
        while i < ids.len()
            invariant
                i <= ids.len(),
                out.len() == i,
                self.wf(),
                ids@.to_set() == self@.shown_ids(self@.filter),
                forall|a: int|
                    0 <= a < i ==> (#[trigger] out[a]).id == ids[a] && out[a]@
                        == self@.todos[ids[a]],
            decreases ids.len() - i,
        {
            assert(ids@.to_set().contains(ids@[i as int]));
            match lookup(&self.todos, ids[i]) {
                Some(t) => {
                    out.push(t.clone());
                },
                None => {
                    assert(false);
                },
            }
            i += 1;
        }
        proof {
            assert forall|a: int| 0 <= a < out.len() implies self@.shown_ids(
                self@.filter,
            ).contains(#[trigger] out[a].id) by {
                assert(ids@.to_set().contains(ids@[a]));
            }
            assert forall|k: u128| self@.shown_ids(self@.filter).contains(k) implies (exists|a: int|
                0 <= a < out.len() && #[trigger] out[a].id == k) by {
                assert(ids@.to_set().contains(k));
                let a = choose|a: int| 0 <= a < ids.len() && ids[a] == k;
                assert(out[a].id == k);
            }
        }
        out
    }

    /// How many items are not completed.
    pub fn active_count(&self) -> (n: usize)
        ensures
            n == self@.shown_ids(Filter::Active).len(),
    {
        let ids = self.shown_ids(Filter::Active);
        proof {
            ids@.unique_seq_to_set();
        }
        ids.len()
    }

    /// How many items are completed.
    pub fn completed_count(&self) -> (n: usize)
        ensures
            n == self@.shown_ids(Filter::Completed).len(),
    {
        let ids = self.shown_ids(Filter::Completed);
        proof {
            ids@.unique_seq_to_set();
        }
        ids.len()
    }

    /// Whether the editing session is on the item under `id`.
    pub fn is_editing(&self, id: u128) -> (r: bool)
        ensures
            r == (self@.editing is Some && self@.editing.unwrap().id == id),
    {
        match &self.selected_todo {
            Some(s) => s.id == id,
            None => false,
        }
    }
}

impl Model {
    /// Replaces the draft.
    pub fn set_draft_title(&mut self, text: String)
        requires
            old(self).wf(),
        ensures
            final(self).wf(),
            final(self)@ == old(self)@.set_draft_title(text@),
    {
        self.new_todo_title = text;
    }

    /// Turns the draft into a new item under `id`. Returns whether it did:
    /// it does not if the trimmed draft is empty or `id` is taken.
    pub fn commit_draft_with_id(&mut self, id: u128) -> (added: bool)
        requires
            old(self).wf(),
        ensures
            final(self).wf(),
            final(self)@ == old(self)@.commit_draft(id),
            added == (trimmed(old(self)@.draft).len() > 0 && !old(self)@.todos.contains_key(id)),
    {
        let title = trim(self.new_todo_title.as_str());
        if title.as_str().is_empty() || holds(&self.todos, id) {
            return false;
        }
        put(&mut self.todos, id, Todo { id, title, completed: false });
        self.new_todo_title = String::new();
        assert(self@.todos =~= old(self)@.commit_draft(id).todos);
        true
    }

    /// Turns the draft into a new item under a newly made identifier, which
    /// is returned. Nothing changes, and `None` is returned, if the trimmed
    /// draft is empty or the identifier turns out to be taken; on an empty
    /// list no identifier is taken, so a draft with text in it is always
    /// committed there.
    pub fn commit_draft(&mut self) -> (created: Option<u128>)
        requires
            old(self).wf(),
        ensures
            final(self).wf(),
            match created {
                Some(id) => trimmed(old(self)@.draft).len() > 0 && !old(self)@.todos.contains_key(
                    id,
                ) && final(self)@ == old(self)@.commit_draft(id),
                None => final(self)@ == old(self)@,
            },
            trimmed(old(self)@.draft).len() == 0 ==> created is None,
            trimmed(old(self)@.draft).len() > 0 && (forall|k: u128|
                !old(self)@.todos.contains_key(k)) ==> created is Some,
    {
        let id = fresh_id();
        if self.commit_draft_with_id(id) {
            Some(id)
        } else {
            None
        }
    }

    /// Flips the completion flag of the item under `id`, if there is one.
    pub fn toggle_todo(&mut self, id: u128)
        requires
            old(self).wf(),
        ensures
            final(self).wf(),
            final(self)@ == old(self)@.toggle_todo(id),
    {
        let flipped = match lookup(&self.todos, id) {
            Some(t) => Some(Todo { id: t.id, title: t.title.clone(), completed: !t.completed }),
            None => None,
        };
        match flipped {
            Some(t) => {
                put(&mut self.todos, id, t);
            },
            None => {},
        }
        assert(self@.todos =~= old(self)@.toggle_todo(id).todos);
    }

    /// Removes the item under `id`, if there is one, and ends an editing
    /// session on it.
    pub fn remove_todo(&mut self, id: u128)
        requires
            old(self).wf(),
        ensures
            final(self).wf(),
            final(self)@ == old(self)@.remove_todo(id),
    {
        take_out(&mut self.todos, id);
        let on_it = match &self.selected_todo {
            Some(s) => s.id == id,
            None => false,
        };
        if on_it {
            self.selected_todo = None;
        }
        assert(self@.todos =~= old(self)@.remove_todo(id).todos);
    }

    /// Marks every item completed, or every item active if all of them were
    /// completed.
    pub fn toggle_all(&mut self)
        requires
            old(self).wf(),
        ensures
            final(self).wf(),
            final(self)@ == old(self)@.toggle_all(),
    {
        let target = !self.all_completed();
        let keys = keys_of(&self.todos);
        let ghost before = self.todos@;
        let mut i: usize = 0;
        while i < keys.len()
            invariant
                i <= keys.len(),
                keys@.no_duplicates(),
                forall|k: u128| keys@.contains(k) <==> before.contains_key(k),
                forall|k: u128| self.todos@.contains_key(k) <==> before.contains_key(k),
                forall|j: int|
                    0 <= j < keys.len() ==> (#[trigger] self.todos@[keys@[j]])@ == (if j < i {
                        TodoView { completed: target, ..before[keys@[j]]@ }
                    } else {
                        before[keys@[j]]@
                    }),
                self.new_todo_title == old(self).new_todo_title,
                self.selected_todo == old(self).selected_todo,
                self.filter == old(self).filter,
            decreases keys.len() - i,
        {
            let k = keys[i];
            assert(keys@.contains(keys@[i as int]));
            let next = match lookup(&self.todos, k) {
                Some(t) => Some(Todo { id: t.id, title: t.title.clone(), completed: target }),
                None => None,
            };
            match next {
                Some(t) => {
                    put(&mut self.todos, k, t);
                },
                None => {},
            }
            i += 1;
        }
        proof {
            let goal = old(self)@.toggle_all().todos;
            assert forall|k: u128| #[trigger] goal.contains_key(k) implies self@.todos[k]
                == goal[k] by {
                assert(keys@.contains(k));
                let j = choose|j: int| 0 <= j < keys.len() && keys@[j] == k;
                assert(self.todos@[keys@[j]]@ == goal[k]);
            }
            assert(self@.todos =~= goal);
            assert(self@.todos.dom() =~= self.todos@.dom());
        }
    }

    /// Removes every completed item, and ends an editing session on one of
    /// them.
    pub fn clear_completed(&mut self)
        requires
            old(self).wf(),
        ensures
            final(self).wf(),
            final(self)@ == old(self)@.clear_completed(),
    {
        let keys = keys_of(&self.todos);
        let ghost before = self.todos@;
        let mut i: usize = 0;
        assert forall|j: int| 0 <= j < keys.len() implies before.contains_key(keys@[j]) by {
            assert(keys@.contains(keys@[j]));
        }
        while i < keys.len()
            invariant
                i <= keys.len(),
                keys@.no_duplicates(),
                forall|k: u128| keys@.contains(k) <==> before.contains_key(k),
                forall|k: u128| #[trigger]
                    self.todos@.contains_key(k) ==> before.contains_key(k) && self.todos@[k]
                        == before[k],
                forall|j: int|
                    0 <= j < keys.len() ==> (#[trigger] self.todos@.contains_key(keys@[j]) <==> (j
                        >= i || !before[keys@[j]].completed)),
                self.new_todo_title == old(self).new_todo_title,
                self.selected_todo == old(self).selected_todo,
                self.filter == old(self).filter,
            decreases keys.len() - i,
        {
            let k = keys[i];
            let done = match lookup(&self.todos, k) {
                Some(t) => t.completed,
                None => false,
            };
            if done {
                take_out(&mut self.todos, k);
            }
            i += 1;
        }
        proof {
            assert forall|k: u128| before.contains_key(k) implies (self.todos@.contains_key(k)
                <==> !before[k].completed) by {
                assert(keys@.contains(k));
                let j = choose|j: int| 0 <= j < keys.len() && keys@[j] == k;
                assert(self.todos@.contains_key(keys@[j]) <==> !before[keys@[j]].completed);
            }
        }
        let gone = match &self.selected_todo {
            Some(s) => !holds(&self.todos, s.id),
            None => false,
        };
        if gone {
            self.selected_todo = None;
        }
        assert(self@.todos =~= old(self)@.clear_completed().todos);
        assert(self@.todos.dom() =~= self.todos@.dom());
    }

    /// Starts an editing session on the item under the given identifier,
    /// with the item's title, or ends the session if `target` is `None`. An
    /// identifier that is not in the list changes nothing.
    pub fn select_for_editing(&mut self, target: Option<u128>)
        requires
            old(self).wf(),
        ensures
            final(self).wf(),
            final(self)@ == old(self)@.select_for_editing(target),
    {
        match target {
            None => {
                self.selected_todo = None;
            },
            Some(id) => {
                let session = match lookup(&self.todos, id) {
                    Some(t) => Some(SelectedTodo { id, title: t.title.clone() }),
                    None => None,
                };
                if session.is_some() {
                    self.selected_todo = session;
                }
            },
        }
    }

    /// Replaces the title of the editing session, if one is open.
    pub fn update_editing_title(&mut self, text: String)
        requires
            old(self).wf(),
        ensures
            final(self).wf(),
            final(self)@ == old(self)@.update_editing_title(text@),
    {
        let open = match &self.selected_todo {
            Some(s) => Some(s.id),
            None => None,
        };
        match open {
            Some(id) => {
                self.selected_todo = Some(SelectedTodo { id, title: text });
            },
            None => {},
        }
    }

    /// Ends the editing session: its trimmed title becomes the item's
    /// title, or, if it is empty, the item is removed. Without a session
    /// nothing changes.
    pub fn save_editing_session(&mut self)
        requires
            old(self).wf(),
        ensures
            final(self).wf(),
            final(self)@ == old(self)@.save_editing_session(),
    {
        let edited = match &self.selected_todo {
            Some(s) => Some((s.id, trim(s.title.as_str()))),
            None => None,
        };
        match edited {
            None => {},
            Some((id, title)) => {
                if title.as_str().is_empty() {
                    self.remove_todo(id);
                } else {
                    let completed = match lookup(&self.todos, id) {
                        Some(t) => t.completed,
                        None => false,
                    };
                    put(&mut self.todos, id, Todo { id, title, completed });
                    self.selected_todo = None;
                    assert(self@.todos =~= old(self)@.save_editing_session().todos);
                }
            },
        }
    }

    /// Replaces the filter.
    pub fn set_filter(&mut self, filter: Filter)
        requires
            old(self).wf(),
        ensures
            final(self).wf(),
            final(self)@ == old(self)@.set_filter(filter),
    {
        self.filter = filter;
    }

    /// Adds the two sample items under the identifiers `a` and `b`, sets a
    /// sample draft and opens an editing session on the second item.
    pub fn add_mock_data_with(self, a: u128, b: u128) -> (m: Model)
        requires
            self.wf(),
        ensures
            m.wf(),
            m@ == self@.add_mock_data(a, b),
    {
        let mut m = self;
        put(&mut m.todos, a, Todo { id: a, title: "I'm todo A".to_owned(), completed: false });
        put(&mut m.todos, b, Todo { id: b, title: "I'm todo B".to_owned(), completed: true });
        m.new_todo_title = "I'm a new todo title.".to_owned();
        m.selected_todo = Some(SelectedTodo { id: b, title: "I'm better todo B".to_owned() });
        assert(m@.todos =~= self@.add_mock_data(a, b).todos);
        m
    }

    /// Adds the two sample items under newly made identifiers, sets a sample
    /// draft and opens an editing session on the second item.
    pub fn add_mock_data(self) -> (m: Model)
        requires
            self.wf(),
        ensures
            m.wf(),
            exists|a: u128, b: u128| m@ == self@.add_mock_data(a, b),
    {
        let a = fresh_id();
        let b = fresh_id();
        self.add_mock_data_with(a, b)
    }
}

} // verus!
