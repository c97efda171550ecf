//! Messages and their dispatch: every user action is one [`Msg`], and
//! [`update`] carries out the transition that belongs to it.

use crate::ident::fresh_id;
use crate::model::{Model, ModelView};
use crate::todo::Filter;
use vstd::prelude::*;

verus! {

/// A user action.
pub enum Msg {
    /// The address changed; the message carries its fragment, which selects
    /// the filter.
    UrlChanged(String),
    /// The text of the new-item input changed.
    NewTodoTitleChanged(String),
    /// The draft is to become an item.
    CreateTodo,
    ToggleTodo(u128),
    RemoveTodo(u128),
    CheckOrUncheckAll,
    ClearCompleted,
    /// An item was chosen for editing, or editing was given up.
    SelectTodo(Option<u128>),
    /// The text of the edit input changed.
    SelectedTodoTitleChanged(String),
    SaveSelectedTodo,
}

/// The state that follows `v` on `msg`, where `fresh` is the identifier
/// that a new item would get.
pub open spec fn step(v: ModelView, msg: Msg, fresh: u128) -> ModelView {
    match msg {
        Msg::UrlChanged(route) => v.set_filter(Filter::of_route(route@)),
        Msg::NewTodoTitleChanged(title) => v.set_draft_title(title@),
        Msg::CreateTodo => v.commit_draft(fresh),
        Msg::ToggleTodo(id) => v.toggle_todo(id),
        Msg::RemoveTodo(id) => v.remove_todo(id),
        Msg::CheckOrUncheckAll => v.toggle_all(),
        Msg::ClearCompleted => v.clear_completed(),
        Msg::SelectTodo(target) => v.select_for_editing(target),
        Msg::SelectedTodoTitleChanged(title) => v.update_editing_title(title@),
        Msg::SaveSelectedTodo => v.save_editing_session(),
    }
}

/// Carries out `msg` on `model`; a new item, if one is made, gets the
/// identifier `fresh`.
pub fn update_with_id(msg: Msg, model: &mut Model, fresh: u128)
    requires
        old(model).wf(),
    ensures
        final(model).wf(),
        final(model)@ == step(old(model)@, msg, fresh),
{
    match msg {
        Msg::UrlChanged(route) => {
            model.set_filter(Filter::from_route(route.as_str()));
        },
        Msg::NewTodoTitleChanged(title) => {
            model.set_draft_title(title);
        },
        Msg::CreateTodo => {
            model.commit_draft_with_id(fresh);
        },
        Msg::ToggleTodo(id) => {
            model.toggle_todo(id);
        },
        Msg::RemoveTodo(id) => {
            model.remove_todo(id);
        },
        Msg::CheckOrUncheckAll => {
            model.toggle_all();
        },
        Msg::ClearCompleted => {
            model.clear_completed();
        },
        Msg::SelectTodo(target) => {
            model.select_for_editing(target);
        },
        Msg::SelectedTodoTitleChanged(title) => {
            model.update_editing_title(title);
        },
        Msg::SaveSelectedTodo => {
            model.save_editing_session();
        },
    }
}

/// Carries out `msg` on `model`. Only [`Msg::CreateTodo`] needs a new
/// identifier, and only then is one made.
pub fn update(msg: Msg, model: &mut Model)
    requires
        old(model).wf(),
    ensures
        final(model).wf(),
        exists|fresh: u128| final(model)@ == step(old(model)@, msg, fresh),
        !(msg is CreateTodo) ==> final(model)@ == step(old(model)@, msg, 0),
{
    let fresh: u128 = match &msg {
        Msg::CreateTodo => fresh_id(),
        _ => 0,
    };
    update_with_id(msg, model, fresh);
}

/// The state at start: the sample data on an empty model.
pub fn init() -> (m: Model)
    ensures
        m.wf(),
        exists|a: u128, b: u128| m@ == ModelView::empty().add_mock_data(a, b),
{
    Model::new().add_mock_data()
}

} // verus!
