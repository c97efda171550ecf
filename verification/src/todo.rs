//! The items of the list, the item under edit and the filter.

use vstd::prelude::*;

verus! {

/// Which items are shown.
#[derive(Clone, Copy, Debug, PartialEq, Eq, Structural)]
pub enum Filter {
    All,
    Active,
    Completed,
}

impl Filter {
    /// Whether an item with the given completion flag is shown under this
    /// filter.
    pub open spec fn admits(self, completed: bool) -> bool {
        match self {
            Filter::All => true,
            Filter::Active => !completed,
            Filter::Completed => completed,
        }
    }

    /// The filter that an address fragment selects: `/active` and
    /// `/completed` select those two, anything else selects all items.
    pub open spec fn of_route(route: Seq<char>) -> Filter {
        if route == "/active"@ {
            Filter::Active
        } else if route == "/completed"@ {
            Filter::Completed
        } else {
            Filter::All
        }
    }

    /// Executable form of [`Filter::of_route`].
    pub fn from_route(route: &str) -> (f: Filter)
        ensures
            f == Filter::of_route(route@),
    {
        let route = route.to_owned();
        if route == "/active".to_owned() {
            Filter::Active
        } else if route == "/completed".to_owned() {
            Filter::Completed
        } else {
            Filter::All
        }
    }

    /// Executable form of [`Filter::admits`].
    pub fn shows(self, completed: bool) -> (r: bool)
        ensures
            r == self.admits(completed),
    {
        match self {
            Filter::All => true,
            Filter::Active => !completed,
            Filter::Completed => completed,
        }
    }
}

/// What a [`Todo`] stands for.
pub struct TodoView {
    pub id: u128,
    pub title: Seq<char>,
    pub completed: bool,
}

/// One item of the list.
#[derive(Debug)]
pub struct Todo {
    pub id: u128,
    pub title: String,
    pub completed: bool,
}

impl View for Todo {
    type V = TodoView;

    open spec fn view(&self) -> TodoView {
        TodoView { id: self.id, title: self.title@, completed: self.completed }
    }
}

impl Clone for Todo {
    fn clone(&self) -> (r: Todo)
        ensures
            r@ == self@,
    {
        Todo { id: self.id, title: self.title.clone(), completed: self.completed }
    }
}

/// What a [`SelectedTodo`] stands for.
pub struct EditingView {
    pub id: u128,
    pub title: Seq<char>,
}

/// The item under edit: its identifier and the title as typed so far.
#[derive(Debug)]
pub struct SelectedTodo {
    pub id: u128,
    pub title: String,
}

impl View for SelectedTodo {
    type V = EditingView;

    open spec fn view(&self) -> EditingView {
        EditingView { id: self.id, title: self.title@ }
    }
}

impl Clone for SelectedTodo {
    fn clone(&self) -> (r: SelectedTodo)
        ensures
            r@ == self@,
    {
        SelectedTodo { id: self.id, title: self.title.clone() }
    }
}

} // verus!
