//! State management for a to-do list: the items, the draft of a new item,
//! the item being edited and the active filter, with every transition
//! stated over a mathematical model and proved against it.

mod ident;
pub mod laws;
pub mod model;
mod store;
pub mod text;
pub mod todo;
pub mod update;
