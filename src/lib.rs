//! A bounded, ordered in-memory task store with exact-match queries and
//! identity-based deletion.

pub mod laws;
pub mod parse;
pub mod task;
pub mod todo_list;

pub use parse::{
    get_priority, get_priority_and_status, get_status, parse_confirmation, Confirmation,
};
pub use task::{Filter, Priority, Status, Task};
pub use todo_list::TodoList;
