//! Client-side logic of a command-line tool for a Task Execution Service:
//! the task state model, the list-query builder, the response formatter and
//! the decisions of the command dispatcher.

pub mod dispatch;
pub mod document;
pub mod format;
pub mod json;
pub mod query;
pub mod state;
pub mod task;
