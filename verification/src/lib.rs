//! A small verified todo-list core: a bounded task list, a line-oriented
//! serialization format, a whitespace-splitting command parser, and the
//! two-step session state machine that drives them.

pub mod actions;
pub mod chars;
pub mod command_parser;
pub mod list;
pub mod state;
pub mod strings;
pub mod task;
pub mod task_parser;
pub mod utils;
pub mod validators;
