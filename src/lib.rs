//! A small todo-list manager: entries with a status sigil, a line-command
//! interpreter that edits the list, a renderer for an ANSI terminal, and the
//! split of the list between the primary store and its archive on save.
pub mod item;
pub mod text;
pub mod command;
pub mod help;
pub mod render;
pub mod store;
