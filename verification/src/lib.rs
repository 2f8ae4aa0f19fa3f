//! Decision logic of the `ract` command line tool: the state machines behind
//! its terminal dialogs, the text input and selection components, the layout
//! arithmetic of its dashboard, and the plans that dispatch its commands.
pub mod app;
pub mod cli;
pub mod common;
pub mod service;
pub mod entry;
pub mod log;
