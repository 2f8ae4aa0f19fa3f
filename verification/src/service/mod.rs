//! The command line's first generation of commands, run as question-and-answer
//! sessions rather than full-screen dialogs: the decisions they make about
//! the toolchain, the project files and what to run next.
pub mod cli;
pub mod command;
