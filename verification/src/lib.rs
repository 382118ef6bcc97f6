//! A terminal file manager that lives next to an interactive shell.
//!
//! The crate holds the decisions of the program: how a directory listing is
//! ordered and filtered, what is typed into the shell, how background tasks
//! change state, and how the status line asks and edits.  Everything that
//! touches the terminal, the file system or a process is left to the caller,
//! which is told what to do through [`effect::Effect`] values.

pub mod text;
pub mod key;
pub mod shell;
pub mod list;
pub mod file_manager;
pub mod effect;
pub mod path;
pub mod status_bar;
pub mod error;
pub mod open_methods;
pub mod parsers;
pub mod task_manager;
pub mod event;
pub mod app;
pub mod frame;
pub mod icons;
pub mod system_monitor;
pub mod draw;
pub mod lines;
pub mod file_type;
