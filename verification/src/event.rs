//! The events that the main loop takes in, one at a time.

use vstd::prelude::*;
use crate::file_manager::WatchKind;
use crate::key::Key;
use crate::shell::ShellEvent;
use crate::task_manager::TaskEvent;

verus! {

/// One event.  The sources of events are independent of each other; the
/// events of one source arrive in the order in which it produced them.
#[derive(Debug)]
pub enum Event {
    /// A change in the directory shown.
    Watch(WatchKind),
    /// A message from the shell.
    Shell(ShellEvent),
    /// A key was pressed.
    Key(Key),
    /// Time has passed; the tick carries the time, in milliseconds.
    Tick(u64),
    /// A report of the task that runs as process `pid`.
    Task { pid: i32, event: TaskEvent },
}

} // verus!
