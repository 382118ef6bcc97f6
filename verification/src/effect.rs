//! What the caller is asked to do after the library has taken a decision.
//!
//! The library never touches a file, a pipe or a process.  Each of its
//! decisions ends in an [`Effect`]: a plain description of the one thing
//! that has to happen outside, which the caller carries out and, where the
//! effect says so, reports back.

use vstd::prelude::*;
use crate::shell::Command;
use crate::shell::CommandView;

verus! {

/// The signals that the file manager sends to a task.
#[derive(Clone, Copy, Debug, PartialEq, Eq, Structural)]
pub enum Signal {
    /// Interrupt the task, as Ctrl-C would.
    Interrupt,
    /// Ask the task to terminate.
    Terminate,
    /// Kill the task.
    Kill,
}

/// One thing to do outside the library.
#[derive(Debug)]
pub enum Effect {
    /// Nothing.
    Nothing,
    /// Send the command to the shell: wake the shell, then open the command
    /// pipe and write the command.  The wake comes first because the pipe
    /// cannot be opened for writing before the woken shell has opened it
    /// for reading.
    Send(Command),
    /// Read the directory `path`.  When that succeeds, hand the entries to
    /// `FileManager::cd` together with `path` and `select`, and send `then`
    /// if there is one; when it fails, show the error as a message.
    Enter { path: String, select: Option<String>, then: Option<Command> },
    /// Read the current directory again and hand the entries to
    /// `FileManager::reload`.
    Reload,
    /// Start `command` as a task.  When that succeeds, hand the process id
    /// to `TaskManager::new_task`; when it fails, show the error as a
    /// message.
    Spawn { command: String, rendered: String },
    /// Send `signal` to the process `pid`, and report a delivered signal to
    /// `TaskManager::on_signal`.
    Signal { pid: i32, signal: Signal },
    /// Read the load of the system anew.
    Refresh,
    /// Leave the main loop, after sending the farewell if there is one.
    Quit(Option<Command>),
}

/// The model of an [`Effect`].
pub enum EffectView {
    Nothing,
    Send(CommandView),
    Enter { path: Seq<char>, select: Option<Seq<char>>, then: Option<CommandView> },
    Reload,
    Spawn { command: Seq<char>, rendered: Seq<char> },
    Signal { pid: i32, signal: Signal },
    Refresh,
    Quit(Option<CommandView>),
}

impl View for Effect {
    type V = EffectView;

    open spec fn view(&self) -> EffectView {
        match self {
            Effect::Nothing => EffectView::Nothing,
            Effect::Send(c) => EffectView::Send(c@),
            Effect::Enter { path, select, then } => EffectView::Enter {
                path: path@,
                select: select.deep_view(),
                then: then.deep_view(),
            },
            Effect::Reload => EffectView::Reload,
            Effect::Spawn { command, rendered } => EffectView::Spawn {
                command: command@,
                rendered: rendered@,
            },
            Effect::Signal { pid, signal } => EffectView::Signal { pid: *pid, signal: *signal },
            Effect::Refresh => EffectView::Refresh,
            Effect::Quit(c) => EffectView::Quit(c.deep_view()),
        }
    }
}

/// The effect of an optional command: it is sent, or nothing happens.
pub open spec fn send_or_nothing(command: Option<CommandView>) -> EffectView {
    match command {
        Some(c) => EffectView::Send(c),
        None => EffectView::Nothing,
    }
}

/// Sends the command if there is one.
pub fn send(command: Option<Command>) -> (r: Effect)
    ensures
        r@ == send_or_nothing(command.deep_view()),
{
    match command {
        Some(c) => Effect::Send(c),
        None => Effect::Nothing,
    }
}

} // verus!
