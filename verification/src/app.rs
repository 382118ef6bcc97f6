//! The state of the whole program and the one function that moves it.
//!
//! The caller owns the main loop: it waits for the next event, hands it to
//! [`App::on_event`], and carries out the effect that comes back.

use vstd::prelude::*;
use crate::effect::Effect;
use crate::effect::EffectView;
use crate::error::error_text;
use crate::error::KeyError;
use crate::event::Event;
use crate::file_manager::FileManager;
use crate::file_manager::WatchKind;
use crate::key::Key;
use crate::open_methods::OpenMethods;
use crate::shell::attached;
use crate::shell::run_spec;
use crate::shell::Shell;
use crate::shell::ShellEvent;
use crate::status_bar::after_tick;
use crate::status_bar::key_handled;
use crate::status_bar::ModeView;
use crate::status_bar::StatusBar;
use crate::status_bar::MESSAGE_MILLIS;
use crate::task_manager::TaskManager;
use crate::task_manager::reported;
use crate::task_manager::has_task;
use crate::task_manager::is_task_of;

verus! {

/// Which list takes the keys.
#[derive(Clone, Copy, Debug, PartialEq, Eq, Structural)]
pub enum InputFocus {
    FileManager,
    TaskManager,
}

/// The other list.
pub open spec fn other_focus(focus: InputFocus) -> InputFocus {
    match focus {
        InputFocus::FileManager => InputFocus::TaskManager,
        InputFocus::TaskManager => InputFocus::FileManager,
    }
}

/// The state of the program.
pub struct App {
    pub file_manager: FileManager,
    pub task_manager: TaskManager,
    pub status_bar: StatusBar,
    pub input_focus: InputFocus,
}

/// What a key means to the program when no prompt is open.
#[derive(Clone, Copy, Debug, PartialEq, Eq, Structural)]
pub enum AppOp {
    /// Leave the program.
    Quit,
    /// Give the keys to the other list.
    SwitchFocus,
    /// The key is left to the list that has the focus.
    Other,
}

/// The meaning of a key to the program when no prompt is open.
pub open spec fn app_op(key: Key) -> AppOp {
    match key {
        Key::Char(c) => if c == 'q' {
            AppOp::Quit
        } else if c == '\t' {
            AppOp::SwitchFocus
        } else {
            AppOp::Other
        },
        _ => AppOp::Other,
    }
}

/// The meaning of a key to the program when no prompt is open.
pub fn app_op_of(key: Key) -> (r: AppOp)
    ensures
        r == app_op(key),
{
    match key {
        Key::Char(c) => if c == 'q' {
            AppOp::Quit
        } else if c == '\t' {
            AppOp::SwitchFocus
        } else {
            AppOp::Other
        },
        _ => AppOp::Other,
    }
}

/// The status line after a list has answered a key: as the list left it,
/// or, where the list failed, with the error as a message.
pub open spec fn caught(result: Result<Effect, KeyError>, left: ModeView, now: u64) -> ModeView {
    match result {
        Ok(_) => left,
        Err(e) => ModeView::Message {
            text: error_text(e),
            expire_at: (now + MESSAGE_MILLIS) as u64,
        },
    }
}

/// The effect after a list has answered a key: the list's own, or none
/// where the list failed.
pub open spec fn caught_effect(result: Result<Effect, KeyError>) -> EffectView {
    match result {
        Ok(effect) => effect@,
        Err(_) => EffectView::Nothing,
    }
}

impl App {
    /// A prompt is open: the status line asks or edits.
    pub open spec fn prompting(&self) -> bool {
        self.status_bar@ is Ask || self.status_bar@ is Edit
    }

    /// What a key does to the program.
    ///
    /// While a prompt is open every key goes to the status line.  Otherwise
    /// a message, if one is shown, gives way first and the key is handled
    /// as in normal mode: `q` leaves the program after a farewell to the
    /// shell, the tabulator switches the focus, and every other key goes to
    /// the list that has the focus, whose error becomes a message.
    pub open spec fn key_pressed(&self, before: &App, key: Key, now: u64, effect: EffectView) -> bool {
        if before.prompting() {
            &&& self.task_manager == before.task_manager
            &&& self.input_focus == before.input_focus
            &&& key_handled(
                before.status_bar@,
                key,
                &before.file_manager,
                self.status_bar@,
                &self.file_manager,
                effect,
            )
        } else {
            match app_op(key) {
                AppOp::Quit => {
                    &&& self.file_manager == before.file_manager
                    &&& self.task_manager == before.task_manager
                    &&& self.input_focus == before.input_focus
                    &&& self.status_bar@ == ModeView::Normal
                    &&& effect == EffectView::Quit(
                        run_spec(
                            before.file_manager.shell.pid,
                            "scd_deinit"@,
                            seq![Seq::<char>::empty()],
                            false,
                        ),
                    )
                },
                AppOp::SwitchFocus => {
                    &&& self.file_manager == before.file_manager
                    &&& self.task_manager == before.task_manager
                    &&& self.input_focus == other_focus(before.input_focus)
                    &&& self.status_bar@ == ModeView::Normal
                    &&& effect == EffectView::Nothing
                },
                AppOp::Other => {
                    &&& self.input_focus == before.input_focus
                    &&& exists|result: Result<Effect, KeyError>, left: ModeView|
                        {
                            &&& self.status_bar@ == caught(result, left, now)
                            &&& effect == caught_effect(result)
                            &&& match before.input_focus {
                                InputFocus::FileManager => {
                                    &&& self.task_manager == before.task_manager
                                    &&& self.file_manager.key_pressed(
                                        &before.file_manager,
                                        ModeView::Normal,
                                        left,
                                        key,
                                        now,
                                        result,
                                    )
                                },
                                InputFocus::TaskManager => {
                                    &&& self.file_manager == before.file_manager
                                    &&& self.task_manager.key_pressed(
                                        &before.task_manager,
                                        ModeView::Normal,
                                        left,
                                        key,
                                        result,
                                    )
                                },
                            }
                        }
                },
            }
        }
    }

    /// What an event does to the program.
    pub open spec fn handled(&self, before: &App, event: Event, now: u64, effect: EffectView) -> bool {
        match event {
            Event::Key(key) => self.key_pressed(before, key, now, effect),
            Event::Tick(at) => {
                &&& self.file_manager == before.file_manager
                &&& self.task_manager == before.task_manager
                &&& self.input_focus == before.input_focus
                &&& self.status_bar@ == after_tick(before.status_bar@, at)
                &&& effect == EffectView::Refresh
            },
            Event::Watch(kind) => {
                &&& *self == *before
                &&& effect == if kind == WatchKind::Create || kind == WatchKind::Remove || kind
                    == WatchKind::Modify {
                    EffectView::Reload
                } else {
                    EffectView::Nothing
                }
            },
            Event::Task { pid, event } => {
                &&& self.file_manager == before.file_manager
                &&& self.status_bar == before.status_bar
                &&& self.input_focus == before.input_focus
                &&& self.task_manager.list_state == before.task_manager.list_state
                &&& !has_task(before.task_manager.tasks@, pid) ==> self.task_manager.tasks@
                    == before.task_manager.tasks@
                &&& forall|at: int|
                    is_task_of(before.task_manager.tasks@, pid, at) ==> reported(
                        before.task_manager.tasks@,
                        at,
                        event,
                        self.task_manager.tasks@,
                    )
                &&& effect == EffectView::Nothing
            },
            Event::Shell(shell_event) => {
                &&& self.task_manager == before.task_manager
                &&& self.status_bar == before.status_bar
                &&& self.input_focus == before.input_focus
                &&& match shell_event {
                    ShellEvent::Exit => {
                        &&& self.file_manager == before.file_manager
                        &&& effect == EffectView::Quit(None)
                    },
                    ShellEvent::Task { command, rendered } => {
                        &&& self.file_manager == before.file_manager
                        &&& effect == (EffectView::Spawn { command: command@, rendered: rendered@ })
                    },
                    ShellEvent::Pid(pid) => {
                        &&& self.file_manager == (FileManager {
                            shell: Shell { pid, ..before.file_manager.shell },
                            ..before.file_manager
                        })
                        &&& effect == EffectView::Nothing
                    },
                    ShellEvent::ChangeDirectory(dir) => self.file_manager.went(
                        &before.file_manager,
                        dir@,
                        None,
                        None,
                        effect,
                    ),
                }
            },
        }
    }

    /// The program at its start: no directory is shown, no task runs, no
    /// shell is attached, and the file list has the focus.
    pub fn new(open_methods: OpenMethods) -> (app: App)
        ensures
            app.file_manager.dir@.len() == 0,
            app.file_manager.all_files@.len() == 0,
            app.file_manager.files@.len() == 0,
            app.file_manager.files_marked@.len() == 0,
            app.file_manager.filter@.len() == 0,
            !app.file_manager.show_hidden,
            app.file_manager.list_state.selected is None,
            app.file_manager.hidden_selection is None,
            app.file_manager.shell.pid == 0,
            app.file_manager.shell.open_methods == open_methods,
            app.task_manager.tasks@.len() == 0,
            app.task_manager.list_state.selected is None,
            app.task_manager.list_state.offset == 0,
            app.status_bar@ == ModeView::Normal,
            app.input_focus == InputFocus::FileManager,
    {
        App {
            file_manager: FileManager::new(open_methods),
            task_manager: TaskManager::new(),
            status_bar: StatusBar::new(),
            input_focus: InputFocus::FileManager,
        }
    }

    /// Shows what went wrong outside the library as a message.
    pub fn report(&mut self, text: String, now: u64)
        requires
            now + MESSAGE_MILLIS <= u64::MAX,
        ensures
            final(self).file_manager == old(self).file_manager,
            final(self).task_manager == old(self).task_manager,
            final(self).input_focus == old(self).input_focus,
            final(self).status_bar@ == (ModeView::Message {
                text: text@,
                expire_at: (now + MESSAGE_MILLIS) as u64,
            }),
    {
        self.status_bar.show_message(text, now);
    }

    fn catch(&mut self, result: Result<Effect, KeyError>, now: u64) -> (effect: Effect)
        requires
            now + MESSAGE_MILLIS <= u64::MAX,
        ensures
            final(self).file_manager == old(self).file_manager,
            final(self).task_manager == old(self).task_manager,
            final(self).input_focus == old(self).input_focus,
            final(self).status_bar@ == caught(result, old(self).status_bar@, now),
            effect@ == caught_effect(result),
    {
        match result {
            Ok(effect) => effect,
            Err(e) => {
                self.status_bar.show_message(e.message(), now);
                Effect::Nothing
            },
        }
    }

    /// Handles a key.
    pub fn on_key(&mut self, key: Key, now: u64) -> (effect: Effect)
        requires
            now + MESSAGE_MILLIS <= u64::MAX,
        ensures
            final(self).key_pressed(old(self), key, now, effect@),
    {
        let prompting = match &self.status_bar.mode {
            crate::status_bar::Mode::Ask { .. } => true,
            crate::status_bar::Mode::Edit { .. } => true,
            _ => false,
        };
        if prompting {
            self.status_bar.on_key(key, &mut self.file_manager)
        } else {
            self.status_bar.mode = crate::status_bar::Mode::Normal;
            match app_op_of(key) {
                AppOp::Quit => Effect::Quit(self.file_manager.shell.deinit()),
                AppOp::SwitchFocus => {
                    self.input_focus = match self.input_focus {
                        InputFocus::FileManager => InputFocus::TaskManager,
                        InputFocus::TaskManager => InputFocus::FileManager,
                    };
                    Effect::Nothing
                },
                AppOp::Other => {
                    let result = match self.input_focus {
                        InputFocus::FileManager => self.file_manager.on_key(
                            key,
                            &mut self.status_bar,
                            now,
                        ),
                        InputFocus::TaskManager => self.task_manager.on_key(
                            key,
                            &mut self.status_bar,
                        ),
                    };
                    let ghost left = self.status_bar@;
                    let effect = self.catch(result, now);
                    proof {
                        assert(final(self).status_bar@ == caught(result, left, now));
                    }
                    effect
                },
            }
        }
    }

    /// Handles one event at the time `now`, in milliseconds, and answers
    /// with what is left to do outside.
    pub fn on_event(&mut self, event: Event, now: u64) -> (effect: Effect)
        requires
            now + MESSAGE_MILLIS <= u64::MAX,
        ensures
            final(self).handled(old(self), event, now, effect@),
    {
        match event {
            Event::Key(key) => self.on_key(key, now),
            Event::Tick(at) => {
                self.status_bar.on_tick(at);
                Effect::Refresh
            },
            Event::Watch(kind) => self.file_manager.on_notify(kind),
            Event::Task { pid, event } => {
                self.task_manager.on_event(pid, event);
                Effect::Nothing
            },
            Event::Shell(shell_event) => match shell_event {
                ShellEvent::Exit => Effect::Quit(None),
                ShellEvent::Task { command, rendered } => Effect::Spawn { command, rendered },
                other => self.file_manager.on_shell_event(other),
            },
        }
    }
}

/// A command that is issued while no shell is attached is dropped for good:
/// nothing is sent for it then, and nothing is sent when the shell
/// announces itself later, which changes the known process id and nothing
/// else.
pub proof fn lemma_dropped_command_is_not_replayed(
    before: App,
    after: App,
    template: Seq<char>,
    args: Seq<Seq<char>>,
    echo: bool,
    pid: i32,
    now: u64,
    effect: EffectView,
)
    requires
        !attached(before.file_manager.shell.pid),
        after.handled(&before, Event::Shell(ShellEvent::Pid(pid)), now, effect),
    ensures
        run_spec(before.file_manager.shell.pid, template, args, echo) is None,
        effect == EffectView::Nothing,
        after.file_manager == (FileManager {
            shell: Shell { pid, ..before.file_manager.shell },
            ..before.file_manager
        }),
        after.task_manager == before.task_manager,
        after.status_bar == before.status_bar,
        after.input_focus == before.input_focus,
{
}

} // verus!
