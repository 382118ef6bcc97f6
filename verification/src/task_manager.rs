//! The supervisor of background tasks.
//!
//! A task is a shell command that runs beside the file manager.  This
//! module keeps the list of tasks and derives each task's status from what
//! the caller reports of it: its lines of output and its exit.

use vstd::prelude::*;
use vstd::string::*;
use crate::effect::Effect;
use crate::effect::EffectView;
use crate::effect::Signal;
use crate::error::KeyError;
use crate::key::Key;
use crate::list::first_index;
use crate::list::list_op;
use crate::list::moved;
use crate::list::selected_index;
use crate::list::ListExt;
use crate::status_bar::ModeView;
use crate::status_bar::PendingAction;
use crate::status_bar::PendingActionView;
use crate::status_bar::StatusBar;
use crate::text::ends_with;
use crate::text::has_suffix;
use crate::parsers::parse_status;
use crate::parsers::parsed_status;

verus! {

/// The status text of a task of which nothing more is known than that it
/// runs: a spinner.
pub const RUNNING: &'static str = "\u{f110} ";

/// How a process ended.
#[derive(Clone, Copy, Debug, PartialEq, Eq, Structural)]
pub struct ExitStatus {
    /// The exit code, if the process exited by itself.
    pub code: Option<i32>,
    /// Whether the process reported success.
    pub success: bool,
}

/// What is reported of a task.
#[derive(Debug)]
pub enum TaskEvent {
    /// A line of standard output.
    Stdout { line: String },
    /// A line of standard error.
    Stderr { line: String },
    /// The process has ended and was reaped.
    Exit { exit_status: ExitStatus },
}

/// The status of a task.
#[derive(Debug)]
pub enum Status {
    Running(String),
    Stopped,
    Exited(ExitStatus),
}

/// The model of a [`Status`].
pub enum StatusView {
    Running(Seq<char>),
    Stopped,
    Exited(ExitStatus),
}

impl View for Status {
    type V = StatusView;

    open spec fn view(&self) -> StatusView {
        match self {
            Status::Running(text) => StatusView::Running(text@),
            Status::Stopped => StatusView::Stopped,
            Status::Exited(exit_status) => StatusView::Exited(*exit_status),
        }
    }
}

/// One supervised command.
#[derive(Debug)]
pub struct Task {
    pub pid: i32,
    /// The command as it was given.
    pub command: String,
    /// The command as it is shown.
    pub rendered: String,
    pub status: Status,
}

/// The model of a [`Task`].
pub struct TaskView {
    pub pid: i32,
    pub command: Seq<char>,
    pub rendered: Seq<char>,
    pub status: StatusView,
}

impl View for Task {
    type V = TaskView;

    open spec fn view(&self) -> TaskView {
        TaskView {
            pid: self.pid,
            command: self.command@,
            rendered: self.rendered@,
            status: self.status@,
        }
    }
}

impl Task {
    /// A task that has just been started as the process `pid`.
    pub fn new(pid: i32, command: String, rendered: String) -> (task: Task)
        ensures
            task@ == (TaskView {
                pid,
                command: command@,
                rendered: rendered@,
                status: StatusView::Running(RUNNING@),
            }),
    {
        Task { pid, command, rendered, status: Status::Running(RUNNING.to_string()) }
    }
}

/// How much a task asks for attention: an ended task less than a stopped
/// one, a stopped one less than a running one, and of the ended tasks the
/// successful one least.
pub open spec fn rank(status: StatusView) -> int {
    match status {
        StatusView::Running(_) => 3,
        StatusView::Stopped => 2,
        StatusView::Exited(exit_status) => if exit_status.success {
            0
        } else {
            1
        },
    }
}

/// The tasks of one rank, in their order.
pub open spec fn of_rank(tasks: Seq<Task>, r: int) -> Seq<Task> {
    tasks.filter(|t: Task| rank(t.status@) == r)
}

/// The tasks ordered by rank, least first, with the tasks of one rank in
/// the order they had.
pub open spec fn by_rank(tasks: Seq<Task>) -> Seq<Task> {
    of_rank(tasks, 0) + of_rank(tasks, 1) + of_rank(tasks, 2) + of_rank(tasks, 3)
}

fn rank_of(status: &Status) -> (r: u8)
    ensures
        r == rank(status@),
{
    match status {
        Status::Running(_) => 3,
        Status::Stopped => 2,
        Status::Exited(exit_status) => if exit_status.success {
            0
        } else {
            1
        },
    }
}

/// Orders the tasks by rank and keeps the order within each rank.
pub fn sort_by_rank(tasks: Vec<Task>) -> (sorted: Vec<Task>)
    ensures
        sorted@ == by_rank(tasks@),
{
    let mut r0: Vec<Task> = Vec::new();
    let mut r1: Vec<Task> = Vec::new();
    let mut r2: Vec<Task> = Vec::new();
    let mut r3: Vec<Task> = Vec::new();
    let ghost all = tasks@;
    for task in it: tasks
        invariant
            it.seq() == all,
            r0@ == of_rank(all.take(it.index() as int), 0),
            r1@ == of_rank(all.take(it.index() as int), 1),
            r2@ == of_rank(all.take(it.index() as int), 2),
            r3@ == of_rank(all.take(it.index() as int), 3),
    {
        proof {
            reveal(Seq::filter);
            let i = it.index() as int;
            assert(all.take(i + 1).drop_last() =~= all.take(i));
            assert(all.take(i + 1).last() == task);
        }
        let r = rank_of(&task.status);
        if r == 0 {
            r0.push(task);
        } else if r == 1 {
            r1.push(task);
        } else if r == 2 {
            r2.push(task);
        } else {
            r3.push(task);
        }
    }
    proof {
        assert(all.take(all.len() as int) =~= all);
    }
    r0.append(&mut r1);
    r0.append(&mut r2);
    r0.append(&mut r3);
    r0
}

/// The selection of the task list and the first row that is drawn.
#[derive(Clone, Copy, Debug, PartialEq, Eq, Structural)]
pub struct TaskListState {
    pub offset: usize,
    pub selected: Option<usize>,
}

impl Default for TaskListState {
    fn default() -> (r: Self)
        ensures
            r == (TaskListState { offset: 0, selected: None }),
    {
        Self { offset: 0, selected: None }
    }
}

/// The tasks and the selection among them.
#[derive(Debug)]
pub struct TaskManager {
    pub tasks: Vec<Task>,
    pub list_state: TaskListState,
}

impl ListExt for TaskManager {
    type Item = Task;

    open spec fn index(&self) -> Option<usize> {
        self.list_state.selected
    }

    open spec fn list(&self) -> Seq<Task> {
        self.tasks@
    }

    open spec fn with_index(self, index: Option<usize>) -> Self {
        TaskManager {
            list_state: TaskListState { selected: index, ..self.list_state },
            ..self
        }
    }

    fn get_index(&self) -> (r: Option<usize>) {
        self.list_state.selected
    }

    fn get_list(&self) -> (r: &[Task]) {
        self.tasks.as_slice()
    }

    fn select(&mut self, index: Option<usize>) {
        self.list_state.selected = index;
    }
}

/// Some task has this process id.
pub open spec fn has_task(tasks: Seq<Task>, pid: i32) -> bool {
    exists|i: int| 0 <= i < tasks.len() && tasks[i].pid == pid
}

/// `at` is the first task with this process id: the one that reports of
/// the process are about.
pub open spec fn is_task_of(tasks: Seq<Task>, pid: i32, at: int) -> bool {
    &&& 0 <= at < tasks.len()
    &&& tasks[at].pid == pid
    &&& forall|j: int| 0 <= j < at ==> tasks[j].pid != pid
}

/// `after` is `before` with the status of the task `at` set to `status`.
pub open spec fn status_set(before: Seq<Task>, at: int, status: StatusView, after: Seq<Task>) -> bool {
    &&& after.len() == before.len()
    &&& after[at]@ == (TaskView { status, ..before[at]@ })
    &&& forall|j: int| 0 <= j < before.len() && j != at ==> after[j] == before[j]
}

/// The status text that a line of output gives to a task started by
/// `command`: what its parser reads from the line, or the spinner.
pub open spec fn line_status(command: Seq<char>, line: Seq<char>) -> Seq<char> {
    match parsed_status(command, line) {
        Some(text) => text,
        None => RUNNING@,
    }
}

/// Whether a report changes the status of a task that has the status
/// `status`.  A line of output tells of a task that runs, and of no other;
/// an exit is taken in once, so that nothing leaves the exited status.
pub open spec fn takes_effect(status: StatusView, event: TaskEvent) -> bool {
    match event {
        TaskEvent::Stdout { .. } => status is Running,
        TaskEvent::Stderr { .. } => status is Running,
        TaskEvent::Exit { .. } => !(status is Exited),
    }
}

/// The status of a task after a report of it.  A running task runs on, with
/// the status text that a line gives, until it exits; a stopped task stays
/// stopped until it exits; an exited task stays as it is.
pub open spec fn status_after(status: StatusView, command: Seq<char>, event: TaskEvent) -> StatusView {
    if !takes_effect(status, event) {
        status
    } else {
        match event {
            TaskEvent::Stdout { line } => StatusView::Running(line_status(command, line@)),
            TaskEvent::Stderr { line } => StatusView::Running(line_status(command, line@)),
            TaskEvent::Exit { exit_status } => StatusView::Exited(exit_status),
        }
    }
}

/// What a report of the task `at` does to the tasks.  A report that does
/// not change the status of the task changes nothing.  A line of output
/// gives a running task its new status text; an exit makes the task exited,
/// and the tasks are ordered anew by rank.
pub open spec fn reported(before: Seq<Task>, at: int, event: TaskEvent, after: Seq<Task>) -> bool {
    if !takes_effect(before[at].status@, event) {
        after == before
    } else {
        match event {
            TaskEvent::Exit { exit_status } => after == by_rank(
                before.update(at, Task { status: Status::Exited(exit_status), ..before[at] }),
            ),
            _ => status_set(
                before,
                at,
                status_after(before[at].status@, before[at].command@, event),
                after,
            ),
        }
    }
}

/// Whether a delivered signal stops a task that has the status `status`:
/// an interrupt does, unless the task has exited.
pub open spec fn stops(status: StatusView, signal: Signal) -> bool {
    signal == Signal::Interrupt && !(status is Exited)
}

/// The status of a task after a signal was delivered to it.
pub open spec fn status_after_signal(status: StatusView, signal: Signal) -> StatusView {
    if stops(status, signal) {
        StatusView::Stopped
    } else {
        status
    }
}

fn find_task(tasks: &Vec<Task>, pid: i32) -> (r: Option<usize>)
    ensures
        r is Some <==> has_task(tasks@, pid),
        r matches Some(i) ==> is_task_of(tasks@, pid, i as int),
{
    let mut i: usize = 0;
    while i < tasks.len()
        invariant
            i <= tasks.len(),
            forall|j: int| 0 <= j < i ==> tasks@[j].pid != pid,
        decreases tasks.len() - i,
    {
        if tasks[i].pid == pid {
            return Some(i);
        }
        i += 1;
    }
    None
}

fn status_of_line(command: &str, line: &str) -> (status: Status)
    ensures
        status@ == StatusView::Running(line_status(command@, line@)),
{
    match parse_status(command, line) {
        Some(text) => Status::Running(text),
        None => Status::Running(RUNNING.to_string()),
    }
}

impl TaskManager {
    /// No tasks.
    pub fn new() -> (r: TaskManager)
        ensures
            r.tasks@.len() == 0,
            r.list_state == (TaskListState { offset: 0, selected: None }),
    {
        TaskManager { tasks: Vec::new(), list_state: TaskListState::default() }
    }

    /// Takes in a report of the process `pid`.  It is about the first task
    /// with that process id; a report of a process that is no task is
    /// dropped, and so is a line of output of a task that does not run and
    /// an exit of a task that has exited.
    pub fn on_event(&mut self, pid: i32, event: TaskEvent)
        ensures
            final(self).list_state == old(self).list_state,
            !has_task(old(self).tasks@, pid) ==> final(self).tasks@ == old(self).tasks@,
            forall|at: int|
                is_task_of(old(self).tasks@, pid, at) ==> reported(
                    old(self).tasks@,
                    at,
                    event,
                    final(self).tasks@,
                ),
    {
        match find_task(&self.tasks, pid) {
            None => {},
            Some(i) => {
                let runs = match &self.tasks[i].status {
                    Status::Running(_) => true,
                    _ => false,
                };
                let exited = match &self.tasks[i].status {
                    Status::Exited(_) => true,
                    _ => false,
                };
                match event {
                    TaskEvent::Stdout { line } => {
                        if runs {
                            let mut task = self.tasks.remove(i);
                            task.status = status_of_line(task.command.as_str(), line.as_str());
                            self.tasks.insert(i, task);
                        }
                    },
                    TaskEvent::Stderr { line } => {
                        if runs {
                            let mut task = self.tasks.remove(i);
                            task.status = status_of_line(task.command.as_str(), line.as_str());
                            self.tasks.insert(i, task);
                        }
                    },
                    TaskEvent::Exit { exit_status } => {
                        if !exited {
                            let mut task = self.tasks.remove(i);
                            let ghost before = task;
                            task.status = Status::Exited(exit_status);
                            self.tasks.insert(i, task);
                            proof {
                                assert(self.tasks@ =~= old(self).tasks@.update(
                                    i as int,
                                    Task { status: Status::Exited(exit_status), ..before },
                                ));
                            }
                            let mut tasks: Vec<Task> = Vec::new();
                            core::mem::swap(&mut self.tasks, &mut tasks);
                            self.tasks = sort_by_rank(tasks);
                        }
                    },
                }
            },
        }
    }

    /// Takes in a task that was started as the process `pid`, and puts the
    /// selection on the first task.
    pub fn new_task(&mut self, pid: i32, command: String, rendered: String)
        ensures
            final(self).tasks@.len() == old(self).tasks@.len() + 1,
            final(self).tasks@.drop_last() == old(self).tasks@,
            final(self).tasks@.last()@ == (TaskView {
                pid,
                command: command@,
                rendered: rendered@,
                status: StatusView::Running(RUNNING@),
            }),
            final(self).list_state == (TaskListState {
                selected: Some(0),
                ..old(self).list_state
            }),
    {
        let task = Task::new(pid, command, rendered);
        self.tasks.push(task);
        self.select_first();
        proof {
            assert(self.tasks@.drop_last() =~= old(self).tasks@);
        }
    }

    /// Takes in that `signal` was delivered to the process `pid`: after an
    /// interrupt the selected task counts as stopped, if it is that process
    /// and has not exited.  No other signal changes a status.
    pub fn on_signal(&mut self, pid: i32, signal: Signal)
        ensures
            final(self).list_state == old(self).list_state,
            match old(self).list_state.selected {
                Some(i) if i < old(self).tasks@.len() && old(self).tasks@[i as int].pid == pid
                    && stops(old(self).tasks@[i as int].status@, signal) => final(self).tasks@
                    == old(self).tasks@.update(
                    i as int,
                    Task { status: Status::Stopped, ..old(self).tasks@[i as int] },
                ),
                _ => final(self).tasks@ == old(self).tasks@,
            },
    {
        if let Some(i) = self.list_state.selected {
            if signal == Signal::Interrupt && i < self.tasks.len() && self.tasks[i].pid == pid {
                let exited = match &self.tasks[i].status {
                    Status::Exited(_) => true,
                    _ => false,
                };
                if !exited {
                    let mut task = self.tasks.remove(i);
                    task.status = Status::Stopped;
                    self.tasks.insert(i, task);
                    proof {
                        assert(self.tasks@ =~= old(self).tasks@.update(
                            i as int,
                            Task { status: Status::Stopped, ..old(self).tasks@[i as int] },
                        ));
                    }
                }
            }
        }
    }
}

/// What a key means to the task list.
#[derive(Clone, Copy, Debug, PartialEq, Eq, Structural)]
pub enum TaskOp {
    /// Forget the tasks that do not run.
    Clear,
    /// Ask whether to terminate the selected task.
    Terminate,
    /// Ask whether to kill the selected task.
    Kill,
    /// Interrupt the selected task.
    Stop,
    /// The key is left to the list.
    Other,
}

/// The meaning of a key to the task list.
pub open spec fn task_op(key: Key) -> TaskOp {
    match key {
        Key::Char(c) => if c == 'c' {
            TaskOp::Clear
        } else if c == 't' {
            TaskOp::Terminate
        } else if c == '9' {
            TaskOp::Kill
        } else if c == 'z' {
            TaskOp::Stop
        } else {
            TaskOp::Other
        },
        _ => TaskOp::Other,
    }
}

/// The meaning of a key to the task list.
pub fn task_op_of(key: Key) -> (r: TaskOp)
    ensures
        r == task_op(key),
{
    match key {
        Key::Char(c) => if c == 'c' {
            TaskOp::Clear
        } else if c == 't' {
            TaskOp::Terminate
        } else if c == '9' {
            TaskOp::Kill
        } else if c == 'z' {
            TaskOp::Stop
        } else {
            TaskOp::Other
        },
        _ => TaskOp::Other,
    }
}

/// The tasks that run.
pub open spec fn running(tasks: Seq<Task>) -> Seq<Task> {
    tasks.filter(|t: Task| t.status is Running)
}

/// The question that is asked before a task is terminated.
pub open spec fn terminate_prompt(command: Seq<char>) -> Seq<char> {
    "Terminate '"@ + command + "' with SIGTERM?"@
}

/// The question that is asked before a task is killed.
pub open spec fn kill_prompt(command: Seq<char>) -> Seq<char> {
    "Kill '"@ + command + "' with SIGKILL?"@
}

impl TaskManager {
    /// The selected task.
    pub open spec fn selected_task(&self) -> Option<Task> {
        match selected_index(self.list_state.selected, self.tasks@.len()) {
            Some(i) => Some(self.tasks@[i as int]),
            None => None,
        }
    }

    /// What a key does to the task list `before` while the status line
    /// shows `bar_before`.
    pub open spec fn key_pressed(
        &self,
        before: &TaskManager,
        bar_before: ModeView,
        bar_after: ModeView,
        key: Key,
        result: Result<Effect, KeyError>,
    ) -> bool {
        match task_op(key) {
            TaskOp::Clear => {
                &&& bar_after == bar_before
                &&& self.tasks@ == running(before.tasks@)
                &&& self.list_state == (TaskListState {
                    selected: first_index(self.tasks@.len()),
                    ..before.list_state
                })
                &&& result matches Ok(e) && e@ == EffectView::Nothing
            },
            TaskOp::Terminate => {
                &&& *self == *before
                &&& result matches Ok(e) && e@ == EffectView::Nothing
                &&& match before.selected_task() {
                    None => bar_after == bar_before,
                    Some(task) => bar_after == (ModeView::Ask {
                        prompt: terminate_prompt(task.command@),
                        action: PendingActionView::Terminate(task.pid),
                    }),
                }
            },
            TaskOp::Kill => {
                &&& *self == *before
                &&& result matches Ok(e) && e@ == EffectView::Nothing
                &&& match before.selected_task() {
                    None => bar_after == bar_before,
                    Some(task) => bar_after == (ModeView::Ask {
                        prompt: kill_prompt(task.command@),
                        action: PendingActionView::Kill(task.pid),
                    }),
                }
            },
            TaskOp::Stop => {
                &&& *self == *before
                &&& bar_after == bar_before
                &&& result matches Ok(e) && e@ == match before.list_state.selected {
                    Some(i) if i < before.tasks@.len() => EffectView::Signal {
                        pid: before.tasks@[i as int].pid,
                        signal: Signal::Interrupt,
                    },
                    _ => EffectView::Nothing,
                }
            },
            TaskOp::Other => {
                &&& bar_after == bar_before
                &&& match list_op(key) {
                    Some(op) => {
                        &&& result matches Ok(e) && e@ == EffectView::Nothing
                        &&& *self == before.with_index(
                            moved(before.list_state.selected, before.tasks@.len(), op),
                        )
                    },
                    None => {
                        &&& result matches Err(e) && e == KeyError::Unknown(key)
                        &&& *self == *before
                    },
                }
            },
        }
    }

    /// Forgets the tasks that do not run.
    pub fn clear(&mut self)
        ensures
            final(self).tasks@ == running(old(self).tasks@),
            final(self).list_state == (TaskListState {
                selected: first_index(final(self).tasks@.len()),
                ..old(self).list_state
            }),
    {
        let mut tasks: Vec<Task> = Vec::new();
        core::mem::swap(&mut self.tasks, &mut tasks);
        let ghost all = tasks@;
        let mut kept: Vec<Task> = Vec::new();
        for task in it: tasks
            invariant
                it.seq() == all,
                kept@ == running(all.take(it.index() as int)),
        {
            proof {
                reveal(Seq::filter);
                let i = it.index() as int;
                assert(all.take(i + 1).drop_last() =~= all.take(i));
                assert(all.take(i + 1).last() == task);
            }
            let keep = match &task.status {
                Status::Running(_) => true,
                _ => false,
            };
            if keep {
                kept.push(task);
            }
        }
        proof {
            assert(all.take(all.len() as int) =~= all);
        }
        self.tasks = kept;
        self.select_first();
    }

    fn selected_target(&self) -> (r: Option<(i32, String)>)
        ensures
            match self.selected_task() {
                Some(task) => r matches Some(t) && t.0 == task.pid && t.1@ == task.command@,
                None => r is None,
            },
    {
        match self.selected() {
            Some(task) => Some((task.pid, task.command.clone())),
            None => None,
        }
    }

    /// Handles a key that was pressed while the task list had the word.
    ///
    /// Terminating and killing a task are asked about in the status line
    /// first; interrupting it is not.  A key that means nothing here and
    /// moves no selection is an error.
    pub fn on_key(&mut self, key: Key, status_bar: &mut StatusBar) -> (result: Result<
        Effect,
        KeyError,
    >)
        ensures
            final(self).key_pressed(old(self), old(status_bar)@, final(status_bar)@, key, result),
    {
        match task_op_of(key) {
            TaskOp::Clear => {
                self.clear();
                Ok(Effect::Nothing)
            },
            TaskOp::Terminate => {
                if let Some((pid, command)) = self.selected_target() {
                    let mut prompt = "Terminate '".to_string();
                    prompt.append(command.as_str());
                    prompt.append("' with SIGTERM?");
                    status_bar.ask(prompt, PendingAction::Terminate(pid));
                }
                Ok(Effect::Nothing)
            },
            TaskOp::Kill => {
                if let Some((pid, command)) = self.selected_target() {
                    let mut prompt = "Kill '".to_string();
                    prompt.append(command.as_str());
                    prompt.append("' with SIGKILL?");
                    status_bar.ask(prompt, PendingAction::Kill(pid));
                }
                Ok(Effect::Nothing)
            },
            TaskOp::Stop => match self.list_state.selected {
                Some(i) => if i < self.tasks.len() {
                    Ok(Effect::Signal { pid: self.tasks[i].pid, signal: Signal::Interrupt })
                } else {
                    Ok(Effect::Nothing)
                },
                None => Ok(Effect::Nothing),
            },
            TaskOp::Other => match self.on_list_key(key) {
                Ok(()) => Ok(Effect::Nothing),
                Err(e) => Err(e),
            },
        }
    }
}

/// The shell that runs a task when the user has named none.
pub const DEFAULT_SHELL: &'static str = "sh";

/// How a task is started: the program and its arguments.
#[derive(Debug)]
pub struct Spawn {
    pub program: String,
    pub args: Vec<String>,
}

/// The program that runs a task: the shell that the user has named, or
/// the default.
pub open spec fn task_shell(shell: Option<Seq<char>>) -> Seq<char> {
    match shell {
        Some(s) => s,
        None => DEFAULT_SHELL@,
    }
}

/// The command line that the shell is given.  The fish shell is told to
/// replace itself by the command, so that signals reach the command.
pub open spec fn task_script(shell: Seq<char>, command: Seq<char>) -> Seq<char> {
    if ends_with(shell, "fish"@) {
        "exec "@ + command
    } else {
        command
    }
}

/// How `command` is started as a task; `shell` is the shell that the user
/// has named in the variable `SHELL`, if any.
pub fn spawn_plan(shell: Option<String>, command: &str) -> (plan: Spawn)
    ensures
        plan.program@ == task_shell(shell.deep_view()),
        plan.args.deep_view() == seq!["-c"@, task_script(plan.program@, command@)],
{
    let program = match shell {
        Some(s) => s,
        None => DEFAULT_SHELL.to_string(),
    };
    let script = if has_suffix(program.as_str(), "fish") {
        let mut script = "exec ".to_string();
        script.append(command);
        script
    } else {
        command.to_string()
    };
    let mut args: Vec<String> = Vec::new();
    args.push("-c".to_string());
    args.push(script);
    proof {
        assert(args.deep_view() =~= seq![args@[0]@, args@[1]@]);
    }
    Spawn { program, args }
}

/// How far a task has come: it runs, it was stopped, it has exited.
pub open spec fn stage(status: StatusView) -> int {
    match status {
        StatusView::Running(_) => 0,
        StatusView::Stopped => 1,
        StatusView::Exited(_) => 2,
    }
}

/// A report of a task changes the status of that task, to what the report
/// says, and nothing else of it.
pub proof fn lemma_report_reaches_task(
    before: Seq<Task>,
    at: int,
    event: TaskEvent,
    after: Seq<Task>,
)
    requires
        0 <= at < before.len(),
        reported(before, at, event, after),
    ensures
        after.len() == before.len(),
        exists|to: int|
            0 <= to < after.len() && (#[trigger] after[to])@ == (TaskView {
                status: status_after(before[at].status@, before[at].command@, event),
                ..before[at]@
            }),
{
    if !takes_effect(before[at].status@, event) {
        assert(after[at]@ == (TaskView {
            status: status_after(before[at].status@, before[at].command@, event),
            ..before[at]@
        }));
    } else {
        match event {
            TaskEvent::Exit { exit_status } => {
                let exited = Task { status: Status::Exited(exit_status), ..before[at] };
                let tasks = before.update(at, exited);
                lemma_by_rank_keeps_tasks(tasks);
                assert(tasks[at] == exited);
                assert(tasks.contains(exited));
                vstd::seq_lib::to_multiset_contains(tasks, exited);
                assert(after.to_multiset().count(exited) > 0);
                vstd::seq_lib::to_multiset_contains(after, exited);
                let to = choose|to: int| 0 <= to < after.len() && after[to] == exited;
                assert(after[to]@ == (TaskView {
                    status: status_after(before[at].status@, before[at].command@, event),
                    ..before[at]@
                }));
                vstd::seq_lib::to_multiset_len(after);
                vstd::seq_lib::to_multiset_len(tasks);
            },
            _ => {
                assert(after[at]@ == (TaskView {
                    status: status_after(before[at].status@, before[at].command@, event),
                    ..before[at]@
                }));
            },
        }
    }
}

/// The tasks of the four ranks together are all the tasks.
proof fn lemma_ranks_cover(tasks: Seq<Task>)
    ensures
        by_rank(tasks).to_multiset() == tasks.to_multiset(),
    decreases tasks.len(),
{
    broadcast use vstd::seq_lib::group_to_multiset_ensures;

    reveal(Seq::filter);
    if tasks.len() == 0 {
        assert(by_rank(tasks) =~= tasks);
    } else {
        let init = tasks.drop_last();
        let last = tasks.last();
        lemma_ranks_cover(init);
        assert(tasks =~= init.push(last));
        let (a, b, c, d) = (of_rank(init, 0), of_rank(init, 1), of_rank(init, 2), of_rank(init, 3));
        vstd::seq_lib::lemma_multiset_commutative(a + b + c, d);
        vstd::seq_lib::lemma_multiset_commutative(a + b, c);
        vstd::seq_lib::lemma_multiset_commutative(a, b);
        let r = rank(last.status@);
        if r == 0 {
            vstd::seq_lib::lemma_multiset_commutative(a.push(last) + b + c, d);
            vstd::seq_lib::lemma_multiset_commutative(a.push(last) + b, c);
            vstd::seq_lib::lemma_multiset_commutative(a.push(last), b);
        } else if r == 1 {
            vstd::seq_lib::lemma_multiset_commutative(a + b.push(last) + c, d);
            vstd::seq_lib::lemma_multiset_commutative(a + b.push(last), c);
            vstd::seq_lib::lemma_multiset_commutative(a, b.push(last));
        } else if r == 2 {
            vstd::seq_lib::lemma_multiset_commutative(a + b + c.push(last), d);
            vstd::seq_lib::lemma_multiset_commutative(a + b, c.push(last));
        } else {
            vstd::seq_lib::lemma_multiset_commutative(a + b + c, d.push(last));
        }
        assert(by_rank(tasks).to_multiset() =~= by_rank(init).to_multiset().insert(last));
    }
}

/// Ordering the tasks by rank loses no task and adds none.
pub proof fn lemma_by_rank_keeps_tasks(tasks: Seq<Task>)
    ensures
        by_rank(tasks).to_multiset() == tasks.to_multiset(),
        by_rank(tasks).len() == tasks.len(),
{
    lemma_ranks_cover(tasks);
    vstd::seq_lib::to_multiset_len(by_rank(tasks));
    vstd::seq_lib::to_multiset_len(tasks);
}

/// After the tasks were ordered by rank, no task stands before one of a
/// lower rank: the tasks that ended well come first and the running tasks
/// last.
pub proof fn lemma_by_rank_orders(tasks: Seq<Task>, i: int, j: int)
    requires
        0 <= i <= j < by_rank(tasks).len(),
    ensures
        rank(by_rank(tasks)[i].status@) <= rank(by_rank(tasks)[j].status@),
{
    let (a, b, c, d) = (
        of_rank(tasks, 0),
        of_rank(tasks, 1),
        of_rank(tasks, 2),
        of_rank(tasks, 3),
    );
    assert forall|r: int, k: int| 0 <= k < (#[trigger] of_rank(tasks, r)).len() implies rank(
        (#[trigger] of_rank(tasks, r)[k]).status@,
    ) == r by {
        tasks.lemma_filter_pred(|t: Task| rank(t.status@) == r, k);
    }
    let s = by_rank(tasks);
    assert(rank(s[i].status@) == if i < a.len() {
        0int
    } else if i < a.len() + b.len() {
        1
    } else if i < a.len() + b.len() + c.len() {
        2
    } else {
        3
    }) by {
        if i < a.len() {
            assert(s[i] == a[i]);
        } else if i < a.len() + b.len() {
            assert(s[i] == b[i - a.len()]);
        } else if i < a.len() + b.len() + c.len() {
            assert(s[i] == c[i - a.len() - b.len()]);
        } else {
            assert(s[i] == d[i - a.len() - b.len() - c.len()]);
        }
    }
    assert(rank(s[j].status@) == if j < a.len() {
        0int
    } else if j < a.len() + b.len() {
        1
    } else if j < a.len() + b.len() + c.len() {
        2
    } else {
        3
    }) by {
        if j < a.len() {
            assert(s[j] == a[j]);
        } else if j < a.len() + b.len() {
            assert(s[j] == b[j - a.len()]);
        } else if j < a.len() + b.len() + c.len() {
            assert(s[j] == c[j - a.len() - b.len()]);
        } else {
            assert(s[j] == d[j - a.len() - b.len() - c.len()]);
        }
    }
}

/// Nothing leaves the exited status: no report changes a task that has
/// exited, nor any other task with it.
pub proof fn lemma_exited_stays(before: Seq<Task>, at: int, event: TaskEvent, after: Seq<Task>)
    requires
        0 <= at < before.len(),
        before[at].status is Exited,
        reported(before, at, event, after),
    ensures
        after == before,
{
}

/// A report moves the status of a task forward only: from running to
/// running or exited, from stopped to exited, and from exited nowhere.
pub proof fn lemma_status_moves_forward(status: StatusView, command: Seq<char>, event: TaskEvent)
    ensures
        stage(status_after(status, command, event)) >= stage(status),
        status is Exited ==> status_after(status, command, event) == status,
        status is Stopped ==> !(status_after(status, command, event) is Running),
{
}

/// A delivered signal moves the status of a task forward only: it stops a
/// task that runs, and leaves an exited task as it is.
pub proof fn lemma_stop_moves_forward(status: StatusView, signal: Signal)
    ensures
        stage(status_after_signal(status, signal)) >= stage(status),
        status is Exited ==> status_after_signal(status, signal) == status,
{
}

} // verus!
