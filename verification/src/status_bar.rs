//! The status line and its modes: it shows a message for a while, asks a
//! yes/no question, or takes a line of text.

use vstd::prelude::*;
use vstd::string::*;
use crate::effect::send;
use crate::effect::send_or_nothing;
use crate::effect::Effect;
use crate::effect::EffectView;
use crate::effect::Signal;
use crate::file_manager::FileManager;
use crate::key::Key;
use crate::path::with_file_name;
use crate::path::with_file_name_of;
use crate::shell::run_spec;
use crate::text::chars_of;
use crate::text::string_of;

verus! {

/// How long a message stays, in milliseconds.
pub const MESSAGE_MILLIS: u64 = 4000;

/// What a prompt will do once the user has answered it.  The target is
/// fixed when the prompt opens: a later change of the selection does not
/// reach it.
#[derive(Debug)]
pub enum PendingAction {
    /// Remove the file or directory at this path.
    Delete(String),
    /// Give the file at this path the name that is typed.
    Rename(String),
    /// Show only the files whose names hold what is typed.
    Filter,
    /// Ask the task with this process id to terminate.
    Terminate(i32),
    /// Kill the task with this process id.
    Kill(i32),
}

/// The model of a [`PendingAction`].
pub enum PendingActionView {
    Delete(Seq<char>),
    Rename(Seq<char>),
    Filter,
    Terminate(i32),
    Kill(i32),
}

impl View for PendingAction {
    type V = PendingActionView;

    open spec fn view(&self) -> PendingActionView {
        match self {
            PendingAction::Delete(path) => PendingActionView::Delete(path@),
            PendingAction::Rename(path) => PendingActionView::Rename(path@),
            PendingAction::Filter => PendingActionView::Filter,
            PendingAction::Terminate(pid) => PendingActionView::Terminate(*pid),
            PendingAction::Kill(pid) => PendingActionView::Kill(*pid),
        }
    }
}

/// The state of the status line.
#[derive(Debug)]
pub enum Mode {
    /// Show some properties of the selected file.
    Normal,
    /// Display a short lived message.
    Message { text: String, expire_at: u64 },
    /// Ask a yes/no question.
    Ask { prompt: String, action: PendingAction },
    /// Edit some text.  The cursor counts characters from the start.
    Edit { prompt: String, text: String, cursor: usize, action: PendingAction },
}

/// The model of a [`Mode`].
pub enum ModeView {
    Normal,
    Message { text: Seq<char>, expire_at: u64 },
    Ask { prompt: Seq<char>, action: PendingActionView },
    Edit { prompt: Seq<char>, text: Seq<char>, cursor: usize, action: PendingActionView },
}

impl View for Mode {
    type V = ModeView;

    open spec fn view(&self) -> ModeView {
        match self {
            Mode::Normal => ModeView::Normal,
            Mode::Message { text, expire_at } => ModeView::Message {
                text: text@,
                expire_at: *expire_at,
            },
            Mode::Ask { prompt, action } => ModeView::Ask { prompt: prompt@, action: action@ },
            Mode::Edit { prompt, text, cursor, action } => ModeView::Edit {
                prompt: prompt@,
                text: text@,
                cursor: *cursor,
                action: action@,
            },
        }
    }
}

/// The status line.
#[derive(Debug)]
pub struct StatusBar {
    pub mode: Mode,
}

impl View for StatusBar {
    type V = ModeView;

    open spec fn view(&self) -> ModeView {
        self.mode@
    }
}

/// The mode after a tick at time `now`: a message whose time has come gives
/// way to the normal mode, and nothing else changes.
pub open spec fn after_tick(mode: ModeView, now: u64) -> ModeView {
    match mode {
        ModeView::Message { text, expire_at } => if expire_at <= now {
            ModeView::Normal
        } else {
            mode
        },
        _ => mode,
    }
}

impl StatusBar {
    /// A status line in normal mode.
    pub fn new() -> (r: StatusBar)
        ensures
            r@ == ModeView::Normal,
    {
        StatusBar { mode: Mode::Normal }
    }

    /// Shows `text` from `now` until [`MESSAGE_MILLIS`] have passed or a key
    /// is pressed.
    pub fn show_message(&mut self, text: String, now: u64)
        requires
            now + MESSAGE_MILLIS <= u64::MAX,
        ensures
            final(self)@ == (ModeView::Message {
                text: text@,
                expire_at: (now + MESSAGE_MILLIS) as u64,
            }),
    {
        self.mode = Mode::Message { text, expire_at: now + MESSAGE_MILLIS };
    }

    /// Asks a yes/no question; `action` is what a yes will do.
    pub fn ask(&mut self, prompt: String, action: PendingAction)
        ensures
            final(self)@ == (ModeView::Ask { prompt: prompt@, action: action@ }),
    {
        self.mode = Mode::Ask { prompt, action };
    }

    /// Opens a line of text for editing, with the cursor behind its last
    /// character; `action` says what a change and what Enter will do.
    pub fn edit(&mut self, prompt: String, text: String, action: PendingAction)
        ensures
            final(self)@ == (ModeView::Edit {
                prompt: prompt@,
                text: text@,
                cursor: text@.len() as usize,
                action: action@,
            }),
    {
        let cursor = text.as_str().unicode_len();
        self.mode = Mode::Edit { prompt, text, cursor, action };
    }

    /// Lets a message expire.
    pub fn on_tick(&mut self, now: u64)
        ensures
            final(self)@ == after_tick(old(self)@, now),
    {
        let expired = match &self.mode {
            Mode::Message { expire_at, .. } => *expire_at <= now,
            _ => false,
        };
        if expired {
            self.mode = Mode::Normal;
        }
    }
}

/// What a key means while a line of text is edited.
#[derive(Clone, Copy, Debug, PartialEq, Eq, Structural)]
pub enum EditOp {
    /// Accept the line.
    Commit,
    /// Give the line up.
    Cancel,
    /// Move the cursor to the start.
    Home,
    /// Move the cursor behind the last character.
    End,
    /// Move the cursor one character to the left.
    Left,
    /// Move the cursor one character to the right.
    Right,
    /// Delete the character before the cursor.
    Backspace,
    /// Delete the character under the cursor.
    Delete,
    /// Delete the whole line.
    Clear,
    /// Insert a character at the cursor.
    Insert(char),
    /// The key has no meaning here.
    Ignore,
}

/// The meaning of a key while a line of text is edited.
pub open spec fn edit_op(key: Key) -> EditOp {
    match key {
        Key::Char(c) => if c == '\n' {
            EditOp::Commit
        } else {
            EditOp::Insert(c)
        },
        Key::Esc => EditOp::Cancel,
        Key::Home => EditOp::Home,
        Key::End => EditOp::End,
        Key::Left => EditOp::Left,
        Key::Right => EditOp::Right,
        Key::Backspace => EditOp::Backspace,
        Key::Delete => EditOp::Delete,
        Key::Ctrl(c) => if c == '[' {
            EditOp::Cancel
        } else if c == 'a' {
            EditOp::Home
        } else if c == 'e' {
            EditOp::End
        } else if c == 'b' {
            EditOp::Left
        } else if c == 'f' {
            EditOp::Right
        } else if c == 'h' {
            EditOp::Backspace
        } else if c == 'd' {
            EditOp::Delete
        } else if c == 'u' {
            EditOp::Clear
        } else {
            EditOp::Ignore
        },
        _ => EditOp::Ignore,
    }
}

/// The text and the cursor after an editing step.  A step that would reach
/// outside the text changes nothing.
pub open spec fn edited(text: Seq<char>, cursor: int, op: EditOp) -> (Seq<char>, int) {
    match op {
        EditOp::Home => (text, 0),
        EditOp::End => (text, text.len() as int),
        EditOp::Left => if cursor > 0 {
            (text, cursor - 1)
        } else {
            (text, cursor)
        },
        EditOp::Right => if cursor < text.len() {
            (text, cursor + 1)
        } else {
            (text, cursor)
        },
        EditOp::Backspace => if 0 < cursor <= text.len() {
            (text.remove(cursor - 1), cursor - 1)
        } else {
            (text, cursor)
        },
        EditOp::Delete => if 0 <= cursor < text.len() {
            (text.remove(cursor), cursor)
        } else {
            (text, cursor)
        },
        EditOp::Clear => (Seq::empty(), 0),
        EditOp::Insert(c) => if 0 <= cursor <= text.len() {
            (text.insert(cursor, c), cursor + 1)
        } else {
            (text, cursor)
        },
        _ => (text, cursor),
    }
}

/// Whether an editing step is announced as a change of the text: every
/// insertion or deletion that took place, and every clearing of the line.
pub open spec fn announces(text: Seq<char>, cursor: int, op: EditOp) -> bool {
    match op {
        EditOp::Backspace => 0 < cursor <= text.len(),
        EditOp::Delete => 0 <= cursor < text.len(),
        EditOp::Clear => true,
        EditOp::Insert(_) => 0 <= cursor <= text.len(),
        _ => false,
    }
}

/// The meaning of a key while a line of text is edited.
pub fn classify(key: Key) -> (op: EditOp)
    ensures
        op == edit_op(key),
{
    match key {
        Key::Char(c) => if c == '\n' {
            EditOp::Commit
        } else {
            EditOp::Insert(c)
        },
        Key::Esc => EditOp::Cancel,
        Key::Home => EditOp::Home,
        Key::End => EditOp::End,
        Key::Left => EditOp::Left,
        Key::Right => EditOp::Right,
        Key::Backspace => EditOp::Backspace,
        Key::Delete => EditOp::Delete,
        Key::Ctrl(c) => if c == '[' {
            EditOp::Cancel
        } else if c == 'a' {
            EditOp::Home
        } else if c == 'e' {
            EditOp::End
        } else if c == 'b' {
            EditOp::Left
        } else if c == 'f' {
            EditOp::Right
        } else if c == 'h' {
            EditOp::Backspace
        } else if c == 'd' {
            EditOp::Delete
        } else if c == 'u' {
            EditOp::Clear
        } else {
            EditOp::Ignore
        },
        _ => EditOp::Ignore,
    }
}

/// Carries out one editing step on `text` with the cursor at `cursor`, and
/// says whether the text is to be announced as changed.
pub fn apply_edit(text: &str, cursor: usize, op: EditOp) -> (r: (String, usize, bool))
    ensures
        (r.0@, r.1 as int) == edited(text@, cursor as int, op),
        r.2 == announces(text@, cursor as int, op),
{
    let mut chars = chars_of(text);
    let len = chars.len();
    match op {
        EditOp::Home => (string_of(&chars), 0, false),
        EditOp::End => (string_of(&chars), len, false),
        EditOp::Left => (
            string_of(&chars),
            if cursor > 0 {
                cursor - 1
            } else {
                cursor
            },
            false,
        ),
        EditOp::Right => (
            string_of(&chars),
            if cursor < len {
                cursor + 1
            } else {
                cursor
            },
            false,
        ),
        EditOp::Backspace => if 0 < cursor && cursor <= len {
            chars.remove(cursor - 1);
            (string_of(&chars), cursor - 1, true)
        } else {
            (string_of(&chars), cursor, false)
        },
        EditOp::Delete => if cursor < len {
            chars.remove(cursor);
            (string_of(&chars), cursor, true)
        } else {
            (string_of(&chars), cursor, false)
        },
        EditOp::Clear => (String::new(), 0, true),
        EditOp::Insert(c) => if cursor <= len {
            chars.insert(cursor, c);
            let grown = chars.len();
            assert(cursor + 1 <= grown);
            (string_of(&chars), cursor + 1, true)
        } else {
            (string_of(&chars), cursor, false)
        },
        _ => (string_of(&chars), cursor, false),
    }
}

/// What has happened in a prompt.
#[derive(Clone, Copy, Debug, PartialEq, Eq, Structural)]
pub enum Trigger {
    /// The question was answered with yes.
    Yes,
    /// The text being edited has changed.
    Change,
    /// The text being edited was accepted.
    Enter,
}

/// What a pending action does when `trigger` happens with the text `input`:
/// the file manager goes from `before` to `after`, and `effect` is left to
/// do.  A question that is answered with yes deletes, terminates or kills
/// its target; an accepted text renames its target or ends the filtering;
/// a changed text narrows the filter.  In every other pairing nothing
/// happens.
pub open spec fn dispatched(
    action: PendingActionView,
    trigger: Trigger,
    input: Seq<char>,
    before: &FileManager,
    after: &FileManager,
    effect: EffectView,
) -> bool {
    match (action, trigger) {
        (PendingActionView::Delete(path), Trigger::Yes) => {
            &&& *after == *before
            &&& effect == send_or_nothing(run_spec(before.shell.pid, "rm -r"@, seq![path], true))
        },
        (PendingActionView::Terminate(pid), Trigger::Yes) => {
            &&& *after == *before
            &&& effect == (EffectView::Signal { pid, signal: Signal::Terminate })
        },
        (PendingActionView::Kill(pid), Trigger::Yes) => {
            &&& *after == *before
            &&& effect == (EffectView::Signal { pid, signal: Signal::Kill })
        },
        (PendingActionView::Rename(path), Trigger::Enter) => {
            &&& *after == *before
            &&& effect == send_or_nothing(
                run_spec(
                    before.shell.pid,
                    "mv"@,
                    seq![path, with_file_name_of(path, input)],
                    true,
                ),
            )
        },
        (PendingActionView::Filter, Trigger::Change) => {
            &&& after.is_refresh_of(before, before.show_hidden, input)
            &&& effect == EffectView::Nothing
        },
        (PendingActionView::Filter, Trigger::Enter) => {
            &&& after.is_refresh_of(before, before.show_hidden, Seq::empty())
            &&& effect == EffectView::Nothing
        },
        _ => {
            &&& *after == *before
            &&& effect == EffectView::Nothing
        },
    }
}

/// Carries out a pending action: the one place where the answer to a prompt
/// turns into a change of the file manager and an effect.
pub fn dispatch(
    action: &PendingAction,
    trigger: Trigger,
    input: &str,
    file_manager: &mut FileManager,
) -> (effect: Effect)
    ensures
        dispatched(action@, trigger, input@, old(file_manager), final(file_manager), effect@),
{
    match action {
        PendingAction::Delete(path) => match trigger {
            Trigger::Yes => {
                let mut args: Vec<String> = Vec::new();
                args.push(path.clone());
                proof {
                    assert(args.deep_view() =~= seq![path@]);
                }
                send(file_manager.shell.run("rm -r", &args, true))
            },
            _ => Effect::Nothing,
        },
        PendingAction::Terminate(pid) => match trigger {
            Trigger::Yes => Effect::Signal { pid: *pid, signal: Signal::Terminate },
            _ => Effect::Nothing,
        },
        PendingAction::Kill(pid) => match trigger {
            Trigger::Yes => Effect::Signal { pid: *pid, signal: Signal::Kill },
            _ => Effect::Nothing,
        },
        PendingAction::Rename(path) => match trigger {
            Trigger::Enter => {
                let mut args: Vec<String> = Vec::new();
                args.push(path.clone());
                args.push(with_file_name(path.as_str(), input));
                proof {
                    assert(args.deep_view() =~= seq![path@, with_file_name_of(path@, input@)]);
                }
                send(file_manager.shell.run("mv", &args, true))
            },
            _ => Effect::Nothing,
        },
        PendingAction::Filter => match trigger {
            Trigger::Change => {
                file_manager.filter = input.to_string();
                file_manager.apply_filter();
                Effect::Nothing
            },
            Trigger::Enter => {
                file_manager.filter = String::new();
                file_manager.apply_filter();
                Effect::Nothing
            },
            _ => Effect::Nothing,
        },
    }
}

/// What a key does to the status line in mode `before`.
///
/// A message gives way.  A question turns into its action on `y` and is
/// dropped on every other key.  A line of text is accepted on Enter, given
/// up on Esc (which is announced as a change to the empty text), and edited
/// by every other key, with each change of the text announced.  In normal
/// mode the status line takes no keys.
pub open spec fn key_handled(
    before: ModeView,
    key: Key,
    fm_before: &FileManager,
    after: ModeView,
    fm_after: &FileManager,
    effect: EffectView,
) -> bool {
    match before {
        ModeView::Normal => {
            &&& after == ModeView::Normal
            &&& *fm_after == *fm_before
            &&& effect == EffectView::Nothing
        },
        ModeView::Message { .. } => {
            &&& after == ModeView::Normal
            &&& *fm_after == *fm_before
            &&& effect == EffectView::Nothing
        },
        ModeView::Ask { prompt, action } => {
            &&& after == ModeView::Normal
            &&& if key == Key::Char('y') {
                dispatched(action, Trigger::Yes, Seq::empty(), fm_before, fm_after, effect)
            } else {
                *fm_after == *fm_before && effect == EffectView::Nothing
            }
        },
        ModeView::Edit { prompt, text, cursor, action } => {
            let op = edit_op(key);
            match op {
                EditOp::Commit => {
                    &&& after == ModeView::Normal
                    &&& dispatched(action, Trigger::Enter, text, fm_before, fm_after, effect)
                },
                EditOp::Cancel => {
                    &&& after == ModeView::Normal
                    &&& dispatched(
                        action,
                        Trigger::Change,
                        Seq::empty(),
                        fm_before,
                        fm_after,
                        effect,
                    )
                },
                _ => {
                    let (new_text, new_cursor) = edited(text, cursor as int, op);
                    &&& after == (ModeView::Edit {
                        prompt,
                        text: new_text,
                        cursor: new_cursor as usize,
                        action,
                    })
                    &&& if announces(text, cursor as int, op) {
                        dispatched(action, Trigger::Change, new_text, fm_before, fm_after, effect)
                    } else {
                        *fm_after == *fm_before && effect == EffectView::Nothing
                    }
                },
            }
        },
    }
}

impl StatusBar {
    /// Handles a key that was pressed while the status line had the word.
    pub fn on_key(&mut self, key: Key, file_manager: &mut FileManager) -> (effect: Effect)
        ensures
            key_handled(
                old(self)@,
                key,
                old(file_manager),
                final(self)@,
                final(file_manager),
                effect@,
            ),
    {
        let mut mode = Mode::Normal;
        core::mem::swap(&mut self.mode, &mut mode);
        proof {
            reveal_strlit("");
            assert(""@ =~= Seq::<char>::empty());
        }
        match mode {
            Mode::Normal => Effect::Nothing,
            Mode::Message { .. } => Effect::Nothing,
            Mode::Ask { prompt, action } => {
                if key == Key::Char('y') {
                    dispatch(&action, Trigger::Yes, "", file_manager)
                } else {
                    Effect::Nothing
                }
            },
            Mode::Edit { prompt, text, cursor, action } => {
                let op = classify(key);
                match op {
                    EditOp::Commit => dispatch(&action, Trigger::Enter, text.as_str(), file_manager),
                    EditOp::Cancel => dispatch(&action, Trigger::Change, "", file_manager),
                    _ => {
                        let (new_text, new_cursor, changed) = apply_edit(text.as_str(), cursor, op);
                        let effect = if changed {
                            dispatch(&action, Trigger::Change, new_text.as_str(), file_manager)
                        } else {
                            Effect::Nothing
                        };
                        self.mode = Mode::Edit {
                            prompt,
                            text: new_text,
                            cursor: new_cursor,
                            action,
                        };
                        effect
                    },
                }
            },
        }
    }
}

} // verus!
