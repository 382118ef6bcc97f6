//! What is drawn, as plain values: the rows of the lists, the texts of the
//! status line and the sizes of the areas.  Putting them on the terminal
//! is the caller's part.

use vstd::prelude::*;
use vstd::string::*;
use crate::file_manager::FileInfo;
use crate::file_manager::FileManager;
use crate::status_bar::Mode;
use crate::status_bar::ModeView;
use crate::status_bar::StatusBar;
use crate::task_manager::Status;
use crate::task_manager::StatusView;
use crate::task_manager::Task;
use crate::task_manager::TaskListState;
use crate::task_manager::TaskManager;
use crate::text::decimal;
use crate::text::decimal_of_wide;
use crate::icons::Icons;

verus! {

/// The columns that a text takes on the terminal, as `unicode-width` counts
/// them.
pub uninterp spec fn display_width(text: Seq<char>) -> nat;

/// `UnicodeWidthStr::width`: the number of columns that the string takes
/// when it is displayed.  The number depends on the characters alone.
#[verifier::external_body]
pub(crate) fn width(text: &str) -> (w: usize)
    ensures
        w == display_width(text@),
{
    unicode_width::UnicodeWidthStr::width(text)
}

/// The permissions of a file as `strmode` writes them, as in `drwxr-xr-x`.
pub uninterp spec fn mode_string(mode: u32) -> Seq<char>;

/// `strmode::strmode`: the type and the permission bits of a file in the
/// ten characters that `ls -l` shows.  The text depends on the bits alone.
#[verifier::external_body]
pub(crate) fn strmode(mode: u32) -> (s: String)
    ensures
        s@ == mode_string(mode),
{
    strmode::strmode(mode)
}

/// The colours that the lists use.
#[derive(Clone, Copy, Debug, PartialEq, Eq, Structural)]
pub enum Color {
    White,
    Blue,
    Green,
    LightYellow,
    LightCyan,
    LightRed,
}

/// The title of the status column.
pub const STATUS_TITLE: &'static str = "Status";

/// The sign of a stopped task.
pub const STOPPED_SIGN: &'static str = "\u{f04c} ";

/// The sign of a task that ended well.
pub const SUCCESS_SIGN: &'static str = "\u{2713} ";

/// The sign of a task that failed.
pub const FAILURE_SIGN: &'static str = "\u{2717} ";

/// The columns that a status takes: those of its text while the task runs,
/// and one for the sign of a task that does not.
pub open spec fn status_width(status: StatusView) -> nat {
    match status {
        StatusView::Running(text) => display_width(text),
        _ => 1,
    }
}

/// The width of the status column: that of the widest status, and at least
/// that of the title.
pub open spec fn widest_status(tasks: Seq<Task>) -> nat
    decreases tasks.len(),
{
    if tasks.len() == 0 {
        6
    } else {
        let before = widest_status(tasks.drop_last());
        let last = status_width(tasks.last().status@);
        if last > before {
            last
        } else {
            before
        }
    }
}

/// The colour in which a status is written.
pub open spec fn status_color(status: StatusView) -> Color {
    match status {
        StatusView::Running(_) => Color::White,
        StatusView::Stopped => Color::LightYellow,
        StatusView::Exited(exit_status) => if exit_status.success {
            Color::LightCyan
        } else {
            Color::LightRed
        },
    }
}

/// What is written for a status: its text while the task runs, and a sign
/// for how it stopped or ended.
pub open spec fn status_text(status: StatusView) -> Seq<char> {
    match status {
        StatusView::Running(text) => text,
        StatusView::Stopped => STOPPED_SIGN@,
        StatusView::Exited(exit_status) => if exit_status.success {
            SUCCESS_SIGN@
        } else {
            FAILURE_SIGN@
        },
    }
}

/// One row of the task list.
#[derive(Debug)]
pub struct TaskRow {
    /// The command, as it is shown.
    pub command: String,
    pub color: Color,
    pub status: String,
}

/// The model of a [`TaskRow`].
pub struct TaskRowView {
    pub command: Seq<char>,
    pub color: Color,
    pub status: Seq<char>,
}

impl View for TaskRow {
    type V = TaskRowView;

    open spec fn view(&self) -> TaskRowView {
        TaskRowView { command: self.command@, color: self.color, status: self.status@ }
    }
}

impl DeepView for TaskRow {
    type V = TaskRowView;

    open spec fn deep_view(&self) -> TaskRowView {
        self@
    }
}

/// The row of a task.
pub open spec fn row_of(task: Task) -> TaskRowView {
    TaskRowView {
        command: task.rendered@,
        color: status_color(task.status@),
        status: status_text(task.status@),
    }
}

/// The number of rows that are drawn: the list has `height` lines, of which
/// the first is the title, and shows the tasks from the row `offset` on.
pub open spec fn rows_shown(len: nat, offset: nat, height: nat) -> nat {
    let room = if height > 0 {
        (height - 1) as nat
    } else {
        0
    };
    let left = if len > offset {
        (len - offset) as nat
    } else {
        0
    };
    if room < left {
        room
    } else {
        left
    }
}

/// The first row that is drawn, so that the selected row is among the rows
/// drawn.
pub open spec fn scrolled(offset: usize, selected: Option<usize>, height: nat) -> int {
    match selected {
        Some(s) => if s + 1 >= height + offset {
            s + 1 - height
        } else if s < offset {
            s as int
        } else {
            offset as int
        },
        None => 0,
    }
}

impl TaskListState {
    /// Moves the first row that is drawn so that the selected row is among
    /// the `height` lines of the list.
    pub fn scroll(&mut self, height: u16)
        requires
            old(self).selected matches Some(s) ==> s < usize::MAX,
        ensures
            final(self).selected == old(self).selected,
            final(self).offset == scrolled(old(self).offset, old(self).selected, height as nat),
    {
        self.offset = match self.selected {
            Some(s) => if (s as u128) + 1 >= (height as u128) + (self.offset as u128) {
                s + 1 - height as usize
            } else if s < self.offset {
                s
            } else {
                self.offset
            },
            None => 0,
        };
    }
}

fn task_row(task: &Task) -> (row: TaskRow)
    ensures
        row@ == row_of(*task),
{
    let (color, status) = match &task.status {
        Status::Running(text) => (Color::White, text.clone()),
        Status::Stopped => (Color::LightYellow, STOPPED_SIGN.to_string()),
        Status::Exited(exit_status) => if exit_status.success {
            (Color::LightCyan, SUCCESS_SIGN.to_string())
        } else {
            (Color::LightRed, FAILURE_SIGN.to_string())
        },
    };
    TaskRow { command: task.rendered.clone(), color, status }
}

impl TaskManager {
    /// The width of the status column.
    pub fn max_status_width(&self) -> (w: usize)
        ensures
            w == widest_status(self.tasks@),
    {
        let mut w: usize = STATUS_TITLE.unicode_len();
        proof {
            reveal_strlit("Status");
            assert(self.tasks@.take(0) =~= Seq::<Task>::empty());
        }
        let mut i: usize = 0;
        while i < self.tasks.len()
            invariant
                i <= self.tasks.len(),
                w == widest_status(self.tasks@.take(i as int)),
            decreases self.tasks.len() - i,
        {
            proof {
                assert(self.tasks@.take(i + 1).drop_last() =~= self.tasks@.take(i as int));
                assert(self.tasks@.take(i + 1).last() == self.tasks@[i as int]);
            }
            let this = match &self.tasks[i].status {
                Status::Running(text) => width(text.as_str()),
                _ => 1,
            };
            if this > w {
                w = this;
            }
            i += 1;
        }
        proof {
            assert(self.tasks@.take(self.tasks.len() as int) =~= self.tasks@);
        }
        w
    }

    /// The rows of the task list that are drawn below the title when the
    /// list has `height` lines: the tasks from the last to the first, from
    /// the row at the offset on.
    pub fn rows(&self, height: u16) -> (rows: Vec<TaskRow>)
        ensures
            rows@.len() == rows_shown(
                self.tasks@.len(),
                self.list_state.offset as nat,
                height as nat,
            ),
            forall|i: int|
                0 <= i < rows@.len() ==> (#[trigger] rows@[i])@ == row_of(
                    self.tasks@[self.tasks@.len() - 1 - self.list_state.offset - i],
                ),
    {
        let mut rows: Vec<TaskRow> = Vec::new();
        let len = self.tasks.len();
        let offset = self.list_state.offset;
        if height == 0 || offset >= len {
            return rows;
        }
        let room: usize = (height - 1) as usize;
        let left: usize = len - offset;
        let count: usize = if room < left {
            room
        } else {
            left
        };
        let mut i: usize = 0;
        while i < count
            invariant
                i <= count,
                count <= len - offset,
                len == self.tasks@.len(),
                offset == self.list_state.offset,
                offset < len,
                rows@.len() == i,
                forall|k: int|
                    0 <= k < i ==> (#[trigger] rows@[k])@ == row_of(
                        self.tasks@[len - 1 - offset - k],
                    ),
            decreases count - i,
        {
            rows.push(task_row(&self.tasks[len - 1 - offset - i]));
            i += 1;
        }
        rows
    }
}

/// The lines that the task list gets of a terminal with `frame_height`
/// lines: one for each task and three for the title and the separators, but
/// no more than a third of the terminal.
pub open spec fn task_lines(tasks: nat, frame_height: u16) -> int {
    if tasks + 3 < frame_height / 3 {
        (tasks + 3) as int
    } else {
        frame_height as int / 3
    }
}

/// The height of the task list.
pub fn task_height(tasks: usize, frame_height: u16) -> (lines: u16)
    ensures
        lines == task_lines(tasks as nat, frame_height),
{
    let third: u16 = frame_height / 3;
    if tasks < third as usize && tasks + 3 < third as usize {
        (tasks + 3) as u16
    } else {
        third
    }
}

/// A file may be executed by everyone: the lowest permission bit is set.
pub open spec fn is_executable(mode: u32) -> bool {
    mode % 2 == 1
}

/// The colour of a file in the list: directories are blue, files that may
/// be executed green, the others white.
pub open spec fn file_color(file: FileInfo) -> Color {
    if file.metadata.is_dir {
        Color::Blue
    } else if is_executable(file.metadata.mode) {
        Color::Green
    } else {
        Color::White
    }
}

/// The text of a file in the list: a plus sign if it is marked, its icon,
/// its name, and a slash behind a directory.
pub open spec fn file_text(file: FileInfo, marked: bool, icon: Seq<char>) -> Seq<char> {
    (if marked {
        "+"@
    } else {
        " "@
    }) + icon + " "@ + file.name@ + (if file.metadata.is_dir {
        "/"@
    } else {
        Seq::<char>::empty()
    })
}

/// One row of the file list.
#[derive(Debug)]
pub struct FileRow {
    pub text: String,
    pub color: Color,
}

fn is_marked(marks: &Vec<String>, path: &String) -> (r: bool)
    ensures
        r == marks.deep_view().contains(path@),
{
    let mut i: usize = 0;
    while i < marks.len()
        invariant
            i <= marks.len(),
            forall|j: int| 0 <= j < i ==> marks.deep_view()[j] != path@,
        decreases marks.len() - i,
    {
        if marks[i] == *path {
            proof {
                assert(marks.deep_view()[i as int] == path@);
            }
            return true;
        }
        i += 1;
    }
    false
}

fn file_row(file: &FileInfo, marked: bool, icon: &str) -> (row: FileRow)
    ensures
        row.text@ == file_text(*file, marked, icon@),
        row.color == file_color(*file),
{
    let color = if file.metadata.is_dir {
        Color::Blue
    } else if file.metadata.mode % 2 == 1 {
        Color::Green
    } else {
        Color::White
    };
    let mut text = if marked {
        "+".to_string()
    } else {
        " ".to_string()
    };
    text.append(icon);
    text.append(" ");
    text.append(file.name.as_str());
    if file.metadata.is_dir {
        text.append("/");
    }
    proof {
        assert(text@ =~= file_text(*file, marked, icon@));
    }
    FileRow { text, color }
}

impl FileManager {
    /// The rows of the file list, one for each entry that is shown.
    pub fn rows(&self, icons: &Icons) -> (rows: Vec<FileRow>)
        ensures
            rows@.len() == self.files@.len(),
            forall|i: int|
                0 <= i < rows@.len() ==> {
                    let file = self.files@[i];
                    &&& (#[trigger] rows@[i]).color == file_color(file)
                    &&& rows@[i].text@ == file_text(
                        file,
                        self.files_marked.deep_view().contains(file.path@),
                        icons.icon_of(file)@,
                    )
                },
    {
        let mut rows: Vec<FileRow> = Vec::new();
        let mut i: usize = 0;
        while i < self.files.len()
            invariant
                i <= self.files.len(),
                rows@.len() == i,
                forall|k: int|
                    0 <= k < i ==> {
                        let file = self.files@[k];
                        &&& (#[trigger] rows@[k]).color == file_color(file)
                        &&& rows@[k].text@ == file_text(
                            file,
                            self.files_marked.deep_view().contains(file.path@),
                            icons.icon_of(file)@,
                        )
                    },
            decreases self.files.len() - i,
        {
            let file = &self.files[i];
            let marked = is_marked(&self.files_marked, &file.path);
            rows.push(file_row(file, marked, icons.get(file)));
            i += 1;
        }
        rows
    }
}

/// Two to the power of `e`.
pub open spec fn two_to(e: nat) -> nat
    decreases e,
{
    if e == 0 {
        1
    } else {
        2 * two_to((e - 1) as nat)
    }
}

/// How often a number has to be halved until twenty-four binary digits
/// hold it.
pub open spec fn excess_digits(n: nat) -> nat
    decreases n,
{
    if n >= 16777216 {
        1 + excess_digits(n / 2)
    } else {
        0
    }
}

/// The quotient of `n` by `d`, rounded to the nearest whole number, and to
/// the even one of two that are equally near.
pub open spec fn round_half_even(n: nat, d: nat) -> nat {
    let q = n / d;
    let r = n % d;
    if 2 * r > d || (2 * r == d && q % 2 == 1) {
        q + 1
    } else {
        q
    }
}

/// A number as a single-precision binary fraction holds it: rounded to
/// twenty-four significant binary digits.
pub open spec fn in_single_precision(n: nat) -> nat {
    let unit = two_to(excess_digits(n));
    round_half_even(n, unit) * unit
}

/// The unit in which a size is written: its number of bytes and its
/// letter.
pub open spec fn size_unit(size: nat) -> (nat, Seq<char>) {
    if size >= 1099511627776 {
        (1099511627776, "T"@)
    } else if size >= 1073741824 {
        (1073741824, "G"@)
    } else if size >= 1048576 {
        (1048576, "M"@)
    } else if size >= 1024 {
        (1024, "K"@)
    } else {
        (1, "B"@)
    }
}

/// The tenths of the unit that a size comes to.  The size is taken in
/// single precision before it is divided.
pub open spec fn size_tenths(size: nat) -> nat {
    round_half_even(10 * in_single_precision(size), size_unit(size).0)
}

/// A size in bytes as it is written in the status line: in the largest
/// unit that is not larger than the size, with one digit after the point,
/// as in `1.5K`.
pub open spec fn size_text(size: nat) -> Seq<char> {
    if size == 0 {
        "0B"@
    } else {
        decimal(size_tenths(size) / 10) + "."@ + decimal(size_tenths(size) % 10) + size_unit(
            size,
        ).1
    }
}

fn round_half_even_of(n: u128, d: u128) -> (q: u128)
    requires
        d > 0,
        n / d < u128::MAX,
        d <= u128::MAX / 2,
    ensures
        q == round_half_even(n as nat, d as nat),
{
    let q = n / d;
    let r = n % d;
    if 2 * r > d || (2 * r == d && q % 2 == 1) {
        q + 1
    } else {
        q
    }
}

fn single_precision(n: u64) -> (r: u128)
    ensures
        r == in_single_precision(n as nat),
        r <= 2 * n,
{
    let mut rest: u64 = n;
    let mut unit: u64 = 1;
    let ghost mut halvings: nat = 0;
    while rest >= 16777216
        invariant
            unit == two_to(halvings),
            unit >= 1,
            unit == 1 || rest >= 1,
            excess_digits(n as nat) == halvings + excess_digits(rest as nat),
            unit * rest <= n,
        decreases rest,
    {
        proof {
            assert(2 * unit <= unit * rest) by (nonlinear_arith)
                requires
                    rest >= 2,
                    unit >= 0,
            ;
            assert((2 * unit) * (rest / 2) <= unit * rest) by (nonlinear_arith)
                requires
                    rest >= 0,
                    unit >= 0,
            ;
            halvings = halvings + 1;
        }
        rest = rest / 2;
        unit = unit * 2;
    }
    assert(unit == 1 || unit <= n) by (nonlinear_arith)
        requires
            unit * rest <= n,
            unit >= 1,
            unit == 1 || rest >= 1,
    ;
    let q = round_half_even_of(n as u128, unit as u128);
    proof {
        let whole = n as nat / unit as nat;
        assert(whole * unit <= n) by (nonlinear_arith)
            requires
                whole == n as nat / unit as nat,
                unit > 0,
        ;
        assert((whole + 1) * unit == whole * unit + unit) by (nonlinear_arith);
        assert(q * unit <= n + unit) by (nonlinear_arith)
            requires
                q <= whole + 1,
                (whole + 1) * unit <= n + unit,
                unit >= 0,
        ;
        if unit == 1 {
            assert(n as nat % 1 == 0);
            assert(q == n);
        }
    }
    q * (unit as u128)
}

/// A size in bytes as it is written in the status line.
pub fn format_size(size: u64) -> (text: String)
    ensures
        text@ == size_text(size as nat),
{
    if size == 0 {
        return "0B".to_string();
    }
    let (div, unit): (u128, &str) = if size >= 1099511627776 {
        (1099511627776, "T")
    } else if size >= 1073741824 {
        (1073741824, "G")
    } else if size >= 1048576 {
        (1048576, "M")
    } else if size >= 1024 {
        (1024, "K")
    } else {
        (1, "B")
    };
    let tenths = round_half_even_of(10 * single_precision(size), div);
    let mut text = decimal_of_wide(tenths / 10);
    text.append(".");
    text.append(decimal_of_wide(tenths % 10).as_str());
    text.append(unit);
    proof {
        assert(text@ =~= size_text(size as nat));
    }
    text
}

/// Where the selection stands and how many files are marked, as it is
/// written at the right end of the status line.
pub open spec fn position_text(marked: nat, selected: Option<usize>, len: nat) -> Seq<char> {
    (if marked > 0 {
        "M:"@ + decimal(marked)
    } else {
        Seq::<char>::empty()
    }) + " "@ + decimal(
        match selected {
            Some(i) => (i + 1) as nat,
            None => 0,
        },
    ) + "/"@ + decimal(len)
}

/// The status line, as it is drawn.
#[derive(Debug)]
pub enum StatusLine {
    /// The permissions and the size of the selected file, if there is one,
    /// at the left, and the position at the right.
    Properties { mode: Option<String>, size: Option<String>, position: String },
    /// A message.
    Notice { text: String },
    /// A question, with the cursor behind it.
    Question { prompt: String, cursor: u16 },
    /// A prompt and the text that is edited, with the cursor in the text.
    Input { prompt: String, text: String, cursor: u16 },
}

/// The model of a [`StatusLine`].
pub enum StatusLineView {
    Properties { mode: Option<Seq<char>>, size: Option<Seq<char>>, position: Seq<char> },
    Notice { text: Seq<char> },
    Question { prompt: Seq<char>, cursor: u16 },
    Input { prompt: Seq<char>, text: Seq<char>, cursor: u16 },
}

impl View for StatusLine {
    type V = StatusLineView;

    open spec fn view(&self) -> StatusLineView {
        match self {
            StatusLine::Properties { mode, size, position } => StatusLineView::Properties {
                mode: mode.deep_view(),
                size: size.deep_view(),
                position: position@,
            },
            StatusLine::Notice { text } => StatusLineView::Notice { text: text@ },
            StatusLine::Question { prompt, cursor } => StatusLineView::Question {
                prompt: prompt@,
                cursor: *cursor,
            },
            StatusLine::Input { prompt, text, cursor } => StatusLineView::Input {
                prompt: prompt@,
                text: text@,
                cursor: *cursor,
            },
        }
    }
}

/// The column of the cursor, as far as sixteen bits hold it.
pub open spec fn column(at: int) -> u16 {
    (at % 65536) as u16
}

/// The status line for a mode and a file manager.
pub open spec fn status_line(mode: ModeView, file_manager: &FileManager) -> StatusLineView {
    match mode {
        ModeView::Normal => StatusLineView::Properties {
            mode: match file_manager.selected_file() {
                Some(file) => Some(mode_string(file.metadata.mode)),
                None => None,
            },
            size: match file_manager.selected_file() {
                Some(file) => Some(size_text(file.metadata.len as nat)),
                None => None,
            },
            position: position_text(
                file_manager.files_marked@.len(),
                file_manager.list_state.selected,
                file_manager.files@.len(),
            ),
        },
        ModeView::Message { text, .. } => StatusLineView::Notice { text },
        ModeView::Ask { prompt, .. } => StatusLineView::Question {
            prompt,
            cursor: column(prompt.len() as int),
        },
        ModeView::Edit { prompt, text, cursor, .. } => StatusLineView::Input {
            prompt,
            text,
            cursor: column(prompt.len() + cursor),
        },
    }
}

fn column_of(at: u128) -> (c: u16)
    ensures
        c == column(at as int),
{
    (at % 65536) as u16
}

impl StatusBar {
    /// What the status line shows.
    pub fn line(&self, file_manager: &FileManager) -> (line: StatusLine)
        ensures
            line@ == status_line(self@, file_manager),
    {
        match &self.mode {
            Mode::Normal => {
                let (mode, size) = match crate::list::ListExt::selected(file_manager) {
                    Some(file) => (
                        Some(strmode(file.metadata.mode)),
                        Some(format_size(file.metadata.len)),
                    ),
                    None => (None, None),
                };
                let mut position = String::new();
                if file_manager.files_marked.len() > 0 {
                    position.append("M:");
                    position.append(
                        decimal_of_wide(file_manager.files_marked.len() as u128).as_str(),
                    );
                }
                position.append(" ");
                let at: u128 = match file_manager.list_state.selected {
                    Some(i) => i as u128 + 1,
                    None => 0,
                };
                position.append(decimal_of_wide(at).as_str());
                position.append("/");
                position.append(decimal_of_wide(file_manager.files.len() as u128).as_str());
                proof {
                    assert(position@ =~= position_text(
                        file_manager.files_marked@.len(),
                        file_manager.list_state.selected,
                        file_manager.files@.len(),
                    ));
                }
                StatusLine::Properties { mode, size, position }
            },
            Mode::Message { text, .. } => StatusLine::Notice { text: text.clone() },
            Mode::Ask { prompt, .. } => StatusLine::Question {
                prompt: prompt.clone(),
                cursor: column_of(prompt.as_str().unicode_len() as u128),
            },
            Mode::Edit { prompt, text, cursor, .. } => StatusLine::Input {
                prompt: prompt.clone(),
                text: text.clone(),
                cursor: column_of(prompt.as_str().unicode_len() as u128 + *cursor as u128),
            },
        }
    }
}

} // verus!
