//! The directory model: the files of one directory, the part of them that
//! is shown, the marks and the selection.

use vstd::prelude::*;
use vstd::seq_lib::group_to_multiset_ensures;
use vstd::seq_lib::to_multiset_build;
use vstd::seq_lib::to_multiset_insert;
use crate::effect::send;
use crate::effect::send_or_nothing;
use crate::effect::Effect;
use crate::effect::EffectView;
use crate::error::KeyError;
use crate::key::Key;
use crate::list::first_index;
use crate::list::last_index;
use crate::list::list_op;
use crate::list::moved;
use crate::list::next_index;
use crate::list::selected_index;
use crate::list::ListExt;
use crate::open_methods::OpenMethods;
use crate::path::file_name;
use crate::path::file_name_of;
use crate::path::parent;
use crate::path::parent_of;
use crate::shell::run_spec;
use crate::shell::Command;
use crate::shell::CommandView;
use crate::shell::Shell;
use crate::shell::ShellEvent;
use crate::status_bar::ModeView;
use crate::status_bar::PendingAction;
use crate::status_bar::PendingActionView;
use crate::status_bar::StatusBar;
use crate::status_bar::MESSAGE_MILLIS;
use crate::text::contains;
use crate::text::is_hidden;
use crate::text::is_substring;
use crate::text::lemma_bytes_le_antisymmetric;
use crate::text::lemma_bytes_le_total;
use crate::text::lemma_bytes_le_transitive;
use crate::text::lowercase;
use crate::text::starts_with_dot;
use crate::text::str_le;
use crate::text::str_le_exec;

verus! {

/// What the file system says of a file, as far as the file manager reads it.
#[derive(Clone, Copy, Debug, PartialEq, Eq, Structural)]
pub struct Metadata {
    pub is_dir: bool,
    pub is_file: bool,
    /// The permission bits.
    pub mode: u32,
    /// The size in bytes.
    pub len: u64,
}

/// One entry of a directory.
#[derive(Debug)]
pub struct FileInfo {
    pub path: String,
    pub name: String,
    pub extension: Option<String>,
    pub metadata: Metadata,
}

impl Clone for FileInfo {
    fn clone(&self) -> (r: Self)
        ensures
            r == *self,
    {
        let extension = match &self.extension {
            Some(e) => Some(e.clone()),
            None => None,
        };
        FileInfo {
            path: self.path.clone(),
            name: self.name.clone(),
            extension,
            metadata: self.metadata,
        }
    }
}

/// The selection of a list widget.
#[derive(Clone, Copy, Debug, PartialEq, Eq, Structural)]
pub struct ListState {
    pub selected: Option<usize>,
}

/// The order of a listing: directories come before other files, and within
/// each kind the names are in the order of strings.
pub open spec fn file_le(a: FileInfo, b: FileInfo) -> bool {
    if a.metadata.is_dir != b.metadata.is_dir {
        a.metadata.is_dir
    } else {
        str_le(a.name@, b.name@)
    }
}

/// No entry of the listing comes before an earlier one.
pub open spec fn listing_sorted(files: Seq<FileInfo>) -> bool {
    forall|i: int, j: int| 0 <= i < j < files.len() ==> file_le(files[i], files[j])
}

/// Of two entries one comes before the other, or both ways.
pub proof fn lemma_file_le_total(a: FileInfo, b: FileInfo)
    ensures
        file_le(a, b) || file_le(b, a),
{
    lemma_bytes_le_total(vstd::utf8::encode_utf8(a.name@), vstd::utf8::encode_utf8(b.name@));
}

/// The order of entries is transitive.
pub proof fn lemma_file_le_transitive(a: FileInfo, b: FileInfo, c: FileInfo)
    requires
        file_le(a, b),
        file_le(b, c),
    ensures
        file_le(a, c),
{
    if a.metadata.is_dir == b.metadata.is_dir && b.metadata.is_dir == c.metadata.is_dir {
        lemma_bytes_le_transitive(
            vstd::utf8::encode_utf8(a.name@),
            vstd::utf8::encode_utf8(b.name@),
            vstd::utf8::encode_utf8(c.name@),
        );
    }
}

fn file_le_exec(a: &FileInfo, b: &FileInfo) -> (r: bool)
    ensures
        r == file_le(*a, *b),
{
    if a.metadata.is_dir != b.metadata.is_dir {
        a.metadata.is_dir
    } else {
        str_le_exec(a.name.as_str(), b.name.as_str())
    }
}

/// An entry is shown when it is not hidden, or hidden files are shown, and
/// its name holds the filter, letter case aside.
pub open spec fn is_visible(file: FileInfo, show_hidden: bool, filter: Seq<char>) -> bool {
    &&& show_hidden || !is_hidden(file.name@)
    &&& is_substring(lowercase(filter), lowercase(file.name@))
}

/// The test that an entry passes to be shown.
pub open spec fn passes(show_hidden: bool, filter: Seq<char>) -> spec_fn(FileInfo) -> bool {
    |f: FileInfo| is_visible(f, show_hidden, filter)
}

/// The entries that are shown, in the order of the listing.
pub open spec fn visible(all: Seq<FileInfo>, show_hidden: bool, filter: Seq<char>) -> Seq<
    FileInfo,
> {
    all.filter(passes(show_hidden, filter))
}

/// Every entry that is shown is an entry of the directory that passes the
/// settings.
pub proof fn lemma_visible_is_sound(
    all: Seq<FileInfo>,
    show_hidden: bool,
    filter: Seq<char>,
    i: int,
)
    requires
        0 <= i < visible(all, show_hidden, filter).len(),
    ensures
        all.contains(visible(all, show_hidden, filter)[i]),
        is_visible(visible(all, show_hidden, filter)[i], show_hidden, filter),
{
    let pred = passes(show_hidden, filter);
    all.lemma_filter_pred(pred, i);
    assert(all.filter(pred).contains(all.filter(pred)[i]));
    all.lemma_filter_contains_rev(pred, all.filter(pred)[i]);
}

/// Every entry of the directory that passes the settings is shown.
pub proof fn lemma_visible_is_complete(
    all: Seq<FileInfo>,
    show_hidden: bool,
    filter: Seq<char>,
    file: FileInfo,
)
    requires
        all.contains(file),
        is_visible(file, show_hidden, filter),
    ensures
        visible(all, show_hidden, filter).contains(file),
        has_name(visible(all, show_hidden, filter), file.name@),
{
    let pred = passes(show_hidden, filter);
    let i = choose|i: int| 0 <= i < all.len() && all[i] == file;
    all.lemma_filter_contains(pred, i);
    let shown_files = all.filter(pred);
    let j = choose|j: int| 0 <= j < shown_files.len() && shown_files[j] == file;
    assert(shown_files[j].name@ == file.name@);
}

/// Some entry has this name.
pub open spec fn has_name(files: Seq<FileInfo>, name: Seq<char>) -> bool {
    exists|i: int| 0 <= i < files.len() && files[i].name@ == name
}

/// `at` is the first entry with this name.
pub open spec fn is_first_named(files: Seq<FileInfo>, name: Seq<char>, at: int) -> bool {
    &&& 0 <= at < files.len()
    &&& files[at].name@ == name
    &&& forall|j: int| 0 <= j < at ==> files[j].name@ != name
}

/// `at` is where the selection goes when the entry called `name` is asked
/// for: its first occurrence, or the top of the list when it is not there.
pub open spec fn is_position_of(files: Seq<FileInfo>, name: Seq<char>, at: int) -> bool {
    if has_name(files, name) {
        is_first_named(files, name, at)
    } else {
        at == 0
    }
}

fn position(files: &Vec<FileInfo>, name: &String) -> (r: Option<usize>)
    ensures
        r is Some <==> has_name(files@, name@),
        r matches Some(i) ==> is_first_named(files@, name@, i as int),
{
    let mut i: usize = 0;
    while i < files.len()
        invariant
            i <= files.len(),
            forall|j: int| 0 <= j < i ==> files@[j].name@ != name@,
        decreases files.len() - i,
    {
        if files[i].name == *name {
            return Some(i);
        }
        i += 1;
    }
    None
}

fn mark_position(marks: &Vec<String>, path: &String) -> (r: Option<usize>)
    ensures
        r is Some <==> marks.deep_view().contains(path@),
        r matches Some(i) ==> {
            &&& i < marks.len()
            &&& marks@[i as int]@ == path@
            &&& forall|j: int| 0 <= j < i ==> marks.deep_view()[j] != path@
        },
{
    let mut i: usize = 0;
    while i < marks.len()
        invariant
            i <= marks.len(),
            forall|j: int| 0 <= j < i ==> marks.deep_view()[j] != path@,
        decreases marks.len() - i,
    {
        if marks[i] == *path {
            proof {
                assert(marks.deep_view()[i as int] == path@);
            }
            return Some(i);
        }
        i += 1;
    }
    None
}

fn one(arg: String) -> (args: Vec<String>)
    ensures
        args.deep_view() == seq![arg@],
{
    let mut args: Vec<String> = Vec::new();
    args.push(arg);
    proof {
        assert(args.deep_view() =~= seq![args@[0]@]);
    }
    args
}

/// The file manager's view of one directory.
pub struct FileManager {
    /// The directory shown; empty before the first one is entered.
    pub dir: String,
    /// Every entry of the directory, in the order of the listing.
    pub all_files: Vec<FileInfo>,
    /// The entries that are shown.
    pub files: Vec<FileInfo>,
    /// The paths that the user has marked.
    pub files_marked: Vec<String>,
    pub filter: String,
    pub show_hidden: bool,
    pub list_state: ListState,
    /// The name of the hidden entry that lost the selection when the hidden
    /// files were hidden.  It gets the selection back when they are shown
    /// again, unless the selection was set anew in between.
    pub hidden_selection: Option<String>,
    /// The bridge to the shell.
    pub shell: Shell,
}

/// The kinds of change that the file system watcher reports.
#[derive(Clone, Copy, Debug, PartialEq, Eq, Structural)]
pub enum WatchKind {
    Any,
    Access,
    Create,
    Modify,
    Remove,
    Other,
}

/// What a key means to the file list.
#[derive(Clone, Copy, Debug, PartialEq, Eq, Structural)]
pub enum FileOp {
    /// Enter the selected directory, or open the selected file.
    Open,
    /// Go to the parent directory.
    Leave,
    /// Show or hide the hidden files.
    ToggleHidden,
    /// Mark the selected file, or take its mark away.
    Mark,
    /// Copy the marked files here.
    Copy,
    /// Move the marked files here.
    Move,
    /// Ask whether to delete the selected file.
    Delete,
    /// Rename the selected file.
    Rename,
    /// Filter the list as the user types.
    Filter,
    /// The key is left to the list.
    Other,
}

/// The meaning of a key to the file list.
pub open spec fn file_op(key: Key) -> FileOp {
    match key {
        Key::Char(c) => if c == 'l' || c == '\n' {
            FileOp::Open
        } else if c == 'h' {
            FileOp::Leave
        } else if c == '.' {
            FileOp::ToggleHidden
        } else if c == ' ' {
            FileOp::Mark
        } else if c == 'p' {
            FileOp::Copy
        } else if c == 'm' {
            FileOp::Move
        } else if c == 'd' {
            FileOp::Delete
        } else if c == 'r' {
            FileOp::Rename
        } else if c == '/' {
            FileOp::Filter
        } else {
            FileOp::Other
        },
        Key::Esc => FileOp::Leave,
        _ => FileOp::Other,
    }
}

/// The meaning of a key to the file list.
pub fn file_op_of(key: Key) -> (r: FileOp)
    ensures
        r == file_op(key),
{
    match key {
        Key::Char(c) => if c == 'l' || c == '\n' {
            FileOp::Open
        } else if c == 'h' {
            FileOp::Leave
        } else if c == '.' {
            FileOp::ToggleHidden
        } else if c == ' ' {
            FileOp::Mark
        } else if c == 'p' {
            FileOp::Copy
        } else if c == 'm' {
            FileOp::Move
        } else if c == 'd' {
            FileOp::Delete
        } else if c == 'r' {
            FileOp::Rename
        } else if c == '/' {
            FileOp::Filter
        } else {
            FileOp::Other
        },
        Key::Esc => FileOp::Leave,
        _ => FileOp::Other,
    }
}

/// The marks after the mark on `path` was toggled: the first mark on it is
/// gone, or, if it had none, it is marked last.
pub open spec fn toggled(marks: Seq<Seq<char>>, path: Seq<char>, after: Seq<Seq<char>>) -> bool {
    if marks.contains(path) {
        exists|i: int|
            {
                &&& 0 <= i < marks.len()
                &&& marks[i] == path
                &&& forall|j: int| 0 <= j < i ==> marks[j] != path
                &&& after == marks.remove(i)
            }
    } else {
        after == marks.push(path)
    }
}

/// The question that is asked before a file is deleted.
pub open spec fn delete_prompt(is_file: bool, name: Seq<char>) -> Seq<char> {
    "Delete "@ + (if is_file {
        "file"@
    } else {
        "directory"@
    }) + " "@ + name + "? [y/N]"@
}

/// The result is success with this effect.
pub open spec fn succeeds_with(result: Result<Effect, KeyError>, effect: EffectView) -> bool {
    result matches Ok(e) && e@ == effect
}

impl ListExt for FileManager {
    type Item = FileInfo;

    open spec fn index(&self) -> Option<usize> {
        self.list_state.selected
    }

    open spec fn list(&self) -> Seq<FileInfo> {
        self.files@
    }

    open spec fn with_index(self, index: Option<usize>) -> Self {
        FileManager { list_state: ListState { selected: index }, hidden_selection: None, ..self }
    }

    fn get_index(&self) -> (r: Option<usize>) {
        self.list_state.selected
    }

    fn get_list(&self) -> (r: &[FileInfo]) {
        self.files.as_slice()
    }

    fn select(&mut self, index: Option<usize>) {
        self.list_state.selected = index;
        self.hidden_selection = None;
    }
}

impl FileManager {
    /// The name of the selected entry.
    pub open spec fn selected_name(&self) -> Option<Seq<char>> {
        match selected_index(self.list_state.selected, self.files@.len()) {
            Some(i) => Some(self.files@[i as int].name@),
            None => None,
        }
    }

    /// The shown entries are those of the directory that pass the settings.
    pub open spec fn consistent(&self) -> bool {
        self.files@ == visible(self.all_files@, self.show_hidden, self.filter@)
    }

    /// The file manager is well formed: the shown entries are those of the
    /// directory that pass the settings, and the stored selection is a
    /// position of the list or its top.  A name is kept for the selection
    /// only while the hidden files are hidden and the selection is where
    /// hiding them has put it, at the top; the name is that of a hidden
    /// entry.
    pub open spec fn wf(&self) -> bool {
        &&& self.consistent()
        &&& self.list_state.selected matches Some(i) ==> i == 0 || i < self.files@.len()
        &&& self.hidden_selection matches Some(name) ==> {
            &&& !self.show_hidden
            &&& self.list_state.selected == Some(0usize)
            &&& is_hidden(name@)
        }
    }

    /// The directory, its entries, the marks and the shell are those of
    /// `before`.
    pub open spec fn same_directory(&self, before: &FileManager) -> bool {
        &&& self.dir == before.dir
        &&& self.all_files == before.all_files
        &&& self.files_marked == before.files_marked
        &&& self.shell == before.shell
    }

    /// The selection is on the entry that had it in `before`, by name, or
    /// at the top if that entry is not shown; where `before` had no
    /// selected entry, the stored selection is as it was.
    pub open spec fn keeps_selection(&self, before: &FileManager) -> bool {
        match before.selected_name() {
            Some(name) => self.list_state.selected matches Some(i) && is_position_of(
                self.files@,
                name,
                i as int,
            ),
            None => self.list_state == before.list_state,
        }
    }

    /// This is `before` shown anew under the given settings.  No name is
    /// kept for the selection.
    pub open spec fn is_refresh_of(
        &self,
        before: &FileManager,
        show_hidden: bool,
        filter: Seq<char>,
    ) -> bool {
        &&& self.same_directory(before)
        &&& self.show_hidden == show_hidden
        &&& self.filter@ == filter
        &&& self.consistent()
        &&& self.keeps_selection(before)
        &&& self.hidden_selection is None
    }

    /// The name that is kept for the selection when the hidden files are
    /// hidden: that of the selected entry, if it is a hidden one.
    pub open spec fn name_to_keep(&self) -> Option<Seq<char>> {
        match self.selected_name() {
            Some(name) if is_hidden(name) => Some(name),
            _ => None,
        }
    }

    /// This is `before` after the hidden files were shown or hidden.
    ///
    /// The entries are shown anew under the new setting.  Where the hidden
    /// files are hidden, the selection stays on the entry that had it, by
    /// name; if that entry is a hidden one the selection goes to the top and
    /// the name is kept.  Where the hidden files are shown, the entry whose
    /// name was kept gets the selection back if it is shown, and else the
    /// selection stays on the entry that had it.
    pub open spec fn toggled_hidden(&self, before: &FileManager) -> bool {
        &&& self.same_directory(before)
        &&& self.show_hidden == !before.show_hidden
        &&& self.filter == before.filter
        &&& self.consistent()
        &&& if self.show_hidden {
            &&& self.hidden_selection is None
            &&& match before.hidden_selection {
                Some(name) if has_name(self.files@, name@) => self.list_state.selected matches Some(
                    i,
                ) && is_first_named(self.files@, name@, i as int),
                _ => self.keeps_selection(before),
            }
        } else {
            &&& self.keeps_selection(before)
            &&& self.hidden_selection.deep_view() == before.name_to_keep()
        }
    }

    /// The listing of a directory from the entries read from it, whatever
    /// order they were read in.
    pub fn read_dir(entries: Vec<FileInfo>) -> (r: Vec<FileInfo>)
        ensures
            listing_sorted(r@),
            r@.to_multiset() == entries@.to_multiset(),
    {
        broadcast use group_to_multiset_ensures;

        let mut rest = entries;
        let mut out: Vec<FileInfo> = Vec::new();
        proof {
            assert(out@.to_multiset().add(rest@.to_multiset()) =~= entries@.to_multiset());
        }
        while rest.len() > 0
            invariant
                listing_sorted(out@),
                out@.to_multiset().add(rest@.to_multiset()) == entries@.to_multiset(),
            decreases rest.len(),
        {
            let ghost before = rest@;
            let x = rest.pop().unwrap();
            proof {
                assert(before =~= rest@.push(x));
            }
            let mut at: usize = out.len();
            while at > 0 && !file_le_exec(&out[at - 1], &x)
                invariant
                    at <= out.len(),
                    forall|k: int| at <= k < out.len() ==> file_le(x, out@[k]),
                decreases at,
            {
                proof {
                    lemma_file_le_total(out@[at - 1], x);
                }
                at -= 1;
            }
            let ghost sorted = out@;
            out.insert(at, x);
            proof {
                assert forall|i: int, j: int| 0 <= i < j < out@.len() implies file_le(
                    out@[i],
                    out@[j],
                ) by {
                    if j == at && i < at - 1 {
                        lemma_file_le_transitive(sorted[i], sorted[at - 1], x);
                    } else if i == at {
                        assert(out@[j] == sorted[j - 1]);
                    } else if j != at {
                        assert(out@[i] == sorted[if i < at { i } else { i - 1 }]);
                        assert(out@[j] == sorted[if j < at { j } else { j - 1 }]);
                    }
                }
                to_multiset_insert(sorted, at as int, x);
                to_multiset_build(rest@, x);
                assert(out@.to_multiset().add(rest@.to_multiset()) =~= sorted.to_multiset().add(
                    before.to_multiset(),
                ));
            }
        }
        proof {
            assert(out@.to_multiset() =~= out@.to_multiset().add(rest@.to_multiset()));
        }
        out
    }

    /// Shows the entries of the directory that pass the settings, and keeps
    /// the selection on the entry that had it, by name; if that entry is no
    /// longer shown the selection goes to the top.
    pub fn apply_filter(&mut self)
        ensures
            final(self).is_refresh_of(old(self), old(self).show_hidden, old(self).filter@),
            final(self).filter == old(self).filter,
    {
        let selected: Option<String> = match self.selected() {
            Some(file) => Some(file.name.clone()),
            None => None,
        };
        let needle = self.filter.as_str().to_lowercase();
        let mut shown: Vec<FileInfo> = Vec::new();
        let ghost all = self.all_files@;
        let ghost pred = passes(self.show_hidden, self.filter@);
        let mut i: usize = 0;
        while i < self.all_files.len()
            invariant
                i <= self.all_files.len(),
                *self == *old(self),
                all == self.all_files@,
                pred == passes(self.show_hidden, self.filter@),
                needle@ == lowercase(self.filter@),
                shown@ == all.take(i as int).filter(pred),
            decreases self.all_files.len() - i,
        {
            let file = &self.all_files[i];
            let keep = (self.show_hidden || !starts_with_dot(file.name.as_str())) && contains(
                file.name.as_str().to_lowercase().as_str(),
                needle.as_str(),
            );
            proof {
                reveal(Seq::filter);
                assert(all.take(i + 1).drop_last() =~= all.take(i as int));
                assert(all.take(i + 1).last() == all[i as int]);
                assert(keep == pred(all[i as int]));
            }
            if keep {
                shown.push(file.clone());
            }
            i += 1;
        }
        proof {
            assert(all.take(all.len() as int) =~= all);
        }
        self.files = shown;
        self.hidden_selection = None;
        if let Some(name) = selected {
            self.select_file(name);
        }
    }

    /// Moves the selection to the first entry called `name`, or to the top of
    /// the list when no entry has that name.
    pub fn select_file(&mut self, name: String)
        ensures
            *final(self) == old(self).with_index(final(self).list_state.selected),
            final(self).list_state.selected matches Some(i) && is_position_of(
                old(self).files@,
                name@,
                i as int,
            ),
    {
        let index = match position(&self.files, &name) {
            Some(i) => i,
            None => 0,
        };
        self.select(Some(index));
    }

    /// The selected entry.
    pub open spec fn selected_file(&self) -> Option<FileInfo> {
        match selected_index(self.list_state.selected, self.files@.len()) {
            Some(i) => Some(self.files@[i as int]),
            None => None,
        }
    }

    /// Everything but the marks and the selection is as in `before`.
    pub open spec fn same_listing(&self, before: &FileManager) -> bool {
        &&& self.dir == before.dir
        &&& self.all_files == before.all_files
        &&& self.files == before.files
        &&& self.filter == before.filter
        &&& self.show_hidden == before.show_hidden
        &&& self.shell == before.shell
    }

    /// Going to `path`: where that is the directory shown, the selection
    /// moves to `select`, if one is asked for, and `then` is sent; where it
    /// is another, the caller is asked to enter it.
    pub open spec fn went(
        &self,
        before: &FileManager,
        path: Seq<char>,
        select: Option<Seq<char>>,
        then: Option<CommandView>,
        effect: EffectView,
    ) -> bool {
        if path == before.dir@ {
            &&& effect == send_or_nothing(then)
            &&& match select {
                Some(name) => {
                    &&& *self == before.with_index(self.list_state.selected)
                    &&& self.list_state.selected matches Some(i) && is_position_of(
                        before.files@,
                        name,
                        i as int,
                    )
                },
                None => *self == *before,
            }
        } else {
            &&& *self == *before
            &&& effect == (EffectView::Enter { path, select, then })
        }
    }

    /// The marked files were sent to the shell with `template`, or, where
    /// nothing is marked, a message says so.
    pub open spec fn marks_sent(
        &self,
        before: &FileManager,
        bar_before: ModeView,
        bar_after: ModeView,
        now: u64,
        template: Seq<char>,
        result: Result<Effect, KeyError>,
    ) -> bool {
        if before.files_marked@.len() == 0 {
            &&& *self == *before
            &&& bar_after == (ModeView::Message {
                text: "No files marked"@,
                expire_at: (now + MESSAGE_MILLIS) as u64,
            })
            &&& succeeds_with(result, EffectView::Nothing)
        } else {
            &&& self.files_marked@.len() == 0
            &&& self.same_listing(before)
            &&& self.list_state == before.list_state
            &&& self.hidden_selection == before.hidden_selection
            &&& bar_after == bar_before
            &&& succeeds_with(
                result,
                send_or_nothing(
                    run_spec(before.shell.pid, template, before.files_marked.deep_view(), true),
                ),
            )
        }
    }

    /// What a key does to the file list `before` while the status line
    /// shows `bar_before`.
    pub open spec fn key_pressed(
        &self,
        before: &FileManager,
        bar_before: ModeView,
        bar_after: ModeView,
        key: Key,
        now: u64,
        result: Result<Effect, KeyError>,
    ) -> bool {
        match file_op(key) {
            FileOp::Open => {
                &&& bar_after == bar_before
                &&& match before.selected_file() {
                    None => *self == *before && succeeds_with(result, EffectView::Nothing),
                    Some(file) => if file.metadata.is_dir {
                        result matches Ok(e) && self.went(
                            before,
                            file.path@,
                            None,
                            before.shell.cd_command(file.path@),
                            e@,
                        )
                    } else {
                        &&& *self == *before
                        &&& succeeds_with(result, send_or_nothing(before.shell.open_command(file)))
                    },
                }
            },
            FileOp::Leave => {
                &&& bar_after == bar_before
                &&& match parent_of(before.dir@) {
                    None => *self == *before && succeeds_with(result, EffectView::Nothing),
                    Some(up) => result matches Ok(e) && self.went(
                        before,
                        up,
                        file_name_of(before.dir@),
                        before.shell.cd_command(up),
                        e@,
                    ),
                }
            },
            FileOp::ToggleHidden => {
                &&& bar_after == bar_before
                &&& self.toggled_hidden(before)
                &&& succeeds_with(result, EffectView::Nothing)
            },
            FileOp::Mark => {
                &&& bar_after == bar_before
                &&& succeeds_with(result, EffectView::Nothing)
                &&& match before.selected_file() {
                    None => *self == *before,
                    Some(file) => {
                        let len = before.files@.len();
                        &&& self.same_listing(before)
                        &&& toggled(
                            before.files_marked.deep_view(),
                            file.path@,
                            self.files_marked.deep_view(),
                        )
                        &&& if selected_index(before.list_state.selected, len) == last_index(len) {
                            &&& self.list_state == before.list_state
                            &&& self.hidden_selection == before.hidden_selection
                        } else {
                            &&& self.list_state.selected == next_index(
                                before.list_state.selected,
                                len,
                            )
                            &&& self.hidden_selection is None
                        }
                    },
                }
            },
            FileOp::Copy => self.marks_sent(
                before,
                bar_before,
                bar_after,
                now,
                "cp -r {} ."@,
                result,
            ),
            FileOp::Move => self.marks_sent(
                before,
                bar_before,
                bar_after,
                now,
                "mv {} ."@,
                result,
            ),
            FileOp::Delete => {
                &&& *self == *before
                &&& succeeds_with(result, EffectView::Nothing)
                &&& match before.selected_file() {
                    None => bar_after == bar_before,
                    Some(file) => bar_after == (ModeView::Ask {
                        prompt: delete_prompt(file.metadata.is_file, file.name@),
                        action: PendingActionView::Delete(file.path@),
                    }),
                }
            },
            FileOp::Rename => {
                &&& *self == *before
                &&& succeeds_with(result, EffectView::Nothing)
                &&& match before.selected_file() {
                    None => bar_after == bar_before,
                    Some(file) => bar_after == (ModeView::Edit {
                        prompt: "Rename: "@,
                        text: file.name@,
                        cursor: file.name@.len() as usize,
                        action: PendingActionView::Rename(file.path@),
                    }),
                }
            },
            FileOp::Filter => {
                &&& *self == *before
                &&& succeeds_with(result, EffectView::Nothing)
                &&& bar_after == (ModeView::Edit {
                    prompt: "/"@,
                    text: Seq::empty(),
                    cursor: 0,
                    action: PendingActionView::Filter,
                })
            },
            FileOp::Other => {
                &&& bar_after == bar_before
                &&& match list_op(key) {
                    Some(op) => {
                        &&& succeeds_with(result, EffectView::Nothing)
                        &&& *self == before.with_index(
                            moved(before.list_state.selected, before.files@.len(), op),
                        )
                    },
                    None => {
                        &&& result matches Err(e) && e == KeyError::Unknown(key)
                        &&& *self == *before
                    },
                }
            },
        }
    }

    /// A file manager that shows no directory yet.
    pub fn new(open_methods: OpenMethods) -> (r: FileManager)
        ensures
            r.dir@.len() == 0,
            r.all_files@.len() == 0,
            r.files@.len() == 0,
            r.files_marked@.len() == 0,
            r.filter@.len() == 0,
            !r.show_hidden,
            r.list_state.selected is None,
            r.hidden_selection is None,
            r.shell.pid == 0,
            r.shell.open_methods == open_methods,
    {
        FileManager {
            dir: String::new(),
            all_files: Vec::new(),
            files: Vec::new(),
            files_marked: Vec::new(),
            filter: String::new(),
            show_hidden: false,
            list_state: ListState { selected: None },
            hidden_selection: None,
            shell: Shell::new(open_methods),
        }
    }

    /// Goes to the directory `path`, puts the selection on `select` there,
    /// and lets `then` follow.
    pub fn go(&mut self, path: String, select: Option<String>, then: Option<Command>) -> (effect:
        Effect)
        ensures
            final(self).went(old(self), path@, select.deep_view(), then.deep_view(), effect@),
    {
        if path == self.dir {
            if let Some(name) = select {
                self.select_file(name);
            }
            send(then)
        } else {
            Effect::Enter { path, select, then }
        }
    }

    /// Shows the directory `dir`, whose entries were read as `entries`,
    /// with the selection on `select`, or at the top when none is asked
    /// for.
    pub fn cd(&mut self, dir: String, entries: Vec<FileInfo>, select: Option<String>)
        ensures
            final(self).dir@ == dir@,
            listing_sorted(final(self).all_files@),
            final(self).all_files@.to_multiset() == entries@.to_multiset(),
            final(self).consistent(),
            final(self).hidden_selection is None,
            final(self).files_marked == old(self).files_marked,
            final(self).filter == old(self).filter,
            final(self).show_hidden == old(self).show_hidden,
            final(self).shell == old(self).shell,
            match select {
                Some(name) => final(self).list_state.selected matches Some(i) && is_position_of(
                    final(self).files@,
                    name@,
                    i as int,
                ),
                None => final(self).list_state.selected == first_index(final(self).files@.len()),
            },
    {
        self.dir = dir;
        self.all_files = Self::read_dir(entries);
        self.apply_filter();
        self.select_first();
        if let Some(name) = select {
            self.select_file(name);
        }
    }

    /// Takes in the entries of the directory shown after they were read
    /// again; the selection stays on the entry that had it, by name.
    pub fn reload(&mut self, entries: Vec<FileInfo>)
        ensures
            listing_sorted(final(self).all_files@),
            final(self).all_files@.to_multiset() == entries@.to_multiset(),
            final(self).consistent(),
            final(self).keeps_selection(old(self)),
            final(self).hidden_selection is None,
            final(self).dir == old(self).dir,
            final(self).files_marked == old(self).files_marked,
            final(self).filter == old(self).filter,
            final(self).show_hidden == old(self).show_hidden,
            final(self).shell == old(self).shell,
    {
        self.all_files = Self::read_dir(entries);
        self.apply_filter();
    }

    /// A change in the directory shown: after a file was created, removed
    /// or modified the directory is to be read again.
    pub fn on_notify(&self, kind: WatchKind) -> (effect: Effect)
        ensures
            effect@ == if kind == WatchKind::Create || kind == WatchKind::Remove || kind
                == WatchKind::Modify {
                EffectView::Reload
            } else {
                EffectView::Nothing
            },
    {
        match kind {
            WatchKind::Create | WatchKind::Remove | WatchKind::Modify => Effect::Reload,
            _ => Effect::Nothing,
        }
    }

    /// An event from the shell: its process id is kept, and its change of
    /// directory is followed.  Nothing is sent to the shell in response.
    pub fn on_shell_event(&mut self, event: ShellEvent) -> (effect: Effect)
        ensures
            match event {
                ShellEvent::Pid(pid) => {
                    &&& *final(self) == (FileManager {
                        shell: Shell { pid, ..old(self).shell },
                        ..*old(self)
                    })
                    &&& effect@ == EffectView::Nothing
                },
                ShellEvent::ChangeDirectory(dir) => final(self).went(
                    old(self),
                    dir@,
                    None,
                    None,
                    effect@,
                ),
                _ => *final(self) == *old(self) && effect@ == EffectView::Nothing,
            },
    {
        match event {
            ShellEvent::Pid(pid) => {
                self.shell.attach(pid);
                Effect::Nothing
            },
            ShellEvent::ChangeDirectory(dir) => self.go(dir, None, None),
            _ => Effect::Nothing,
        }
    }

    fn selected_clone(&self) -> (r: Option<FileInfo>)
        ensures
            r == self.selected_file(),
    {
        match self.selected() {
            Some(file) => Some(file.clone()),
            None => None,
        }
    }

    fn send_marks(&mut self, template: &str, status_bar: &mut StatusBar, now: u64) -> (result:
        Result<Effect, KeyError>)
        requires
            now + MESSAGE_MILLIS <= u64::MAX,
        ensures
            final(self).marks_sent(
                old(self),
                old(status_bar)@,
                final(status_bar)@,
                now,
                template@,
                result,
            ),
    {
        if self.files_marked.len() == 0 {
            status_bar.show_message("No files marked".to_string(), now);
            Ok(Effect::Nothing)
        } else {
            let mut files: Vec<String> = Vec::new();
            core::mem::swap(&mut self.files_marked, &mut files);
            Ok(send(self.shell.run(template, &files, true)))
        }
    }

    fn toggle_hidden(&mut self)
        ensures
            final(self).toggled_hidden(old(self)),
    {
        let mut kept: Option<String> = None;
        core::mem::swap(&mut self.hidden_selection, &mut kept);
        let selected: Option<String> = match self.selected() {
            Some(file) => Some(file.name.clone()),
            None => None,
        };
        self.show_hidden = !self.show_hidden;
        self.apply_filter();
        if self.show_hidden {
            if let Some(name) = kept {
                if let Some(i) = position(&self.files, &name) {
                    self.select(Some(i));
                }
            }
        } else {
            if let Some(name) = selected {
                if starts_with_dot(name.as_str()) {
                    self.hidden_selection = Some(name);
                }
            }
        }
    }

    fn toggle_mark(&mut self)
        ensures
            match old(self).selected_file() {
                None => *final(self) == *old(self),
                Some(file) => {
                    let len = old(self).files@.len();
                    &&& final(self).same_listing(old(self))
                    &&& toggled(
                        old(self).files_marked.deep_view(),
                        file.path@,
                        final(self).files_marked.deep_view(),
                    )
                    &&& if selected_index(old(self).list_state.selected, len) == last_index(len) {
                        &&& final(self).list_state == old(self).list_state
                        &&& final(self).hidden_selection == old(self).hidden_selection
                    } else {
                        &&& final(self).list_state.selected == next_index(
                            old(self).list_state.selected,
                            len,
                        )
                        &&& final(self).hidden_selection is None
                    }
                },
            },
    {
        if let Some(file) = self.selected_clone() {
            let ghost marks = self.files_marked.deep_view();
            match mark_position(&self.files_marked, &file.path) {
                Some(i) => {
                    self.files_marked.remove(i);
                    proof {
                        assert(self.files_marked.deep_view() =~= marks.remove(i as int));
                    }
                },
                None => {
                    self.files_marked.push(file.path);
                    proof {
                        assert(self.files_marked.deep_view() =~= marks.push(file.path@));
                    }
                },
            }
            let current = match self.list_state.selected {
                Some(i) => i,
                None => 0,
            };
            if current != self.files.len() - 1 {
                self.select_next();
            }
        }
    }

    /// Handles a key that was pressed while the file list had the word.
    ///
    /// The keys that go into a directory or out of it answer with the
    /// effect of going there; the keys that open, copy or move files answer
    /// with what is sent to the shell; the keys that delete, rename and
    /// filter open a prompt in the status line, which keeps the path of the
    /// file that was selected when it opened.  A key that means nothing
    /// here and moves no selection is an error.
    pub fn on_key(&mut self, key: Key, status_bar: &mut StatusBar, now: u64) -> (result: Result<Effect, KeyError>)
        requires
            now + MESSAGE_MILLIS <= u64::MAX,
        ensures
            final(self).key_pressed(
                old(self),
                old(status_bar)@,
                final(status_bar)@,
                key,
                now,
                result,
            ),
    {
        match file_op_of(key) {
            FileOp::Open => match self.selected_clone() {
                None => Ok(Effect::Nothing),
                Some(file) => if file.metadata.is_dir {
                    let then = self.shell.cd(file.path.as_str());
                    Ok(self.go(file.path, None, then))
                } else {
                    Ok(send(self.shell.open_file(&file)))
                },
            },
            FileOp::Leave => match parent(self.dir.as_str()) {
                None => Ok(Effect::Nothing),
                Some(up) => {
                    let current = file_name(self.dir.as_str());
                    let then = self.shell.cd(up.as_str());
                    Ok(self.go(up, current, then))
                },
            },
            FileOp::ToggleHidden => {
                self.toggle_hidden();
                Ok(Effect::Nothing)
            },
            FileOp::Mark => {
                self.toggle_mark();
                Ok(Effect::Nothing)
            },
            FileOp::Copy => self.send_marks("cp -r {} .", status_bar, now),
            FileOp::Move => self.send_marks("mv {} .", status_bar, now),
            FileOp::Delete => {
                if let Some(file) = self.selected_clone() {
                    let mut prompt = "Delete ".to_string();
                    prompt.append(if file.metadata.is_file {
                        "file"
                    } else {
                        "directory"
                    });
                    prompt.append(" ");
                    prompt.append(file.name.as_str());
                    prompt.append("? [y/N]");
                    status_bar.ask(prompt, PendingAction::Delete(file.path));
                }
                Ok(Effect::Nothing)
            },
            FileOp::Rename => {
                if let Some(file) = self.selected_clone() {
                    status_bar.edit("Rename: ".to_string(), file.name, PendingAction::Rename(file.path));
                }
                Ok(Effect::Nothing)
            },
            FileOp::Filter => {
                status_bar.edit("/".to_string(), String::new(), PendingAction::Filter);
                Ok(Effect::Nothing)
            },
            FileOp::Other => match self.on_list_key(key) {
                Ok(()) => Ok(Effect::Nothing),
                Err(e) => Err(e),
            },
        }
    }
}

/// Showing the entries anew keeps a well-formed file manager well formed.
pub proof fn lemma_refresh_keeps_wf(
    before: FileManager,
    after: FileManager,
    show_hidden: bool,
    filter: Seq<char>,
)
    requires
        before.wf(),
        after.is_refresh_of(&before, show_hidden, filter),
    ensures
        after.wf(),
{
}

/// No entry with a hidden name is shown while the hidden files are hidden.
pub proof fn lemma_hidden_names_are_not_shown(
    all: Seq<FileInfo>,
    filter: Seq<char>,
    name: Seq<char>,
)
    requires
        is_hidden(name),
    ensures
        !has_name(visible(all, false, filter), name),
{
    let shown = visible(all, false, filter);
    if has_name(shown, name) {
        let i = choose|i: int| 0 <= i < shown.len() && shown[i].name@ == name;
        lemma_visible_is_sound(all, false, filter, i);
    }
}

/// Showing the hidden files and hiding them again, or hiding and showing
/// them, leads back to the same shown entries and to the same selected
/// name.
///
/// The file manager goes from `start` to `toggled` to `back`, each step a
/// toggle of the setting.
pub proof fn lemma_toggle_hidden_twice(start: FileManager, toggled: FileManager, back: FileManager)
    requires
        start.wf(),
        toggled.toggled_hidden(&start),
        back.toggled_hidden(&toggled),
    ensures
        back.show_hidden == start.show_hidden,
        back.files@ == start.files@,
        back.selected_name() == start.selected_name(),
        toggled.wf(),
        back.wf(),
{
    let all = start.all_files@;
    let filter = start.filter@;
    lemma_toggle_keeps_wf(start, toggled);
    lemma_toggle_keeps_wf(toggled, back);
    if start.selected_name() is Some {
        let name = start.selected_name()->0;
        let i = selected_index(start.list_state.selected, start.files@.len())->0 as int;
        let file = start.files@[i];
        lemma_visible_is_sound(all, start.show_hidden, filter, i);
        assert(has_name(start.files@, name));
        if start.show_hidden {
            // Hidden, then shown again.
            if is_hidden(name) {
                lemma_hidden_names_are_not_shown(all, filter, name);
                assert(toggled.hidden_selection matches Some(kept) && kept@ == name);
            } else {
                lemma_visible_is_complete(all, false, filter, file);
                assert(toggled.selected_name() == Some(name));
            }
        } else {
            // Shown, then hidden again.
            lemma_visible_is_complete(all, true, filter, file);
            if start.hidden_selection is Some && has_name(
                toggled.files@,
                start.hidden_selection->0@,
            ) {
                let kept = start.hidden_selection->0@;
                assert(toggled.selected_name() == Some(kept));
                lemma_hidden_names_are_not_shown(all, filter, kept);
                assert(back.list_state.selected == Some(0usize));
                assert(start.list_state.selected == Some(0usize));
            } else {
                assert(toggled.selected_name() == Some(name));
            }
        }
    } else {
        assert(start.files@.len() == 0);
    }
}

/// Showing or hiding the hidden files keeps a well-formed file manager well
/// formed.
pub proof fn lemma_toggle_keeps_wf(before: FileManager, after: FileManager)
    requires
        before.wf(),
        after.toggled_hidden(&before),
    ensures
        after.wf(),
{
    if !after.show_hidden && before.name_to_keep() is Some {
        lemma_hidden_names_are_not_shown(
            after.all_files@,
            after.filter@,
            before.name_to_keep()->0,
        );
    }
}

/// Applying the same filter a second time changes neither the shown
/// entries nor the selected name.
///
/// The file manager goes from `start` to `once` by a change of the settings
/// and from `once` to `twice` by showing the entries anew under the same
/// settings.
pub proof fn lemma_filter_twice(
    start: FileManager,
    once: FileManager,
    twice: FileManager,
    show_hidden: bool,
    filter: Seq<char>,
)
    requires
        once.is_refresh_of(&start, show_hidden, filter),
        twice.is_refresh_of(&once, show_hidden, filter),
    ensures
        twice.files@ == once.files@,
        twice.selected_name() == once.selected_name(),
{
    match once.selected_name() {
        Some(name) => {
            let i = selected_index(once.list_state.selected, once.files@.len())->0 as int;
            assert(once.files@[i].name@ == name);
            assert(has_name(twice.files@, name));
        },
        None => {},
    }
}

/// A change of the settings keeps the selection on the entry that had it,
/// by name, as long as an entry of that name is still shown.
pub proof fn lemma_filter_keeps_selection(
    before: FileManager,
    after: FileManager,
    show_hidden: bool,
    filter: Seq<char>,
    name: Seq<char>,
)
    requires
        after.is_refresh_of(&before, show_hidden, filter),
        before.selected_name() == Some(name),
        has_name(after.files@, name),
    ensures
        after.selected_name() == Some(name),
{
}

/// A key leaves a well-formed file manager well formed.
pub proof fn lemma_key_keeps_wf(
    before: FileManager,
    after: FileManager,
    bar_before: ModeView,
    bar_after: ModeView,
    key: Key,
    now: u64,
    result: Result<Effect, KeyError>,
)
    requires
        before.wf(),
        after.key_pressed(&before, bar_before, bar_after, key, now, result),
    ensures
        after.wf(),
{
    let len = before.files@.len();
    match before.list_state.selected {
        Some(i) => {
            if len > 0 {
                assert(0 <= (i + 1) % (len as int) < len);
            }
        },
        None => {},
    }
    if file_op(key) == FileOp::ToggleHidden {
        lemma_toggle_keeps_wf(before, after);
    }
}

/// No two entries have the same name, as in a directory.
pub open spec fn distinct_names(files: Seq<FileInfo>) -> bool {
    forall|i: int, j: int| 0 <= i < j < files.len() ==> files[i].name@ != files[j].name@
}

/// Two entries that come before each other have the same name.
pub proof fn lemma_file_le_antisymmetric(a: FileInfo, b: FileInfo)
    requires
        file_le(a, b),
        file_le(b, a),
    ensures
        a.name@ == b.name@,
{
    lemma_bytes_le_antisymmetric(
        vstd::utf8::encode_utf8(a.name@),
        vstd::utf8::encode_utf8(b.name@),
    );
    vstd::utf8::encode_utf8_decode_utf8(a.name@);
    vstd::utf8::encode_utf8_decode_utf8(b.name@);
}

/// The listing of a directory is determined by its entries: two listings of
/// the same entries, each in order, are the same listing.
pub proof fn lemma_listing_is_determined(one: Seq<FileInfo>, other: Seq<FileInfo>)
    requires
        listing_sorted(one),
        listing_sorted(other),
        one.to_multiset() == other.to_multiset(),
        distinct_names(one),
    ensures
        one == other,
    decreases one.len(),
{
    broadcast use group_to_multiset_ensures;

    vstd::seq_lib::to_multiset_len(one);
    vstd::seq_lib::to_multiset_len(other);
    assert(one.len() == other.len());
    if one.len() == 0 {
        assert(one =~= other);
    } else {
        assert(other.to_multiset().count(other[0]) > 0);
        assert(one.contains(other[0]));
        let k = choose|k: int| 0 <= k < one.len() && one[k] == other[0];
        assert(one.to_multiset().count(one[0]) > 0);
        assert(other.contains(one[0]));
        let m = choose|m: int| 0 <= m < other.len() && other[m] == one[0];
        if k > 0 {
            assert(file_le(one[0], one[k]));
            if m > 0 {
                assert(file_le(other[0], other[m]));
            }
            lemma_file_le_antisymmetric(one[0], one[k]);
        }
        assert(one[0] == other[0]);
        assert(one.remove(0) =~= one.drop_first());
        assert(other.remove(0) =~= other.drop_first());
        lemma_listing_is_determined(one.drop_first(), other.drop_first());
        assert(one =~= seq![one[0]] + one.drop_first());
        assert(other =~= seq![other[0]] + other.drop_first());
    }
}

/// After the directory was read again, the shown entries are those of a
/// fresh listing of the directory that pass the settings: two file managers
/// with the same settings that took in the same entries, in whatever order
/// each read them, show the same.
pub proof fn lemma_reload_is_fresh_listing(one: FileManager, other: FileManager)
    requires
        one.consistent(),
        other.consistent(),
        listing_sorted(one.all_files@),
        listing_sorted(other.all_files@),
        one.all_files@.to_multiset() == other.all_files@.to_multiset(),
        distinct_names(one.all_files@),
        one.show_hidden == other.show_hidden,
        one.filter@ == other.filter@,
    ensures
        one.all_files@ == other.all_files@,
        one.files@ == other.files@,
{
    lemma_listing_is_determined(one.all_files@, other.all_files@);
}

} // verus!
