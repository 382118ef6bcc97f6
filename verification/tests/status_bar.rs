use scd::effect::Effect;
use scd::effect::Signal;
use scd::file_manager::FileInfo;
use scd::file_manager::FileManager;
use scd::file_manager::Metadata;
use scd::key::Key;
use scd::open_methods::OpenMethods;
use scd::status_bar::apply_edit;
use scd::status_bar::classify;
use scd::status_bar::dispatch;
use scd::status_bar::EditOp;
use scd::status_bar::Mode;
use scd::status_bar::PendingAction;
use scd::status_bar::StatusBar;
use scd::status_bar::Trigger;
use scd::status_bar::MESSAGE_MILLIS;

fn entry(name: &str) -> FileInfo {
    FileInfo {
        path: format!("/t/{}", name),
        name: name.to_string(),
        extension: None,
        metadata: Metadata { is_dir: false, is_file: true, mode: 0o100644, len: 1 },
    }
}

fn files(names: &[&str]) -> FileManager {
    let mut fm = FileManager::new(OpenMethods::new());
    fm.cd("/t".to_string(), names.iter().map(|n| entry(n)).collect(), None);
    fm
}

fn names(fm: &FileManager) -> Vec<&str> {
    fm.files.iter().map(|f| f.name.as_str()).collect()
}

fn edit_state(bar: &StatusBar) -> (String, usize) {
    match &bar.mode {
        Mode::Edit { text, cursor, .. } => (text.clone(), *cursor),
        other => panic!("{:?}", other),
    }
}

#[test]
fn a_new_status_bar_is_normal() {
    assert!(matches!(StatusBar::new().mode, Mode::Normal));
    assert_eq!(MESSAGE_MILLIS, 4000);
}

#[test]
fn a_message_expires_on_the_tick_after_its_time() {
    let mut bar = StatusBar::new();
    bar.show_message("hello".to_string(), 10_000);
    assert!(matches!(&bar.mode, Mode::Message { text, expire_at } if text == "hello" && *expire_at == 14_000));
    bar.on_tick(12_000);
    assert!(matches!(bar.mode, Mode::Message { .. }));
    bar.on_tick(13_999);
    assert!(matches!(bar.mode, Mode::Message { .. }));
    bar.on_tick(14_000);
    assert!(matches!(bar.mode, Mode::Normal));
}

#[test]
fn a_tick_leaves_prompts_alone() {
    let mut bar = StatusBar::new();
    bar.ask("sure?".to_string(), PendingAction::Kill(1));
    bar.on_tick(u64::MAX);
    assert!(matches!(bar.mode, Mode::Ask { .. }));
    bar.edit("/".to_string(), "x".to_string(), PendingAction::Filter);
    bar.on_tick(u64::MAX);
    assert!(matches!(bar.mode, Mode::Edit { .. }));
    let mut bar = StatusBar::new();
    bar.on_tick(5);
    assert!(matches!(bar.mode, Mode::Normal));
}

#[test]
fn a_key_dismisses_a_message() {
    let mut fm = files(&["a"]);
    let mut bar = StatusBar::new();
    bar.show_message("m".to_string(), 0);
    assert!(matches!(bar.on_key(Key::Char('y'), &mut fm), Effect::Nothing));
    assert!(matches!(bar.mode, Mode::Normal));
    assert!(matches!(bar.on_key(Key::Char('y'), &mut fm), Effect::Nothing));
    assert!(matches!(bar.mode, Mode::Normal));
}

#[test]
fn delete_scenario() {
    let mut fm = files(&["f", "g"]);
    fm.shell.pid = 8;
    let mut bar = StatusBar::new();

    // Any key but `y` gives the question up, and nothing is sent.
    fm.on_key(Key::Char('d'), &mut bar, 0).unwrap();
    assert!(matches!(bar.mode, Mode::Ask { .. }));
    let before = names(&fm).join(",");
    assert!(matches!(bar.on_key(Key::Char('n'), &mut fm), Effect::Nothing));
    assert!(matches!(bar.mode, Mode::Normal));
    assert_eq!(names(&fm).join(","), before);
    for key in [Key::Char('Y'), Key::Char('\n'), Key::Esc, Key::Ctrl('y'), Key::Alt('y')] {
        fm.on_key(Key::Char('d'), &mut bar, 0).unwrap();
        assert!(matches!(bar.on_key(key, &mut fm), Effect::Nothing));
        assert!(matches!(bar.mode, Mode::Normal));
    }

    // `y` removes the file that was selected when the question was asked,
    // wherever the selection is by then.
    fm.on_key(Key::Char('d'), &mut bar, 0).unwrap();
    fm.list_state.selected = Some(1);
    match bar.on_key(Key::Char('y'), &mut fm) {
        Effect::Send(command) => {
            assert_eq!(command.pid, 8);
            assert_eq!(command.text, "scd_run_with_echo \"rm -r '/t/f'\"");
        }
        other => panic!("{:?}", other),
    }
    assert!(matches!(bar.mode, Mode::Normal));
    assert_eq!(fm.list_state.selected, Some(1));
}

#[test]
fn confirmed_signals() {
    let mut fm = files(&[]);
    let mut bar = StatusBar::new();
    bar.ask("?".to_string(), PendingAction::Terminate(44));
    assert!(matches!(bar.on_key(Key::Char('y'), &mut fm), Effect::Signal { pid: 44, signal: Signal::Terminate }));
    bar.ask("?".to_string(), PendingAction::Kill(45));
    assert!(matches!(bar.on_key(Key::Char('y'), &mut fm), Effect::Signal { pid: 45, signal: Signal::Kill }));
    bar.ask("?".to_string(), PendingAction::Kill(45));
    assert!(matches!(bar.on_key(Key::Char('x'), &mut fm), Effect::Nothing));
}

#[test]
fn filter_as_you_type() {
    let mut fm = files(&["abc", "bcd", "cde"]);
    let mut bar = StatusBar::new();
    fm.on_key(Key::Char('/'), &mut bar, 0).unwrap();
    assert!(matches!(bar.on_key(Key::Char('c'), &mut fm), Effect::Nothing));
    assert_eq!(names(&fm), ["abc", "bcd", "cde"]);
    bar.on_key(Key::Char('D'), &mut fm);
    assert_eq!(fm.filter, "cD");
    assert_eq!(names(&fm), ["bcd", "cde"]);
    bar.on_key(Key::Backspace, &mut fm);
    bar.on_key(Key::Left, &mut fm);
    bar.on_key(Key::Char('b'), &mut fm);
    assert_eq!(edit_state(&bar), ("bc".to_string(), 1));
    assert_eq!(names(&fm), ["abc", "bcd"]);
    // Moving the cursor announces no change.
    fm.filter = "untouched".to_string();
    bar.on_key(Key::Home, &mut fm);
    bar.on_key(Key::End, &mut fm);
    bar.on_key(Key::Right, &mut fm);
    bar.on_key(Key::Delete, &mut fm);
    bar.on_key(Key::PageUp, &mut fm);
    assert_eq!(fm.filter, "untouched");
    // Enter ends the filtering.
    bar.on_key(Key::Char('\n'), &mut fm);
    assert!(matches!(bar.mode, Mode::Normal));
    assert_eq!(fm.filter, "");
    assert_eq!(names(&fm), ["abc", "bcd", "cde"]);
}

#[test]
fn escape_clears_the_filter() {
    let mut fm = files(&["abc", "bcd"]);
    let mut bar = StatusBar::new();
    for cancel in [Key::Esc, Key::Ctrl('[')] {
        fm.on_key(Key::Char('/'), &mut bar, 0).unwrap();
        bar.on_key(Key::Char('d'), &mut fm);
        assert_eq!(names(&fm), ["bcd"]);
        assert!(matches!(bar.on_key(cancel, &mut fm), Effect::Nothing));
        assert!(matches!(bar.mode, Mode::Normal));
        assert_eq!(fm.filter, "");
        assert_eq!(names(&fm), ["abc", "bcd"]);
    }
}

#[test]
fn rename_sends_on_enter_only() {
    let mut fm = files(&["old.txt", "x"]);
    fm.shell.pid = 3;
    let mut bar = StatusBar::new();
    fm.on_key(Key::Char('r'), &mut bar, 0).unwrap();
    assert!(matches!(bar.on_key(Key::Ctrl('u'), &mut fm), Effect::Nothing));
    for c in "new".chars() {
        assert!(matches!(bar.on_key(Key::Char(c), &mut fm), Effect::Nothing));
    }
    // The selection moves while the prompt is open.
    fm.list_state.selected = Some(1);
    match bar.on_key(Key::Char('\n'), &mut fm) {
        Effect::Send(command) => {
            assert_eq!(command.text, "scd_run_with_echo \"mv '/t/old.txt' '/t/new'\"");
        }
        other => panic!("{:?}", other),
    }
    assert!(matches!(bar.mode, Mode::Normal));
    assert_eq!(fm.filter, "");

    // Esc gives the renaming up.
    fm.on_key(Key::Char('r'), &mut bar, 0).unwrap();
    assert!(matches!(bar.on_key(Key::Esc, &mut fm), Effect::Nothing));
    assert!(matches!(bar.mode, Mode::Normal));
}

#[test]
fn keys_of_the_editor() {
    assert_eq!(classify(Key::Char('\n')), EditOp::Commit);
    assert_eq!(classify(Key::Esc), EditOp::Cancel);
    assert_eq!(classify(Key::Ctrl('[')), EditOp::Cancel);
    assert_eq!(classify(Key::Home), EditOp::Home);
    assert_eq!(classify(Key::Ctrl('a')), EditOp::Home);
    assert_eq!(classify(Key::End), EditOp::End);
    assert_eq!(classify(Key::Ctrl('e')), EditOp::End);
    assert_eq!(classify(Key::Left), EditOp::Left);
    assert_eq!(classify(Key::Ctrl('b')), EditOp::Left);
    assert_eq!(classify(Key::Right), EditOp::Right);
    assert_eq!(classify(Key::Ctrl('f')), EditOp::Right);
    assert_eq!(classify(Key::Backspace), EditOp::Backspace);
    assert_eq!(classify(Key::Ctrl('h')), EditOp::Backspace);
    assert_eq!(classify(Key::Delete), EditOp::Delete);
    assert_eq!(classify(Key::Ctrl('d')), EditOp::Delete);
    assert_eq!(classify(Key::Ctrl('u')), EditOp::Clear);
    assert_eq!(classify(Key::Char('x')), EditOp::Insert('x'));
    assert_eq!(classify(Key::Char(' ')), EditOp::Insert(' '));
    assert_eq!(classify(Key::Ctrl('x')), EditOp::Ignore);
    assert_eq!(classify(Key::Up), EditOp::Ignore);
    assert_eq!(classify(Key::Alt('a')), EditOp::Ignore);
    assert_eq!(classify(Key::F(1)), EditOp::Ignore);
}

#[test]
fn editing_inside_the_text() {
    let s = |t: &str, c: usize, changed: bool| (t.to_string(), c, changed);
    assert_eq!(apply_edit("abc", 1, EditOp::Insert('x')), s("axbc", 2, true));
    assert_eq!(apply_edit("abc", 3, EditOp::Insert('x')), s("abcx", 4, true));
    assert_eq!(apply_edit("", 0, EditOp::Insert('x')), s("x", 1, true));
    assert_eq!(apply_edit("abc", 2, EditOp::Backspace), s("ac", 1, true));
    assert_eq!(apply_edit("abc", 3, EditOp::Backspace), s("ab", 2, true));
    assert_eq!(apply_edit("abc", 0, EditOp::Delete), s("bc", 0, true));
    assert_eq!(apply_edit("abc", 2, EditOp::Delete), s("ab", 2, true));
    assert_eq!(apply_edit("abc", 2, EditOp::Clear), s("", 0, true));
    assert_eq!(apply_edit("", 0, EditOp::Clear), s("", 0, true));
    assert_eq!(apply_edit("abc", 2, EditOp::Home), s("abc", 0, false));
    assert_eq!(apply_edit("abc", 1, EditOp::End), s("abc", 3, false));
    assert_eq!(apply_edit("abc", 1, EditOp::Left), s("abc", 0, false));
    assert_eq!(apply_edit("abc", 1, EditOp::Right), s("abc", 2, false));
    assert_eq!(apply_edit("abc", 1, EditOp::Ignore), s("abc", 1, false));
    assert_eq!(apply_edit("abc", 1, EditOp::Commit), s("abc", 1, false));
    // The cursor counts characters, not bytes.
    assert_eq!(apply_edit("\u{e9}\u{e9}", 1, EditOp::Insert('\u{4e2d}')), s("\u{e9}\u{4e2d}\u{e9}", 2, true));
    assert_eq!(apply_edit("\u{e9}\u{4e2d}", 2, EditOp::Backspace), s("\u{e9}", 1, true));
}

#[test]
fn editing_at_the_bounds_changes_nothing() {
    let s = |t: &str, c: usize| (t.to_string(), c, false);
    assert_eq!(apply_edit("abc", 0, EditOp::Backspace), s("abc", 0));
    assert_eq!(apply_edit("abc", 3, EditOp::Delete), s("abc", 3));
    assert_eq!(apply_edit("abc", 0, EditOp::Left), s("abc", 0));
    assert_eq!(apply_edit("abc", 3, EditOp::Right), s("abc", 3));
    assert_eq!(apply_edit("", 0, EditOp::Backspace), s("", 0));
    assert_eq!(apply_edit("", 0, EditOp::Delete), s("", 0));
    // A cursor outside the text is no fault either.
    assert_eq!(apply_edit("abc", 9, EditOp::Insert('x')), s("abc", 9));
    assert_eq!(apply_edit("abc", 9, EditOp::Backspace), s("abc", 9));
    assert_eq!(apply_edit("abc", 9, EditOp::Delete), s("abc", 9));
    assert_eq!(apply_edit("abc", 9, EditOp::Right), s("abc", 9));
    assert_eq!(apply_edit("abc", usize::MAX, EditOp::Insert('x')), s("abc", usize::MAX));
}

#[test]
fn dispatch_pairs_actions_and_triggers() {
    let mut fm = files(&["abc", "b"]);
    fm.shell.pid = 2;
    let delete = PendingAction::Delete("/t/abc".to_string());
    assert!(matches!(dispatch(&delete, Trigger::Change, "x", &mut fm), Effect::Nothing));
    assert!(matches!(dispatch(&delete, Trigger::Enter, "x", &mut fm), Effect::Nothing));
    assert!(matches!(dispatch(&delete, Trigger::Yes, "x", &mut fm), Effect::Send(_)));
    let rename = PendingAction::Rename("/t/abc".to_string());
    assert!(matches!(dispatch(&rename, Trigger::Yes, "x", &mut fm), Effect::Nothing));
    assert!(matches!(dispatch(&rename, Trigger::Change, "x", &mut fm), Effect::Nothing));
    assert!(matches!(dispatch(&rename, Trigger::Enter, "x", &mut fm), Effect::Send(_)));
    assert_eq!(fm.filter, "");
    assert!(matches!(dispatch(&PendingAction::Filter, Trigger::Yes, "x", &mut fm), Effect::Nothing));
    assert_eq!(fm.filter, "");
    assert!(matches!(dispatch(&PendingAction::Filter, Trigger::Change, "a", &mut fm), Effect::Nothing));
    assert_eq!(fm.filter, "a");
    assert_eq!(names(&fm), ["abc"]);
    assert!(matches!(dispatch(&PendingAction::Filter, Trigger::Enter, "a", &mut fm), Effect::Nothing));
    assert_eq!(fm.filter, "");
    assert!(matches!(dispatch(&PendingAction::Kill(5), Trigger::Enter, "", &mut fm), Effect::Nothing));
    assert!(matches!(dispatch(&PendingAction::Terminate(5), Trigger::Change, "", &mut fm), Effect::Nothing));
}
