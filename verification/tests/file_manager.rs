use scd::effect::Effect;
use scd::error::KeyError;
use scd::file_manager::FileInfo;
use scd::file_manager::FileManager;
use scd::file_manager::Metadata;
use scd::file_manager::WatchKind;
use scd::key::Key;
use scd::list::ListExt;
use scd::open_methods::OpenMethods;
use scd::shell::ShellEvent;
use scd::status_bar::Mode;
use scd::status_bar::PendingAction;
use scd::status_bar::StatusBar;

fn file(dir: &str, name: &str) -> FileInfo {
    FileInfo {
        path: format!("{}/{}", dir, name),
        name: name.to_string(),
        extension: name.rsplit_once('.').filter(|(stem, _)| !stem.is_empty()).map(|(_, e)| e.to_string()),
        metadata: Metadata { is_dir: false, is_file: true, mode: 0o100644, len: 0 },
    }
}

fn dir(parent: &str, name: &str) -> FileInfo {
    FileInfo {
        path: format!("{}/{}", parent, name),
        name: name.to_string(),
        extension: None,
        metadata: Metadata { is_dir: true, is_file: false, mode: 0o040755, len: 4096 },
    }
}

fn manager(path: &str, entries: Vec<FileInfo>) -> FileManager {
    let mut fm = FileManager::new(OpenMethods::new());
    fm.cd(path.to_string(), entries, None);
    fm
}

fn file_names(fm: &FileManager) -> Vec<&str> {
    fm.files.iter().map(|f| f.name.as_str()).collect()
}

fn sent(effect: Effect) -> (i32, String) {
    match effect {
        Effect::Send(command) => (command.pid, command.text),
        other => panic!("nothing was sent: {:?}", other),
    }
}

#[test]
fn test_toggle_hidden_files() {
    let mut app = manager("/tmp/t", vec![file("/tmp/t", ".hidden"), file("/tmp/t", "show")]);

    app.show_hidden = false;
    app.apply_filter();
    assert_eq!(file_names(&app), ["show"]);

    app.show_hidden = true;
    app.apply_filter();
    assert_eq!(file_names(&app), [".hidden", "show"]);
}

#[test]
fn test_filter() {
    let mut app = manager("/tmp/t", vec![file("/tmp/t", "abc"), file("/tmp/t", "bcd")]);

    app.filter = "ab".to_string();
    app.apply_filter();
    assert_eq!(file_names(&app), ["abc"]);

    app.filter = "bc".to_string();
    app.apply_filter();
    assert_eq!(file_names(&app), ["abc", "bcd"]);
}

#[test]
fn test_selection_after_filter() {
    let mut app = manager(
        "/tmp/t",
        vec![file("/tmp/t", "a"), file("/tmp/t", "b"), file("/tmp/t", "c")],
    );

    app.filter = "b".to_string();
    app.apply_filter();
    app.filter = "".to_string();
    app.apply_filter();
    assert_eq!(app.list_state.selected, Some(1));
}

#[test]
fn test_cd() {
    let mut app = manager("/tmp/t", vec![dir("/tmp/t", "dir1"), dir("/tmp/t", "dir2")]);

    app.cd("/tmp/t/dir1".to_string(), vec![file("/tmp/t/dir1", "file1")], None);
    assert_eq!(file_names(&app), ["file1"]);

    app.cd("/tmp/t/dir2".to_string(), vec![file("/tmp/t/dir2", "file2")], None);
    assert_eq!(file_names(&app), ["file2"]);
}

#[test]
fn test_pid_0() {
    let mut app = manager("/tmp/t", vec![file("/tmp/t", "f"), dir("/tmp/t", "d")]);
    let mut bar = StatusBar::new();
    assert_eq!(file_names(&app), ["d", "f"]);

    // Entering a directory asks for the directory, with nothing to tell the shell.
    let res = app.on_key(Key::Char('l'), &mut bar, 0);
    assert!(res.is_ok());
    match res {
        Ok(Effect::Enter { path, select, then }) => {
            assert_eq!(path, "/tmp/t/d");
            assert_eq!(select, None);
            assert!(then.is_none());
            app.cd(path, vec![], select);
        }
        other => panic!("{:?}", other),
    }
    assert_eq!(app.dir, "/tmp/t/d");

    // So does leaving it again.
    match app.on_key(Key::Char('h'), &mut bar, 0) {
        Ok(Effect::Enter { path, select, then }) => {
            assert_eq!(path, "/tmp/t");
            assert_eq!(select.as_deref(), Some("d"));
            assert!(then.is_none());
            app.cd(path, vec![file("/tmp/t", "f"), dir("/tmp/t", "d")], select);
        }
        other => panic!("{:?}", other),
    }
    assert_eq!(app.list_state.selected, Some(0));

    // Opening a file sends nothing while no shell is attached.
    app.on_key(Key::Char('j'), &mut bar, 0).unwrap();
    let res = app.on_key(Key::Char('l'), &mut bar, 0);
    assert!(matches!(res, Ok(Effect::Nothing)));

    // Neither does renaming it.
    let res = app.on_key(Key::Char('r'), &mut bar, 0);
    assert!(matches!(res, Ok(Effect::Nothing)));
    assert!(matches!(bar.mode, Mode::Edit { .. }));
    bar.on_key(Key::Char('2'), &mut app);
    let effect = bar.on_key(Key::Char('\n'), &mut app);
    assert!(matches!(effect, Effect::Nothing));
    assert!(matches!(bar.mode, Mode::Normal));

    // Nor does a confirmed delete.
    let res = app.on_key(Key::Char('d'), &mut bar, 0);
    assert!(matches!(res, Ok(Effect::Nothing)));
    assert!(matches!(bar.mode, Mode::Ask { .. }));
    let effect = bar.on_key(Key::Char('y'), &mut app);
    assert!(matches!(effect, Effect::Nothing));
    assert!(matches!(bar.mode, Mode::Normal));
}

#[test]
fn listing_puts_directories_first_and_orders_by_name() {
    let fm = manager(
        "/x",
        vec![
            file("/x", "zeta"),
            dir("/x", "src"),
            file("/x", "Alpha"),
            file("/x", "alpha"),
            dir("/x", "bin"),
            file("/x", "a"),
        ],
    );
    assert_eq!(file_names(&fm), ["bin", "src", "Alpha", "a", "alpha", "zeta"]);
    assert_eq!(fm.list_state.selected, Some(0));
}

#[test]
fn listing_does_not_depend_on_the_order_read() {
    let one = FileManager::read_dir(vec![file("/x", "b"), dir("/x", "d"), file("/x", "a")]);
    let two = FileManager::read_dir(vec![file("/x", "a"), file("/x", "b"), dir("/x", "d")]);
    let names = |v: &Vec<FileInfo>| v.iter().map(|f| f.name.clone()).collect::<Vec<_>>();
    assert_eq!(names(&one), ["d", "a", "b"]);
    assert_eq!(names(&one), names(&two));
}

#[test]
fn names_are_ordered_by_their_bytes() {
    let sorted = FileManager::read_dir(vec![
        file("/x", "\u{e9}t\u{e9}"),
        file("/x", "z"),
        file("/x", "ab"),
        file("/x", "a"),
        file("/x", "B"),
        file("/x", ""),
    ]);
    let names: Vec<&str> = sorted.iter().map(|f| f.name.as_str()).collect();
    let mut expected = vec!["\u{e9}t\u{e9}", "z", "ab", "a", "B", ""];
    expected.sort();
    assert_eq!(names, expected);
}

#[test]
fn hidden_files_scenario() {
    let mut fm = manager("/tmp/x", vec![file("/tmp/x", "a"), file("/tmp/x", ".b"), file("/tmp/x", "c")]);
    let mut bar = StatusBar::new();
    assert_eq!(file_names(&fm), ["a", "c"]);
    let effect = fm.on_key(Key::Char('.'), &mut bar, 0).unwrap();
    assert!(matches!(effect, Effect::Nothing));
    assert_eq!(file_names(&fm), [".b", "a", "c"]);
}

#[test]
fn toggling_hidden_twice_keeps_listing_and_selection() {
    let mut fm = manager(
        "/tmp/x",
        vec![file("/tmp/x", "a"), file("/tmp/x", ".b"), file("/tmp/x", "c"), file("/tmp/x", ".d")],
    );
    let mut bar = StatusBar::new();
    fm.select_file("c".to_string());
    assert_eq!(fm.list_state.selected, Some(1));
    fm.on_key(Key::Char('.'), &mut bar, 0).unwrap();
    assert_eq!(file_names(&fm), [".b", ".d", "a", "c"]);
    assert_eq!(fm.selected().map(|f| f.name.as_str()), Some("c"));
    fm.on_key(Key::Char('.'), &mut bar, 0).unwrap();
    assert_eq!(file_names(&fm), ["a", "c"]);
    assert_eq!(fm.selected().map(|f| f.name.as_str()), Some("c"));
    assert_eq!(fm.list_state.selected, Some(1));
}

#[test]
fn a_hidden_selection_comes_back_when_it_is_shown_again() {
    let mut fm = manager(
        "/tmp/x",
        vec![file("/tmp/x", "a"), file("/tmp/x", ".b"), file("/tmp/x", ".c"), file("/tmp/x", "d")],
    );
    let mut bar = StatusBar::new();
    fm.on_key(Key::Char('.'), &mut bar, 0).unwrap();
    fm.select_file(".c".to_string());
    assert_eq!(fm.selected().map(|f| f.name.as_str()), Some(".c"));
    assert_eq!(fm.hidden_selection, None);
    // Hidden: the selection goes to the top, and the name is kept.
    fm.on_key(Key::Char('.'), &mut bar, 0).unwrap();
    assert_eq!(file_names(&fm), ["a", "d"]);
    assert_eq!(fm.list_state.selected, Some(0));
    assert_eq!(fm.hidden_selection.as_deref(), Some(".c"));
    // Shown again: the entry has the selection back.
    fm.on_key(Key::Char('.'), &mut bar, 0).unwrap();
    assert_eq!(file_names(&fm), [".b", ".c", "a", "d"]);
    assert_eq!(fm.selected().map(|f| f.name.as_str()), Some(".c"));
    assert_eq!(fm.hidden_selection, None);
    // The round trip from the other side leads back as well.
    fm.on_key(Key::Char('.'), &mut bar, 0).unwrap();
    let hidden = (file_names(&fm).join(","), fm.list_state.selected);
    fm.on_key(Key::Char('.'), &mut bar, 0).unwrap();
    fm.on_key(Key::Char('.'), &mut bar, 0).unwrap();
    assert_eq!((file_names(&fm).join(","), fm.list_state.selected), hidden);
}

#[test]
fn a_new_selection_drops_the_kept_name() {
    let mut fm = manager("/tmp/x", vec![file("/tmp/x", "a"), file("/tmp/x", ".b"), file("/tmp/x", "c")]);
    let mut bar = StatusBar::new();
    fm.on_key(Key::Char('.'), &mut bar, 0).unwrap();
    fm.select_file(".b".to_string());
    fm.on_key(Key::Char('.'), &mut bar, 0).unwrap();
    assert_eq!(fm.hidden_selection.as_deref(), Some(".b"));
    // Keys that leave the selection alone leave the name alone.
    fm.on_key(Key::Char('d'), &mut bar, 0).unwrap();
    bar.on_key(Key::Char('n'), &mut fm);
    assert!(fm.on_key(Key::Char('x'), &mut bar, 0).is_err());
    assert_eq!(fm.hidden_selection.as_deref(), Some(".b"));
    // The user selects another entry: that one keeps the selection.
    fm.on_key(Key::Char('j'), &mut bar, 0).unwrap();
    assert_eq!(fm.hidden_selection, None);
    fm.on_key(Key::Char('.'), &mut bar, 0).unwrap();
    assert_eq!(file_names(&fm), [".b", "a", "c"]);
    assert_eq!(fm.selected().map(|f| f.name.as_str()), Some("c"));
    // A kept name whose entry is gone changes nothing.
    fm.select_file(".b".to_string());
    fm.on_key(Key::Char('.'), &mut bar, 0).unwrap();
    fm.all_files.retain(|f| f.name != ".b");
    fm.hidden_selection = Some(".b".to_string());
    fm.on_key(Key::Char('.'), &mut bar, 0).unwrap();
    assert_eq!(file_names(&fm), ["a", "c"]);
    assert_eq!(fm.selected().map(|f| f.name.as_str()), Some("a"));
    assert_eq!(fm.hidden_selection, None);
}

#[test]
fn applying_a_filter_twice_changes_nothing() {
    let mut fm = manager(
        "/t",
        vec![file("/t", "abc"), file("/t", "bcd"), file("/t", "xyz"), file("/t", "ABCD")],
    );
    fm.select_file("bcd".to_string());
    fm.filter = "BC".to_string();
    fm.apply_filter();
    let once = (file_names(&fm).iter().map(|s| s.to_string()).collect::<Vec<_>>(), fm.list_state.selected);
    assert_eq!(once.0, ["ABCD", "abc", "bcd"]);
    assert_eq!(once.1, Some(2));
    fm.apply_filter();
    assert_eq!(file_names(&fm), once.0);
    assert_eq!(fm.list_state.selected, once.1);
}

#[test]
fn a_filter_without_matches_empties_the_list() {
    let mut fm = manager("/t", vec![file("/t", "abc")]);
    fm.filter = "q".to_string();
    fm.apply_filter();
    assert!(fm.files.is_empty());
    assert!(fm.selected().is_none());
    let mut bar = StatusBar::new();
    // Moving in an empty list is no fault.
    fm.on_key(Key::Char('j'), &mut bar, 0).unwrap();
    fm.on_key(Key::Char('k'), &mut bar, 0).unwrap();
    assert_eq!(fm.list_state.selected, None);
}

#[test]
fn reload_keeps_the_selection_by_name() {
    let mut fm = manager("/t", vec![file("/t", "b"), file("/t", "c")]);
    fm.select_file("c".to_string());
    assert_eq!(fm.list_state.selected, Some(1));
    assert!(matches!(fm.on_notify(WatchKind::Create), Effect::Reload));
    fm.reload(vec![file("/t", "c"), file("/t", "a"), file("/t", "b"), file("/t", ".h")]);
    assert_eq!(file_names(&fm), ["a", "b", "c"]);
    assert_eq!(fm.list_state.selected, Some(2));
    assert_eq!(fm.all_files.len(), 4);
    // The file that had the selection is gone: the selection goes to the top.
    fm.reload(vec![file("/t", "a"), file("/t", "b")]);
    assert_eq!(file_names(&fm), ["a", "b"]);
    assert_eq!(fm.list_state.selected, Some(0));
}

#[test]
fn only_changes_of_content_ask_for_a_reload() {
    let fm = manager("/t", vec![]);
    assert!(matches!(fm.on_notify(WatchKind::Create), Effect::Reload));
    assert!(matches!(fm.on_notify(WatchKind::Remove), Effect::Reload));
    assert!(matches!(fm.on_notify(WatchKind::Modify), Effect::Reload));
    assert!(matches!(fm.on_notify(WatchKind::Access), Effect::Nothing));
    assert!(matches!(fm.on_notify(WatchKind::Any), Effect::Nothing));
    assert!(matches!(fm.on_notify(WatchKind::Other), Effect::Nothing));
}

#[test]
fn shell_events_set_the_pid_and_follow_the_directory() {
    let mut fm = manager("/t", vec![dir("/t", "d")]);
    assert_eq!(fm.shell.pid, 0);
    assert!(matches!(fm.on_shell_event(ShellEvent::Pid(77)), Effect::Nothing));
    assert_eq!(fm.shell.pid, 77);
    // The shell is where the file manager is already.
    assert!(matches!(fm.on_shell_event(ShellEvent::ChangeDirectory("/t".to_string())), Effect::Nothing));
    match fm.on_shell_event(ShellEvent::ChangeDirectory("/t/d".to_string())) {
        Effect::Enter { path, select, then } => {
            assert_eq!(path, "/t/d");
            assert_eq!(select, None);
            assert!(then.is_none());
        }
        other => panic!("{:?}", other),
    }
    assert_eq!(fm.dir, "/t");
    assert!(matches!(fm.on_shell_event(ShellEvent::Exit), Effect::Nothing));
}

#[test]
fn entering_and_leaving_a_directory() {
    let mut fm = manager("/home/u", vec![dir("/home/u", "docs"), file("/home/u", "f")]);
    fm.shell.pid = 12;
    let mut bar = StatusBar::new();
    match fm.on_key(Key::Char('\n'), &mut bar, 0).unwrap() {
        Effect::Enter { path, select, then } => {
            assert_eq!(path, "/home/u/docs");
            assert_eq!(select, None);
            let then = then.unwrap();
            assert_eq!(then.pid, 12);
            assert_eq!(then.text, "scd_run_silently \"cd '/home/u/docs'\"");
        }
        other => panic!("{:?}", other),
    }
    fm.cd("/home/u/docs".to_string(), vec![file("/home/u/docs", "x")], None);
    assert_eq!(fm.dir, "/home/u/docs");
    match fm.on_key(Key::Char('h'), &mut bar, 0).unwrap() {
        Effect::Enter { path, select, then } => {
            assert_eq!(path, "/home/u");
            assert_eq!(select.as_deref(), Some("docs"));
            assert_eq!(then.unwrap().text, "scd_run_silently \"cd '/home/u'\"");
            fm.cd(
                path,
                vec![file("/home/u", "f"), dir("/home/u", "docs"), dir("/home/u", "apps")],
                select,
            );
        }
        other => panic!("{:?}", other),
    }
    assert_eq!(file_names(&fm), ["apps", "docs", "f"]);
    assert_eq!(fm.list_state.selected, Some(1));
    // Esc leaves as `h` does.
    assert!(matches!(fm.on_key(Key::Esc, &mut bar, 0), Ok(Effect::Enter { .. })));
}

#[test]
fn the_root_has_no_parent() {
    let mut fm = manager("/", vec![dir("/", "etc")]);
    fm.shell.pid = 3;
    let mut bar = StatusBar::new();
    assert!(matches!(fm.on_key(Key::Char('h'), &mut bar, 0), Ok(Effect::Nothing)));
    assert_eq!(fm.dir, "/");
}

#[test]
fn opening_a_file_uses_the_configured_command() {
    let mut methods = OpenMethods::new();
    methods.insert("pdf".to_string(), "zathura".to_string());
    let mut fm = FileManager::new(methods);
    fm.cd("/t".to_string(), vec![file("/t", "a.pdf"), file("/t", "b.txt"), file("/t", "c")], None);
    fm.shell.pid = 5;
    let mut bar = StatusBar::new();
    assert_eq!(sent(fm.on_key(Key::Char('l'), &mut bar, 0).unwrap()), (5, "scd_run_with_echo \"zathura 'a.pdf'\"".to_string()));
    fm.select_next();
    assert_eq!(sent(fm.on_key(Key::Char('l'), &mut bar, 0).unwrap()).1, "scd_run_with_echo \"xdg-open 'b.txt'\"");
    fm.select_next();
    assert_eq!(sent(fm.on_key(Key::Char('\n'), &mut bar, 0).unwrap()).1, "scd_run_with_echo \"xdg-open 'c'\"");
}

#[test]
fn marking_and_pasting() {
    let mut fm = manager("/t", vec![file("/t", "a"), file("/t", "b"), file("/t", "c")]);
    fm.shell.pid = 9;
    let mut bar = StatusBar::new();
    assert!(matches!(fm.on_key(Key::Char(' '), &mut bar, 0), Ok(Effect::Nothing)));
    assert_eq!(fm.files_marked, ["/t/a"]);
    assert_eq!(fm.list_state.selected, Some(1));
    fm.on_key(Key::Char(' '), &mut bar, 0).unwrap();
    fm.on_key(Key::Char(' '), &mut bar, 0).unwrap();
    assert_eq!(fm.files_marked, ["/t/a", "/t/b", "/t/c"]);
    // At the last file the selection stays.
    assert_eq!(fm.list_state.selected, Some(2));
    fm.on_key(Key::Char(' '), &mut bar, 0).unwrap();
    assert_eq!(fm.files_marked, ["/t/a", "/t/b"]);
    let (pid, text) = sent(fm.on_key(Key::Char('p'), &mut bar, 0).unwrap());
    assert_eq!(pid, 9);
    assert_eq!(text, "scd_run_with_echo \"cp -r '/t/a' '/t/b' .\"");
    assert!(fm.files_marked.is_empty());
    assert!(matches!(bar.mode, Mode::Normal));
}

#[test]
fn moving_marked_files() {
    let mut fm = manager("/t", vec![file("/t", "a")]);
    fm.shell.pid = 9;
    fm.files_marked = vec!["/u/x y".to_string()];
    let mut bar = StatusBar::new();
    let (_, text) = sent(fm.on_key(Key::Char('m'), &mut bar, 0).unwrap());
    assert_eq!(text, "scd_run_with_echo \"mv '/u/x y' .\"");
    assert!(fm.files_marked.is_empty());
}

#[test]
fn marks_are_dropped_even_without_a_shell() {
    let mut fm = manager("/t", vec![file("/t", "a")]);
    fm.files_marked = vec!["/t/a".to_string()];
    let mut bar = StatusBar::new();
    assert!(matches!(fm.on_key(Key::Char('p'), &mut bar, 0), Ok(Effect::Nothing)));
    assert!(fm.files_marked.is_empty());
}

#[test]
fn pasting_without_marks_shows_a_message() {
    let mut fm = manager("/t", vec![file("/t", "a")]);
    let mut bar = StatusBar::new();
    assert!(matches!(fm.on_key(Key::Char('p'), &mut bar, 1000), Ok(Effect::Nothing)));
    match &bar.mode {
        Mode::Message { text, expire_at } => {
            assert_eq!(text, "No files marked");
            assert_eq!(*expire_at, 5000);
        }
        other => panic!("{:?}", other),
    }
    let mut bar = StatusBar::new();
    fm.on_key(Key::Char('m'), &mut bar, 0).unwrap();
    assert!(matches!(bar.mode, Mode::Message { .. }));
}

#[test]
fn delete_asks_first() {
    let mut fm = manager("/t", vec![dir("/t", "d"), file("/t", "f")]);
    let mut bar = StatusBar::new();
    fm.on_key(Key::Char('d'), &mut bar, 0).unwrap();
    match &bar.mode {
        Mode::Ask { prompt, action } => {
            assert_eq!(prompt, "Delete directory d? [y/N]");
            assert!(matches!(action, PendingAction::Delete(path) if path == "/t/d"));
        }
        other => panic!("{:?}", other),
    }
    fm.select_next();
    fm.on_key(Key::Char('d'), &mut bar, 0).unwrap();
    match &bar.mode {
        Mode::Ask { prompt, .. } => assert_eq!(prompt, "Delete file f? [y/N]"),
        other => panic!("{:?}", other),
    }
}

#[test]
fn rename_and_filter_open_an_editor() {
    let mut fm = manager("/t", vec![file("/t", "old.txt")]);
    let mut bar = StatusBar::new();
    fm.on_key(Key::Char('r'), &mut bar, 0).unwrap();
    match &bar.mode {
        Mode::Edit { prompt, text, cursor, action } => {
            assert_eq!(prompt, "Rename: ");
            assert_eq!(text, "old.txt");
            assert_eq!(*cursor, 7);
            assert!(matches!(action, PendingAction::Rename(path) if path == "/t/old.txt"));
        }
        other => panic!("{:?}", other),
    }
    fm.on_key(Key::Char('/'), &mut bar, 0).unwrap();
    match &bar.mode {
        Mode::Edit { prompt, text, cursor, action } => {
            assert_eq!(prompt, "/");
            assert_eq!(text, "");
            assert_eq!(*cursor, 0);
            assert!(matches!(action, PendingAction::Filter));
        }
        other => panic!("{:?}", other),
    }
}

#[test]
fn keys_without_a_selection_do_nothing() {
    let mut fm = manager("/t", vec![]);
    fm.shell.pid = 4;
    let mut bar = StatusBar::new();
    for key in [Key::Char('l'), Key::Char(' '), Key::Char('d'), Key::Char('r')] {
        assert!(matches!(fm.on_key(key, &mut bar, 0), Ok(Effect::Nothing)));
        assert!(matches!(bar.mode, Mode::Normal));
    }
    assert!(fm.files_marked.is_empty());
}

#[test]
fn an_unknown_key_is_an_error() {
    let mut fm = manager("/t", vec![file("/t", "a")]);
    let mut bar = StatusBar::new();
    match fm.on_key(Key::Char('x'), &mut bar, 0) {
        Err(e) => {
            assert_eq!(e, KeyError::Unknown(Key::Char('x')));
            assert_eq!(e.message(), "Unknown key: Char('x')");
        }
        other => panic!("{:?}", other),
    }
    assert!(matches!(fm.on_key(Key::F(5), &mut bar, 0), Err(KeyError::Unknown(Key::F(5)))));
    assert!(matches!(bar.mode, Mode::Normal));
}

#[test]
fn the_list_keys_move_the_selection() {
    let mut fm = manager("/t", vec![file("/t", "a"), file("/t", "b"), file("/t", "c")]);
    let mut bar = StatusBar::new();
    let mut at = |fm: &mut FileManager, key: Key| {
        fm.on_key(key, &mut bar, 0).unwrap();
        fm.list_state.selected
    };
    assert_eq!(at(&mut fm, Key::Char('j')), Some(1));
    assert_eq!(at(&mut fm, Key::Down), Some(2));
    assert_eq!(at(&mut fm, Key::Ctrl('n')), Some(0));
    assert_eq!(at(&mut fm, Key::Char('k')), Some(2));
    assert_eq!(at(&mut fm, Key::Up), Some(1));
    assert_eq!(at(&mut fm, Key::Ctrl('p')), Some(0));
    assert_eq!(at(&mut fm, Key::Char('G')), Some(2));
    assert_eq!(at(&mut fm, Key::Char('g')), Some(0));
    assert_eq!(at(&mut fm, Key::End), Some(2));
    assert_eq!(at(&mut fm, Key::Home), Some(0));
}
