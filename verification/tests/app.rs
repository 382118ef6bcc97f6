use scd::app::App;
use scd::app::InputFocus;
use scd::effect::Effect;
use scd::effect::Signal;
use scd::event::Event;
use scd::file_manager::FileInfo;
use scd::file_manager::Metadata;
use scd::file_manager::WatchKind;
use scd::key::Key;
use scd::open_methods::OpenMethods;
use scd::shell::ShellEvent;
use scd::status_bar::Mode;
use scd::task_manager::ExitStatus;
use scd::task_manager::Status;
use scd::task_manager::TaskEvent;

fn entry(dir: &str, name: &str, is_dir: bool) -> FileInfo {
    FileInfo {
        path: format!("{}/{}", dir, name),
        name: name.to_string(),
        extension: None,
        metadata: Metadata { is_dir, is_file: !is_dir, mode: 0o644, len: 0 },
    }
}

fn app_in(dir: &str, names: &[&str]) -> App {
    let mut app = App::new(OpenMethods::new());
    app.file_manager.cd(dir.to_string(), names.iter().map(|n| entry(dir, n, false)).collect(), None);
    app
}

fn key(app: &mut App, c: char) -> Effect {
    app.on_event(Event::Key(Key::Char(c)), 0)
}

#[test]
fn the_program_at_its_start() {
    let app = App::new(OpenMethods::new());
    assert_eq!(app.file_manager.dir, "");
    assert!(app.file_manager.files.is_empty());
    assert_eq!(app.file_manager.shell.pid, 0);
    assert!(!app.file_manager.show_hidden);
    assert!(app.task_manager.tasks.is_empty());
    assert!(matches!(app.status_bar.mode, Mode::Normal));
    assert_eq!(app.input_focus, InputFocus::FileManager);
}

#[test]
fn test_permission_denied() {
    let mut app = App::new(OpenMethods::new());
    app.file_manager.cd("/tmp/t".to_string(), vec![entry("/tmp/t", "d", true)], None);
    let names = |app: &App| app.file_manager.files.iter().map(|f| f.name.clone()).collect::<Vec<_>>();
    assert_eq!(names(&app), ["d"]);

    // The directory is asked for; reading it fails; the failure is reported.
    let effect = key(&mut app, 'l');
    assert!(matches!(effect, Effect::Enter { ref path, .. } if path == "/tmp/t/d"));
    app.report("Permission denied (os error 13)".to_string(), 0);
    assert_eq!(app.file_manager.dir, "/tmp/t");
    assert_eq!(names(&app), ["d"]);
    assert!(matches!(app.status_bar.mode, Mode::Message { .. }));
}

#[test]
fn q_quits_with_a_farewell() {
    let mut app = app_in("/t", &["a"]);
    assert!(matches!(key(&mut app, 'q'), Effect::Quit(None)));
    app.on_event(Event::Shell(ShellEvent::Pid(90)), 0);
    match key(&mut app, 'q') {
        Effect::Quit(Some(command)) => {
            assert_eq!(command.pid, 90);
            assert_eq!(command.text, "scd_run_silently \"scd_deinit ''\"");
        }
        other => panic!("{:?}", other),
    }
}

#[test]
fn the_shell_leaving_ends_the_program() {
    let mut app = app_in("/t", &["a"]);
    app.on_event(Event::Shell(ShellEvent::Pid(90)), 0);
    assert!(matches!(app.on_event(Event::Shell(ShellEvent::Exit), 0), Effect::Quit(None)));
}

#[test]
fn tab_switches_the_focus() {
    let mut app = app_in("/t", &["a", "b"]);
    app.task_manager.new_task(1, "x".to_string(), "x".to_string());
    app.task_manager.new_task(2, "y".to_string(), "y".to_string());
    assert!(matches!(key(&mut app, '\t'), Effect::Nothing));
    assert_eq!(app.input_focus, InputFocus::TaskManager);
    key(&mut app, 'j');
    assert_eq!(app.task_manager.list_state.selected, Some(1));
    assert_eq!(app.file_manager.list_state.selected, Some(0));
    assert!(matches!(key(&mut app, 'z'), Effect::Signal { pid: 2, signal: Signal::Interrupt }));
    key(&mut app, '\t');
    assert_eq!(app.input_focus, InputFocus::FileManager);
    key(&mut app, 'j');
    assert_eq!(app.file_manager.list_state.selected, Some(1));
    assert_eq!(app.task_manager.list_state.selected, Some(1));
}

#[test]
fn an_unknown_key_becomes_a_message() {
    let mut app = app_in("/t", &["a"]);
    assert!(matches!(app.on_event(Event::Key(Key::Char('x')), 500), Effect::Nothing));
    match &app.status_bar.mode {
        Mode::Message { text, expire_at } => {
            assert_eq!(text, "Unknown key: Char('x')");
            assert_eq!(*expire_at, 4500);
        }
        other => panic!("{:?}", other),
    }
    app.on_event(Event::Key(Key::Ctrl('\n')), 0);
    assert!(matches!(&app.status_bar.mode, Mode::Message { text, .. } if text == "Unknown key: Ctrl('\\n')"));
    app.on_event(Event::Key(Key::F(12)), 0);
    assert!(matches!(&app.status_bar.mode, Mode::Message { text, .. } if text == "Unknown key: F(12)"));
    app.on_event(Event::Key(Key::Alt('\'')), 0);
    assert!(matches!(&app.status_bar.mode, Mode::Message { text, .. } if text == "Unknown key: Alt('\\'')"));
    app.on_event(Event::Key(Key::PageDown), 0);
    assert!(matches!(&app.status_bar.mode, Mode::Message { text, .. } if text == "Unknown key: PageDown"));
}

#[test]
fn a_key_dismisses_a_message_and_is_handled() {
    let mut app = app_in("/t", &["a", "b"]);
    app.report("oops".to_string(), 0);
    assert!(matches!(key(&mut app, 'j'), Effect::Nothing));
    assert!(matches!(app.status_bar.mode, Mode::Normal));
    assert_eq!(app.file_manager.list_state.selected, Some(1));
    // Also a key that opens a prompt.
    app.report("oops".to_string(), 0);
    key(&mut app, '/');
    assert!(matches!(app.status_bar.mode, Mode::Edit { .. }));
}

#[test]
fn a_prompt_takes_every_key() {
    let mut app = app_in("/t", &["a", "q"]);
    key(&mut app, '/');
    assert!(matches!(key(&mut app, 'q'), Effect::Nothing));
    assert!(matches!(key(&mut app, '\t'), Effect::Nothing));
    assert_eq!(app.file_manager.filter, "q\t");
    assert_eq!(app.input_focus, InputFocus::FileManager);
    assert!(app.file_manager.files.is_empty());
    app.on_event(Event::Key(Key::Esc), 0);
    assert!(matches!(app.status_bar.mode, Mode::Normal));
    key(&mut app, 'd');
    assert!(matches!(key(&mut app, 'q'), Effect::Nothing));
    assert!(matches!(app.status_bar.mode, Mode::Normal));
}

#[test]
fn a_tick_expires_the_message_and_refreshes() {
    let mut app = app_in("/t", &[]);
    app.report("m".to_string(), 1000);
    assert!(matches!(app.on_event(Event::Tick(3000), 3000), Effect::Refresh));
    assert!(matches!(app.status_bar.mode, Mode::Message { .. }));
    assert!(matches!(app.on_event(Event::Tick(5000), 5000), Effect::Refresh));
    assert!(matches!(app.status_bar.mode, Mode::Normal));
}

#[test]
fn watch_events_ask_for_a_reload() {
    let mut app = app_in("/t", &["a"]);
    assert!(matches!(app.on_event(Event::Watch(WatchKind::Remove), 0), Effect::Reload));
    assert!(matches!(app.on_event(Event::Watch(WatchKind::Access), 0), Effect::Nothing));
    app.file_manager.reload(vec![]);
    assert!(app.file_manager.files.is_empty());
}

#[test]
fn a_task_from_the_shell_is_spawned_and_supervised() {
    let mut app = app_in("/t", &[]);
    let effect = app.on_event(
        Event::Shell(ShellEvent::Task { command: "curl -O http://x/file".to_string(), rendered: "curl \u{2026}".to_string() }),
        0,
    );
    match effect {
        Effect::Spawn { command, rendered } => {
            assert_eq!(command, "curl -O http://x/file");
            assert_eq!(rendered, "curl \u{2026}");
            // Nothing is a task before the process runs.
            assert!(app.task_manager.tasks.is_empty());
            app.task_manager.new_task(300, command, rendered);
        }
        other => panic!("{:?}", other),
    }
    assert_eq!(app.task_manager.tasks.len(), 1);
    let line = TaskEvent::Stdout { line: "10 x 5k".to_string() };
    assert!(matches!(app.on_event(Event::Task { pid: 300, event: line }, 0), Effect::Nothing));
    assert!(matches!(&app.task_manager.tasks[0].status, Status::Running(text) if text == "5k/s 10%"));
    let exit = TaskEvent::Exit { exit_status: ExitStatus { code: Some(0), success: true } };
    app.on_event(Event::Task { pid: 300, event: exit }, 0);
    assert!(matches!(app.task_manager.tasks[0].status, Status::Exited(ExitStatus { success: true, .. })));
}

#[test]
fn a_failed_spawn_makes_no_task() {
    let mut app = app_in("/t", &[]);
    let effect = app.on_event(
        Event::Shell(ShellEvent::Task { command: "nonesuch".to_string(), rendered: "nonesuch".to_string() }),
        0,
    );
    assert!(matches!(effect, Effect::Spawn { .. }));
    app.report("No such file or directory (os error 2)".to_string(), 10);
    assert!(app.task_manager.tasks.is_empty());
    assert!(matches!(&app.status_bar.mode, Mode::Message { text, .. } if text.starts_with("No such file")));
}

#[test]
fn dropped_commands_are_not_replayed() {
    let mut app = app_in("/t", &["a", "b"]);
    // No shell yet: the commands are dropped.
    assert!(matches!(key(&mut app, 'l'), Effect::Nothing));
    key(&mut app, ' ');
    assert!(matches!(key(&mut app, 'p'), Effect::Nothing));
    key(&mut app, 'd');
    assert!(matches!(key(&mut app, 'y'), Effect::Nothing));
    // The shell attaches: nothing is sent for what was dropped.
    assert!(matches!(app.on_event(Event::Shell(ShellEvent::Pid(64)), 0), Effect::Nothing));
    assert_eq!(app.file_manager.shell.pid, 64);
    assert!(matches!(app.on_event(Event::Tick(1), 1), Effect::Refresh));
    assert!(matches!(key(&mut app, 'j'), Effect::Nothing));
    // From now on commands are sent.
    assert!(matches!(key(&mut app, 'l'), Effect::Send(_)));
    // And a shell that detaches drops them again.
    app.on_event(Event::Shell(ShellEvent::Pid(0)), 0);
    assert!(matches!(key(&mut app, 'l'), Effect::Nothing));
}

#[test]
fn the_shell_changing_directory_is_followed() {
    let mut app = app_in("/t", &["a"]);
    app.on_event(Event::Shell(ShellEvent::Pid(64)), 0);
    match app.on_event(Event::Shell(ShellEvent::ChangeDirectory("/u".to_string())), 0) {
        Effect::Enter { path, select, then } => {
            assert_eq!(path, "/u");
            assert!(select.is_none());
            // The shell is there already: it is told nothing.
            assert!(then.is_none());
            app.file_manager.cd(path, vec![entry("/u", "x", false)], select);
        }
        other => panic!("{:?}", other),
    }
    assert_eq!(app.file_manager.dir, "/u");
    assert!(matches!(app.on_event(Event::Shell(ShellEvent::ChangeDirectory("/u".to_string())), 0), Effect::Nothing));
}
