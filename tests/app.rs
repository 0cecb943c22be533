use logbook::app::{listen_key_events, App, InputMode, Key};
use logbook::body::BodyMode;
use logbook::metadata::{child_path, default_commands, BootstrapStep};

#[test]
fn typing_and_committing_a_line() {
    let mut app = App::default();
    assert_eq!(app.get_input_mode(), InputMode::Normal);
    for key in [Key::Char('e'), Key::Char('a'), Key::Char('b'), Key::Enter, Key::Esc] {
        listen_key_events(&mut app, key);
    }
    assert_eq!(app.get_input_mode(), InputMode::Normal);
    assert_eq!(app.input, "");
    assert_eq!(app.input_content, vec!["ab".to_string()]);
}

#[test]
fn backspace_erases_and_ignores_empty() {
    let mut app = App::default();
    listen_key_events(&mut app, Key::Char('e'));
    listen_key_events(&mut app, Key::Backspace);
    assert_eq!(app.input, "");
    listen_key_events(&mut app, Key::Char('x'));
    listen_key_events(&mut app, Key::Char('y'));
    listen_key_events(&mut app, Key::Backspace);
    assert_eq!(app.input, "x");
}

#[test]
fn normal_keys_are_not_typed() {
    let mut app = App::default();
    listen_key_events(&mut app, Key::Char('z'));
    listen_key_events(&mut app, Key::Enter);
    assert_eq!(app.input, "");
    assert!(app.input_content.is_empty());
    assert!(app.is_running);
}

#[test]
fn editing_keys_q_and_h_are_typed() {
    let mut app = App::default();
    listen_key_events(&mut app, Key::Char('e'));
    listen_key_events(&mut app, Key::Char('q'));
    listen_key_events(&mut app, Key::Char('h'));
    assert_eq!(app.input, "qh");
    assert!(app.is_running);
    assert_eq!(app.body.body_mode, BodyMode::List);
}

#[test]
fn q_stops_the_app() {
    let mut app = App::default();
    listen_key_events(&mut app, Key::Char('q'));
    assert!(!app.is_running);
}

#[test]
fn h_toggles_content() {
    let mut app = App::default();
    listen_key_events(&mut app, Key::Char('h'));
    assert_eq!(app.body.body_mode, BodyMode::Command);
    listen_key_events(&mut app, Key::Char('h'));
    assert_eq!(app.body.body_mode, BodyMode::List);
}

#[test]
fn arrows_move_selection() {
    let mut app = App::default();
    for name in ["Linux", "Todo", "logbook"] {
        app.body.list_stateful.add_item(name.to_string());
    }
    listen_key_events(&mut app, Key::Down);
    assert_eq!(app.body.list_stateful.selected(), Some(0));
    listen_key_events(&mut app, Key::Up);
    assert_eq!(app.body.list_stateful.selected(), Some(2));
    listen_key_events(&mut app, Key::Down);
    assert_eq!(app.body.list_stateful.selected(), Some(0));
}

#[test]
fn arrows_on_empty_list_do_not_panic() {
    let mut app = App::default();
    listen_key_events(&mut app, Key::Down);
    listen_key_events(&mut app, Key::Up);
    assert_eq!(app.body.list_stateful.selected(), Some(0));
    assert!(app.is_running);
}

#[test]
fn change_and_close() {
    let mut app = App::default();
    app.change_input_mode(InputMode::Editing);
    assert_eq!(app.get_input_mode(), InputMode::Editing);
    app.close_app();
    assert!(!app.is_running);
}

fn step_strings(step: &BootstrapStep) -> (String, Vec<String>) {
    match step {
        BootstrapStep::CreateDir { path } => (path.clone(), Vec::new()),
        BootstrapStep::WriteFile { path, lines } => (path.clone(), lines.clone()),
    }
}

#[test]
fn bootstrap_on_fresh_base() {
    let mut app = App::default();
    let steps = app.make_metadata_file("/tmp/x", false);
    assert_eq!(app.meta_file, "/tmp/x/.metadata");
    assert_eq!(app.current_dir, "/tmp/x/.metadata/root");
    assert_eq!(app.command_file, "/tmp/x/.metadata/commands.txt");
    assert_eq!(steps.len(), 3);
    assert!(matches!(&steps[0], BootstrapStep::CreateDir { path } if path == "/tmp/x/.metadata"));
    assert!(matches!(&steps[1], BootstrapStep::CreateDir { path } if path == "/tmp/x/.metadata/root"));
    let (path, lines) = step_strings(&steps[2]);
    assert!(matches!(&steps[2], BootstrapStep::WriteFile { .. }));
    assert_eq!(path, "/tmp/x/.metadata/commands.txt");
    assert_eq!(
        lines,
        vec![
            "mkdir <Node Name>-Create new Node".to_string(),
            "rm <Node Name>-Remove empty Nodes".to_string(),
        ]
    );
}

#[test]
fn bootstrap_twice_writes_nothing_the_second_time() {
    let mut app = App::default();
    let first = app.make_metadata_file("/tmp/x", false);
    assert_eq!(first.len(), 3);
    let paths = (app.meta_file.clone(), app.current_dir.clone(), app.command_file.clone());
    let second = app.make_metadata_file("/tmp/x", true);
    assert!(second.is_empty());
    assert_eq!(paths, (app.meta_file.clone(), app.current_dir.clone(), app.command_file.clone()));
}

#[test]
fn child_path_separators() {
    assert_eq!(child_path("/tmp/x/", ".metadata"), "/tmp/x/.metadata");
    assert_eq!(child_path("", ".metadata"), ".metadata");
    assert_eq!(child_path("a", "b"), "a/b");
}

#[test]
fn default_command_file_is_parseable() {
    let lines = default_commands();
    let table = logbook::commands::parse_command_lines(&lines).unwrap();
    assert_eq!(table[0].command, "mkdir <Node Name>");
    assert_eq!(table[1].description, "Remove empty Nodes");
}
