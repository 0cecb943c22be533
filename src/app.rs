use vstd::prelude::*;

use crate::body::{toggled, Body, BodyMode};
use crate::list::{next_selected, previous_selected};
use crate::metadata::{
    bootstrap_steps, command_file_of, meta_dir_of, metadata_paths, planned_steps, root_dir_of,
    steps_view, BootstrapStep,
};

verus! {

/// Whether keys move around the application or are typed into the input line.
#[derive(Debug, Clone, Copy, PartialEq, Eq, Structural)]
pub enum InputMode {
    Normal,
    Editing,
}

/// A key press, as far as the application tells keys apart.
#[derive(Debug, Clone, Copy, PartialEq, Eq, Structural)]
pub enum Key {
    Char(char),
    Up,
    Down,
    Enter,
    Esc,
    Backspace,
    Other,
}

/// The whole state of the application.
pub struct App {
    pub input: String,
    /// Current input mode
    pub input_mode: InputMode,
    /// History of recorded messages
    pub input_content: Vec<String>,
    pub body: Body,
    pub meta_file: String,
    pub current_dir: String,
    pub command_file: String,
    pub is_running: bool,
}

/// Input mode after `key`.
pub open spec fn mode_after_key(mode: InputMode, key: Key) -> InputMode {
    match mode {
        InputMode::Normal => if key == Key::Char('e') {
            InputMode::Editing
        } else {
            InputMode::Normal
        },
        InputMode::Editing => if key == Key::Esc {
            InputMode::Normal
        } else {
            InputMode::Editing
        },
    }
}

/// Text of the input line after `key` is typed into it.
pub open spec fn input_after_key(input: Seq<char>, key: Key) -> Seq<char> {
    match key {
        Key::Char(c) => input.push(c),
        Key::Backspace => if input.len() == 0 {
            input
        } else {
            input.drop_last()
        },
        Key::Enter => Seq::empty(),
        _ => input,
    }
}

/// Relies on String::push: the character is appended at the end.
#[verifier::external_body]
fn push_char(s: &mut String, c: char)
    ensures
        final(s)@ == old(s)@.push(c),
{
    s.push(c)
}

/// Relies on String::pop: the last character is removed and returned,
/// and an empty string gives `None` and stays empty.
#[verifier::external_body]
fn pop_char(s: &mut String) -> (r: Option<char>)
    ensures
        old(s)@.len() == 0 ==> r is None && final(s)@ == old(s)@,
        old(s)@.len() > 0 ==> r == Some(old(s)@.last()) && final(s)@ == old(s)@.drop_last(),
{
    s.pop()
}

impl Default for App {
    fn default() -> (r: App)
        ensures
            r.input@.len() == 0,
            r.input_mode == InputMode::Normal,
            r.input_content@.len() == 0,
            r.body.body_mode == BodyMode::List,
            r.body.list_stateful.items@.len() == 0,
            r.body.list_stateful.selected is None,
            r.body.command_list is None,
            r.meta_file@.len() == 0,
            r.current_dir@.len() == 0,
            r.command_file@.len() == 0,
            r.is_running,
    {
        App {
            input_mode: InputMode::Normal,
            input: String::new(),
            input_content: Vec::new(),
            body: Body::new(),
            meta_file: String::new(),
            is_running: true,
            current_dir: String::new(),
            command_file: String::new(),
        }
    }
}

impl App {
    /// Locates the metadata tree under `base_dir` and records its paths;
    /// returns the filesystem changes still needed to set it up, which are
    /// none when its directory exists already.
    pub fn make_metadata_file(&mut self, base_dir: &str, meta_exists: bool) -> (r: Vec<
        BootstrapStep,
    >)
        ensures
            final(self).meta_file@ == meta_dir_of(base_dir@),
            final(self).current_dir@ == root_dir_of(base_dir@),
            final(self).command_file@ == command_file_of(base_dir@),
            steps_view(r@) == planned_steps(base_dir@, meta_exists),
            final(self).input == old(self).input,
            final(self).input_mode == old(self).input_mode,
            final(self).input_content == old(self).input_content,
            final(self).body == old(self).body,
            final(self).is_running == old(self).is_running,
    {
        let paths = metadata_paths(base_dir);
        let steps = bootstrap_steps(&paths, meta_exists);
        self.meta_file = paths.meta_dir;
        self.current_dir = paths.root_dir;
        self.command_file = paths.command_file;
        steps
    }

    pub fn change_input_mode(&mut self, input_mode: InputMode)
        ensures
            final(self).input_mode == input_mode,
            final(self).input == old(self).input,
            final(self).input_content == old(self).input_content,
            final(self).body == old(self).body,
            final(self).is_running == old(self).is_running,
            final(self).meta_file == old(self).meta_file,
            final(self).current_dir == old(self).current_dir,
            final(self).command_file == old(self).command_file,
    {
        self.input_mode = input_mode;
    }

    pub fn get_input_mode(&self) -> (r: InputMode)
        ensures
            r == self.input_mode,
    {
        self.input_mode
    }

    /// Asks the interaction loop to stop.
    pub fn close_app(&mut self)
        ensures
            !final(self).is_running,
            final(self).input == old(self).input,
            final(self).input_mode == old(self).input_mode,
            final(self).input_content == old(self).input_content,
            final(self).body == old(self).body,
            final(self).meta_file == old(self).meta_file,
            final(self).current_dir == old(self).current_dir,
            final(self).command_file == old(self).command_file,
    {
        self.is_running = false;
    }
}

/// Applies one key press to the application: in normal mode `e` starts
/// editing, `q` stops, `h` switches the body's content and the arrows move
/// the selection; in editing mode characters are typed, Backspace erases,
/// Enter records the line and Esc goes back to normal mode. Movement on an
/// empty list is ignored.
pub fn listen_key_events(app: &mut App, key: Key)
    ensures
        final(app).input_mode == mode_after_key(old(app).input_mode, key),
        final(app).is_running == (old(app).is_running && !(old(app).input_mode == InputMode::Normal
            && key == Key::Char('q'))),
        final(app).body.body_mode == if old(app).input_mode == InputMode::Normal && key
            == Key::Char('h') {
            toggled(old(app).body.body_mode)
        } else {
            old(app).body.body_mode
        },
        final(app).body.list_stateful.selected == if old(app).input_mode == InputMode::Normal && key
            == Key::Up {
            previous_selected(
                old(app).body.list_stateful.selected,
                old(app).body.list_stateful.items@.len(),
            )
        } else if old(app).input_mode == InputMode::Normal && key == Key::Down {
            next_selected(
                old(app).body.list_stateful.selected,
                old(app).body.list_stateful.items@.len(),
            )
        } else {
            old(app).body.list_stateful.selected
        },
        final(app).body.list_stateful.items@ == old(app).body.list_stateful.items@,
        final(app).body.command_list == old(app).body.command_list,
        final(app).input@ == if old(app).input_mode == InputMode::Editing {
            input_after_key(old(app).input@, key)
        } else {
            old(app).input@
        },
        final(app).input_content@ == if old(app).input_mode == InputMode::Editing && key
            == Key::Enter {
            old(app).input_content@.push(old(app).input)
        } else {
            old(app).input_content@
        },
        final(app).meta_file == old(app).meta_file,
        final(app).current_dir == old(app).current_dir,
        final(app).command_file == old(app).command_file,
{
    match app.get_input_mode() {
        InputMode::Normal => match key {
            Key::Char('e') => {
                app.change_input_mode(InputMode::Editing);
            },
            Key::Char('q') => {
                app.close_app();
            },
            Key::Char('h') => app.body.set_or_unset_help_mode(),
            Key::Up => {
                let _ = app.body.list_stateful.previous();
            },
            Key::Down => {
                let _ = app.body.list_stateful.next();
            },
            _ => {},
        },
        InputMode::Editing => edit_mode_fn(key, app),
    }
}

fn edit_mode_fn(key: Key, app: &mut App)
    requires
        old(app).input_mode == InputMode::Editing,
    ensures
        final(app).input_mode == mode_after_key(old(app).input_mode, key),
        final(app).input@ == input_after_key(old(app).input@, key),
        final(app).input_content@ == if key == Key::Enter {
            old(app).input_content@.push(old(app).input)
        } else {
            old(app).input_content@
        },
        final(app).is_running == old(app).is_running,
        final(app).body == old(app).body,
        final(app).meta_file == old(app).meta_file,
        final(app).current_dir == old(app).current_dir,
        final(app).command_file == old(app).command_file,
{
    match key {
        Key::Char(c) => {
            push_char(&mut app.input, c);
        },
        Key::Backspace => {
            let _ = pop_char(&mut app.input);
        },
        Key::Enter => {
            let line = app.input.clone();
            app.input = String::new();
            app.input_content.push(line);
        },
        Key::Esc => {
            app.change_input_mode(InputMode::Normal);
        },
        _ => {},
    }
}

} // verus!
