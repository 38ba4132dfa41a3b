//! What each key does to the session.

use vstd::prelude::*;
use crate::action::{Action, ActionView};
use crate::app::App;
use crate::prompt::Edit;
use crate::app::TabId;
use crate::session::AppView;

verus! {

/// A key as the terminal reports it.
#[derive(PartialEq, Eq, Clone, Copy, Debug)]
pub enum Key {
    Backspace,
    Left,
    Right,
    Up,
    Down,
    Home,
    End,
    PageUp,
    PageDown,
    BackTab,
    Delete,
    Insert,
    /// A function key, by its number.
    F(u8),
    /// A character typed alone.
    Char(char),
    /// A character typed with Alt.
    Alt(char),
    /// A character typed with Ctrl.
    Ctrl(char),
    Null,
    Esc,
}

/// What is left to do for the caller after a key was handled.
#[derive(PartialEq, Eq, Clone, Copy, Debug)]
pub enum Command {
    /// Nothing.
    Nothing,
    /// The script is to be written to the output path.
    Save,
    /// The session is over.
    Quit,
}

/// The session after Ctrl and `key` on the main screen: `s` skips the image
/// under the cursor, `z` is undo, every other key does nothing.
pub open spec fn after_app_key(app: AppView, key: char) -> AppView {
    if key == 's' {
        match app.current_image() {
            Some(image) => app.push(ActionView::Skip(image)),
            None => app,
        }
    } else if key == 'z' {
        app.pop()
    } else {
        app
    }
}

/// The session after the character `key` on the main screen: where the key
/// is bound and an image is left, the image is moved into the key's folder.
pub open spec fn after_mapping_key(app: AppView, key: char) -> AppView {
    if app.key_mapping.contains_key(key) {
        match app.current_image() {
            Some(image) => app.push(ActionView::Move(image, app.key_mapping[key])),
            None => app,
        }
    } else {
        app
    }
}

/// The session after a key on the main screen: Backspace deletes the image
/// under the cursor, a character with Ctrl is a command, a character alone a
/// binding.
pub open spec fn after_main_key(app: AppView, key: Key) -> AppView {
    match key {
        Key::Backspace => match app.current_image() {
            Some(image) => app.push(ActionView::Delete(image)),
            None => app,
        },
        Key::Ctrl(c) => after_app_key(app, c),
        Key::Char(c) => after_mapping_key(app, c),
        _ => app,
    }
}

/// The session after a key on the script screen: the arrows and `h`, `j`,
/// `k`, `l` scroll.
pub open spec fn after_script_key(app: AppView, key: Key) -> AppView {
    match key {
        Key::Up | Key::Char('k') => app.scroll_up(),
        Key::Down | Key::Char('j') => app.scroll_down(),
        Key::Left | Key::Char('h') => app.scroll_left(),
        Key::Right | Key::Char('l') => app.scroll_right(),
        _ => app,
    }
}

/// The editing command that a key stands for in the rename prompt.
pub open spec fn edit_of(key: Key) -> Option<Edit> {
    match key {
        Key::Ctrl('k') => Some(Edit::KillToEnd),
        Key::Ctrl('u') => Some(Edit::KillToStart),
        Key::Ctrl('l') => Some(Edit::Clear),
        Key::Ctrl('w') => Some(Edit::KillWord),
        Key::End | Key::Ctrl('e') => Some(Edit::End),
        Key::Home | Key::Ctrl('a') => Some(Edit::Home),
        Key::Left | Key::Ctrl('b') => Some(Edit::Left),
        Key::Right | Key::Ctrl('f') => Some(Edit::Right),
        Key::Backspace | Key::Ctrl('h') => Some(Edit::Backspace),
        Key::Delete | Key::Ctrl('d') => Some(Edit::Delete),
        Key::Char(c) => if c == '\n' {
            None
        } else {
            Some(Edit::Insert(c))
        },
        _ => None,
    }
}

/// The session after a key in the rename prompt: Esc leaves the prompt, Enter
/// takes its text as the new name, the editing keys edit, and every other key
/// does nothing.
pub open spec fn after_input_key(app: AppView, key: Key) -> AppView {
    match key {
        Key::Esc => app.close_input(),
        Key::Char('\n') => app.submit_input(),
        _ => match edit_of(key) {
            Some(edit) => app.edit(edit),
            None => app,
        },
    }
}

/// The session after any key: Ctrl-C changes nothing and ends the session; an
/// open prompt gets every other key; otherwise Ctrl-W changes nothing and asks
/// for the script to be saved, Ctrl-R opens the prompt, Tab shows the other
/// screen, and every other key goes to the screen that is shown.
pub open spec fn after_key(app: AppView, key: Key) -> AppView {
    if key == Key::Ctrl('c') {
        app
    } else if app.enable_input {
        after_input_key(app, key)
    } else {
        match key {
            Key::Ctrl('w') => app,
            Key::Ctrl('r') => app.rename_current_image(),
            Key::Char('\t') => app.switch_tab(),
            _ => match app.tab {
                TabId::Main => after_main_key(app, key),
                TabId::Script => after_script_key(app, key),
            },
        }
    }
}

/// What a key leaves to the caller.
pub open spec fn command_of(app: AppView, key: Key) -> Command {
    if key == Key::Ctrl('c') {
        Command::Quit
    } else if !app.enable_input && key == Key::Ctrl('w') {
        Command::Save
    } else {
        Command::Nothing
    }
}

/// Handles a key on the main screen.
pub fn handle_key_main(key: Key, app: &mut App)
    ensures
        final(app)@ == after_main_key(old(app)@, key),
{
    match key {
        Key::Backspace => {
            if let Some(image) = app.current_image() {
                app.push_action(Action::Delete(image));
            }
        },
        Key::Ctrl(c) => handle_app_key(c, app),
        Key::Char(c) => handle_mapping_key(c, app),
        _ => {},
    }
}

/// Handles a character typed with Ctrl on the main screen.
pub fn handle_app_key(key: char, app: &mut App)
    ensures
        final(app)@ == after_app_key(old(app)@, key),
{
    if key == 's' {
        if let Some(image) = app.current_image() {
            app.push_action(Action::Skip(image));
        }
    } else if key == 'z' {
        app.pop_action();
    }
}

/// Handles a character typed alone on the main screen.
pub fn handle_mapping_key(key: char, app: &mut App)
    ensures
        final(app)@ == after_mapping_key(old(app)@, key),
{
    let folder = match app.key_mapping().get(key) {
        Some(path) => path.clone(),
        None => {
            return;
        },
    };
    if let Some(image) = app.current_image() {
        app.push_action(Action::Move(image, folder));
    }
}

/// Handles a key on the script screen.
pub fn handle_key_script(key: Key, app: &mut App)
    ensures
        final(app)@ == after_script_key(old(app)@, key),
{
    match key {
        Key::Up | Key::Char('k') => app.scroll_up(),
        Key::Down | Key::Char('j') => app.scroll_down(),
        Key::Left | Key::Char('h') => app.scroll_left(),
        Key::Right | Key::Char('l') => app.scroll_right(),
        _ => {},
    }
}

/// The editing command that a key stands for in the rename prompt.
pub fn key_edit(key: Key) -> (edit: Option<Edit>)
    ensures
        edit == edit_of(key),
{
    match key {
        Key::Ctrl('k') => Some(Edit::KillToEnd),
        Key::Ctrl('u') => Some(Edit::KillToStart),
        Key::Ctrl('l') => Some(Edit::Clear),
        Key::Ctrl('w') => Some(Edit::KillWord),
        Key::End | Key::Ctrl('e') => Some(Edit::End),
        Key::Home | Key::Ctrl('a') => Some(Edit::Home),
        Key::Left | Key::Ctrl('b') => Some(Edit::Left),
        Key::Right | Key::Ctrl('f') => Some(Edit::Right),
        Key::Backspace | Key::Ctrl('h') => Some(Edit::Backspace),
        Key::Delete | Key::Ctrl('d') => Some(Edit::Delete),
        Key::Char(c) => if c == '\n' {
            None
        } else {
            Some(Edit::Insert(c))
        },
        _ => None,
    }
}

/// Handles a key while the rename prompt is open.
pub fn handle_key_input(key: Key, app: &mut App)
    ensures
        final(app)@ == after_input_key(old(app)@, key),
{
    match key {
        Key::Esc => app.close_input(),
        Key::Char('\n') => app.submit_input(),
        _ => match key_edit(key) {
            Some(edit) => app.edit_input(edit),
            None => {},
        },
    }
}

/// Handles any key, and tells what is left to the caller.
pub fn handle_key(key: Key, app: &mut App) -> (command: Command)
    ensures
        final(app)@ == after_key(old(app)@, key),
        command == command_of(old(app)@, key),
{
    if let Key::Ctrl('c') = key {
        return Command::Quit;
    }
    if app.enable_input() {
        handle_key_input(key, app);
        return Command::Nothing;
    }
    match key {
        Key::Ctrl('w') => {
            return Command::Save;
        },
        Key::Ctrl('r') => app.rename_current_image(),
        Key::Char('\t') => app.switch_tab(),
        _ => match app.current_tab() {
            TabId::Main => handle_key_main(key, app),
            TabId::Script => handle_key_script(key, app),
        },
    }
    Command::Nothing
}

} // verus!
