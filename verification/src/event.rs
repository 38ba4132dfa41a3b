//! What the session waits for.

use vstd::prelude::*;
use crate::app::App;
use crate::input::{after_key, command_of, handle_key, Command, Key};
use crate::session::AppView;

verus! {

/// What can happen while the session waits.
#[derive(PartialEq, Eq, Clone, Copy, Debug)]
pub enum Event {
    /// A key was pressed.
    Input(Key),
    /// The time between two ticks has passed.
    Tick,
}

/// The session after an event: a tick changes nothing.
pub open spec fn after_event(app: AppView, event: Event) -> AppView {
    match event {
        Event::Input(key) => after_key(app, key),
        Event::Tick => app,
    }
}

/// What an event leaves to the caller: a tick leaves nothing.
pub open spec fn command_after(app: AppView, event: Event) -> Command {
    match event {
        Event::Input(key) => command_of(app, key),
        Event::Tick => Command::Nothing,
    }
}

/// Handles one event, and tells what is left to the caller.
pub fn handle_event(event: Event, app: &mut App) -> (command: Command)
    ensures
        final(app)@ == after_event(old(app)@, event),
        command == command_after(old(app)@, event),
{
    match event {
        Event::Input(key) => handle_key(key, app),
        Event::Tick => Command::Nothing,
    }
}

} // verus!
