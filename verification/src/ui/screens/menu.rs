//! The menu: moving the selection, taking an entry, ending the program.

use vstd::prelude::*;
use crate::error::{message_text, EngineError};
use crate::session::{just_started, start_session, Type};
use crate::ui::app::{App, Key, MenuAction, Screen};

verus! {

/// What a key asks for on the menu.
#[derive(Debug, Clone, Copy, PartialEq, Eq, Structural)]
pub enum Command {
    /// End the program.
    Quit,
    /// Select the entry below.
    Down,
    /// Select the entry above.
    Up,
    /// Take the selected entry.
    Choose,
    /// Nothing: the key has no meaning on the menu.
    Nothing,
}

/// The meaning of each key on the menu.
pub open spec fn command_of(key: Key) -> Command {
    match key {
        Key::Esc => Command::Quit,
        Key::Down => Command::Down,
        Key::Up => Command::Up,
        Key::Enter => Command::Choose,
        Key::Char(c) => if c == 'q' {
            Command::Quit
        } else if c == 'j' {
            Command::Down
        } else if c == 'k' {
            Command::Up
        } else {
            Command::Nothing
        },
        _ => Command::Nothing,
    }
}

/// The meaning of a key on the menu.
pub fn command(key: Key) -> (asked: Command)
    ensures
        asked == command_of(key),
{
    match key {
        Key::Esc => Command::Quit,
        Key::Down => Command::Down,
        Key::Up => Command::Up,
        Key::Enter => Command::Choose,
        Key::Char(c) => if c == 'q' {
            Command::Quit
        } else if c == 'j' {
            Command::Down
        } else if c == 'k' {
            Command::Up
        } else {
            Command::Nothing
        },
        _ => Command::Nothing,
    }
}

/// What taking the entry `action` makes of the state `before`, whose message
/// is cleared already.  `Exit` asks the program to end.  A session either
/// starts, on the screen that belongs to it, or it does not, and then the
/// menu stays and shows why.  A custom session never starts.
pub open spec fn chosen(before: App, action: MenuAction, after: App) -> bool {
    &&& after.conn == before.conn
    &&& after.menu_items == before.menu_items
    &&& after.selected == before.selected
    &&& match action {
        MenuAction::Exit => {
            &&& after.should_quit
            &&& after.session == before.session
            &&& after.current_screen == before.current_screen
            &&& after.error is None
        },
        MenuAction::Session(session_type) => {
            &&& after.should_quit == before.should_quit
            &&& {
                ||| {
                    &&& session_type != Type::Custom
                    &&& after.session matches Some(session)
                    &&& just_started(session, session_type)
                    &&& after.current_screen != Screen::Menu
                    &&& after.error is None
                }
                ||| {
                    &&& after.session == before.session
                    &&& after.current_screen == before.current_screen
                    &&& after.error matches Some(text)
                    &&& session_type == Type::Custom ==> text@ == message_text(
                        EngineError::CustomUnsupported,
                    )
                }
            }
        },
    }
}

/// What a key makes of the menu.  Every key clears the message first.
pub open spec fn handled(before: App, key: Key, after: App) -> bool {
    let cleared = App { error: None, ..before };
    match command_of(key) {
        Command::Quit => after == (App { should_quit: true, ..cleared }),
        Command::Down => after == (App {
            selected: ((before.selected + 1) % (before.menu_items.len() as int)) as usize,
            ..cleared
        }),
        Command::Up => after == (App {
            selected: if before.selected == 0 {
                (before.menu_items.len() - 1) as usize
            } else {
                (before.selected - 1) as usize
            },
            ..cleared
        }),
        Command::Choose => chosen(cleared, before.menu_items[before.selected as int], after),
        Command::Nothing => after == cleared,
    }
}

/// Carries out what the key means on the menu.
pub fn handle_event(app: &mut App, key: Key)
    requires
        old(app).wf(),
    ensures
        final(app).wf(),
        handled(*old(app), key, *final(app)),
{
    app.error = None;
    match command(key) {
        Command::Quit => {
            app.should_quit = true;
        },
        Command::Down => {
            app.next();
        },
        Command::Up => {
            app.previous();
        },
        Command::Choose => {
            app.select();
            match app.menu_items[app.selected] {
                MenuAction::Session(session_type) => {
                    match start_session(&app.conn, session_type) {
                        Ok((session, screen)) => {
                            app.session = Some(session);
                            app.current_screen = screen;
                        },
                        Err(e) => {
                            app.error = Some(e.message());
                        },
                    }
                },
                MenuAction::Exit => {},
            }
        },
        Command::Nothing => {},
    }
}

} // verus!
