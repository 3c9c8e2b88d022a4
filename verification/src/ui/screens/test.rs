//! The test screen: the user types the word that belongs to the definition
//! and hands it in.

use vstd::prelude::*;
use crate::actions::{perform, performed, Intent};
use crate::session::{Session, SessionView};
use crate::ui::app::{App, Key};

verus! {

/// The meaning of each key on the test screen.  In insert mode every
/// character is typed and only Esc, Backspace and Enter have another
/// meaning.  Enter hands the answer in, and moves on once the word is
/// judged.
pub open spec fn intent_of(key: Key, s: SessionView) -> Intent {
    match key {
        Key::Esc => if s.insert_mode {
            Intent::StopTyping
        } else {
            Intent::Leave
        },
        Key::Char(c) => if s.insert_mode {
            Intent::Type(c)
        } else if c == 'q' {
            Intent::Leave
        } else if c == 'i' {
            Intent::StartTyping
        } else if c == 'm' {
            Intent::ToggleMark
        } else {
            Intent::Ignore
        },
        Key::Backspace => if s.insert_mode {
            Intent::Erase
        } else {
            Intent::Ignore
        },
        Key::Enter => if s.graded is None {
            Intent::Submit
        } else {
            Intent::Proceed
        },
        _ => Intent::Ignore,
    }
}

/// The meaning of a key on the test screen.
pub fn intent(key: Key, session: &Session) -> (meant: Intent)
    ensures
        meant == intent_of(key, session@),
{
    match key {
        Key::Esc => if session.insert_mode {
            Intent::StopTyping
        } else {
            Intent::Leave
        },
        Key::Char(c) => if session.insert_mode {
            Intent::Type(c)
        } else if c == 'q' {
            Intent::Leave
        } else if c == 'i' {
            Intent::StartTyping
        } else if c == 'm' {
            Intent::ToggleMark
        } else {
            Intent::Ignore
        },
        Key::Backspace => if session.insert_mode {
            Intent::Erase
        } else {
            Intent::Ignore
        },
        Key::Enter => if session.graded.is_none() {
            Intent::Submit
        } else {
            Intent::Proceed
        },
        _ => Intent::Ignore,
    }
}

/// Carries out what the key means on the test screen; `now` is the time of
/// the key.  Without a session nothing happens.
pub fn handle_event(app: &mut App, key: Key, now: i32)
    requires
        old(app).wf(),
    ensures
        final(app).wf(),
        old(app).session is None ==> *final(app) == *old(app),
        old(app).session matches Some(session) ==> performed(
            *old(app),
            intent_of(key, session@),
            now,
            *final(app),
        ),
{
    let meant = match &app.session {
        Some(session) => intent(key, session),
        None => {
            return ;
        },
    };
    perform(app, meant, now);
}

} // verus!
