//! The practice screen: the user looks at the word, shows the definition and
//! says whether the word was known.

use vstd::prelude::*;
use crate::actions::{perform, performed, Intent};
use crate::session::{Session, SessionView};
use crate::ui::app::{App, Key};

verus! {

/// The meaning of each key on the practice screen.  The word is judged only
/// once its definition is shown and only once, and it is left only once it
/// is judged; a key that comes too early or again means nothing.
pub open spec fn intent_of(key: Key, s: SessionView) -> Intent {
    match key {
        Key::Esc => Intent::Leave,
        Key::Enter => if s.show_definition && s.graded is Some {
            Intent::Proceed
        } else {
            Intent::Ignore
        },
        Key::Char(c) => if c == 'q' {
            Intent::Leave
        } else if c == 's' {
            Intent::Reveal
        } else if c == 'y' || c == 'n' {
            if s.show_definition && s.graded is None {
                Intent::Grade(c == 'y')
            } else {
                Intent::Ignore
            }
        } else if c == 'm' {
            Intent::ToggleMark
        } else {
            Intent::Ignore
        },
        _ => Intent::Ignore,
    }
}

/// The meaning of a key on the practice screen.
pub fn intent(key: Key, session: &Session) -> (meant: Intent)
    ensures
        meant == intent_of(key, session@),
{
    match key {
        Key::Esc => Intent::Leave,
        Key::Enter => if session.show_definition && session.graded.is_some() {
            Intent::Proceed
        } else {
            Intent::Ignore
        },
        Key::Char(c) => if c == 'q' {
            Intent::Leave
        } else if c == 's' {
            Intent::Reveal
        } else if c == 'y' || c == 'n' {
            if session.show_definition && session.graded.is_none() {
                Intent::Grade(c == 'y')
            } else {
                Intent::Ignore
            }
        } else if c == 'm' {
            Intent::ToggleMark
        } else {
            Intent::Ignore
        },
        _ => Intent::Ignore,
    }
}

/// Carries out what the key means on the practice screen; `now` is the time
/// of the key.  Without a session nothing happens.
pub fn handle_event(app: &mut App, key: Key, now: i32)
    requires
        old(app).wf(),
    ensures
        final(app).wf(),
        old(app).session is None ==> *final(app) == *old(app),
        old(app).session matches Some(session) ==> performed(
            *old(app),
            intent_of(key, session@),
            now,
            *final(app),
        ),
{
    let meant = match &app.session {
        Some(session) => intent(key, session),
        None => {
            return ;
        },
    };
    perform(app, meant, now);
}

} // verus!
