//! One turn of the program: a key goes to the screen that is shown.

use vstd::prelude::*;
use crate::actions::performed;
use crate::ui::app::{App, Key, Screen};
use crate::ui::screens::{menu, practice};

verus! {

/// Hands the key to the screen that is shown; `now` is the time of the key.
/// The caller draws the state, reads the next key, and goes on until
/// `should_quit` is set.
pub fn handle_key(app: &mut App, key: Key, now: i32)
    requires
        old(app).wf(),
    ensures
        final(app).wf(),
        old(app).current_screen == Screen::Menu ==> menu::handled(*old(app), key, *final(app)),
        old(app).current_screen != Screen::Menu && old(app).session is None ==> *final(app)
            == *old(app),
        old(app).current_screen == Screen::Practice ==> (old(app).session matches Some(session)
            ==> performed(*old(app), practice::intent_of(key, session@), now, *final(app))),
        old(app).current_screen == Screen::Test ==> (old(app).session matches Some(session)
            ==> performed(*old(app), crate::ui::screens::test::intent_of(key, session@), now, *final(app))),
{
    match app.current_screen {
        Screen::Menu => menu::handle_event(app, key),
        Screen::Practice => practice::handle_event(app, key, now),
        Screen::Test => crate::ui::screens::test::handle_event(app, key, now),
    }
}

} // verus!
