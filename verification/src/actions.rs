//! What the program does on the user's intents during a session: it changes
//! the session and writes to the store what has to last.

use vstd::prelude::*;
use rusqlite::Connection;
use crate::db::queries::{save_progress, update_word_stats};
use crate::error::EngineError;
use crate::session::{Session, SessionView, Type};
use crate::ui::app::{App, Screen};

verus! {

/// What the user wants to do with the session.
#[derive(Debug, Clone, Copy, PartialEq, Eq, Structural)]
pub enum Intent {
    /// Nothing: the key has no meaning now.
    Ignore,
    /// Go back to the menu.
    Leave,
    /// Show the definition.
    Reveal,
    /// Judge the word oneself, as right or as wrong.
    Grade(bool),
    /// Flip the mark of the word.
    ToggleMark,
    /// Start typing an answer.
    StartTyping,
    /// Stop typing.
    StopTyping,
    /// Type one character.
    Type(char),
    /// Take back the last character.
    Erase,
    /// Hand in the typed answer.
    Submit,
    /// Move on to the next word.
    Proceed,
}

/// Judges the current word as the user says and stores its statistics at
/// once.  A judgement that the session refuses changes nothing and writes
/// nothing.  One that it accepts is counted in the session whatever the store
/// answers; where the store fails, the failure is returned and the session is
/// ahead of the store.
pub fn grade_word(conn: &Connection, session: &mut Session, is_correct: bool, now: i32) -> (stored:
    Result<(), EngineError>)
    requires
        old(session).has_current(),
    ensures
        final(session).has_current(),
        old(session).wf() || old(session)@.grade_refusal() is None ==> final(session).wf(),
        old(session)@.grade_refusal() matches Some(e) ==> stored == Err::<(), EngineError>(e)
            && *final(session) == *old(session),
        old(session)@.grade_refusal() is None ==> final(session)@ == old(session)@.graded_as(
            is_correct,
        ).counted(is_correct, now),
        old(session)@.grade_refusal() is None ==> (stored matches Err(e) ==> e
            == EngineError::WordNotFound(old(session)@.current().id) || e is Storage),
{
    match session.grade(is_correct) {
        Err(e) => Err(e),
        Ok(()) => {
            let word = session.current_mut();
            word.record_grade(is_correct, now);
            update_word_stats(conn, session.current())
        },
    }
}

/// Hands in the typed answer, which judges the current word, and stores the
/// statistics of the word at once.  The result is the judgement.  For a word
/// that is judged already the call is refused, changes nothing and writes
/// nothing.  Otherwise the judgement is counted in the session whatever the
/// store answers; where the store fails, the failure is returned and the
/// session is ahead of the store.
pub fn submit_answer(conn: &Connection, session: &mut Session, now: i32) -> (stored: Result<
    bool,
    EngineError,
>)
    requires
        old(session).has_current(),
    ensures
        final(session).has_current(),
        old(session).wf() || old(session).graded is None ==> final(session).wf(),
        old(session).graded is Some ==> stored == Err::<bool, EngineError>(
            EngineError::AlreadyGraded,
        ) && *final(session) == *old(session),
        old(session).graded is None ==> final(session)@ == old(session)@.submitted().counted(
            old(session)@.answer_right(),
            now,
        ),
        old(session).graded is None ==> (stored matches Ok(right) ==> right == old(session)@.answer_right()),
        old(session).graded is None ==> (stored matches Err(e) ==> e == EngineError::WordNotFound(
            old(session)@.current().id,
        ) || e is Storage),
{
    match session.submit() {
        Err(e) => Err(e),
        Ok(right) => {
            let word = session.current_mut();
            word.record_grade(right, now);
            match update_word_stats(conn, session.current()) {
                Ok(()) => Ok(right),
                Err(e) => Err(e),
            }
        },
    }
}

/// Moves on to the next word.  Before that, what has to last is written: the
/// current word, as the session holds it, and, where a group session has
/// come to its end, the resume marker, which names `screen`, the group and
/// the first position.  The session moves on only after these writes have
/// succeeded; on a failure it stays as it is.  The result says whether the
/// session has come round to its first word.  A word that is not judged yet
/// is not left: the call is refused and nothing is written.
pub fn next_word(conn: &Connection, session: &mut Session, screen: Screen) -> (moved: Result<
    bool,
    EngineError,
>)
    requires
        old(session).has_current(),
    ensures
        final(session).has_current(),
        old(session).wf() || moved is Ok ==> final(session).wf(),
        old(session).graded is None ==> moved == Err::<bool, EngineError>(EngineError::NotGraded),
        moved is Err ==> *final(session) == *old(session),
        moved matches Ok(done) ==> old(session).graded is Some && done == old(session)@.at_last()
            && final(session)@ == old(session)@.advanced(),
        moved matches Err(e) ==> (e == EngineError::NotGraded <==> old(session).graded is None),
        moved matches Err(e) ==> e == EngineError::NotGraded || e == EngineError::WordNotFound(
            old(session)@.current().id,
        ) || e is Storage,
{
    if session.graded.is_none() {
        return Err(EngineError::NotGraded);
    }
    match update_word_stats(conn, session.current()) {
        Ok(()) => {},
        Err(e) => {
            return Err(e);
        },
    }
    match round_marker(session, screen) {
        Some(marker) => {
            match save_progress(conn, marker) {
                Ok(()) => {},
                Err(e) => {
                    return Err(e);
                },
            }
        },
        None => {},
    }
    session.advance()
}

/// The resume marker of a session that moves on from its current word on
/// `screen`: a group session that stands at its last word has one, which
/// names the screen, the group of that word and the first position; any
/// other session has none.
pub open spec fn round_marker_of(s: SessionView, screen: Screen) -> Option<(Screen, i32, usize)> {
    if s.session_type == Type::Group && s.at_last() {
        Some((screen, s.current().group_id, 0usize))
    } else {
        None
    }
}

/// The resume marker to write before the session moves on from its current
/// word on `screen`, if it has one.
pub fn round_marker(session: &Session, screen: Screen) -> (marker: Option<(Screen, i32, usize)>)
    requires
        session.has_current(),
    ensures
        marker == round_marker_of(session@, screen),
{
    match session.session_type {
        Type::Group => if session.at_last() {
            Some((screen, session.current().group_id, 0))
        } else {
            None
        },
        _ => None,
    }
}

/// Writes the resume marker of a session that the user leaves: for a group
/// session `screen`, the group and the position.  For the other kinds of
/// session nothing is written, and the call succeeds.
pub fn leave_session(conn: &Connection, session: &Session, screen: Screen) -> (saved: Result<
    (),
    EngineError,
>)
    requires
        session.has_current(),
    ensures
        session.session_type != Type::Group ==> saved is Ok,
        saved matches Err(e) ==> e is Storage,
{
    match resume_marker(session, screen) {
        Some(marker) => save_progress(conn, marker),
        None => Ok(()),
    }
}

/// The resume marker of a session that is left on `screen`: a group session
/// has one, which names the screen, the group of its current word and its
/// position; the other kinds of session have none.
pub open spec fn marker_of(s: SessionView, screen: Screen) -> Option<(Screen, i32, usize)> {
    if s.session_type == Type::Group {
        Some((screen, s.current().group_id, s.index as usize))
    } else {
        None
    }
}

/// The resume marker to write when the session is left on `screen`, if it has
/// one.
pub fn resume_marker(session: &Session, screen: Screen) -> (marker: Option<(Screen, i32, usize)>)
    requires
        session.has_current(),
    ensures
        marker == marker_of(session@, screen),
{
    match session.session_type {
        Type::Group => Some((screen, session.current().group_id, session.index)),
        _ => None,
    }
}

/// The state did not change but for the session.
pub open spec fn session_only(before: App, after: App) -> bool {
    &&& after.same_menu(&before)
    &&& after.current_screen == before.current_screen
    &&& after.error == before.error
}

/// A write to the store failed: the program shows the failure on the menu.
pub open spec fn failed(before: App, after: App) -> bool {
    &&& after.same_menu(&before)
    &&& after.current_screen == Screen::Menu
    &&& after.error is Some
}

/// What `perform` makes of the state `before`, which holds a session.
pub open spec fn performed(before: App, intent: Intent, now: i32, after: App) -> bool {
    let s = before.session->Some_0@;
    match intent {
        Intent::Ignore => after == before,
        Intent::Leave => {
            &&& after.same_menu(&before)
            &&& after.session is None
            &&& after.current_screen == Screen::Menu
            &&& s.session_type != Type::Group ==> after.error == before.error
        },
        Intent::Reveal => session_only(before, after) && after.session is Some
            && after.session->Some_0@ == s.revealed(),
        Intent::ToggleMark => session_only(before, after) && after.session is Some
            && after.session->Some_0@ == s.mark_toggled(),
        Intent::StartTyping => session_only(before, after) && after.session is Some
            && after.session->Some_0@ == s.with_insert_mode(true),
        Intent::StopTyping => session_only(before, after) && after.session is Some
            && after.session->Some_0@ == s.with_insert_mode(false),
        Intent::Type(c) => session_only(before, after) && after.session is Some
            && after.session->Some_0@ == s.typed(c),
        Intent::Erase => session_only(before, after) && after.session is Some
            && after.session->Some_0@ == s.erased(),
        Intent::Grade(is_correct) => if s.grade_refusal() is Some {
            after == before
        } else {
            &&& after.session is Some
            &&& after.session->Some_0@ == s.graded_as(is_correct).counted(is_correct, now)
            &&& session_only(before, after) || failed(before, after)
        },
        Intent::Submit => if s.graded is Some {
            after == before
        } else {
            &&& after.session is Some
            &&& after.session->Some_0@ == s.submitted().counted(s.answer_right(), now)
            &&& session_only(before, after) || failed(before, after)
        },
        Intent::Proceed => if s.graded is None {
            after == before
        } else {
            ||| session_only(before, after) && after.session is Some && after.session->Some_0@
                == s.advanced()
            ||| failed(before, after) && after.session == before.session
        },
    }
}

/// Shows a failure on the menu.
fn fail(app: &mut App, e: EngineError)
    ensures
        final(app).same_menu(old(app)),
        final(app).session == old(app).session,
        final(app).current_screen == Screen::Menu,
        final(app).error is Some,
{
    app.error = Some(e.message());
    app.current_screen = Screen::Menu;
}

/// Carries out an intent of the user on the session of the program.  Without
/// a session there is nothing to do.  Where a write to the store fails, the
/// program goes back to the menu and shows the failure.
pub fn perform(app: &mut App, intent: Intent, now: i32)
    requires
        old(app).wf(),
    ensures
        final(app).wf(),
        old(app).session is None ==> *final(app) == *old(app),
        old(app).session is Some ==> performed(*old(app), intent, now, *final(app)),
{
    let mut session = match app.session.take() {
        Some(session) => session,
        None => {
            return ;
        },
    };
    match intent {
        Intent::Ignore => {},
        Intent::Leave => {
            let saved = leave_session(&app.conn, &session, app.current_screen);
            app.current_screen = Screen::Menu;
            match saved {
                Ok(()) => {},
                Err(e) => {
                    app.error = Some(e.message());
                },
            }
            return ;
        },
        Intent::Reveal => {
            session.reveal_definition();
        },
        Intent::ToggleMark => {
            session.toggle_mark();
        },
        Intent::StartTyping => {
            session.enter_edit_mode();
        },
        Intent::StopTyping => {
            session.exit_edit_mode();
        },
        Intent::Type(c) => {
            session.push_char(c);
        },
        Intent::Erase => {
            session.pop_char();
        },
        Intent::Grade(is_correct) => {
            if session.graded.is_none() && session.show_definition {
                match grade_word(&app.conn, &mut session, is_correct, now) {
                    Ok(()) => {},
                    Err(e) => {
                        fail(app, e);
                    },
                }
            }
        },
        Intent::Submit => {
            if session.graded.is_none() {
                match submit_answer(&app.conn, &mut session, now) {
                    Ok(_) => {},
                    Err(e) => {
                        fail(app, e);
                    },
                }
            }
        },
        Intent::Proceed => {
            if session.graded.is_some() {
                match next_word(&app.conn, &mut session, app.current_screen) {
                    Ok(_) => {},
                    Err(e) => {
                        fail(app, e);
                    },
                }
            }
        },
    }
    app.session = Some(session);
}

} // verus!
