//! A review session: one ordered list of words, the position in it, and what
//! the user has done with the word at that position.

use vstd::prelude::*;
use rusqlite::Connection;
use crate::db::models::Word;
use crate::db::queries;
use crate::error::EngineError;
use crate::selection::{is_review, Criterion};
use crate::text::{answer_is_right, answer_matches};
use crate::ui::app::Screen;

verus! {

/// The kinds of session.
#[derive(Debug, Copy, Clone, PartialEq, Eq, Structural)]
pub enum Type {
    Group,
    Marked,
    Weak,
    Custom,
}

impl Default for Type {
    fn default() -> (t: Self)
        ensures
            t == Type::Group,
    {
        Type::Group
    }
}

/// The name of each kind of session in the menu.
pub open spec fn type_label(t: Type) -> Seq<char> {
    match t {
        Type::Group => "Continue Learning"@,
        Type::Marked => "Review Marks"@,
        Type::Weak => "Revise Weak"@,
        Type::Custom => "Custom Query"@,
    }
}

impl Type {
    /// The name of the kind in the menu.
    pub fn label(&self) -> (text: &'static str)
        ensures
            text@ == type_label(*self),
    {
        match self {
            Type::Group => "Continue Learning",
            Type::Marked => "Review Marks",
            Type::Weak => "Revise Weak",
            Type::Custom => "Custom Query",
        }
    }
}

/// How far the user has come with the current word.
#[derive(Debug, Copy, Clone, PartialEq, Eq, Structural)]
pub enum Phase {
    /// The definition is hidden and the word is not judged.
    Unrevealed,
    /// The definition is shown and the word is not judged.
    Revealed,
    /// The word is judged.
    Graded,
}

/// A session as a mathematical value.
pub struct SessionView {
    pub words: Seq<Word>,
    pub index: int,
    pub session_type: Type,
    pub show_definition: bool,
    pub graded: Option<bool>,
    pub input: Seq<char>,
    pub insert_mode: bool,
}

impl SessionView {
    /// The position names one of the words of the session.
    pub open spec fn has_current(self) -> bool {
        0 <= self.index < self.words.len()
    }

    /// A session is well formed when its position names one of its words and
    /// a word that is judged has its definition shown.
    pub open spec fn wf(self) -> bool {
        &&& self.has_current()
        &&& self.graded is Some ==> self.show_definition
    }

    /// The session as it starts: at `index`, with nothing shown, judged or
    /// typed.
    pub open spec fn initial(words: Seq<Word>, index: int, session_type: Type) -> SessionView {
        SessionView {
            words,
            index,
            session_type,
            show_definition: false,
            graded: None,
            input: Seq::empty(),
            insert_mode: false,
        }
    }

    /// How far the user has come with the current word.
    pub open spec fn phase(self) -> Phase {
        if self.graded is Some {
            Phase::Graded
        } else if self.show_definition {
            Phase::Revealed
        } else {
            Phase::Unrevealed
        }
    }

    /// The word at the position.
    pub open spec fn current(self) -> Word {
        self.words[self.index]
    }

    /// Whether the position is the last one.
    pub open spec fn at_last(self) -> bool {
        self.index + 1 >= self.words.len()
    }

    /// The session with what belongs to the current visit cleared.
    pub open spec fn fresh(self) -> SessionView {
        SessionView {
            show_definition: false,
            graded: None,
            input: Seq::empty(),
            insert_mode: false,
            ..self
        }
    }

    /// The session with the definition shown.
    pub open spec fn revealed(self) -> SessionView {
        SessionView { show_definition: true, ..self }
    }

    /// Why the user may not judge the word now, if so.
    pub open spec fn grade_refusal(self) -> Option<EngineError> {
        if self.graded is Some {
            Some(EngineError::AlreadyGraded)
        } else if !self.show_definition {
            Some(EngineError::NotRevealed)
        } else {
            None
        }
    }

    /// The session with the word judged by the user.
    pub open spec fn graded_as(self, is_correct: bool) -> SessionView {
        SessionView { graded: Some(is_correct), ..self }
    }

    /// Whether what is typed is a right answer for the current word.
    pub open spec fn answer_right(self) -> bool {
        answer_is_right(self.input, self.current().word@)
    }

    /// The session with the typed answer handed in: the word is judged by
    /// the answer, the definition is shown, and typing has ended.
    pub open spec fn submitted(self) -> SessionView {
        SessionView {
            graded: Some(self.answer_right()),
            show_definition: true,
            insert_mode: false,
            ..self
        }
    }

    /// The session with the judgement of the current word, made at time
    /// `now`, counted in the statistics of that word.
    pub open spec fn counted(self, is_correct: bool, now: i32) -> SessionView {
        SessionView {
            words: self.words.update(self.index, self.current().graded(is_correct, now)),
            ..self
        }
    }

    /// The session with the mark of the current word flipped.
    pub open spec fn mark_toggled(self) -> SessionView {
        SessionView { words: self.words.update(self.index, self.current().toggled()), ..self }
    }

    /// The session at its next word, or at its first one after the last; the
    /// new visit starts with nothing shown, judged or typed.
    pub open spec fn advanced(self) -> SessionView {
        SessionView { index: if self.at_last() { 0 } else { self.index + 1 }, ..self.fresh() }
    }

    /// Whether typing changes anything: only while the word is not judged
    /// and the session is in insert mode.
    pub open spec fn accepts_input(self) -> bool {
        self.graded is None && self.insert_mode
    }

    /// The session after one character was typed.
    pub open spec fn typed(self, c: char) -> SessionView {
        if self.accepts_input() {
            SessionView { input: self.input.push(c), ..self }
        } else {
            self
        }
    }

    /// The session after the last typed character was taken back.
    pub open spec fn erased(self) -> SessionView {
        if self.accepts_input() && self.input.len() > 0 {
            SessionView { input: self.input.drop_last(), ..self }
        } else {
            self
        }
    }

    /// The session with insert mode set, which a judged word does not allow.
    pub open spec fn with_insert_mode(self, on: bool) -> SessionView {
        if self.graded is None {
            SessionView { insert_mode: on, ..self }
        } else {
            self
        }
    }
}

/// A review session.
#[derive(Debug)]
pub struct Session {
    pub words: Vec<Word>,
    pub index: usize,
    pub session_type: Type,
    pub show_definition: bool,
    pub graded: Option<bool>,
    pub input_buffer: String,
    pub insert_mode: bool,
}

impl View for Session {
    type V = SessionView;

    open spec fn view(&self) -> SessionView {
        SessionView {
            words: self.words@,
            index: self.index as int,
            session_type: self.session_type,
            show_definition: self.show_definition,
            graded: self.graded,
            input: self.input_buffer@,
            insert_mode: self.insert_mode,
        }
    }
}

/// `index` where it names one of `len` words, else the last of them.
pub open spec fn clamped(index: usize, len: nat) -> int {
    if index < len {
        index as int
    } else {
        len - 1
    }
}

/// The position to resume at in a list of `len` words, when `index` was saved
/// for a list that may have been longer.
pub fn clamp_index(index: usize, len: usize) -> (at: usize)
    requires
        len > 0,
    ensures
        at == clamped(index, len as nat),
        at < len,
{
    if index < len {
        index
    } else {
        len - 1
    }
}

/// `String::push`: appends the character to the text.
pub assume_specification[ String::push ](text: &mut String, ch: char)
    ensures
        final(text)@ == old(text)@.push(ch),
;

/// `String::pop`: takes the last character off the text and returns it, or
/// returns `None` and leaves the text alone where it is empty.
pub assume_specification[ String::pop ](text: &mut String) -> (last: Option<char>)
    ensures
        old(text)@.len() == 0 ==> last is None && final(text)@ == old(text)@,
        old(text)@.len() > 0 ==> last == Some(old(text)@.last()) && final(text)@ == old(text)@.drop_last(),
;

impl Session {
    /// Well formed as its view is.
    pub open spec fn wf(&self) -> bool {
        self@.wf()
    }

    /// The position names one of the words of the session.
    pub open spec fn has_current(&self) -> bool {
        self@.has_current()
    }

    /// Whether the session is well formed, for a caller that has set its
    /// fields itself.
    pub fn is_well_formed(&self) -> (ok: bool)
        ensures
            ok == self.wf(),
    {
        self.index < self.words.len() && (self.graded.is_none() || self.show_definition)
    }

    /// The session over `words` that starts at `index`, which has to name
    /// one of them.
    pub fn new(words: Vec<Word>, index: usize, session_type: Type) -> (s: Self)
        requires
            index < words.len(),
        ensures
            s@ == SessionView::initial(words@, index as int, session_type),
            s.words == words,
            s.wf(),
    {
        Session {
            words,
            index,
            session_type,
            show_definition: false,
            graded: None,
            input_buffer: String::new(),
            insert_mode: false,
        }
    }

    /// Builds the session for the selected `words`, to be resumed at `index`.
    /// Without a word there is no session.  An `index` beyond the last word,
    /// saved when the list was longer, resumes at the last word.
    pub fn start(words: Vec<Word>, index: usize, session_type: Type) -> (started: Result<
        Session,
        EngineError,
    >)
        ensures
            words.len() == 0 ==> started == Err::<Session, EngineError>(
                EngineError::EmptySelection,
            ),
            words.len() > 0 ==> started is Ok && started->Ok_0@ == SessionView::initial(
                words@,
                clamped(index, words.len() as nat),
                session_type,
            ) && started->Ok_0.words == words && started->Ok_0.wf(),
    {
        if words.len() == 0 {
            Err(EngineError::EmptySelection)
        } else {
            let at = clamp_index(index, words.len());
            Ok(Session::new(words, at, session_type))
        }
    }

    /// The word at the position.
    pub fn current(&self) -> (word: &Word)
        requires
            self.has_current(),
        ensures
            *word == self@.current(),
    {
        &self.words[self.index]
    }

    /// The word at the position, to be changed in place; nothing else of the
    /// session changes.
    pub fn current_mut(&mut self) -> (word: &mut Word)
        requires
            old(self).has_current(),
        ensures
            *word == old(self)@.current(),
            final(self)@ == (SessionView {
                words: old(self)@.words.update(old(self)@.index, *final(word)),
                ..old(self)@
            }),
            final(self).input_buffer == old(self).input_buffer,
            final(self).has_current(),
            old(self).wf() ==> final(self).wf(),
    {
        &mut self.words[self.index]
    }

    /// Clears what belongs to the current visit: nothing is shown, judged or
    /// typed any more, and insert mode is off.
    pub fn reset_ui_state(&mut self)
        ensures
            final(self)@ == old(self)@.fresh(),
            final(self).words == old(self).words,
            old(self)@.index < old(self)@.words.len() ==> final(self).wf(),
    {
        self.show_definition = false;
        self.graded = None;
        self.input_buffer = String::new();
        self.insert_mode = false;
    }

    /// Moves on to the next word, which the session does only once the
    /// current word is judged: before that the call is refused and changes
    /// nothing.  After the last word the session starts again at its first
    /// one, and only then the result is `Ok(true)`.
    pub fn advance(&mut self) -> (moved: Result<bool, EngineError>)
        requires
            old(self).has_current(),
        ensures
            final(self).wf(),
            0 <= final(self).index < final(self).words.len(),
            old(self).graded is None ==> moved == Err::<bool, EngineError>(EngineError::NotGraded)
                && *final(self) == *old(self),
            old(self).graded is Some ==> moved == Ok::<bool, EngineError>(old(self)@.at_last())
                && final(self)@ == old(self)@.advanced() && final(self).words == old(self).words,
            old(self).graded is Some && old(self).index + 1 == old(self).words.len() ==> moved
                == Ok::<bool, EngineError>(true) && final(self).index == 0,
    {
        if self.graded.is_none() {
            return Err(EngineError::NotGraded);
        }
        if self.at_last() {
            self.index = 0;
            self.reset_ui_state();
            Ok(true)
        } else {
            assert(self.index + 1 < self.words.len());
            self.index += 1;
            self.reset_ui_state();
            Ok(false)
        }
    }

    /// Shows the definition.  Where it is shown already nothing changes.
    pub fn reveal_definition(&mut self)
        ensures
            final(self)@ == old(self)@.revealed(),
            old(self).show_definition ==> *final(self) == *old(self),
            final(self).words == old(self).words,
            final(self).input_buffer == old(self).input_buffer,
            old(self).wf() ==> final(self).wf(),
    {
        self.show_definition = true;
    }

    /// Records the user's own judgement of the current word.  A word is
    /// judged once per visit and only after its definition was shown; any
    /// other call is refused and changes nothing.
    pub fn grade(&mut self, is_correct: bool) -> (judged: Result<(), EngineError>)
        ensures
            old(self)@.grade_refusal() matches Some(e) ==> judged == Err::<(), EngineError>(e)
                && *final(self) == *old(self),
            old(self)@.grade_refusal() is None ==> judged is Ok && final(self)@ == old(self)@.graded_as(is_correct) && final(self).words == old(self).words && final(self).input_buffer == old(self).input_buffer,
            old(self).graded is Some ==> judged == Err::<(), EngineError>(
                EngineError::AlreadyGraded,
            ),
            old(self).wf() ==> final(self).wf(),
    {
        if self.graded.is_some() {
            Err(EngineError::AlreadyGraded)
        } else if !self.show_definition {
            Err(EngineError::NotRevealed)
        } else {
            self.graded = Some(is_correct);
            Ok(())
        }
    }

    /// Hands in the typed answer: the word is judged right when the answer,
    /// trimmed, equals it up to the case of ASCII letters, and the definition
    /// is shown whatever the outcome.  The result is the judgement.  A word
    /// that is judged already is not judged again: the call is refused and
    /// changes nothing.
    pub fn submit(&mut self) -> (judged: Result<bool, EngineError>)
        requires
            old(self).has_current(),
        ensures
            final(self).has_current(),
            old(self).graded is None || old(self).wf() ==> final(self).wf(),
            old(self).graded is Some ==> judged == Err::<bool, EngineError>(
                EngineError::AlreadyGraded,
            ) && *final(self) == *old(self),
            old(self).graded is None ==> judged == Ok::<bool, EngineError>(
                old(self)@.answer_right(),
            ) && final(self)@ == old(self)@.submitted() && final(self).words == old(self).words
                && final(self).input_buffer == old(self).input_buffer,
    {
        if self.graded.is_some() {
            return Err(EngineError::AlreadyGraded);
        }
        let right = answer_matches(self.input_buffer.as_str(), self.words[self.index].word.as_str());
        self.graded = Some(right);
        self.show_definition = true;
        self.insert_mode = false;
        Ok(right)
    }

    /// Flips the mark of the current word, whatever else the state is.
    pub fn toggle_mark(&mut self)
        requires
            old(self).has_current(),
        ensures
            final(self)@ == old(self)@.mark_toggled(),
            final(self).input_buffer == old(self).input_buffer,
            final(self).has_current(),
            old(self).wf() ==> final(self).wf(),
    {
        let word = self.current_mut();
        word.marked = !word.marked;
    }

    /// Types one character, which counts only in insert mode and while the
    /// word is not judged.
    pub fn push_char(&mut self, c: char)
        ensures
            final(self)@ == old(self)@.typed(c),
            final(self).words == old(self).words,
            !old(self)@.accepts_input() ==> *final(self) == *old(self),
            old(self).wf() ==> final(self).wf(),
    {
        if self.graded.is_none() && self.insert_mode {
            self.input_buffer.push(c);
        }
    }

    /// Takes back the last typed character, which counts only in insert mode
    /// and while the word is not judged.
    pub fn pop_char(&mut self)
        ensures
            final(self)@ == old(self)@.erased(),
            final(self).words == old(self).words,
            !old(self)@.accepts_input() ==> *final(self) == *old(self),
            old(self).wf() ==> final(self).wf(),
    {
        if self.graded.is_none() && self.insert_mode {
            let _ = self.input_buffer.pop();
        }
    }

    /// Starts typing, unless the word is judged.
    pub fn enter_edit_mode(&mut self)
        ensures
            final(self)@ == old(self)@.with_insert_mode(true),
            final(self).words == old(self).words,
            final(self).input_buffer == old(self).input_buffer,
            old(self).wf() ==> final(self).wf(),
    {
        if self.graded.is_none() {
            self.insert_mode = true;
        }
    }

    /// Ends typing, unless the word is judged.
    pub fn exit_edit_mode(&mut self)
        ensures
            final(self)@ == old(self)@.with_insert_mode(false),
            final(self).words == old(self).words,
            final(self).input_buffer == old(self).input_buffer,
            old(self).wf() ==> final(self).wf(),
    {
        if self.graded.is_none() {
            self.insert_mode = false;
        }
    }

    /// How far the user has come with the current word.
    pub fn phase(&self) -> (phase: Phase)
        ensures
            phase == self@.phase(),
    {
        if self.graded.is_some() {
            Phase::Graded
        } else if self.show_definition {
            Phase::Revealed
        } else {
            Phase::Unrevealed
        }
    }

    /// Whether the current word is the last one of the session.
    pub fn at_last(&self) -> (last: bool)
        requires
            self.has_current(),
        ensures
            last == self@.at_last(),
    {
        assert(self.index < self.words.len());
        self.index + 1 >= self.words.len()
    }

    /// The number of words in the session.
    pub fn total(&self) -> (n: usize)
        ensures
            n == self@.words.len(),
    {
        self.words.len()
    }
}

/// Each step takes a well-formed session to a well-formed one; so the
/// position names a word of the session after every step, `advanced`
/// among them.
pub proof fn lemma_steps_keep_wf(s: SessionView, is_correct: bool, c: char, on: bool)
    requires
        s.wf(),
    ensures
        s.fresh().wf(),
        s.revealed().wf(),
        s.grade_refusal() is None ==> s.graded_as(is_correct).wf(),
        s.submitted().wf(),
        s.mark_toggled().wf(),
        s.advanced().wf(),
        s.typed(c).wf(),
        s.erased().wf(),
        s.with_insert_mode(on).wf(),
{
}

/// A word is judged once per visit: after the user's own judgement or a
/// handed-in answer, a further judgement is refused.
pub proof fn lemma_judged_once(s: SessionView, is_correct: bool)
    requires
        s.graded is None,
    ensures
        s.grade_refusal() is None ==> s.graded_as(is_correct).grade_refusal() == Some(
            EngineError::AlreadyGraded,
        ),
        s.submitted().grade_refusal() == Some(EngineError::AlreadyGraded),
{
}

/// A judgement lasts until the session moves on: nothing that is shown,
/// marked or typed takes it back, and the next visit starts without one.
pub proof fn lemma_judgement_lasts(s: SessionView, c: char, on: bool)
    requires
        s.graded is Some,
    ensures
        s.revealed().graded == s.graded,
        s.mark_toggled().graded == s.graded,
        s.typed(c) == s,
        s.erased() == s,
        s.with_insert_mode(on) == s,
        s.advanced().graded is None,
{
}

/// Moving on goes through the words in turn and comes back to the first one
/// after the last, and only there.
pub proof fn lemma_advance_position(s: SessionView)
    requires
        s.has_current(),
    ensures
        0 <= s.advanced().index < s.words.len(),
        s.advanced().words == s.words,
        s.advanced().phase() == Phase::Unrevealed,
        s.at_last() <==> s.index == s.words.len() - 1,
        s.at_last() ==> s.advanced().index == 0,
        !s.at_last() ==> s.advanced().index == s.index + 1,
{
}

impl SessionView {
    /// The session after `steps` more of its words were judged and left.
    pub open spec fn advanced_by(self, steps: nat) -> SessionView
        decreases steps,
    {
        if steps == 0 {
            self
        } else {
            self.advanced_by((steps - 1) as nat).advanced()
        }
    }

    /// How often the session has said that it came round, while `steps` of
    /// its words were judged and left.
    pub open spec fn rounds(self, steps: nat) -> nat
        decreases steps,
    {
        if steps == 0 {
            0
        } else {
            self.rounds((steps - 1) as nat) + if self.advanced_by((steps - 1) as nat).at_last() {
                1nat
            } else {
                0nat
            }
        }
    }
}

/// Moving on `steps` times from position `i` in a session of `n` words leads
/// to position `(i + steps) % n`, and the session says `(i + steps) / n` times
/// on the way that it came round.
pub proof fn lemma_advanced_by(s: SessionView, steps: nat)
    requires
        s.has_current(),
    ensures
        s.advanced_by(steps).has_current(),
        steps > 0 ==> s.advanced_by(steps).wf(),
        s.advanced_by(steps).words == s.words,
        s.advanced_by(steps).index == (s.index + steps) % (s.words.len() as int),
        s.rounds(steps) == (s.index + steps) / (s.words.len() as int),
    decreases steps,
{
    let n = s.words.len() as int;
    if steps == 0 {
        vstd::arithmetic::div_mod::lemma_small_mod(s.index as nat, n as nat);
        vstd::arithmetic::div_mod::lemma_basic_div(s.index, n);
    } else {
        let k = (steps - 1) as nat;
        lemma_advanced_by(s, k);
        let before = s.advanced_by(k);
        let x = s.index + k;
        vstd::arithmetic::div_mod::lemma_fundamental_div_mod(x, n);
        let q = x / n;
        if before.at_last() {
            assert(x + 1 == (q + 1) * n + 0) by (nonlinear_arith)
                requires
                    x == n * q + (n - 1),
            ;
            vstd::arithmetic::div_mod::lemma_fundamental_div_mod_converse(x + 1, n, q + 1, 0);
        } else {
            assert(x + 1 == q * n + (before.index + 1)) by (nonlinear_arith)
                requires
                    x == n * q + before.index,
            ;
            vstd::arithmetic::div_mod::lemma_fundamental_div_mod_converse(
                x + 1,
                n,
                q,
                before.index + 1,
            );
        }
    }
}

/// Going once through all the words of a session leads back to the position
/// where it started, and on that way the session says exactly once that it
/// came round.
pub proof fn lemma_one_round(s: SessionView)
    requires
        s.has_current(),
    ensures
        s.advanced_by(s.words.len()).index == s.index,
        s.rounds(s.words.len()) == 1,
{
    let n = s.words.len() as int;
    lemma_advanced_by(s, s.words.len());
    assert(s.index + n == 1 * n + s.index) by (nonlinear_arith);
    vstd::arithmetic::div_mod::lemma_fundamental_div_mod_converse(s.index + n, n, 1, s.index);
}

/// What is known of the words of a session of each kind, whatever the store
/// holds: the words of a group session are of one group, and those of the two
/// reviews are a review by their criterion.  There is no custom session.
pub open spec fn fits(session_type: Type, words: Seq<Word>) -> bool {
    match session_type {
        Type::Group => forall|i: int|
            0 <= i < words.len() ==> (#[trigger] words[i]).group_id == words[0].group_id,
        Type::Marked => is_review(Criterion::Marked, words),
        Type::Weak => is_review(Criterion::Weak, words),
        Type::Custom => false,
    }
}

/// Whether `session` is one that has just been started for `session_type`.
pub open spec fn just_started(session: Session, session_type: Type) -> bool {
    &&& session.wf()
    &&& session@ == SessionView::initial(session@.words, session@.index, session_type)
    &&& fits(session_type, session@.words)
}

/// Starts a session of the given kind and says on which screen it runs.  The
/// custom kind is refused, always and before the store is read.  The other
/// kinds fail where their selection is empty or the database fails.
pub fn start_session(conn: &Connection, session_type: Type) -> (started: Result<
    (Session, Screen),
    EngineError,
>)
    ensures
        session_type == Type::Custom ==> started == Err::<(Session, Screen), EngineError>(
            EngineError::CustomUnsupported,
        ),
        started matches Ok(pair) ==> just_started(pair.0, session_type) && pair.1 != Screen::Menu,
        started matches Err(e) ==> (e is CustomUnsupported <==> session_type == Type::Custom) && (
        e is CustomUnsupported || e is EmptySelection || e is Storage),
{
    match session_type {
        Type::Group => group_session(conn),
        Type::Marked => marks_session(conn),
        Type::Weak => weak_session(conn),
        Type::Custom => Err(EngineError::CustomUnsupported),
    }
}

/// Continues the group of the resume marker, on the screen and at the
/// position that were saved; a position beyond the last word of the group
/// resumes at the last word.
pub fn group_session(conn: &Connection) -> (started: Result<(Session, Screen), EngineError>)
    ensures
        started matches Ok(pair) ==> just_started(pair.0, Type::Group) && pair.1 != Screen::Menu,
        started matches Err(e) ==> e is EmptySelection || e is Storage,
{
    let (screen, group_id, index) = match queries::fetch_progress(conn) {
        Ok(progress) => progress,
        Err(e) => {
            return Err(e);
        },
    };
    assert(screen != Screen::Menu);
    let words = match queries::fetch_words_by_group(conn, group_id) {
        Ok(words) => words,
        Err(e) => {
            return Err(e);
        },
    };
    resume_group((screen, group_id, index), words)
}

/// The group session for a resume marker and the words of its group: it runs
/// on the screen of the marker and resumes at the position of the marker, or
/// at the last word where the position lies beyond it.  Without a word there
/// is no session.
pub fn resume_group(progress: (Screen, i32, usize), words: Vec<Word>) -> (started: Result<
    (Session, Screen),
    EngineError,
>)
    ensures
        words.len() == 0 ==> started == Err::<(Session, Screen), EngineError>(
            EngineError::EmptySelection,
        ),
        words.len() > 0 ==> started is Ok,
        started matches Ok(pair) ==> pair.1 == progress.0 && pair.0@ == SessionView::initial(
            words@,
            clamped(progress.2, words.len() as nat),
            Type::Group,
        ) && pair.0.words == words && pair.0.wf(),
{
    match Session::start(words, progress.2, Type::Group) {
        Ok(session) => Ok((session, progress.0)),
        Err(e) => Err(e),
    }
}

/// Reviews the marked words from the first one on, on the practice screen.
pub fn marks_session(conn: &Connection) -> (started: Result<(Session, Screen), EngineError>)
    ensures
        started matches Ok(pair) ==> just_started(pair.0, Type::Marked) && pair.0.index == 0
            && pair.1 == Screen::Practice,
        started matches Err(e) ==> e is EmptySelection || e is Storage,
{
    let words = match queries::fetch_marked_words(conn) {
        Ok(words) => words,
        Err(e) => {
            return Err(e);
        },
    };
    match Session::start(words, 0, Type::Marked) {
        Ok(session) => Ok((session, Screen::Practice)),
        Err(e) => Err(e),
    }
}

/// Revises the weak words from the first one on, on the practice screen.
pub fn weak_session(conn: &Connection) -> (started: Result<(Session, Screen), EngineError>)
    ensures
        started matches Ok(pair) ==> just_started(pair.0, Type::Weak) && pair.0.index == 0
            && pair.1 == Screen::Practice,
        started matches Err(e) ==> e is EmptySelection || e is Storage,
{
    let words = match queries::fetch_weak_words(conn) {
        Ok(words) => words,
        Err(e) => {
            return Err(e);
        },
    };
    match Session::start(words, 0, Type::Weak) {
        Ok(session) => Ok((session, Screen::Practice)),
        Err(e) => Err(e),
    }
}

} // verus!
