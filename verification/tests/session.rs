use vocabulator::db::models::Word;
use vocabulator::error::EngineError;
use vocabulator::session::{clamp_index, resume_group, Phase, Session, Type};
use vocabulator::ui::app::Screen;

fn word(id: i32, text: &str) -> Word {
    Word {
        id,
        word: text.to_string(),
        definition: format!("meaning of {}", text),
        group_id: 1,
        marked: false,
        last_seen: 0,
        times_seen: 0,
        success_count: 0,
    }
}

fn three() -> Session {
    Session::new(
        vec![word(1, "resonate"), word(2, "ephemeral"), word(3, "lucid")],
        0,
        Type::Group,
    )
}

fn snapshot(s: &Session) -> (Vec<i32>, Vec<bool>, usize, Type, bool, Option<bool>, String, bool) {
    (
        s.words.iter().map(|w| w.id).collect(),
        s.words.iter().map(|w| w.marked).collect(),
        s.index,
        s.session_type,
        s.show_definition,
        s.graded,
        s.input_buffer.clone(),
        s.insert_mode,
    )
}

#[test]
fn labels_of_the_session_types() {
    assert_eq!(Type::Group.label(), "Continue Learning");
    assert_eq!(Type::Marked.label(), "Review Marks");
    assert_eq!(Type::Weak.label(), "Revise Weak");
    assert_eq!(Type::Custom.label(), "Custom Query");
}

#[test]
fn the_default_type_is_the_group() {
    assert_eq!(Type::default(), Type::Group);
}

#[test]
fn a_new_session_has_nothing_shown_judged_or_typed() {
    let s = Session::new(vec![word(1, "a"), word(2, "b")], 1, Type::Weak);
    assert_eq!(snapshot(&s), (vec![1, 2], vec![false, false], 1, Type::Weak, false, None, String::new(), false));
    assert_eq!(s.phase(), Phase::Unrevealed);
    assert_eq!(s.total(), 2);
    assert_eq!(s.current().id, 2);
}

#[test]
fn no_session_without_words() {
    let started = Session::start(Vec::new(), 0, Type::Marked);
    assert_eq!(started.err(), Some(EngineError::EmptySelection));
    let started = Session::start(Vec::new(), 5, Type::Group);
    assert_eq!(started.err(), Some(EngineError::EmptySelection));
}

#[test]
fn a_stale_position_resumes_at_the_last_word() {
    let s = Session::start(vec![word(1, "a"), word(2, "b"), word(3, "c")], 7, Type::Group).unwrap();
    assert_eq!(s.index, 2);
    assert_eq!(s.current().id, 3);
    let s = Session::start(vec![word(1, "a"), word(2, "b"), word(3, "c")], 3, Type::Group).unwrap();
    assert_eq!(s.index, 2);
    let s = Session::start(vec![word(1, "a")], usize::MAX, Type::Group).unwrap();
    assert_eq!(s.index, 0);
}

#[test]
fn a_position_in_range_is_kept() {
    let s = Session::start(vec![word(1, "a"), word(2, "b"), word(3, "c")], 1, Type::Group).unwrap();
    assert_eq!(snapshot(&s), (vec![1, 2, 3], vec![false; 3], 1, Type::Group, false, None, String::new(), false));
    let s = Session::start(vec![word(1, "a"), word(2, "b"), word(3, "c")], 2, Type::Weak).unwrap();
    assert_eq!(s.index, 2);
    assert_eq!(s.session_type, Type::Weak);
}

#[test]
fn clamp_of_the_position() {
    assert_eq!(clamp_index(0, 1), 0);
    assert_eq!(clamp_index(1, 1), 0);
    assert_eq!(clamp_index(0, 5), 0);
    assert_eq!(clamp_index(4, 5), 4);
    assert_eq!(clamp_index(5, 5), 4);
    assert_eq!(clamp_index(6, 5), 4);
    assert_eq!(clamp_index(usize::MAX, 5), 4);
    assert_eq!(clamp_index(usize::MAX, usize::MAX), usize::MAX - 1);
}

#[test]
fn advance_before_the_word_is_judged_is_refused() {
    let mut s = three();
    let before = snapshot(&s);
    assert_eq!(s.advance(), Err(EngineError::NotGraded));
    assert_eq!(snapshot(&s), before);
    s.reveal_definition();
    s.toggle_mark();
    s.enter_edit_mode();
    s.push_char('x');
    let before = snapshot(&s);
    assert_eq!(s.advance(), Err(EngineError::NotGraded));
    assert_eq!(snapshot(&s), before);
}

#[test]
fn advance_goes_through_the_words_and_round() {
    let mut s = three();
    let mut signals = Vec::new();
    let mut positions = Vec::new();
    for _ in 0..7 {
        s.reveal_definition();
        s.grade(true).unwrap();
        signals.push(s.advance().unwrap());
        positions.push(s.index);
        assert!(s.index < s.words.len());
    }
    assert_eq!(signals, vec![false, false, true, false, false, true, false]);
    assert_eq!(positions, vec![1, 2, 0, 1, 2, 0, 1]);
}

#[test]
fn advance_on_the_last_word_wraps_and_says_so() {
    let mut s = Session::new(vec![word(1, "a"), word(2, "b")], 1, Type::Marked);
    s.reveal_definition();
    s.grade(false).unwrap();
    assert_eq!(s.advance(), Ok(true));
    assert_eq!(s.index, 0);
    assert_eq!(s.advance(), Err(EngineError::NotGraded));
    assert_eq!(s.index, 0);
}

#[test]
fn a_session_of_one_word_is_complete_after_each_word() {
    let mut s = Session::new(vec![word(1, "a")], 0, Type::Marked);
    for _ in 0..3 {
        s.reveal_definition();
        s.grade(true).unwrap();
        assert_eq!(s.advance(), Ok(true));
        assert_eq!(s.index, 0);
    }
}

#[test]
fn advance_clears_the_visit() {
    let mut s = three();
    s.enter_edit_mode();
    s.push_char('l');
    s.toggle_mark();
    assert_eq!(s.submit(), Ok(false));
    assert_eq!(s.advance(), Ok(false));
    assert_eq!(
        snapshot(&s),
        (vec![1, 2, 3], vec![true, false, false], 1, Type::Group, false, None, String::new(), false)
    );
    assert_eq!(s.phase(), Phase::Unrevealed);
}

#[test]
fn reset_clears_the_visit_and_keeps_the_position() {
    let mut s = three();
    s.index = 2;
    s.show_definition = true;
    s.graded = Some(true);
    s.input_buffer = "abc".to_string();
    s.insert_mode = true;
    s.reset_ui_state();
    assert_eq!(
        snapshot(&s),
        (vec![1, 2, 3], vec![false; 3], 2, Type::Group, false, None, String::new(), false)
    );
}

#[test]
fn reveal_is_idempotent() {
    let mut s = three();
    assert_eq!(s.phase(), Phase::Unrevealed);
    s.reveal_definition();
    assert!(s.show_definition);
    assert_eq!(s.phase(), Phase::Revealed);
    let once = snapshot(&s);
    s.reveal_definition();
    assert_eq!(snapshot(&s), once);
}

#[test]
fn grade_once_per_visit() {
    let mut s = three();
    s.reveal_definition();
    assert_eq!(s.grade(true), Ok(()));
    assert_eq!(s.graded, Some(true));
    assert_eq!(s.phase(), Phase::Graded);
    let before = snapshot(&s);
    assert_eq!(s.grade(false), Err(EngineError::AlreadyGraded));
    assert_eq!(s.grade(true), Err(EngineError::AlreadyGraded));
    assert_eq!(snapshot(&s), before);
    assert_eq!(s.submit(), Err(EngineError::AlreadyGraded));
    assert_eq!(snapshot(&s), before);
    assert_eq!(s.advance(), Ok(false));
    s.reveal_definition();
    assert_eq!(s.grade(false), Ok(()));
    assert_eq!(s.graded, Some(false));
}

#[test]
fn grade_needs_the_definition_shown() {
    let mut s = three();
    let before = snapshot(&s);
    assert_eq!(s.grade(true), Err(EngineError::NotRevealed));
    assert_eq!(snapshot(&s), before);
    s.reveal_definition();
    assert_eq!(s.grade(true), Ok(()));
}

#[test]
fn grade_does_not_touch_the_statistics() {
    let mut s = three();
    s.reveal_definition();
    s.grade(true).unwrap();
    assert_eq!(s.current().times_seen, 0);
    assert_eq!(s.current().success_count, 0);
    assert_eq!(s.current().last_seen, 0);
}

#[test]
fn submit_judges_the_typed_answer() {
    let mut s = three();
    s.enter_edit_mode();
    for c in "Resonate ".chars() {
        s.push_char(c);
    }
    assert_eq!(s.input_buffer, "Resonate ");
    assert_eq!(s.submit(), Ok(true));
    assert_eq!(
        snapshot(&s),
        (vec![1, 2, 3], vec![false; 3], 0, Type::Group, true, Some(true), "Resonate ".to_string(), false)
    );
    assert_eq!(s.advance(), Ok(false));
    s.enter_edit_mode();
    for c in "resonant".chars() {
        s.push_char(c);
    }
    assert_eq!(s.submit(), Ok(false));
    assert_eq!(s.graded, Some(false));
    assert!(s.show_definition);
    assert!(!s.insert_mode);
}

#[test]
fn submit_of_nothing_is_wrong() {
    let mut s = three();
    assert_eq!(s.submit(), Ok(false));
    assert_eq!(s.phase(), Phase::Graded);
    assert!(s.show_definition);
}

#[test]
fn submit_twice_is_refused() {
    let mut s = three();
    s.submit().unwrap();
    let before = snapshot(&s);
    assert_eq!(s.submit(), Err(EngineError::AlreadyGraded));
    assert_eq!(s.grade(true), Err(EngineError::AlreadyGraded));
    assert_eq!(snapshot(&s), before);
}

#[test]
fn toggle_mark_flips_the_current_word_only() {
    let mut s = three();
    s.toggle_mark();
    assert_eq!(snapshot(&s).1, vec![true, false, false]);
    s.toggle_mark();
    assert_eq!(snapshot(&s).1, vec![false, false, false]);
    s.index = 2;
    s.toggle_mark();
    assert_eq!(snapshot(&s).1, vec![false, false, true]);
}

#[test]
fn toggle_mark_is_allowed_in_every_phase() {
    let mut s = three();
    s.toggle_mark();
    s.reveal_definition();
    s.toggle_mark();
    assert!(!s.current().marked);
    s.grade(true).unwrap();
    s.toggle_mark();
    assert!(s.current().marked);
    assert_eq!(s.graded, Some(true));
    assert!(s.show_definition);
}

#[test]
fn current_mut_gives_the_current_word() {
    let mut s = three();
    s.index = 1;
    {
        let w = s.current_mut();
        assert_eq!(w.id, 2);
        w.times_seen = 3;
        w.marked = true;
    }
    assert_eq!(s.words[1].times_seen, 3);
    assert!(s.words[1].marked);
    assert_eq!(s.words[0].times_seen, 0);
    assert_eq!(s.words[2].times_seen, 0);
    assert_eq!(s.index, 1);
}

#[test]
fn typing_needs_insert_mode() {
    let mut s = three();
    s.push_char('a');
    s.pop_char();
    assert_eq!(s.input_buffer, "");
    s.enter_edit_mode();
    assert!(s.insert_mode);
    s.push_char('a');
    s.push_char('\u{e9}');
    s.push_char('c');
    assert_eq!(s.input_buffer, "a\u{e9}c");
    s.pop_char();
    assert_eq!(s.input_buffer, "a\u{e9}");
    s.pop_char();
    assert_eq!(s.input_buffer, "a");
    s.exit_edit_mode();
    assert!(!s.insert_mode);
    s.push_char('z');
    s.pop_char();
    assert_eq!(s.input_buffer, "a");
    s.enter_edit_mode();
    s.pop_char();
    s.pop_char();
    assert_eq!(s.input_buffer, "");
}

#[test]
fn typing_is_ignored_once_the_word_is_judged() {
    let mut s = three();
    s.enter_edit_mode();
    s.push_char('a');
    s.submit().unwrap();
    let before = snapshot(&s);
    s.enter_edit_mode();
    assert_eq!(snapshot(&s), before);
    s.push_char('b');
    s.pop_char();
    s.exit_edit_mode();
    assert_eq!(snapshot(&s), before);
    s.insert_mode = true;
    let before = snapshot(&s);
    s.push_char('b');
    s.pop_char();
    s.exit_edit_mode();
    assert_eq!(snapshot(&s), before);
}

#[test]
fn at_last_only_on_the_last_word() {
    let mut s = three();
    assert!(!s.at_last());
    s.index = 1;
    assert!(!s.at_last());
    s.index = 2;
    assert!(s.at_last());
}

#[test]
fn a_grade_counts_in_the_statistics() {
    let mut w = word(1, "a");
    w.record_grade(true, 100);
    assert_eq!((w.times_seen, w.success_count, w.last_seen), (1, 1, 100));
    w.record_grade(false, 200);
    assert_eq!((w.times_seen, w.success_count, w.last_seen), (2, 1, 200));
    w.record_grade(true, -3);
    assert_eq!((w.times_seen, w.success_count, w.last_seen), (3, 2, -3));
    assert_eq!(w.id, 1);
    assert_eq!(w.word, "a");
    assert!(!w.marked);
}

#[test]
fn the_counts_stop_at_the_highest_value() {
    let mut w = word(1, "a");
    w.times_seen = 254;
    w.success_count = 254;
    w.record_grade(true, 1);
    assert_eq!((w.times_seen, w.success_count), (255, 255));
    w.record_grade(true, 2);
    assert_eq!((w.times_seen, w.success_count), (255, 255));
    w.record_grade(false, 3);
    assert_eq!((w.times_seen, w.success_count, w.last_seen), (255, 255, 3));
    let mut w = word(2, "b");
    w.times_seen = 255;
    w.success_count = 10;
    w.record_grade(true, 4);
    assert_eq!((w.times_seen, w.success_count), (255, 11));
    w.record_grade(false, 5);
    assert_eq!((w.times_seen, w.success_count), (255, 11));
}

#[test]
fn a_copy_of_a_word_is_the_word() {
    let mut w = word(4, "lucid");
    w.marked = true;
    w.last_seen = 9;
    w.times_seen = 3;
    w.success_count = 2;
    w.group_id = 8;
    let c = w.clone();
    assert_eq!(
        (c.id, c.word, c.definition, c.group_id, c.marked, c.last_seen, c.times_seen, c.success_count),
        (4, "lucid".to_string(), "meaning of lucid".to_string(), 8, true, 9, 3, 2)
    );
}

#[test]
fn messages_of_the_failures() {
    assert_eq!(EngineError::CustomUnsupported.message(), "Custom session requires query input");
    assert_eq!(EngineError::EmptySelection.message(), "No words to review");
    assert_eq!(EngineError::WordNotFound(3).message(), "Word not found in the store");
    assert_eq!(EngineError::NotGraded.message(), "Grade the word before moving on");
    assert_eq!(EngineError::AlreadyGraded.message(), "The word is graded already");
    assert_eq!(EngineError::NotRevealed.message(), "Reveal the definition before grading");
    assert_eq!(EngineError::Storage("disk full".to_string()).message(), "disk full");
}

#[test]
fn well_formed_sessions() {
    let mut s = three();
    assert!(s.is_well_formed());
    s.index = 2;
    assert!(s.is_well_formed());
    s.index = 3;
    assert!(!s.is_well_formed());
    s.index = 0;
    s.graded = Some(false);
    assert!(!s.is_well_formed());
    s.show_definition = true;
    assert!(s.is_well_formed());
    s.words.clear();
    assert!(!s.is_well_formed());
}

#[test]
fn advance_of_a_judged_word_whose_definition_is_hidden() {
    let w = Word {
        id: 1,
        word: "a".into(),
        definition: "b".into(),
        group_id: 1,
        marked: false,
        last_seen: 0,
        times_seen: 0,
        success_count: 0,
    };
    let mut s = Session::new(vec![w], 0, Type::Marked);
    s.graded = Some(false);
    s.input_buffer = "x".into();
    assert_eq!(s.advance(), Ok(true));
    assert_eq!(s.index, 0);
    assert_eq!(s.graded, None);
    assert_eq!(s.input_buffer, "");
    assert_eq!(s.words.len(), 1);
}

#[test]
fn steps_on_a_judged_word_whose_definition_is_hidden() {
    let mut s = three();
    s.index = 2;
    s.graded = Some(true);
    assert_eq!(s.current().id, 3);
    assert!(s.at_last());
    s.toggle_mark();
    assert!(s.current().marked);
    s.current_mut().times_seen = 4;
    assert_eq!(s.words[2].times_seen, 4);
    assert_eq!(s.submit(), Err(EngineError::AlreadyGraded));
    assert_eq!(s.graded, Some(true));
    assert!(!s.show_definition);
    assert_eq!(s.advance(), Ok(true));
    assert_eq!(s.index, 0);
}

#[test]
fn a_group_is_resumed_on_the_screen_of_its_marker() {
    let (s, screen) =
        resume_group((Screen::Test, 1, 1), vec![word(1, "a"), word(2, "b"), word(3, "c")]).unwrap();
    assert_eq!(screen, Screen::Test);
    assert_eq!(
        snapshot(&s),
        (vec![1, 2, 3], vec![false; 3], 1, Type::Group, false, None, String::new(), false)
    );
    let (s, screen) =
        resume_group((Screen::Practice, 1, 9), vec![word(1, "a"), word(2, "b")]).unwrap();
    assert_eq!((s.index, screen), (1, Screen::Practice));
    let (s, screen) = resume_group((Screen::Menu, 7, 0), vec![word(1, "a")]).unwrap();
    assert_eq!((s.index, s.session_type, screen), (0, Type::Group, Screen::Menu));
    assert_eq!(
        resume_group((Screen::Test, 1, 0), Vec::new()).err(),
        Some(EngineError::EmptySelection)
    );
}
