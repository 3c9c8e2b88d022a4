//! Reading and writing the word store: the resume marker, the words of a
//! review, and the statistics of a word.

use vstd::prelude::*;
use rusqlite::Connection;
use crate::db::models::Word;
use crate::db::sqlite;
use crate::db::storage_outcome;
use crate::error::EngineError;
use crate::selection::{in_group, is_review, select, Criterion};
use crate::ui::app::Screen;

verus! {

/// Reads the stored screen of the resume marker.
pub const SELECT_MODE: &'static str = "SELECT CAST(value AS INTEGER) FROM app_state WHERE key='mode'";

/// Reads the stored group of the resume marker.
pub const SELECT_GROUP_ID: &'static str =
    "SELECT CAST(value AS INTEGER) FROM app_state WHERE key='group_id'";

/// Reads the stored position of the resume marker.
pub const SELECT_INDEX: &'static str =
    "SELECT CAST(value AS INTEGER) FROM app_state WHERE key='index'";

/// Writes the three keys of the resume marker in one statement, so that a
/// reader sees either all of the old marker or all of the new one.
pub const UPSERT_PROGRESS: &'static str = "INSERT INTO app_state(key,value)
         VALUES('mode',?1),('group_id',?2),('index',?3)
         ON CONFLICT(key) DO UPDATE SET value=excluded.value";

/// The words of one group, as they are stored.
pub const SELECT_BY_GROUP: &'static str = "SELECT id, word, definition, group_id,
                marked, last_seen, times_seen, success_count
         FROM words WHERE group_id=?1";

/// The marked words, the most recently seen first.
pub const SELECT_MARKED: &'static str = "SELECT id, word, definition, group_id,
                marked, last_seen, times_seen, success_count
         FROM words
         WHERE marked=1
         ORDER BY last_seen DESC
         LIMIT 20";

/// The words that were answered before, the least accurate first.
pub const SELECT_WEAK: &'static str = "SELECT id, word, definition, group_id,
                marked, last_seen, times_seen, success_count
         FROM words
         WHERE times_seen>0
         ORDER BY 1.0*success_count/times_seen ASC
         LIMIT 20";

/// Overwrites the statistics of the word with the given id.
pub const UPDATE_STATS: &'static str = "UPDATE words
         SET marked=?1,
             last_seen=?2,
             times_seen=?3,
             success_count=?4
         WHERE id=?5";

/// The number under which a screen is stored: 1 for the test, 0 for the
/// practice and for every other screen.
pub open spec fn screen_code(screen: Screen) -> int {
    match screen {
        Screen::Test => 1,
        _ => 0,
    }
}

/// The screen that a stored number stands for: the test for 1, the practice
/// for every other number.
pub open spec fn screen_of(code: int) -> Screen {
    if code == 1 {
        Screen::Test
    } else {
        Screen::Practice
    }
}

/// The number under which a position is stored: the position itself, or the
/// highest number that fits where the position is beyond it.
pub open spec fn index_code(index: usize) -> int {
    if index <= i32::MAX {
        index as int
    } else {
        i32::MAX as int
    }
}

/// The position that a stored number stands for; a negative number stands for
/// the first position.
pub open spec fn index_of(code: int) -> int {
    if code < 0 {
        0
    } else {
        code
    }
}

/// The three numbers that are stored for a resume marker.
pub open spec fn stored_progress(progress: (Screen, i32, usize)) -> (int, int, int) {
    (screen_code(progress.0), progress.1 as int, index_code(progress.2))
}

/// The resume marker that the stored values stand for.  A key without a
/// readable value has its default: the practice screen, group 1, position 0.
pub open spec fn progress_of(mode: Option<i32>, group_id: Option<i32>, index: Option<i32>) -> (
    Screen,
    i32,
    usize,
) {
    (
        match mode {
            Some(code) => screen_of(code as int),
            None => Screen::Practice,
        },
        match group_id {
            Some(id) => id,
            None => 1i32,
        },
        match index {
            Some(code) => index_of(code as int) as usize,
            None => 0usize,
        },
    )
}

/// A marker of the practice or the test screen whose position fits in 32 bits
/// is read back as it was written.
pub proof fn lemma_progress_round_trip(screen: Screen, group_id: i32, index: usize)
    requires
        screen != Screen::Menu,
        index <= i32::MAX,
    ensures
        ({
            let (mode, group, position) = stored_progress((screen, group_id, index));
            progress_of(Some(mode as i32), Some(group as i32), Some(position as i32))
        }) == (screen, group_id, index),
{
}

/// The number under which a screen is stored.
pub fn screen_to_int(screen: Screen) -> (code: i32)
    ensures
        code == screen_code(screen),
{
    match screen {
        Screen::Practice => 0,
        Screen::Test => 1,
        _ => 0,
    }
}

/// The screen that a stored number stands for.
pub fn int_to_screen(v: i32) -> (screen: Screen)
    ensures
        screen == screen_of(v as int),
{
    match v {
        1 => Screen::Test,
        _ => Screen::Practice,
    }
}

/// The number under which a position is stored.
pub fn index_to_int(index: usize) -> (code: i32)
    ensures
        code == index_code(index),
{
    if index > i32::MAX as usize {
        i32::MAX
    } else {
        index as i32
    }
}

/// The position that a stored number stands for.
pub fn int_to_index(v: i32) -> (index: usize)
    ensures
        index == index_of(v as int),
{
    if v < 0 {
        0
    } else {
        v as usize
    }
}

/// The resume marker that the three stored values stand for, each of them
/// `None` where the store holds no readable value under its key.
pub fn decode_progress(mode: Option<i32>, group_id: Option<i32>, index: Option<i32>) -> (progress: (
    Screen,
    i32,
    usize,
))
    ensures
        progress == progress_of(mode, group_id, index),
{
    let screen = match mode {
        Some(code) => int_to_screen(code),
        None => Screen::Practice,
    };
    let group = match group_id {
        Some(id) => id,
        None => 1,
    };
    let position = match index {
        Some(code) => int_to_index(code),
        None => 0,
    };
    (screen, group, position)
}

/// The value stored under one key of the resume marker, if there is one that
/// can be read.
fn stored_value(conn: &Connection, sql: &str) -> (value: Option<i32>) {
    sqlite::query_integer(conn, sql).ok()
}

/// Reads the resume marker.  A key that is missing is no failure: it has its
/// default, so the call always succeeds.  Which values are stored is up to
/// the database; `decode_progress` says what is returned for each of them.
pub fn fetch_progress(conn: &Connection) -> (fetched: Result<(Screen, i32, usize), EngineError>)
    ensures
        fetched is Ok,
        fetched->Ok_0.0 != Screen::Menu,
        exists|mode: Option<i32>, group_id: Option<i32>, index: Option<i32>|
            fetched->Ok_0 == #[trigger] progress_of(mode, group_id, index),
{
    let mode = stored_value(conn, SELECT_MODE);
    let group_id = stored_value(conn, SELECT_GROUP_ID);
    let index = stored_value(conn, SELECT_INDEX);
    Ok(decode_progress(mode, group_id, index))
}

/// What a query for words comes to: its rows, or the message of its failure.
fn loaded(conn: &Connection, sql: &str, args: &Vec<i64>) -> (rows: Result<Vec<Word>, EngineError>)
    ensures
        rows matches Err(e) ==> e is Storage,
{
    storage_outcome(sqlite::query_words(conn, sql, args))
}

/// The words of the group `group_id`, in the order in which they are stored.
/// The database is asked for them, and what it answers is put through
/// `in_group`, so that the promise does not rest on the database. Only a
/// failure of the database makes the call fail.
pub fn fetch_words_by_group(conn: &Connection, group_id: i32) -> (fetched: Result<
    Vec<Word>,
    EngineError,
>)
    ensures
        fetched matches Ok(words) ==> forall|i: int|
            0 <= i < words.len() ==> (#[trigger] words[i]).group_id == group_id,
        fetched matches Err(e) ==> e is Storage,
{
    let args = group_args(group_id);
    match loaded(conn, SELECT_BY_GROUP, &args) {
        Ok(rows) => Ok(in_group(rows, group_id)),
        Err(e) => Err(e),
    }
}

/// The marked words for a review: only words that are marked, at most 20 of
/// them, the most recently seen first.  The database is asked for them in
/// that order, and what it answers is put through `select`, so that the
/// promise does not rest on the database.  Only a failure of the database
/// makes the call fail.
pub fn fetch_marked_words(conn: &Connection) -> (fetched: Result<Vec<Word>, EngineError>)
    ensures
        fetched matches Ok(words) ==> {
            &&& is_review(Criterion::Marked, words@)
            &&& words.len() <= 20
            &&& forall|i: int| 0 <= i < words.len() ==> (#[trigger] words[i]).marked
            &&& forall|i: int, j: int|
                0 <= i < j < words.len() ==> (#[trigger] words[i]).last_seen >= (
                #[trigger] words[j]).last_seen
        },
        fetched matches Err(e) ==> e is Storage,
{
    let args: Vec<i64> = Vec::new();
    match loaded(conn, SELECT_MARKED, &args) {
        Ok(rows) => {
            let words = select(Criterion::Marked, rows);
            Ok(words)
        },
        Err(e) => Err(e),
    }
}

/// The weak words for a review: only words that were answered before, at most
/// 20 of them, and a word with a smaller share of right answers always before
/// one with a larger share.  The database is asked for them in that order,
/// and what it answers is put through `select`, so that the promise does not
/// rest on the database.  Only a failure of the database makes the call fail.
pub fn fetch_weak_words(conn: &Connection) -> (fetched: Result<Vec<Word>, EngineError>)
    ensures
        fetched matches Ok(words) ==> {
            &&& is_review(Criterion::Weak, words@)
            &&& words.len() <= 20
            &&& forall|i: int| 0 <= i < words.len() ==> (#[trigger] words[i]).times_seen > 0
            &&& forall|i: int, j: int|
                0 <= i < words.len() && 0 <= j < words.len() && (#[trigger] words[i]).success_count
                    * (#[trigger] words[j]).times_seen < words[j].success_count
                    * words[i].times_seen ==> i < j
        },
        fetched matches Err(e) ==> e is Storage,
{
    let args: Vec<i64> = Vec::new();
    match loaded(conn, SELECT_WEAK, &args) {
        Ok(rows) => {
            let words = select(Criterion::Weak, rows);
            Ok(words)
        },
        Err(e) => Err(e),
    }
}

/// What an update of the statistics comes to, given the number of rows that
/// the store changed: a word that has no row was not found.
pub fn update_outcome(id: i32, changed: usize) -> (outcome: Result<(), EngineError>)
    ensures
        changed == 0 ==> outcome == Err::<(), EngineError>(EngineError::WordNotFound(id)),
        changed > 0 ==> outcome is Ok,
{
    if changed == 0 {
        Err(EngineError::WordNotFound(id))
    } else {
        Ok(())
    }
}

/// Overwrites the mark, the time of the last answer and the two counts of the
/// stored word with the id of `word`.  The call fails with `WordNotFound`
/// where the store has no such word, and with `Storage` where the database
/// fails.
pub fn update_word_stats(conn: &Connection, word: &Word) -> (updated: Result<(), EngineError>)
    ensures
        updated matches Err(e) ==> e == EngineError::WordNotFound(word.id) || e is Storage,
{
    let args = stats_args(word);
    match storage_outcome(sqlite::execute(conn, UPDATE_STATS, &args)) {
        Ok(changed) => update_outcome(word.id, changed),
        Err(e) => Err(e),
    }
}

/// The three numbers to store for a resume marker.
pub fn encode_progress(progress: (Screen, i32, usize)) -> (codes: (i32, i32, i32))
    ensures
        (codes.0 as int, codes.1 as int, codes.2 as int) == stored_progress(progress),
{
    let (screen, group_id, index) = progress;
    (screen_to_int(screen), group_id, index_to_int(index))
}

/// Stores the resume marker, all three keys in one statement.  Only a
/// failure of the database makes the call fail.
pub fn save_progress(conn: &Connection, progress: (Screen, i32, usize)) -> (saved: Result<
    (),
    EngineError,
>)
    ensures
        saved matches Err(e) ==> e is Storage,
{
    let args = progress_args(progress);
    match storage_outcome(sqlite::execute(conn, UPSERT_PROGRESS, &args)) {
        Ok(_) => Ok(()),
        Err(e) => Err(e),
    }
}

/// The value that is handed to the store to ask for the words of a group:
/// the id of the group, for the one parameter of `SELECT_BY_GROUP`.
pub fn group_args(group_id: i32) -> (args: Vec<i64>)
    ensures
        args@ == seq![group_id as i64],
{
    let mut args: Vec<i64> = Vec::new();
    args.push(group_id as i64);
    assert(args@ =~= seq![group_id as i64]);
    args
}

/// The values that overwrite the statistics of a word, in the order of the
/// parameters of `UPDATE_STATS`: the mark as 1 or 0, the time of the last
/// answer, the two counts, and the id that names the row.
pub open spec fn stats_values(word: Word) -> Seq<i64> {
    seq![
        if word.marked { 1i64 } else { 0i64 },
        word.last_seen as i64,
        word.times_seen as i64,
        word.success_count as i64,
        word.id as i64,
    ]
}

/// The values that are handed to the store to overwrite the statistics of
/// `word`.
pub fn stats_args(word: &Word) -> (args: Vec<i64>)
    ensures
        args@ == stats_values(*word),
{
    let mut args: Vec<i64> = Vec::new();
    args.push(if word.marked { 1 } else { 0 });
    args.push(word.last_seen as i64);
    args.push(word.times_seen as i64);
    args.push(word.success_count as i64);
    args.push(word.id as i64);
    assert(args@ =~= stats_values(*word));
    args
}

/// The values that are stored for a resume marker, in the order of the
/// parameters of `UPSERT_PROGRESS`: the screen, the group, the position.
pub open spec fn progress_values(progress: (Screen, i32, usize)) -> Seq<i64> {
    let codes = stored_progress(progress);
    seq![codes.0 as i64, codes.1 as i64, codes.2 as i64]
}

/// The values that are handed to the store to save `progress`.
pub fn progress_args(progress: (Screen, i32, usize)) -> (args: Vec<i64>)
    ensures
        args@ == progress_values(progress),
{
    let (mode, group_id, index) = encode_progress(progress);
    let mut args: Vec<i64> = Vec::new();
    args.push(mode as i64);
    args.push(group_id as i64);
    args.push(index as i64);
    assert(args@ =~= progress_values(progress));
    args
}

} // verus!
