//! The tables of the word store.

use vstd::prelude::*;

verus! {

/// Creates the two tables where they do not exist yet: `words`, one row for
/// each word, and `app_state`, the keys and values of the resume marker.
pub const INIT_SCHEMA: &'static str = "
PRAGMA foreign_keys = ON;

CREATE TABLE IF NOT EXISTS words (
    id INTEGER PRIMARY KEY AUTOINCREMENT,
    word TEXT NOT NULL UNIQUE,
    definition TEXT NOT NULL,
    group_id INTEGER NOT NULL,
    marked INTEGER NOT NULL DEFAULT 0,
    last_seen INTEGER,
    times_seen INTEGER NOT NULL DEFAULT 0,
    success_count INTEGER NOT NULL DEFAULT 0
);

CREATE TABLE IF NOT EXISTS app_state (
    key TEXT PRIMARY KEY,
    value TEXT NOT NULL
);
";

} // verus!
