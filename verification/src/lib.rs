//! A vocabulary drill engine: the word store, the selection of words for a
//! review session, and the session state machine that records answers.

pub mod actions;
pub mod db;
pub mod error;
pub mod selection;
pub mod session;
pub mod text;
pub mod ui;
