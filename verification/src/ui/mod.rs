//! What the screens of the program decide.

pub mod app;
pub mod run;
pub mod screens;
