//! The screens, each with what its keys mean.

pub mod menu;
pub mod practice;
pub mod test;
