//! Presentation: the command line, the choice of where tool parameters come
//! from, and the decisions of the interactive mode.

pub mod cli;
pub mod commands;
pub mod interactive;
