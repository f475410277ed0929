//! Core logic of a thin desktop shell around an external vector-graphics
//! editor: locating asset directories, merging caller-supplied parameter text
//! with computed action paths, materializing a script preamble, classifying
//! the editor process's outcome, and the shell's close-behavior flag.

pub mod actions;
pub mod errors;
pub mod invoke;
pub mod locate;
pub mod params;
pub mod paths;
pub mod script;
pub mod shell;
