//! A text-case converter: command-line scanning, case selection, and the
//! rendering of converted text and of a table that compares every case.

pub mod args;
pub mod cases;
pub mod output;
pub mod table;
pub mod text;
