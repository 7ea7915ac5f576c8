//! A file that lives in memory, with the states and the failures of a real
//! one.

pub mod file;
