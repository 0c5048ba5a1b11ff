//! Batch conversion of save files between the two platform layouts: the
//! decisions of the discover, confirm, dispatch and aggregate pipeline.
//! The byte-level conversion and all file access stay with the caller, which
//! feeds the outcome of each step back into a [`session::Session`].

pub mod answer;
pub mod outcome;
pub mod platform;
pub mod session;
pub mod short_path;
