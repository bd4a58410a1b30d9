//! Unicode normalization of file names: which names need a new form, what the
//! new name is, and what is printed and logged for every entry of a walk.

pub mod commands;
pub mod form;
pub mod renamer;
pub mod report;
pub mod unicode;
