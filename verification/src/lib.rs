//! Budgeted assembly of an annotated text document from files and command outputs.

pub mod budget;
pub mod error;
pub mod globs;
pub mod guarantees;
pub mod render;
pub mod run;
pub mod select;
pub mod text;
pub mod tokenizer;
