//! Queries a git working tree for its top-level directory and for its staged,
//! unstaged and untracked changes.
//!
//! The library holds every decision of those queries: which commands run and
//! where, which exit codes count as success, how output bytes become text and
//! which typed failure comes back otherwise. Running the processes is left to
//! the embedding program, which hands each outcome back as plain values.

pub mod text;
pub mod error;
pub mod process;
pub mod inspector;
pub mod deadline;
