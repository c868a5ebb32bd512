//! Walk the history of a single file in a repository, one commit at a time,
//! and keep the reader's place in the diff while moving between commits.
pub mod args;
pub mod commit;
pub mod diff;
pub mod history;
pub mod state;
