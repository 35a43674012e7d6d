//! Orchestration core of a command-line assistant that explains commits.
//!
//! The crate holds the decisions only: which collaborator is asked next, what
//! is done with its answer, how the report is laid out and how a picker's
//! output becomes a commit identifier. Running subprocesses, reaching a
//! backend and drawing on the terminal are left to the caller, which performs
//! what each [`session::Step`] asks for and reports back with an
//! [`session::Event`].

pub mod command;
pub mod commit;
pub mod error;
pub mod report;
pub mod run;
pub mod selection;
pub mod session;
