//! A bridge between a desktop user interface and an interpreter-hosted backend.
//!
//! The user interface asks for one of a fixed set of operations. Each call is
//! served by a fresh interpreter process that runs a short generated program:
//! the program imports the backend module, calls one method with the arguments
//! of the call and prints what the method returns as JSON.
//!
//! The library decides everything about such a call and performs none of its
//! input and output:
//!
//! - [`commands`] shapes the caller's input into a request;
//! - [`paths`] finds the backend directory and lists the interpreters to try;
//! - [`template`] writes the program, with the arguments escaped by
//!   [`escape`];
//! - [`invoker`] says which interpreter to launch next, given what became of
//!   the attempt before;
//! - [`response`] turns what the process left behind into the result, or into
//!   one of the errors of [`error`].
//!
//! JSON values are those of `serde_json`; [`json`] holds their model and what
//! is trusted of that crate.

pub mod commands;
pub mod error;
pub mod escape;
pub mod invoker;
pub mod json;
pub mod paths;
pub mod response;
pub mod template;
