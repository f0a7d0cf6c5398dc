//! Decision logic of a small SSH launcher: a registry of named environments,
//! the argument list of the password-authenticated client, and the session
//! that strings prompt, launch and verdict together.
//!
//! Nothing here touches a terminal or a process. The caller performs each
//! [`session::Action`] and reports back with a [`session::Event`].

pub mod environment;
pub mod target;
pub mod invocation;
pub mod error;
pub mod session;
