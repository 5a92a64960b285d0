//! Locates an installed copy of the package-installer command-line tool and
//! describes how to hand the current invocation over to it.
//!
//! The library decides; the program around it probes the filesystem, spawns
//! the child process and exits.

pub mod delegate;
pub mod error;
pub mod greeting;
pub mod intent;
pub mod resolve;
