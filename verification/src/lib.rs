//! A launcher for the prebuilt `nonodo` executable.
//!
//! The library decides everything the launcher has to decide: how the host's
//! operating system and architecture names become a platform key, which keys
//! have a binary, how the binary's file is named and where it lies, what is
//! reported when it cannot be used, and how the child's end becomes the
//! launcher's own. Reading the environment and touching the file system and
//! the process table is left to the caller, who is told what to do next by
//! [`launcher::step`].

pub mod text;
pub mod platform;
pub mod error;
pub mod config;
pub mod locate;
pub mod launcher;
pub mod run;
