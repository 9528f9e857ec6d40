//! A verified synchronization engine for mirroring configuration files
//! between their live locations under the home directory and a backup
//! directory.
//!
//! The engine itself performs no I/O: it is a state machine that, fed the
//! outcome of the previous operation, decides the next one (run a hook, stat
//! a path, copy a file, ...). A thin unverified driver performs each
//! operation and reports its outcome back.

pub mod cli;
pub mod config;
pub mod doc;
pub mod dump;
pub mod engine;
pub mod error;
pub mod globs;
pub mod laws;
pub mod paths;
