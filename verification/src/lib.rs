//! Decisions of a launcher that starts several instances of a game which
//! guards itself against a second instance: decoding of handle snapshots and
//! object names, the scan that finds and closes the guard, the registry of
//! launched processes, and the lookup of the installation.
//!
//! The library decides and computes; whoever drives it talks to the system.

#![allow(non_camel_case_types)]
#![allow(non_snake_case)]

pub mod bytes;
pub mod guard;
pub mod handle_table;
pub mod install;
pub mod object_name;
pub mod process;
pub mod prompt;
pub mod registry;
pub mod spawn;
pub mod status;
pub mod text;
pub mod walk;
