//! Rewrites the ELF interpreter and rpath of every binary in an installed
//! Rust toolchain so that it runs under a Nix store layout.
//!
//! The library holds the decision core: which package-database queries to
//! issue, how to interpret their output, which files of the toolchain's
//! `bin` and `lib` directories to patch and with which command, and how
//! every failure is classified.  All of it is stated in contracts and
//! verified.  The binary around the library performs the actual process
//! spawns and filesystem reads and feeds the observations back in as plain
//! values.

pub mod bytes;
pub mod command;
pub mod error;
pub mod fsmeta;
pub mod nix;
