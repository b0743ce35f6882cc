//! Save and restore the configuration of a Linux system and its applications
//! in a git-backed snapshot directory.

pub mod text;
pub mod paths;
pub mod ss;
pub mod config;
pub mod cli;
pub mod gitutils;
pub mod snapshot;
