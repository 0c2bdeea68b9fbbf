//! Installs files into place the way the POSIX `install` utility does: copies sources into a
//! destination, keeps what was there under a backup policy, creates the destination
//! directories, and reports each event in the utility's words.
//!
//! The file system work is left to the caller: [`winstall::Execution`] decides each step and
//! the caller performs it.

pub mod cli;
pub mod directive;
pub mod foundation;
pub mod laws;
pub mod paths;
pub mod scratch;
pub mod text;
pub mod uopt;
pub mod winstall;
