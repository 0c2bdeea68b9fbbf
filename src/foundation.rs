//! The requests and policies as the command line layer states them.

use vstd::prelude::*;

verus! {

/// What the program is asked to do.
pub enum Operation {
    ShowHelp,
    ShowVersion,
    CopyFiles { preserve_timestamps: bool, files: Vec<String>, directory: String },
    CreateDirectories(Vec<String>),
}

/// How existing content at a destination is kept.
pub enum BackupStrategy {
    Off,
    Numbered,
    Simple(String),
    Existing(String),
}

/// Where progress and error messages go.
pub trait MessageRouter {
    fn out(&mut self, message: String);

    fn err(&mut self, message: String);
}

/// How existing content at a destination is kept, as a working directory applies it.
pub enum BackupMethod {
    Off,
    Simple(String),
    Numbered,
    Existing(String),
}

/// Why a file could not be copied.
pub enum IoError {
    DirectoryArgument(String),
    PermissionDenied(String),
    NotFound(String),
}

} // verus!
