//! Directories that hold files for a while, and what is put into them.

use vstd::prelude::*;
use crate::paths::{join as join_paths, joined};

verus! {

/// A directory that lives as long as the value.
pub struct EphemeralPath {
    pub path: String,
}

impl EphemeralPath {
    /// The directory's path.
    pub fn path(&self) -> (r: &str)
        ensures
            r@ == self.path@,
    {
        self.path.as_str()
    }

    /// `suffix` read relative to the directory.
    pub fn join(&self, suffix: &str) -> (r: String)
        ensures
            r@ == joined(self.path@, suffix@),
    {
        join_paths(self.path.as_str(), suffix)
    }
}

/// A directory made for the length of a task.
pub struct Interim {
    pub real: String,
}

impl Interim {
    /// `p` read relative to the directory.
    pub fn join(&self, p: &str) -> (r: String)
        ensures
            r@ == joined(self.real@, p@),
    {
        join_paths(self.real.as_str(), p)
    }
}

/// A directory that is removed when the value goes.
pub struct GhostDir {
    pub real: String,
}

/// An entry to put into a directory: a file with its content, or a directory with its entries.
pub enum Element {
    File(&'static str, &'static str),
    Directory(&'static str, Vec<Element>),
}

} // verus!
