//! A parsed file patch, ready to be applied.
use crate::path::PathUri;
use vstd::prelude::*;

verus! {

/// What a patch does to one file.
#[derive(Clone, Debug, PartialEq, Eq)]
pub enum ApplyPatchFileChange {
    /// Creates the file with `content`.
    Add { content: String },
    /// Deletes the file, which held `content`.
    Delete { content: String },
    /// Rewrites the file, and moves it to `move_path` when present.
    Update { unified_diff: String, move_path: Option<PathUri>, new_content: String },
}

/// The file changes a patch makes, each with the path of the file it touches.
#[derive(Clone, Debug, PartialEq, Eq)]
pub struct ApplyPatchAction {
    pub changes: Vec<(PathUri, ApplyPatchFileChange)>,
}

impl ApplyPatchAction {
    /// Whether the patch changes no file.
    pub fn is_empty(&self) -> (r: bool)
        ensures
            r == (self.changes@.len() == 0),
    {
        self.changes.len() == 0
    }

    pub fn changes(&self) -> (r: &Vec<(PathUri, ApplyPatchFileChange)>)
        ensures
            *r == self.changes,
    {
        &self.changes
    }
}

} // verus!
