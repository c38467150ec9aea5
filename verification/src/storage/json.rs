use std::path::PathBuf;
use vstd::prelude::*;

verus! {

#[verifier::external_type_specification]
#[verifier::external_body]
pub struct ExPathBuf(PathBuf);

/// A storage that keeps all snippets as one JSON array in the file at `path`.
/// The file is read before and written after each operation; the operations
/// on the records read from it are those of `storage::records`.
pub struct JsonStorage {
    path: PathBuf,
}

impl JsonStorage {
    /// The path of the file that holds the records.
    pub closed spec fn spec_path(&self) -> PathBuf {
        self.path
    }

    /// A storage over the file at `path`; the file need not exist yet.
    pub fn new(path: PathBuf) -> (s: Self)
        ensures
            s.spec_path() == path,
    {
        JsonStorage { path }
    }

    /// The path of the file that holds the records.
    pub fn path(&self) -> (p: &PathBuf)
        ensures
            *p == self.spec_path(),
    {
        &self.path
    }
}

} // verus!
