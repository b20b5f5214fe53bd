//! The document store's addressing: one root directory, fixed when the store
//! is made, and one file per identifier directly below it.

use crate::doc_id::{is_direct_child, is_valid_id, storage_path, DocId};
use vstd::prelude::*;

verus! {

/// A store of documents under one root directory. The root is given once,
/// when the store is made, and never changes.
pub struct DocumentStore {
    root: String,
}

impl View for DocumentStore {
    type V = Seq<char>;

    /// The root directory.
    closed spec fn view(&self) -> Seq<char> {
        self.root@
    }
}

impl DocumentStore {
    /// A store rooted at the directory `root`.
    pub fn new(root: String) -> (store: DocumentStore)
        ensures
            store@ == root@,
    {
        DocumentStore { root }
    }

    /// The root directory.
    pub fn root(&self) -> (root: &str)
        ensures
            root@ == self@,
    {
        self.root.as_str()
    }

    /// The path of the document named `id`: a direct child of the root, named
    /// by the identifier. The file system is not consulted.
    pub fn path_for(&self, id: &DocId) -> (path: String)
        ensures
            path@ == storage_path(self@, id@),
            is_valid_id(id@),
            is_direct_child(path@, self@),
    {
        id.file_path(self.root.as_str())
    }
}

} // verus!
