//! The per-run arena of parsed files.
//!
//! A run parses each file once, outside this crate, and collects the results
//! here; resolution and flattening then look files up by path instead of
//! touching the file system. A fresh run builds a fresh arena.

use vstd::prelude::*;

use crate::ast::Module;

verus! {

/// One parsed source file: its absolute path and its module body.
#[derive(Debug, PartialEq, Eq)]
pub struct ParsedFile {
    pub file_path: String,
    pub module: Module,
}

/// Every file of one run, looked up by path.
#[derive(Debug, PartialEq, Eq)]
pub struct Project {
    pub files: Vec<ParsedFile>,
}

impl Project {
    /// Whether some file of the run has the given path.
    pub open spec fn spec_has(self, path: Seq<char>) -> bool {
        exists|i: int| 0 <= i < self.files@.len() && self.files@[i].file_path@ == path
    }

    /// The index of the first file with the given path.
    pub open spec fn spec_index_of(self, path: Seq<char>) -> int {
        choose|i: int|
            0 <= i < self.files@.len() && self.files@[i].file_path@ == path && forall|j: int|
                0 <= j < i ==> self.files@[j].file_path@ != path
    }

    /// An empty arena.
    pub fn new() -> (r: Project)
        ensures
            r.files@.len() == 0,
    {
        Project { files: Vec::new() }
    }

    /// Whether the run holds a file with this path.
    pub fn has(&self, path: &str) -> (r: bool)
        ensures
            r == self.spec_has(path@),
    {
        let mut i: usize = 0;
        while i < self.files.len()
            invariant
                i <= self.files@.len(),
                forall|j: int| 0 <= j < i ==> self.files@[j].file_path@ != path@,
            decreases self.files@.len() - i,
        {
            if crate::text::str_eq(self.files[i].file_path.as_str(), path) {
                return true;
            }
            i += 1;
        }
        false
    }

    /// The first file with this path, if the run holds one.
    pub fn get(&self, path: &str) -> (r: Option<&ParsedFile>)
        ensures
            match r {
                Some(f) => self.spec_has(path@) && f.file_path@ == path@ && 0
                    <= self.spec_index_of(path@) < self.files@.len() && *f
                    == self.files@[self.spec_index_of(path@)],
                None => !self.spec_has(path@),
            },
    {
        let mut i: usize = 0;
        while i < self.files.len()
            invariant
                i <= self.files@.len(),
                forall|j: int| 0 <= j < i ==> self.files@[j].file_path@ != path@,
            decreases self.files@.len() - i,
        {
            if crate::text::str_eq(self.files[i].file_path.as_str(), path) {
                proof {
                    let idx = self.spec_index_of(path@);
                    assert(0 <= i < self.files@.len() && self.files@[i as int].file_path@ == path@
                        && forall|j: int| 0 <= j < i ==> self.files@[j].file_path@ != path@);
                    assert(idx == i as int) by {
                        if idx < i {
                            assert(self.files@[idx].file_path@ != path@);
                        }
                        if idx > i {
                            assert(self.files@[i as int].file_path@ != path@);
                        }
                    }
                }
                return Some(&self.files[i]);
            }
            i += 1;
        }
        None
    }

    /// Adds one parsed file to the arena.
    pub fn push(&mut self, file: ParsedFile)
        ensures
            final(self).files@ == old(self).files@.push(file),
    {
        self.files.push(file);
    }
}

} // verus!
