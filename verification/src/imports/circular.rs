//! State carried through circular-import detection.
//!
//! The traversal keeps a stack of the files currently being followed and a
//! set of the files already fully visited; meeting a file that is still on
//! the stack records a readable cycle description instead of failing.

use vstd::prelude::*;

use crate::ast::ModuleItem;
use crate::imports::module_resolution::resolve_module_path;
use crate::paths::is_relative_path;
use crate::project::{ParsedFile, Project};
use crate::text::{concat2, str_eq};

verus! {

/// The views of a stack of path strings.
pub open spec fn path_views(stack: Seq<String>) -> Seq<Seq<char>> {
    stack.map_values(|p: String| p@)
}

/// The index of the first stack entry equal to `path`, or 0 when none is.
pub open spec fn spec_cycle_start(stack: Seq<String>, path: Seq<char>) -> int {
    if exists|i: int| 0 <= i < stack.len() && stack[i]@ == path {
        choose|i: int|
            0 <= i < stack.len() && stack[i]@ == path && forall|j: int|
                0 <= j < i ==> stack[j]@ != path
    } else {
        0
    }
}

/// The stack entries from `i` on, joined with ` -> `, each followed by the
/// separator so the cycle's closing file can be appended.
pub open spec fn spec_arrow_chain(stack: Seq<String>, i: int) -> Seq<char>
    decreases stack.len() - i,
{
    if i < 0 || i >= stack.len() {
        Seq::empty()
    } else {
        stack[i]@ + " -> "@ + spec_arrow_chain(stack, i + 1)
    }
}

/// The recorded description of a cycle that closes at `path`: the stack
/// from the cycle's start, joined with ` -> `, ending in `path`.
pub open spec fn spec_cycle_text(stack: Seq<String>, path: Seq<char>) -> Seq<char> {
    spec_arrow_chain(stack, spec_cycle_start(stack, path)) + path
}

/// Tracks state during circular import detection traversal.
#[derive(Debug, PartialEq, Eq)]
pub struct CircularImportTracker {
    pub visited: Vec<String>,
    pub path_stack: Vec<String>,
    pub cycles: Vec<String>,
}

impl CircularImportTracker {
    /// The stack holds no path twice, and every stacked path is the path of
    /// a file of the run; this is what bounds the traversal's depth.
    pub open spec fn wf(self, project: Project) -> bool {
        path_views(self.path_stack@).no_duplicates() && forall|i: int|
            0 <= i < self.path_stack@.len() ==> project.spec_has(self.path_stack@[i]@)
    }

    /// A fresh tracker with nothing visited, nothing stacked and no cycles.
    pub fn new() -> (r: CircularImportTracker)
        ensures
            r.visited@.len() == 0,
            r.path_stack@.len() == 0,
            r.cycles@.len() == 0,
    {
        CircularImportTracker { visited: Vec::new(), path_stack: Vec::new(), cycles: Vec::new() }
    }

    /// Whether the path is already on the current traversal stack, which
    /// means following it again would close a cycle.
    pub fn is_in_current_path(&self, file_path: &str) -> (r: bool)
        ensures
            r == exists|i: int|
                0 <= i < self.path_stack@.len() && self.path_stack@[i]@ == file_path@,
    {
        let mut i: usize = 0;
        while i < self.path_stack.len()
            invariant
                i <= self.path_stack@.len(),
                forall|j: int| 0 <= j < i ==> self.path_stack@[j]@ != file_path@,
            decreases self.path_stack@.len() - i,
        {
            if str_eq(self.path_stack[i].as_str(), file_path) {
                return true;
            }
            i += 1;
        }
        false
    }

    /// Whether the path has already been fully visited.
    pub fn is_visited(&self, file_path: &str) -> (r: bool)
        ensures
            r == exists|i: int| 0 <= i < self.visited@.len() && self.visited@[i]@ == file_path@,
    {
        let mut i: usize = 0;
        while i < self.visited.len()
            invariant
                i <= self.visited@.len(),
                forall|j: int| 0 <= j < i ==> self.visited@[j]@ != file_path@,
            decreases self.visited@.len() - i,
        {
            if str_eq(self.visited[i].as_str(), file_path) {
                return true;
            }
            i += 1;
        }
        false
    }

    /// Records the cycle that closes at `file_path`: the stack from the
    /// first occurrence of that path, joined with ` -> ` and ending in it.
    pub fn record_cycle(&mut self, file_path: &str)
        ensures
            final(self).path_stack@ == old(self).path_stack@,
            final(self).visited@ == old(self).visited@,
            final(self).cycles@.len() == old(self).cycles@.len() + 1,
            forall|i: int|
                0 <= i < old(self).cycles@.len() ==> final(self).cycles@[i] == old(
                    self,
                ).cycles@[i],
            final(self).cycles@.last()@ == spec_cycle_text(old(self).path_stack@, file_path@),
    {
        let ghost stack = self.path_stack@;
        let mut start: usize = 0;
        let mut found = false;
        let mut i: usize = 0;
        while i < self.path_stack.len()
            invariant
                self.path_stack@ == stack,
                i <= stack.len(),
                !found ==> start == 0 && forall|j: int| 0 <= j < i ==> stack[j]@ != file_path@,
                found ==> start < i <= stack.len() && stack[start as int]@ == file_path@
                    && forall|j: int| 0 <= j < start ==> stack[j]@ != file_path@,
            decreases stack.len() - i,
        {
            if !found && str_eq(self.path_stack[i].as_str(), file_path) {
                start = i;
                found = true;
            }
            i += 1;
        }
        proof {
            assert(start as int == spec_cycle_start(stack, file_path@)) by {
                if found {
                    let c = choose|k: int|
                        0 <= k < stack.len() && stack[k]@ == file_path@ && forall|j: int|
                            0 <= j < k ==> stack[j]@ != file_path@;
                    if c < start {
                        assert(stack[c]@ != file_path@);
                    }
                    if c > start {
                        assert(stack[start as int]@ != file_path@);
                    }
                } else {
                    if exists|k: int| 0 <= k < stack.len() && stack[k]@ == file_path@ {
                        let w = choose|k: int| 0 <= k < stack.len() && stack[k]@ == file_path@;
                        assert(stack[w]@ != file_path@);
                    }
                }
            }
        }
        let n = self.path_stack.len();
        let mut chain = String::new();
        let mut k: usize = n;
        proof {
            assert(chain@ =~= spec_arrow_chain(stack, n as int));
        }
        while k > start
            invariant
                start <= k <= n,
                n == stack.len(),
                self.path_stack@ == stack,
                chain@ == spec_arrow_chain(stack, k as int),
            decreases k,
        {
            k -= 1;
            let mut piece = concat2(self.path_stack[k].as_str(), " -> ");
            piece.append(chain.as_str());
            proof {
                assert(piece@ =~= stack[k as int]@ + " -> "@ + spec_arrow_chain(
                    stack,
                    k as int + 1,
                ));
            }
            chain = piece;
        }
        chain.append(file_path);
        self.cycles.push(chain);
    }

    /// Pushes a path onto the current traversal stack.
    pub fn push_path(&mut self, file_path: &str)
        ensures
            final(self).path_stack@.len() == old(self).path_stack@.len() + 1,
            final(self).path_stack@.last()@ == file_path@,
            forall|i: int|
                0 <= i < old(self).path_stack@.len() ==> final(self).path_stack@[i] == old(
                    self,
                ).path_stack@[i],
            final(self).visited@ == old(self).visited@,
            final(self).cycles@ == old(self).cycles@,
    {
        self.path_stack.push(crate::text::str_to_string(file_path));
    }

    /// Pops a path from the traversal stack and marks the given path as
    /// visited.
    pub fn pop_and_mark_visited(&mut self, file_path: &str)
        ensures
            final(self).path_stack@ == if old(self).path_stack@.len() > 0 {
                old(self).path_stack@.drop_last()
            } else {
                old(self).path_stack@
            },
            final(self).visited@.len() == old(self).visited@.len() + 1,
            final(self).visited@.last()@ == file_path@,
            forall|i: int|
                0 <= i < old(self).visited@.len() ==> final(self).visited@[i] == old(
                    self,
                ).visited@[i],
            final(self).cycles@ == old(self).cycles@,
    {
        if self.path_stack.len() > 0 {
            let _popped = self.path_stack.pop();
        }
        self.visited.push(crate::text::str_to_string(file_path));
    }
}

/// Extracts the resolvable relative import paths of a parsed file, in item
/// order. Each result is the path of a file the run holds.
pub fn extract_import_paths(project: &Project, parsed: &ParsedFile, source_directory: &str) -> (r:
    Vec<String>)
    ensures
        forall|i: int| 0 <= i < r@.len() ==> project.spec_has(#[trigger] r@[i]@),
{
    let mut import_paths: Vec<String> = Vec::new();
    let body = &parsed.module.body;
    let mut i: usize = 0;
    while i < body.len()
        invariant
            i <= body@.len(),
            forall|k: int| 0 <= k < import_paths@.len() ==> project.spec_has(
                #[trigger] import_paths@[k]@,
            ),
        decreases body@.len() - i,
    {
        match &body[i] {
            ModuleItem::Import(import_declaration) => {
                if is_relative_path(import_declaration.src.as_str()) {
                    match resolve_module_path(
                        project,
                        source_directory,
                        import_declaration.src.as_str(),
                    ) {
                        Some(resolved_path) => {
                            import_paths.push(resolved_path);
                        },
                        None => {},
                    }
                }
            },
            _ => {},
        }
        i += 1;
    }
    import_paths
}

} // verus!
