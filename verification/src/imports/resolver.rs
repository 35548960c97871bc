//! The import resolver: follows a name across files, through barrel files
//! and star re-exports, under a depth bound; builds per-file import maps;
//! and detects circular imports.

use vstd::prelude::*;

use crate::ast::{ImportSpecifier, ModuleItem};
use crate::error::ImportError;
use crate::imports::barrel::{find_export_in_barrel_item, BarrelExportMatch};
use crate::imports::circular::{extract_import_paths, path_views, spec_cycle_text, CircularImportTracker};
use crate::imports::declarations::{find_declaration_in_file, spec_find_declaration};
use crate::imports::types::ResolvedImport;
use crate::paths::{file_name, parent_dir};
use crate::project::{ParsedFile, Project};
use crate::text::{concat3, dec_str, str_eq, str_to_string, usize_to_string};
use vstd::set_lib::lemma_len_subset;

verus! {

/// The depth bound that resolution runs under when none is chosen.
pub const DEFAULT_MAX_IMPORT_DEPTH: usize = 10;

/// A resolved name is sound when the file it points into really declares it
/// as the kind it reports.
pub open spec fn spec_declared_in_project(project: Project, ri: ResolvedImport) -> bool {
    exists|j: int|
        0 <= j < project.files@.len() && project.files@[j].file_path@ == ri.source_file@
            && spec_find_declaration(project.files@[j].module.body@, ri.name@) == Some(
            ri.declaration_type,
        )
}

/// The message of the error raised when resolution runs past its depth
/// bound.
pub open spec fn spec_depth_message(max_depth: nat, name: Seq<char>) -> Seq<char> {
    "Maximum resolution depth ("@ + dec_str(max_depth) + ") exceeded while resolving '"@ + name
        + "'"@
}

/// The bindings a file sees by name: each locally visible identifier with
/// the declaration it resolves to. A later entry for the same name wins.
#[derive(Debug, Clone, PartialEq, Eq)]
pub struct ImportsMap {
    pub entries: Vec<(String, ResolvedImport)>,
}

impl ImportsMap {
    /// Every recorded resolution points at a real declaration of the run.
    pub open spec fn sound(self, project: Project) -> bool {
        forall|i: int|
            0 <= i < self.entries@.len() ==> spec_declared_in_project(
                project,
                (#[trigger] self.entries@[i]).1,
            )
    }

    /// Whether some entry binds this name.
    pub open spec fn spec_has_name(self, name: Seq<char>) -> bool {
        exists|i: int| 0 <= i < self.entries@.len() && (#[trigger] self.entries@[i]).0@ == name
    }

    /// An empty map.
    pub fn new() -> (r: ImportsMap)
        ensures
            r.entries@.len() == 0,
    {
        ImportsMap { entries: Vec::new() }
    }

    /// The resolution bound to `name`, taking the latest entry when the
    /// name was bound more than once.
    pub fn get(&self, name: &str) -> (r: Option<&ResolvedImport>)
        ensures
            match r {
                Some(ri) => self.spec_has_name(name@) && exists|i: int|
                    0 <= i < self.entries@.len() && (#[trigger] self.entries@[i]).0@ == name@
                        && self.entries@[i].1 == *ri,
                None => !self.spec_has_name(name@),
            },
    {
        let n = self.entries.len();
        let mut i: usize = n;
        while i > 0
            invariant
                i <= n,
                n == self.entries@.len(),
                forall|j: int| i <= j < n ==> (#[trigger] self.entries@[j]).0@ != name@,
            decreases i,
        {
            i -= 1;
            if str_eq(self.entries[i].0.as_str(), name) {
                return Some(&self.entries[i].1);
            }
        }
        None
    }

    /// Binds `name` to a resolution; a rebinding shadows earlier ones.
    pub fn insert(&mut self, name: String, resolved: ResolvedImport)
        ensures
            final(self).entries@ == old(self).entries@.push((name, resolved)),
    {
        self.entries.push((name, resolved));
    }
}


/// A named import binding of the file that resolves directly: item `j` is
/// a relative import whose module path resolves to a file of the run, and
/// its specifier `k` binds `local` to a name that file declares at top
/// level.
pub open spec fn spec_direct_binding(
    project: Project,
    body: Seq<crate::ast::ModuleItem>,
    dir: Seq<char>,
    j: int,
    k: int,
    local: Seq<char>,
) -> bool {
    0 <= j < body.len() && (match body[j] {
        crate::ast::ModuleItem::Import(d) => crate::paths::spec_is_relative_path(d.src@) && 0 <= k
            < d.specifiers@.len() && (match d.specifiers@[k] {
            crate::ast::ImportSpecifier::Named(n) => n.local@ == local && (
            match crate::imports::module_resolution::spec_resolve_module_path(
                project,
                dir,
                d.src@,
            ) {
                Some(p) => project.spec_has(p) && spec_find_declaration(
                    project.files@[project.spec_index_of(p)].module.body@,
                    match n.imported {
                        Some(im) => im@,
                        None => n.local@,
                    },
                ) is Some,
                None => false,
            }),
            _ => false,
        }),
        _ => false,
    })
}

/// Resolves names to the declarations that define them, following relative
/// imports and barrel files across the run's files.
#[derive(Debug, Clone, PartialEq, Eq)]
pub struct ImportResolver {
    pub max_depth: usize,
}

/// Whether a line is the rendering of a cycle: the chain of stack paths
/// from the repeated file on, closed by that file.
pub open spec fn spec_is_cycle_line(s: Seq<char>) -> bool {
    exists|stack: Seq<String>, f: Seq<char>| s == #[trigger] spec_cycle_text(stack, f)
}

impl ImportResolver {
    /// A resolver with the default depth bound.
    pub fn new() -> (r: ImportResolver)
        ensures
            r.max_depth == DEFAULT_MAX_IMPORT_DEPTH,
    {
        ImportResolver { max_depth: DEFAULT_MAX_IMPORT_DEPTH }
    }

    /// The same resolver with another depth bound.
    pub fn with_max_depth(self, max_depth: usize) -> (r: ImportResolver)
        ensures
            r.max_depth == max_depth,
    {
        ImportResolver { max_depth }
    }

    /// Resolves `name` against the file at `file_path`, searching its own
    /// top-level declarations first and then, for a barrel file, its
    /// re-exports, best effort for star re-exports. Every success points at
    /// a real declaration of the run. A call at or past the depth bound
    /// fails with the depth error instead of recursing, so an import chain
    /// deeper than the bound resolves to an error rather than hanging.
    #[verifier::rlimit(60)]
    #[verifier::loop_isolation(false)]
    pub fn resolve_import(
        &self,
        project: &Project,
        file_path: &str,
        name: &str,
        base_directory: &str,
        depth: usize,
    ) -> (r: Result<ResolvedImport, ImportError>)
        ensures
            r matches Ok(ri) ==> spec_declared_in_project(*project, ri),
            depth >= self.max_depth ==> (r matches Err(e) && (e matches
                ImportError::CircularImport { cycle } && cycle@ == spec_depth_message(
                self.max_depth as nat,
                name@,
            ))),
            depth < self.max_depth && !project.spec_has(file_path@) ==> (r matches Err(e) && (
            e matches ImportError::ModuleNotFound { module, source_path } && module@ == file_path@
                && source_path@ == file_path@)),
            depth < self.max_depth && project.spec_has(file_path@) ==> (
            match spec_find_declaration(
                project.files@[project.spec_index_of(file_path@)].module.body@,
                name@,
            ) {
                Some(dt) => r matches Ok(ri) && ri.name@ == name@ && ri.source_file@ == file_path@
                    && ri.declaration_type == dt,
                None => true,
            }),
        decreases self.max_depth - depth,
    {
        if depth >= self.max_depth {
            let max_text = usize_to_string(self.max_depth);
            let mut cycle = concat3("Maximum resolution depth (", max_text.as_str(),
                ") exceeded while resolving '");
            cycle.append(name);
            cycle.append("'");
            return Err(ImportError::CircularImport { cycle });
        }

        let parsed = match project.get(file_path) {
            Some(p) => p,
            None => {
                return Err(
                    ImportError::ModuleNotFound {
                        module: str_to_string(file_path),
                        source_path: str_to_string(file_path),
                    },
                );
            },
        };

        if let Some(resolved) = find_declaration_in_file(parsed, name) {
            proof {
                let idx = project.spec_index_of(file_path@);
                assert(project.files@[idx].file_path@ == file_path@);
            }
            return Ok(resolved);
        }

        let name_of_file = file_name(file_path);
        let is_barrel_file = str_eq(name_of_file.as_str(), "index.ts") || str_eq(
            name_of_file.as_str(),
            "index.tsx",
        );

        if is_barrel_file {
            let barrel_directory = match parent_dir(file_path) {
                Some(d) => d,
                None => str_to_string(base_directory),
            };
            let body = &parsed.module.body;
            let mut i: usize = 0;
            while i < body.len()
                invariant
                    i <= body@.len(),
                    depth < self.max_depth,
                decreases body@.len() - i,
            {
                match find_export_in_barrel_item(
                    project,
                    &body[i],
                    name,
                    barrel_directory.as_str(),
                ) {
                    BarrelExportMatch::Named(export) => {
                        let resolved = self.resolve_import(
                            project,
                            export.source_path.as_str(),
                            export.original_name.as_str(),
                            base_directory,
                            depth + 1,
                        )?;
                        return Ok(resolved);
                    },
                    BarrelExportMatch::Star(export) => {
                        match self.resolve_import(
                            project,
                            export.source_path.as_str(),
                            name,
                            base_directory,
                            depth + 1,
                        ) {
                            Ok(resolved) => {
                                return Ok(resolved);
                            },
                            Err(_) => {},
                        }
                    },
                    BarrelExportMatch::NoMatch => {},
                }
                i += 1;
            }
        }

        Err(
            ImportError::Unresolved {
                name: str_to_string(name),
                source_path: str_to_string(file_path),
            },
        )
    }


    /// The directory a file's relative imports resolve against: its
    /// parent directory, or the base directory for a bare name.
    pub open spec fn spec_import_dir(file_path: Seq<char>, base_directory: Seq<char>) -> Seq<
        char,
    > {
        match crate::paths::spec_parent_dir(file_path) {
            Some(d) => d,
            None => base_directory,
        }
    }

    /// Builds the map of names the given file imports from relative,
    /// resolvable modules: one entry per named import binding that
    /// resolves, keyed by the local name. Bindings from packages and
    /// bindings that fail to resolve are skipped.
    #[verifier::loop_isolation(false)]
    #[verifier::rlimit(100)]
    pub fn build_imports_map(
        &self,
        project: &Project,
        source_file: &ParsedFile,
        base_directory: &str,
    ) -> (r: ImportsMap)
        ensures
            r.sound(*project),
            self.max_depth >= 1 ==> (forall|j: int, k: int, local: Seq<char>|
                spec_direct_binding(
                    *project,
                    source_file.module.body@,
                    Self::spec_import_dir(source_file.file_path@, base_directory@),
                    j,
                    k,
                    local,
                ) ==> r.spec_has_name(local)),
    {
        let mut imports_map = ImportsMap::new();
        let source_directory = match parent_dir(source_file.file_path.as_str()) {
            Some(d) => d,
            None => str_to_string(base_directory),
        };
        let ghost dir = Self::spec_import_dir(source_file.file_path@, base_directory@);
        proof {
            assert(source_directory@ == dir);
        }

        let body = &source_file.module.body;
        let mut i: usize = 0;
        while i < body.len()
            invariant
                i <= body@.len(),
                imports_map.sound(*project),
                self.max_depth >= 1 ==> (forall|j: int, k: int, local: Seq<char>|
                    j < i && spec_direct_binding(
                        *project,
                        body@,
                        dir,
                        j,
                        k,
                        local,
                    ) ==> imports_map.spec_has_name(local)),
            decreases body@.len() - i,
        {
            match &body[i] {
                ModuleItem::Import(import_declaration) => {
                    let relative = crate::paths::is_relative_path(
                        import_declaration.src.as_str(),
                    );
                    if relative {
                        match crate::imports::module_resolution::resolve_module_path(
                            project,
                            source_directory.as_str(),
                            import_declaration.src.as_str(),
                        ) {
                            Some(resolved_path) => {
                                let mut k: usize = 0;
                                let specs = &import_declaration.specifiers;
                                while k < specs.len()
                                    invariant
                                        k <= specs@.len(),
                                        imports_map.sound(*project),
                                        self.max_depth >= 1 ==> (forall|
                                            j: int,
                                            k2: int,
                                            local: Seq<char>,
                                        |
                                            j < i && spec_direct_binding(
                                                *project,
                                                body@,
                                                dir,
                                                j,
                                                k2,
                                                local,
                                            ) ==> imports_map.spec_has_name(local)),
                                        self.max_depth >= 1 ==> (forall|
                                            k2: int,
                                            local: Seq<char>,
                                        |
                                            k2 < k && spec_direct_binding(
                                                *project,
                                                body@,
                                                dir,
                                                i as int,
                                                k2,
                                                local,
                                            ) ==> imports_map.spec_has_name(local)),
                                    decreases specs@.len() - k,
                                {
                                    let ghost map_before = imports_map;
                                    match &specs[k] {
                                        ImportSpecifier::Named(named) => {
                                            let imported_name = match &named.imported {
                                                Some(n) => n.as_str(),
                                                None => named.local.as_str(),
                                            };
                                            match self.resolve_import(
                                                project,
                                                resolved_path.as_str(),
                                                imported_name,
                                                base_directory,
                                                0,
                                            ) {
                                                Ok(resolved) => {
                                                    imports_map.insert(
                                                        str_to_string(named.local.as_str()),
                                                        resolved,
                                                    );
                                                    proof {
                                                        assert(imports_map.entries@
                                                            == map_before.entries@.push(
                                                            imports_map.entries@.last(),
                                                        ));
                                                        assert(imports_map.entries@.last().0@
                                                            == named.local@);
                                                        assert(imports_map.spec_has_name(
                                                            named.local@,
                                                        ));
                                                        assert forall|name: Seq<char>|
                                                            map_before.spec_has_name(
                                                                name,
                                                            ) implies imports_map.spec_has_name(
                                                            name,
                                                        ) by {
                                                            let w = choose|w: int|
                                                                0 <= w
                                                                    < map_before.entries@.len()
                                                                    && (
                                                                #[trigger] map_before.entries@[w]).0@
                                                                    == name;
                                                            assert(imports_map.entries@[w]
                                                                == map_before.entries@[w]);
                                                        }
                                                        if self.max_depth >= 1 {
                                                            assert forall|local: Seq<char>|
                                                                spec_direct_binding(
                                                                    *project,
                                                                    body@,
                                                                    dir,
                                                                    i as int,
                                                                    k as int,
                                                                    local,
                                                                ) implies imports_map.spec_has_name(
                                                                local,
                                                            ) by {
                                                                assert(local == named.local@);
                                                            }
                                                        }
                                                    }
                                                },
                                                Err(_) => {
                                                    proof {
                                                        if self.max_depth >= 1 {
                                                            assert forall|local: Seq<char>|
                                                                !spec_direct_binding(
                                                                    *project,
                                                                    body@,
                                                                    dir,
                                                                    i as int,
                                                                    k as int,
                                                                    local,
                                                                ) by {
                                                                if spec_direct_binding(
                                                                    *project,
                                                                    body@,
                                                                    dir,
                                                                    i as int,
                                                                    k as int,
                                                                    local,
                                                                ) {
                                                                    assert(
                                                                        crate::imports::module_resolution::spec_resolve_module_path(
                                                                            *project,
                                                                            dir,
                                                                            import_declaration.src@,
                                                                        ) == Some(
                                                                            resolved_path@,
                                                                        ));
                                                                    assert(imported_name@
                                                                        == (match named.imported {
                                                                        Some(im) => im@,
                                                                        None => named.local@,
                                                                    }));
                                                                    assert(false);
                                                                }
                                                            }
                                                        }
                                                    }
                                                },
                                            }
                                        },
                                        _ => {
                                            proof {
                                                assert(forall|local: Seq<char>|
                                                    !spec_direct_binding(
                                                        *project,
                                                        body@,
                                                        dir,
                                                        i as int,
                                                        k as int,
                                                        local,
                                                    ));
                                            }
                                        },
                                    }
                                    k += 1;
                                }
                                proof {
                                    if self.max_depth >= 1 {
                                        assert forall|k2: int, local: Seq<char>|
                                            spec_direct_binding(
                                                *project,
                                                body@,
                                                dir,
                                                i as int,
                                                k2,
                                                local,
                                            ) implies imports_map.spec_has_name(local) by {
                                            assert(k2 < specs@.len());
                                        }
                                    }
                                }
                            },
                            None => {
                                proof {
                                    assert(forall|k2: int, local: Seq<char>|
                                        !spec_direct_binding(
                                            *project,
                                            body@,
                                            dir,
                                            i as int,
                                            k2,
                                            local,
                                        ));
                                }
                            },
                        }
                    } else {
                        proof {
                            assert(forall|k2: int, local: Seq<char>|
                                !spec_direct_binding(
                                    *project,
                                    body@,
                                    dir,
                                    i as int,
                                    k2,
                                    local,
                                ));
                        }
                    }
                },
                _ => {
                    proof {
                        assert(forall|k2: int, local: Seq<char>|
                            !spec_direct_binding(*project, body@, dir, i as int, k2, local));
                    }
                },
            }
            i += 1;
        }
        imports_map
    }

    /// Walks the file's relative imports depth first and records a readable
    /// description of every import cycle met; cycles are diagnostics, not
    /// errors, and the traversal always terminates.
    /// Walks the file's relative imports depth-first and reports every
    /// cycle met, each line rendered as the chain of paths that closes it.
    pub fn detect_circular_imports(
        &self,
        project: &Project,
        source_file: &ParsedFile,
        base_directory: &str,
    ) -> (r: Vec<String>)
        ensures
            forall|c: int| 0 <= c < r@.len() ==> spec_is_cycle_line((#[trigger] r@[c])@),
    {
        let mut tracker = CircularImportTracker::new();
        proof {
            assert(path_views(tracker.path_stack@) =~= Seq::<Seq<char>>::empty());
        }
        self.check_circular_imports_recursive(
            project,
            source_file.file_path.as_str(),
            base_directory,
            &mut tracker,
        );
        tracker.cycles
    }

    #[verifier::rlimit(100)]
    fn check_circular_imports_recursive(
        &self,
        project: &Project,
        file_path: &str,
        base_directory: &str,
        tracker: &mut CircularImportTracker,
    )
        requires
            old(tracker).wf(*project),
        ensures
            final(tracker).wf(*project),
            final(tracker).path_stack@ == old(tracker).path_stack@,
            final(tracker).cycles@.len() >= old(tracker).cycles@.len(),
            forall|c: int| 0 <= c < old(tracker).cycles@.len() ==> final(tracker).cycles@[c]
                == old(tracker).cycles@[c],
            forall|c: int|
                old(tracker).cycles@.len() <= c < final(tracker).cycles@.len()
                    ==> spec_is_cycle_line((#[trigger] final(tracker).cycles@[c])@),
        decreases project.files@.len() - old(tracker).path_stack@.len(),
    {
        proof {
            lemma_stack_bounded(*project, *tracker);
        }
        if tracker.is_in_current_path(file_path) {
            let ghost stack_before = tracker.path_stack@;
            tracker.record_cycle(file_path);
            proof {
                assert forall|c: int|
                    old(tracker).cycles@.len() <= c < tracker.cycles@.len() implies
                    spec_is_cycle_line((#[trigger] tracker.cycles@[c])@) by {
                    assert(tracker.cycles@[c] == tracker.cycles@.last());
                    assert((tracker.cycles@[c])@ == spec_cycle_text(stack_before, file_path@));
                }
            }
            return;
        }

        if tracker.is_visited(file_path) {
            return;
        }

        let parsed = match project.get(file_path) {
            Some(p) => p,
            None => {
                return;
            },
        };

        tracker.push_path(file_path);
        proof {
            lemma_push_keeps_wf(*project, *old(tracker), *tracker, file_path@);
        }

        let source_directory = match parent_dir(file_path) {
            Some(d) => d,
            None => str_to_string(base_directory),
        };
        let import_paths = extract_import_paths(project, parsed, source_directory.as_str());

        let ghost stack_after_push = tracker.path_stack@;
        let mut i: usize = 0;
        while i < import_paths.len()
            invariant
                i <= import_paths@.len(),
                tracker.wf(*project),
                tracker.path_stack@ == stack_after_push,
                stack_after_push.len() == old(tracker).path_stack@.len() + 1,
                tracker.cycles@.len() >= old(tracker).cycles@.len(),
                forall|c: int| 0 <= c < old(tracker).cycles@.len() ==> tracker.cycles@[c]
                    == old(tracker).cycles@[c],
                forall|c: int|
                    old(tracker).cycles@.len() <= c < tracker.cycles@.len()
                        ==> spec_is_cycle_line((#[trigger] tracker.cycles@[c])@),
            decreases import_paths@.len() - i,
        {
            proof {
                lemma_stack_bounded(*project, *tracker);
            }
            let ghost cycles_before = tracker.cycles@;
            self.check_circular_imports_recursive(
                project,
                import_paths[i].as_str(),
                base_directory,
                tracker,
            );
            proof {
                assert forall|c: int|
                    old(tracker).cycles@.len() <= c < tracker.cycles@.len() implies
                    spec_is_cycle_line((#[trigger] tracker.cycles@[c])@) by {
                    if c < cycles_before.len() {
                        assert(tracker.cycles@[c] == cycles_before[c]);
                        assert(spec_is_cycle_line(cycles_before[c]@));
                    } else {
                        assert(cycles_before.len() <= c < tracker.cycles@.len());
                    }
                }
            }
            i += 1;
        }

        tracker.pop_and_mark_visited(file_path);
        proof {
            assert(tracker.path_stack@ =~= old(tracker).path_stack@) by {
                assert(stack_after_push.drop_last() =~= old(tracker).path_stack@);
            }
            lemma_prefix_keeps_wf(*project, stack_after_push, tracker.path_stack@);
        }
    }
}

/// Builds the import map of a file with a fresh resolver.
pub fn build_imports_map(project: &Project, source_file: &ParsedFile, base_directory: &str) -> (r:
    ImportsMap)
    ensures
        r.sound(*project),
        forall|j: int, k: int, local: Seq<char>|
            spec_direct_binding(
                *project,
                source_file.module.body@,
                ImportResolver::spec_import_dir(source_file.file_path@, base_directory@),
                j,
                k,
                local,
            ) ==> r.spec_has_name(local),
{
    ImportResolver::new().build_imports_map(project, source_file, base_directory)
}

/// A well-formed traversal stack can hold at most one entry per file of
/// the run, so its length never exceeds the number of files.
proof fn lemma_stack_bounded(project: Project, tracker: CircularImportTracker)
    requires
        tracker.wf(project),
    ensures
        tracker.path_stack@.len() <= project.files@.len(),
{
    let views = path_views(tracker.path_stack@);
    let file_paths = project.files@.map_values(|f: ParsedFile| f.file_path@);
    assert(views.len() == tracker.path_stack@.len());
    assert forall|x: Seq<char>| views.to_set().contains(x) implies file_paths.to_set().contains(
        x,
    ) by {
        let i = choose|i: int| 0 <= i < views.len() && views[i] == x;
        assert(project.spec_has(tracker.path_stack@[i]@));
        let j = choose|j: int|
            0 <= j < project.files@.len() && project.files@[j].file_path@ == x;
        assert(file_paths[j] == x);
    }
    views.unique_seq_to_set();
    file_paths.lemma_cardinality_of_set();
    lemma_len_subset(views.to_set(), file_paths.to_set());
}

/// Pushing a path that is not yet on a well-formed stack, and that names a
/// file of the run, keeps the stack well formed.
proof fn lemma_push_keeps_wf(
    project: Project,
    before: CircularImportTracker,
    after: CircularImportTracker,
    pushed: Seq<char>,
)
    requires
        before.wf(project),
        project.spec_has(pushed),
        !(exists|i: int|
            0 <= i < before.path_stack@.len() && before.path_stack@[i]@ == pushed),
        after.path_stack@.len() == before.path_stack@.len() + 1,
        after.path_stack@.last()@ == pushed,
        forall|i: int|
            0 <= i < before.path_stack@.len() ==> after.path_stack@[i] == before.path_stack@[i],
    ensures
        after.wf(project),
{
    let bv = path_views(before.path_stack@);
    let av = path_views(after.path_stack@);
    assert(av.len() == bv.len() + 1);
    assert forall|i: int| 0 <= i < bv.len() implies av[i] == bv[i] by {
        assert(after.path_stack@[i] == before.path_stack@[i]);
    }
    assert(av.no_duplicates()) by {
        assert forall|i: int, j: int| 0 <= i < j < av.len() implies av[i] != av[j] by {
            if j < av.len() - 1 {
                assert(av[i] == bv[i] && av[j] == bv[j]);
            } else {
                assert(av[j] == pushed);
                assert(av[i] == bv[i]);
                assert(before.path_stack@[i]@ != pushed);
            }
        }
    }
    assert forall|i: int| 0 <= i < after.path_stack@.len() implies project.spec_has(
        after.path_stack@[i]@,
    ) by {
        if i < before.path_stack@.len() {
            assert(project.spec_has(before.path_stack@[i]@));
        }
    }
}

/// Dropping entries from the end of a well-formed stack keeps it well
/// formed.
proof fn lemma_prefix_keeps_wf(project: Project, longer: Seq<String>, shorter: Seq<String>)
    requires
        path_views(longer).no_duplicates(),
        forall|i: int| 0 <= i < longer.len() ==> project.spec_has(longer[i]@),
        shorter.len() <= longer.len(),
        forall|i: int| 0 <= i < shorter.len() ==> shorter[i] == longer[i],
    ensures
        path_views(shorter).no_duplicates(),
        forall|i: int| 0 <= i < shorter.len() ==> project.spec_has(shorter[i]@),
{
    let sv = path_views(shorter);
    let lv = path_views(longer);
    assert forall|i: int, j: int| 0 <= i < j < sv.len() implies sv[i] != sv[j] by {
        assert(lv[i] == sv[i] && lv[j] == sv[j]);
    }
}

} // verus!
