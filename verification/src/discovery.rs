//! Discovery of the root module: the file whose `Module` decorator
//! registers the router module. The package manifest's entry fields and
//! the built-in candidates are tried in order, against the run's files.

use vstd::prelude::*;

use crate::error::ConfigError;
use crate::module::extract_trpc_options;
use crate::paths::{join_path, parent_dir, with_extension};
use crate::project::Project;
use crate::text::str_to_string;

verus! {


/// Whether the run's file at this path registers the router module.
pub open spec fn spec_registers(project: Project, path: Seq<char>) -> bool {
    project.spec_has(path) && crate::module::spec_module_options_from(
        project.files@[project.spec_index_of(path)].module.body@,
        0,
    ) is Some
}

/// The module found near an entry point: the entry point itself when it
/// registers, else `app.module.ts` then `main.module.ts` beside it.
pub open spec fn spec_near(project: Project, entry: Seq<char>) -> Option<Seq<char>> {
    if spec_registers(project, entry) {
        Some(entry)
    } else {
        match crate::paths::spec_parent_dir(entry) {
            Some(d) => {
                let a = crate::paths::spec_join_path(d, "app.module.ts"@);
                let b = crate::paths::spec_join_path(d, "main.module.ts"@);
                if spec_registers(project, a) {
                    Some(a)
                } else if spec_registers(project, b) {
                    Some(b)
                } else {
                    None
                }
            },
            None => None,
        }
    }
}

/// The first registering built-in candidate under the base directory, in
/// preference order.
pub open spec fn spec_builtin_candidate(project: Project, base: Seq<char>) -> Option<Seq<char>> {
    let c1 = crate::paths::spec_join_path(base, "src/main.ts"@);
    let c2 = crate::paths::spec_join_path(base, "src/app.module.ts"@);
    let c3 = crate::paths::spec_join_path(base, "lib/main.ts"@);
    let c4 = crate::paths::spec_join_path(base, "lib/app.module.ts"@);
    let c5 = crate::paths::spec_join_path(base, "app.module.ts"@);
    if spec_registers(project, c1) {
        Some(c1)
    } else if spec_registers(project, c2) {
        Some(c2)
    } else if spec_registers(project, c3) {
        Some(c3)
    } else if spec_registers(project, c4) {
        Some(c4)
    } else if spec_registers(project, c5) {
        Some(c5)
    } else {
        None
    }
}

/// The discovered root module: near the manifest's `source` entry first,
/// then near the TypeScript twin of its `main` entry (or that entry
/// itself), then the first registering built-in candidate.
pub open spec fn spec_discover(
    project: Project,
    base: Seq<char>,
    source: Option<Seq<char>>,
    main: Option<Seq<char>>,
) -> Option<Seq<char>> {
    let from_source = match source {
        Some(s) => {
            let sp = crate::paths::spec_join_path(base, s);
            if project.spec_has(sp) {
                spec_near(project, sp)
            } else {
                None
            }
        },
        None => None,
    };
    if from_source is Some {
        from_source
    } else {
        let from_main = match main {
            Some(m) => {
                let mp = crate::paths::spec_join_path(base, m);
                let twin = crate::paths::spec_with_extension(mp, "ts"@);
                if project.spec_has(twin) {
                    spec_near(project, twin)
                } else if project.spec_has(mp) {
                    spec_near(project, mp)
                } else {
                    None
                }
            },
            None => None,
        };
        if from_main is Some {
            from_main
        } else {
            spec_builtin_candidate(project, base)
        }
    }
}

/// Whether a file of the run registers the router module.
fn check_file_for_trpc_module(project: &Project, file_path: &str) -> (r: Option<String>)
    ensures
        match r {
            Some(p) => p@ == file_path@ && spec_registers(*project, file_path@),
            None => !spec_registers(*project, file_path@),
        },
{
    match project.get(file_path) {
        Some(parsed) => {
            match extract_trpc_options(parsed) {
                Some(_) => Some(str_to_string(file_path)),
                None => None,
            }
        },
        None => None,
    }
}

/// Searches near an entry point: the entry point itself, then
/// `app.module.ts` and `main.module.ts` beside it.
fn find_trpc_module_near(project: &Project, entry_point: &str) -> (r: Option<String>)
    ensures
        match r {
            Some(p) => spec_near(*project, entry_point@) == Some(p@) && spec_registers(
                *project,
                p@,
            ),
            None => spec_near(*project, entry_point@) is None,
        },
{
    match check_file_for_trpc_module(project, entry_point) {
        Some(p) => {
            return Some(p);
        },
        None => {},
    }
    let parent_directory = match parent_dir(entry_point) {
        Some(d) => d,
        None => {
            return None;
        },
    };
    let candidate_a = join_path(parent_directory.as_str(), "app.module.ts");
    match check_file_for_trpc_module(project, candidate_a.as_str()) {
        Some(p) => {
            return Some(p);
        },
        None => {},
    }
    let candidate_b = join_path(parent_directory.as_str(), "main.module.ts");
    check_file_for_trpc_module(project, candidate_b.as_str())
}

/// Discovers the root module of the run: first near the entry point that
/// the package manifest names — its `source` field, or the TypeScript
/// twin of its `main` field — then among the built-in candidates under
/// the base directory (`src/main.ts`, `src/app.module.ts`, `lib/main.ts`,
/// `lib/app.module.ts`, `app.module.ts`). A found module is always a file
/// of the run that registers the router module; finding none yields the
/// module-not-found error listing the searched candidates.
pub fn discover_root_module(
    project: &Project,
    base_directory: &str,
    package_source: Option<&str>,
    package_main: Option<&str>,
) -> (r: Result<String, ConfigError>)
    ensures
        (match r {
            Ok(p) => spec_discover(
                *project,
                base_directory@,
                match package_source {
                    Some(s) => Some(s@),
                    None => None,
                },
                match package_main {
                    Some(m) => Some(m@),
                    None => None,
                },
            ) == Some(p@) && spec_registers(*project, p@),
            Err(_) => spec_discover(
                *project,
                base_directory@,
                match package_source {
                    Some(s) => Some(s@),
                    None => None,
                },
                match package_main {
                    Some(m) => Some(m@),
                    None => None,
                },
            ) is None,
        }),
        r matches Err(e) ==> e matches ConfigError::ModuleNotFound { searched_paths }
            && crate::text::views_of(searched_paths@) == seq![
            crate::paths::spec_join_path(base_directory@, "src/main.ts"@),
            crate::paths::spec_join_path(base_directory@, "src/app.module.ts"@),
            crate::paths::spec_join_path(base_directory@, "lib/main.ts"@),
            crate::paths::spec_join_path(base_directory@, "lib/app.module.ts"@),
            crate::paths::spec_join_path(base_directory@, "app.module.ts"@),
        ],
{
    match package_source {
        Some(source_field) => {
            let source_path = join_path(base_directory, source_field);
            if project.has(source_path.as_str()) {
                match find_trpc_module_near(project, source_path.as_str()) {
                    Some(p) => {
                        return Ok(p);
                    },
                    None => {},
                }
            }
        },
        None => {},
    }
    match package_main {
        Some(main_field) => {
            let main_path = join_path(base_directory, main_field);
            let typescript_twin = with_extension(main_path.as_str(), "ts");
            let entry = if project.has(typescript_twin.as_str()) {
                Some(typescript_twin)
            } else if project.has(main_path.as_str()) {
                Some(main_path)
            } else {
                None
            };
            match entry {
                Some(entry_point) => {
                    match find_trpc_module_near(project, entry_point.as_str()) {
                        Some(p) => {
                            return Ok(p);
                        },
                        None => {},
                    }
                },
                None => {},
            }
        },
        None => {},
    }

    let mut searched: Vec<String> = Vec::new();
    let candidate = join_path(base_directory, "src/main.ts");
    match check_file_for_trpc_module(project, candidate.as_str()) {
        Some(p) => {
            return Ok(p);
        },
        None => {},
    }
    searched.push(candidate);
    let candidate = join_path(base_directory, "src/app.module.ts");
    match check_file_for_trpc_module(project, candidate.as_str()) {
        Some(p) => {
            return Ok(p);
        },
        None => {},
    }
    searched.push(candidate);
    let candidate = join_path(base_directory, "lib/main.ts");
    match check_file_for_trpc_module(project, candidate.as_str()) {
        Some(p) => {
            return Ok(p);
        },
        None => {},
    }
    searched.push(candidate);
    let candidate = join_path(base_directory, "lib/app.module.ts");
    match check_file_for_trpc_module(project, candidate.as_str()) {
        Some(p) => {
            return Ok(p);
        },
        None => {},
    }
    searched.push(candidate);
    let candidate = join_path(base_directory, "app.module.ts");
    match check_file_for_trpc_module(project, candidate.as_str()) {
        Some(p) => {
            return Ok(p);
        },
        None => {},
    }
    searched.push(candidate);

    proof {
        assert(crate::text::views_of(searched@) =~= seq![
            crate::paths::spec_join_path(base_directory@, "src/main.ts"@),
            crate::paths::spec_join_path(base_directory@, "src/app.module.ts"@),
            crate::paths::spec_join_path(base_directory@, "lib/main.ts"@),
            crate::paths::spec_join_path(base_directory@, "lib/app.module.ts"@),
            crate::paths::spec_join_path(base_directory@, "app.module.ts"@),
        ]);
    }
    Err(ConfigError::ModuleNotFound { searched_paths: searched })
}

} // verus!
