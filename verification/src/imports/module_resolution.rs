//! Resolution of a module specifier to a concrete file of the run.
//!
//! A relative specifier names a file only indirectly; the candidates are
//! tried in a fixed order and the first one present in the run's arena wins.

use vstd::prelude::*;

use crate::paths::{join_path, spec_join_path, spec_with_extension, with_extension};
use crate::project::Project;
use crate::text::concat2;

verus! {

/// The candidate paths for a specifier, in the order they are tried: the
/// joined path with `.ts` appended, with `.tsx` appended, with its extension
/// swapped to `.ts`, swapped to `.tsx`, its `index.ts`, and the joined path
/// itself.
pub open spec fn spec_module_path_candidates(dir: Seq<char>, specifier: Seq<char>) -> Seq<
    Seq<char>,
> {
    let base = spec_join_path(dir, specifier);
    seq![
        base + ".ts"@,
        base + ".tsx"@,
        spec_with_extension(base, "ts"@),
        spec_with_extension(base, "tsx"@),
        spec_join_path(base, "index.ts"@),
        base,
    ]
}

/// The first of the candidates that the run holds, if any.
pub open spec fn spec_first_present(project: Project, candidates: Seq<Seq<char>>) -> Option<
    Seq<char>,
>
    decreases candidates.len(),
{
    if candidates.len() == 0 {
        None
    } else if project.spec_has(candidates[0]) {
        Some(candidates[0])
    } else {
        spec_first_present(project, candidates.skip(1))
    }
}

/// Where a specifier written in `dir` resolves to within the run.
pub open spec fn spec_resolve_module_path(
    project: Project,
    dir: Seq<char>,
    specifier: Seq<char>,
) -> Option<Seq<char>> {
    spec_first_present(project, spec_module_path_candidates(dir, specifier))
}

/// Resolves a module specifier, written in `source_directory`, to the path
/// of a file the run holds: the first existing candidate in the fixed order
/// wins, `None` when no candidate exists.
pub fn resolve_module_path(project: &Project, source_directory: &str, specifier: &str) -> (r:
    Option<String>)
    ensures
        match r {
            Some(p) => spec_resolve_module_path(*project, source_directory@, specifier@) == Some(
                p@,
            ) && project.spec_has(p@),
            None => spec_resolve_module_path(*project, source_directory@, specifier@) is None,
        },
{
    let base = join_path(source_directory, specifier);
    let ghost cands = spec_module_path_candidates(source_directory@, specifier@);

    let ts_path = concat2(base.as_str(), ".ts");
    let tsx_path = concat2(base.as_str(), ".tsx");
    let with_ts = with_extension(base.as_str(), "ts");
    let with_tsx = with_extension(base.as_str(), "tsx");
    let index_ts = join_path(base.as_str(), "index.ts");

    proof {
        reveal_with_fuel(spec_first_present, 8);
        assert(cands[0] == ts_path@);
        assert(cands[1] == tsx_path@);
        assert(cands[2] == with_ts@);
        assert(cands[3] == with_tsx@);
        assert(cands[4] == index_ts@);
        assert(cands[5] == base@);
        assert(cands.skip(1)[0] == cands[1]);
        assert(cands.skip(1).skip(1) =~= cands.skip(2));
        assert(cands.skip(2)[0] == cands[2]);
        assert(cands.skip(2).skip(1) =~= cands.skip(3));
        assert(cands.skip(3)[0] == cands[3]);
        assert(cands.skip(3).skip(1) =~= cands.skip(4));
        assert(cands.skip(4)[0] == cands[4]);
        assert(cands.skip(4).skip(1) =~= cands.skip(5));
        assert(cands.skip(5)[0] == cands[5]);
        assert(cands.skip(5).skip(1) =~= cands.skip(6));
        assert(cands.skip(6).len() == 0);
    }

    if project.has(ts_path.as_str()) {
        return Some(ts_path);
    }
    if project.has(tsx_path.as_str()) {
        return Some(tsx_path);
    }
    if project.has(with_ts.as_str()) {
        return Some(with_ts);
    }
    if project.has(with_tsx.as_str()) {
        return Some(with_tsx);
    }
    if project.has(index_ts.as_str()) {
        return Some(index_ts);
    }
    if project.has(base.as_str()) {
        return Some(base);
    }
    None
}

} // verus!
