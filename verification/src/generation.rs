//! The generation pipeline: selects the router files of a run, extracts
//! router and procedure metadata, builds the schema-location map, flattens
//! the schemas that cannot simply be imported, and emits the server module
//! text. The pipeline is a pure function of the run's files and its
//! arguments; writing the result to disk is the caller's part.

use vstd::prelude::*;

use crate::ast::{text_of, ClassMember, Expr, ImportSpecifier, ModuleItem, PropName};
use crate::decorator::DecoratorParser;
use crate::error::{CliError, GeneratorError, ScannerError};
use crate::flatten::{
    find_local_initializer, flatten_zod_schema, spec_bare_ref_to_flattened,
    spec_local_initializer, DEFAULT_MAX_SCHEMA_FLATTEN_DEPTH,
};
use crate::generator::StaticGenerator;
use crate::imports::resolver::{ImportResolver, ImportsMap};
use crate::module::TransformerInfo;
use crate::paths::{has_extension, is_relative_path, spec_join_path};
use crate::procedure::{
    extract_procedures_from_class, find_class_by_name, spec_class_exprs_of, spec_class_procs_of,
    spec_metadata_view,
};
use crate::project::{ParsedFile, Project};
use crate::router::{spec_router_info_view, spec_routers_from, RouterParser};
use crate::scanner::{compile_pattern, glob_compiles, glob_matches, pattern_of, PatternMatcher};
use crate::server::{generate_server_file, spec_generate};
use crate::{ProcedureMetadata, RouterMetadata};
use crate::text::{
    lex_leq_fn, sort_strings, spec_view_in, str_contains, str_eq, str_to_string, views_of,
};

verus! {

/// What one run produced: how many routers and procedures were found.
/// The duration is the caller's to fill; the pipeline itself reports zero.
#[derive(Debug, Clone, PartialEq, Eq)]
pub struct GenerationResult {
    pub router_count: usize,
    pub procedure_count: usize,
    pub duration_milliseconds: u64,
}

/// The path the server module is written to: the output path itself when
/// it already names a TypeScript file, else `server.ts` inside it.
pub open spec fn spec_server_file_path(output_path: Seq<char>) -> Seq<char> {
    if crate::text::ends_with_seq(output_path, ".ts"@) || crate::text::ends_with_seq(
        output_path,
        ".tsx"@,
    ) {
        output_path
    } else {
        spec_join_path(output_path, "server.ts"@)
    }
}

/// The path the generated server module is written to.
pub fn server_file_path(output_path: &str) -> (r: String)
    ensures
        r@ == spec_server_file_path(output_path@),
{
    proof {
        reveal_strlit(".ts");
        reveal_strlit(".tsx");
        reveal_strlit("ts");
        reveal_strlit("tsx");
        reveal_strlit(".");
        assert(seq!['.'] + "ts"@ =~= ".ts"@);
        assert(seq!['.'] + "tsx"@ =~= ".tsx"@);
    }
    if has_extension(output_path, "ts") || has_extension(output_path, "tsx") {
        str_to_string(output_path)
    } else {
        crate::paths::join_path(output_path, "server.ts")
    }
}


/// The ghost view of one extracted router entry: name, alias, file and
/// procedure views.
pub struct RouterMetaView {
    pub name: Seq<char>,
    pub alias: Option<Seq<char>>,
    pub file_path: Seq<char>,
    pub procedures: Seq<crate::procedure::ProcView>,
}

/// The view of a router entry.
pub open spec fn spec_router_meta_view(r: RouterMetadata) -> RouterMetaView {
    RouterMetaView {
        name: r.name@,
        alias: match r.alias {
            Some(a) => Some(a@),
            None => None,
        },
        file_path: r.file_path@,
        procedures: r.procedures@.map_values(|p: ProcedureMetadata| spec_metadata_view(p)),
    }
}

/// The router entries one path contributes: one per router class of the
/// run's file at that path, in class order, each with that class's
/// procedure list; a path naming no file of the run contributes none.
pub open spec fn spec_routers_of_path(project: Project, path: Seq<char>) -> Seq<RouterMetaView> {
    if !project.spec_has(path) {
        Seq::empty()
    } else {
        let file = project.files@[project.spec_index_of(path)];
        spec_routers_from(file.module.body@, 0).map_values(
            |v: crate::router::RouterView|
                RouterMetaView {
                    name: v.class_name,
                    alias: v.alias,
                    file_path: path,
                    procedures: spec_class_procs_of(file.module.body@, v.class_name),
                },
        )
    }
}

/// The router entries a path list contributes from `f` on, in list order.
pub open spec fn spec_routers_of_paths(
    project: Project,
    paths: Seq<Seq<char>>,
    f: int,
) -> Seq<RouterMetaView>
    decreases paths.len() - f,
{
    if f < 0 || f >= paths.len() {
        Seq::empty()
    } else {
        spec_routers_of_path(project, paths[f]) + spec_routers_of_paths(project, paths, f + 1)
    }
}

/// The saturating procedure-count sum over extracted entries from `i` on.
pub open spec fn spec_sat_entries(entries: Seq<RouterMetaView>, i: int, acc: int) -> int
    decreases entries.len() - i,
{
    if i < 0 || i >= entries.len() {
        acc
    } else {
        let n = entries[i].procedures.len() as int;
        if acc + n <= usize::MAX as int {
            spec_sat_entries(entries, i + 1, acc + n)
        } else {
            spec_sat_entries(entries, i + 1, acc)
        }
    }
}

/// Routers whose views are the entries have the same saturating
/// procedure-count sums.
proof fn lemma_sat_entries(
    routers: Seq<RouterMetadata>,
    entries: Seq<RouterMetaView>,
    i: int,
    acc: int,
)
    requires
        routers.map_values(|m: RouterMetadata| spec_router_meta_view(m)) == entries,
    ensures
        spec_sat_procedures(routers, i, acc) == spec_sat_entries(entries, i, acc),
    decreases routers.len() - i,
{
    if 0 <= i < routers.len() {
        assert(entries[i] == spec_router_meta_view(routers[i]));
        assert(entries[i].procedures.len() == routers[i].procedures@.len());
        let n = routers[i].procedures@.len() as int;
        if acc + n <= usize::MAX as int {
            lemma_sat_entries(routers, entries, i + 1, acc + n);
        } else {
            lemma_sat_entries(routers, entries, i + 1, acc);
        }
    }
}

/// Flattening keeps the saturating procedure-count sum: lengths agree
/// entry by entry.
proof fn lemma_sat_flattened(flat: Seq<RouterMetadata>, prev: Seq<RouterMetadata>, i: int, acc: int)
    requires
        flat.len() == prev.len(),
        forall|k: int| 0 <= k < prev.len() ==> spec_router_flattened(
            #[trigger] flat[k],
            prev[k],
        ),
    ensures
        spec_sat_procedures(flat, i, acc) == spec_sat_procedures(prev, i, acc),
    decreases flat.len() - i,
{
    if 0 <= i < flat.len() {
        assert(spec_router_flattened(flat[i], prev[i]));
        let n = prev[i].procedures@.len() as int;
        if acc + n <= usize::MAX as int {
            lemma_sat_flattened(flat, prev, i + 1, acc + n);
        } else {
            lemma_sat_flattened(flat, prev, i + 1, acc);
        }
    }
}

/// Whether the router pattern selects a file of the run: its path lies
/// under the base directory, its relative path has no hidden component and
/// matches the pattern.
pub open spec fn spec_file_selected(base: Seq<char>, pattern: Seq<char>, f: ParsedFile) -> bool {
    crate::paths::spec_path_starts_with(f.file_path@, base)
        && !crate::scanner::spec_has_hidden_component(
        crate::scanner::spec_relative_to(f.file_path@, base),
    ) && glob_matches(pattern, crate::scanner::spec_relative_to(f.file_path@, base))
}

/// The paths of the selected files, from file `i` on, in the run's order.
pub open spec fn spec_selected_from(
    project: Project,
    base: Seq<char>,
    pattern: Seq<char>,
    i: int,
) -> Seq<Seq<char>>
    decreases project.files@.len() - i,
{
    if i < 0 || i >= project.files@.len() {
        Seq::empty()
    } else if spec_file_selected(base, pattern, project.files@[i]) {
        seq![project.files@[i].file_path@] + spec_selected_from(project, base, pattern, i + 1)
    } else {
        spec_selected_from(project, base, pattern, i + 1)
    }
}

proof fn lemma_selected_empty(project: Project, base: Seq<char>, pattern: Seq<char>, i: int)
    requires
        0 <= i,
    ensures
        (spec_selected_from(project, base, pattern, i).len() == 0) == (forall|j: int|
            i <= j < project.files@.len() ==> !spec_file_selected(
                base,
                pattern,
                #[trigger] project.files@[j],
            )),
    decreases project.files@.len() - i,
{
    if i < project.files@.len() {
        lemma_selected_empty(project, base, pattern, i + 1);
        let s = spec_selected_from(project, base, pattern, i);
        let rest = spec_selected_from(project, base, pattern, i + 1);
        if spec_file_selected(base, pattern, project.files@[i]) {
            assert(s.len() > 0);
        } else {
            assert(s == rest);
            if rest.len() != 0 {
                let j = choose|j: int|
                    i + 1 <= j < project.files@.len() && spec_file_selected(
                        base,
                        pattern,
                        #[trigger] project.files@[j],
                    );
                assert(i <= j < project.files@.len() && spec_file_selected(
                    base,
                    pattern,
                    project.files@[j],
                ));
            }
        }
    }
}

proof fn lemma_selected_member(
    project: Project,
    base: Seq<char>,
    pattern: Seq<char>,
    i: int,
    path: Seq<char>,
)
    requires
        0 <= i,
    ensures
        spec_view_in(spec_selected_from(project, base, pattern, i), path) == (exists|j: int|
            i <= j < project.files@.len() && spec_file_selected(
                base,
                pattern,
                #[trigger] project.files@[j],
            ) && project.files@[j].file_path@ == path),
    decreases project.files@.len() - i,
{
    if 0 <= i < project.files@.len() {
        lemma_selected_member(project, base, pattern, i + 1, path);
        let s = spec_selected_from(project, base, pattern, i);
        let rest = spec_selected_from(project, base, pattern, i + 1);
        if spec_file_selected(base, pattern, project.files@[i]) {
            assert(s == seq![project.files@[i].file_path@] + rest);
            if spec_view_in(s, path) {
                let k = choose|k: int| 0 <= k < s.len() && #[trigger] s[k] == path;
                if k > 0 {
                    assert(rest[k - 1] == path);
                }
            }
            if project.files@[i].file_path@ == path {
                assert(s[0] == path);
            }
            if spec_view_in(rest, path) {
                let k = choose|k: int| 0 <= k < rest.len() && #[trigger] rest[k] == path;
                assert(s[k + 1] == path);
            }
        } else {
            assert(s == rest);
            if exists|j: int|
                i <= j < project.files@.len() && spec_file_selected(
                    base,
                    pattern,
                    #[trigger] project.files@[j],
                ) && project.files@[j].file_path@ == path {
                let j = choose|j: int|
                    i <= j < project.files@.len() && spec_file_selected(
                        base,
                        pattern,
                        #[trigger] project.files@[j],
                    ) && project.files@[j].file_path@ == path;
                assert(j >= i + 1);
            }
        }
    }
}

/// Selects the router files of the run: the paths of the files the pattern
/// selects, sorted into lexicographic order.
#[verifier::loop_isolation(false)]
fn select_router_files(project: &Project, base_directory: &str, matcher: &PatternMatcher) -> (r:
    Vec<String>)
    ensures
        views_of(r@) == spec_selected_from(
            *project,
            base_directory@,
            pattern_of(*matcher),
            0,
        ).sort_by(lex_leq_fn()),
{
    let mut files: Vec<String> = Vec::new();
    let mut i: usize = 0;
    proof {
        assert(views_of(files@) + spec_selected_from(
            *project,
            base_directory@,
            pattern_of(*matcher),
            0,
        ) =~= spec_selected_from(*project, base_directory@, pattern_of(*matcher), 0));
    }
    while i < project.files.len()
        invariant
            i <= project.files@.len(),
            spec_selected_from(*project, base_directory@, pattern_of(*matcher), 0)
                == views_of(files@) + spec_selected_from(
                *project,
                base_directory@,
                pattern_of(*matcher),
                i as int,
            ),
        decreases project.files@.len() - i,
    {
        let path = &project.files[i].file_path;
        let selected = if crate::paths::path_starts_with(path.as_str(), base_directory) {
            let rel = crate::scanner::relative_path_to(path.as_str(), base_directory);
            !crate::scanner::relative_has_hidden_component(rel.as_str()) && matcher.is_match(
                rel.as_str(),
            )
        } else {
            false
        };
        if selected {
            let ghost before = views_of(files@);
            files.push(str_to_string(path.as_str()));
            proof {
                assert(views_of(files@) =~= before.push(path@));
                assert(before + (seq![path@] + spec_selected_from(
                    *project,
                    base_directory@,
                    pattern_of(*matcher),
                    i + 1,
                )) =~= before.push(path@) + spec_selected_from(
                    *project,
                    base_directory@,
                    pattern_of(*matcher),
                    i + 1,
                ));
            }
        }
        i += 1;
    }
    proof {
        assert(views_of(files@) + Seq::<Seq<char>>::empty() =~= views_of(files@));
    }
    sort_strings(files)
}

/// Whether the first file of the run at this path declares no router class
/// — or the path names no file of the run at all.
pub open spec fn spec_no_routers_at(project: Project, path: Seq<char>) -> bool {
    !project.spec_has(path) || spec_routers_from(
        project.files@[project.spec_index_of(path)].module.body@,
        0,
    ).len() == 0
}

/// An extracted router is faithful to the run: its file is part of the
/// run, its name and alias appear among that file's router classes, and
/// its procedures are exactly the class's entry list.
pub open spec fn spec_extracted_router_ok(project: Project, ri: crate::RouterMetadata) -> bool {
    project.spec_has(ri.file_path@) && {
        let file = project.files@[project.spec_index_of(ri.file_path@)];
        let views = spec_routers_from(file.module.body@, 0);
        (exists|j: int|
            0 <= j < views.len() && (#[trigger] views[j]).class_name == ri.name@ && views[j].alias
                == (match ri.alias {
                Some(a) => Some(a@),
                None => None,
            })) && ri.procedures@.map_values(|p: crate::ProcedureMetadata| spec_metadata_view(p))
            == spec_class_procs_of(file.module.body@, ri.name@)
    }
}

/// Extracts the routers of every selected file, in file order, each with
/// its procedures: the result is empty exactly when no listed file
/// declares a router class, and every entry is faithful to the run.
#[verifier::loop_isolation(false)]
#[verifier::rlimit(100)]
fn extract_routers_of_file(
    project: &Project,
    parsed_file: &ParsedFile,
    router_parser: &RouterParser,
    decorator_parser: &DecoratorParser,
) -> (r: Vec<RouterMetadata>)
    requires
        project.spec_has(parsed_file.file_path@),
        *parsed_file == project.files@[project.spec_index_of(parsed_file.file_path@)],
    ensures
        r@.map_values(|m: RouterMetadata| spec_router_meta_view(m)) == spec_routers_of_path(
            *project,
            parsed_file.file_path@,
        ),
        forall|k: int| 0 <= k < r@.len() ==> spec_extracted_router_ok(
            *project,
            #[trigger] r@[k],
        ),
        (r@.len() == 0) == (spec_routers_from(parsed_file.module.body@, 0).len() == 0),
{
    let infos = router_parser.extract_routers(parsed_file);
    let ghost file_views = spec_routers_from(parsed_file.module.body@, 0);
    let ghost file_contrib = spec_routers_of_path(*project, parsed_file.file_path@);
    let mut routers: Vec<RouterMetadata> = Vec::new();
    proof {
        assert(file_contrib =~= file_views.map_values(
            |v: crate::router::RouterView|
                RouterMetaView {
                    name: v.class_name,
                    alias: v.alias,
                    file_path: parsed_file.file_path@,
                    procedures: spec_class_procs_of(parsed_file.module.body@, v.class_name),
                },
        ));
    }
    let mut k: usize = 0;
    while k < infos.len()
        invariant
            k <= infos@.len(),
            infos@.map_values(|ri: crate::router::RouterInfo| spec_router_info_view(ri))
                =~= file_views,
            file_contrib.len() == file_views.len(),
            routers@.len() == k,
            forall|j: int| 0 <= j < routers@.len() ==> spec_extracted_router_ok(
                *project,
                #[trigger] routers@[j],
            ),
            routers@.map_values(|m: RouterMetadata| spec_router_meta_view(m))
                =~= file_contrib.subrange(0, k as int),
        decreases infos@.len() - k,
    {
        let info = &infos[k];
        let procedures = extract_procedures_from_class(
            parsed_file,
            info.class_name.as_str(),
            &decorator_parser,
        );
        let new_router = RouterMetadata {
            name: str_to_string(info.class_name.as_str()),
            alias: match &info.alias {
                Some(a) => Some(str_to_string(a.as_str())),
                None => None,
            },
            file_path: str_to_string(info.file_path.as_str()),
            procedures,
        };
        proof {
            assert(file_views[k as int] == spec_router_info_view(infos@[k as int]));
            assert(spec_extracted_router_ok(*project, new_router));
            assert(spec_router_meta_view(new_router) == file_contrib[k as int]);
        }
        let ghost acc_before = routers@.map_values(|m: RouterMetadata| spec_router_meta_view(m));
        routers.push(new_router);
        proof {
            assert(routers@.map_values(|m: RouterMetadata| spec_router_meta_view(m))
                =~= acc_before.push(file_contrib[k as int]));
            assert(file_contrib.subrange(0, k + 1) =~= file_contrib.subrange(0, k as int).push(
                file_contrib[k as int],
            ));
        }
        k += 1;
    }
    proof {
        assert(file_contrib.subrange(0, file_contrib.len() as int) =~= file_contrib);
        assert(routers@.map_values(|m: RouterMetadata| spec_router_meta_view(m))
            =~= file_contrib);
    }
    routers
}


/// A path list contributes no router entries exactly when each of its
/// paths names no router class.
proof fn lemma_paths_routers_empty(project: Project, paths: Seq<Seq<char>>, f: int)
    requires
        0 <= f,
    ensures
        (spec_routers_of_paths(project, paths, f).len() == 0) == (forall|g: int|
            f <= g < paths.len() ==> spec_no_routers_at(project, #[trigger] paths[g])),
    decreases paths.len() - f,
{
    if f < paths.len() {
        lemma_paths_routers_empty(project, paths, f + 1);
        let head = spec_routers_of_path(project, paths[f]);
        assert((head.len() == 0) == spec_no_routers_at(project, paths[f]));
        if head.len() > 0 || spec_routers_of_paths(project, paths, f + 1).len() > 0 {
            assert(spec_routers_of_paths(project, paths, f).len() > 0);
        }
    }
}

#[verifier::loop_isolation(false)]
#[verifier::rlimit(100)]
fn extract_routers_from_files(project: &Project, router_files: &Vec<String>) -> (r: Vec<
    RouterMetadata,
>)
    ensures
        (r@.len() == 0) == (forall|f: int|
            0 <= f < router_files@.len() ==> spec_no_routers_at(
                *project,
                (#[trigger] router_files@[f])@,
            )),
        forall|k: int| 0 <= k < r@.len() ==> spec_extracted_router_ok(
            *project,
            #[trigger] r@[k],
        ),
        r@.map_values(|m: RouterMetadata| spec_router_meta_view(m)) == spec_routers_of_paths(
            *project,
            views_of(router_files@),
            0,
        ),
{
    let router_parser = RouterParser::new();
    let decorator_parser = DecoratorParser::new();
    let mut routers: Vec<RouterMetadata> = Vec::new();
    let mut i: usize = 0;
    proof {
        assert(routers@.map_values(|m: RouterMetadata| spec_router_meta_view(m))
            + spec_routers_of_paths(*project, views_of(router_files@), 0)
            =~= spec_routers_of_paths(*project, views_of(router_files@), 0));
    }
    while i < router_files.len()
        invariant
            i <= router_files@.len(),
            forall|k: int| 0 <= k < routers@.len() ==> spec_extracted_router_ok(
                *project,
                #[trigger] routers@[k],
            ),
            spec_routers_of_paths(*project, views_of(router_files@), 0) == routers@.map_values(
                |m: RouterMetadata| spec_router_meta_view(m),
            ) + spec_routers_of_paths(*project, views_of(router_files@), i as int),
        decreases router_files@.len() - i,
    {
        proof {
            assert(views_of(router_files@)[i as int] == router_files@[i as int]@);
        }
        let ghost done_before = routers@.map_values(|m: RouterMetadata| spec_router_meta_view(m));
        match project.get(router_files[i].as_str()) {
            Some(parsed_file) => {
                let mut found = extract_routers_of_file(
                    project,
                    parsed_file,
                    &router_parser,
                    &decorator_parser,
                );
                let ghost found_views = found@.map_values(
                    |m: RouterMetadata| spec_router_meta_view(m),
                );
                routers.append(&mut found);
                proof {
                    assert(routers@.map_values(|m: RouterMetadata| spec_router_meta_view(m))
                        =~= done_before + found_views);
                    assert(done_before + (found_views + spec_routers_of_paths(
                        *project,
                        views_of(router_files@),
                        i + 1,
                    )) =~= (done_before + found_views) + spec_routers_of_paths(
                        *project,
                        views_of(router_files@),
                        i + 1,
                    ));
                }
            },
            None => {
                proof {
                    assert(spec_routers_of_path(*project, router_files@[i as int]@)
                        =~= Seq::<RouterMetaView>::empty());
                    assert(done_before + (Seq::<RouterMetaView>::empty()
                        + spec_routers_of_paths(*project, views_of(router_files@), i + 1))
                        =~= done_before + spec_routers_of_paths(
                        *project,
                        views_of(router_files@),
                        i + 1,
                    ));
                }
            },
        }
        i += 1;
    }
    proof {
        assert(spec_routers_of_paths(*project, views_of(router_files@), 0) =~= routers@.map_values(
            |m: RouterMetadata| spec_router_meta_view(m),
        ) + Seq::<RouterMetaView>::empty());
        lemma_paths_routers_empty(*project, views_of(router_files@), 0);
        assert forall|f: int| 0 <= f < router_files@.len() implies (spec_no_routers_at(
            *project,
            views_of(router_files@)[f],
        ) == spec_no_routers_at(*project, (#[trigger] router_files@[f])@)) by {
            assert(views_of(router_files@)[f] == (router_files@[f])@);
        }
    }
    routers
}

/// Records a location unless the name already has one: earlier files win.
fn record_location(locations: &mut Vec<(String, String)>, name: String, path: String) {
    let mut i: usize = 0;
    while i < locations.len()
        decreases locations@.len() - i,
    {
        if str_eq(locations[i].0.as_str(), name.as_str()) {
            return;
        }
        i += 1;
    }
    locations.push((name, path));
}

/// Records a location, replacing any earlier one: later resolutions win.
fn record_location_overwriting(locations: &mut Vec<(String, String)>, name: String, path: String) {
    let mut i: usize = 0;
    while i < locations.len()
        decreases locations@.len() - i,
    {
        if str_eq(locations[i].0.as_str(), name.as_str()) {
            let _ = locations.remove(i);
            locations.push((name, path));
            return;
        }
        i += 1;
    }
    locations.push((name, path));
}

/// Builds the schema-location map of the run: for each selected file, its
/// resolved relative imports (later files overriding), its named imports
/// from packages, and its exported top-level variable declarations (first
/// seen wins for the latter two). The map drives both the decision to
/// flatten and the generator's import grouping.
fn build_schema_locations(
    project: &Project,
    router_files: &Vec<String>,
    base_directory: &str,
) -> (r: Vec<(String, String)>) {
    let resolver = ImportResolver::new();
    let mut locations: Vec<(String, String)> = Vec::new();
    let mut i: usize = 0;
    while i < router_files.len()
        decreases router_files@.len() - i,
    {
        match project.get(router_files[i].as_str()) {
            Some(parsed_file) => {
                let imports_map = resolver.build_imports_map(project, parsed_file, base_directory);
                let mut k: usize = 0;
                while k < imports_map.entries.len()
                    decreases imports_map.entries@.len() - k,
                {
                    let entry = &imports_map.entries[k];
                    record_location_overwriting(
                        &mut locations,
                        str_to_string(entry.0.as_str()),
                        str_to_string(entry.1.source_file.as_str()),
                    );
                    k += 1;
                }

                let body = &parsed_file.module.body;
                let mut j: usize = 0;
                while j < body.len()
                    decreases body@.len() - j,
                {
                    match &body[j] {
                        ModuleItem::Import(import_declaration) => {
                            if !is_relative_path(import_declaration.src.as_str()) {
                                let specs = &import_declaration.specifiers;
                                let mut s: usize = 0;
                                while s < specs.len()
                                    decreases specs@.len() - s,
                                {
                                    match &specs[s] {
                                        ImportSpecifier::Named(named) => {
                                            record_location(
                                                &mut locations,
                                                str_to_string(named.local.as_str()),
                                                str_to_string(
                                                    import_declaration.src.as_str(),
                                                ),
                                            );
                                        },
                                        _ => {},
                                    }
                                    s += 1;
                                }
                            }
                        },
                        ModuleItem::Var { decl, exported } => {
                            if *exported {
                                let decls = &decl.decls;
                                let mut s: usize = 0;
                                while s < decls.len()
                                    decreases decls@.len() - s,
                                {
                                    match &decls[s].name {
                                        Some(binding) => {
                                            record_location(
                                                &mut locations,
                                                str_to_string(binding.as_str()),
                                                str_to_string(
                                                    parsed_file.file_path.as_str(),
                                                ),
                                            );
                                        },
                                        None => {},
                                    }
                                    s += 1;
                                }
                            }
                        },
                        _ => {},
                    }
                    j += 1;
                }
            },
            None => {},
        }
        i += 1;
    }
    locations
}

/// The name views of a location map's entries.
pub open spec fn spec_location_keys(locations: Seq<(String, String)>) -> Seq<Seq<char>> {
    locations.map_values(|e: (String, String)| e.0@)
}

/// The schema expressions of a router's procedures, aligned with its
/// metadata entries: for each procedure the parsed input and output
/// property values, re-read from the class the router came from.
#[verifier::loop_isolation(false)]
fn procedure_exprs_of_router<'a>(
    parsed_file: &'a ParsedFile,
    class_name: &str,
    decorator_parser: &DecoratorParser,
) -> (r: Vec<(Option<&'a Expr>, Option<&'a Expr>)>)
    ensures
        r@.map_values(
            |pair: (Option<&Expr>, Option<&Expr>)|
                (
                    match pair.0 {
                        Some(e) => Some(*e),
                        None => None,
                    },
                    match pair.1 {
                        Some(e) => Some(*e),
                        None => None,
                    },
                ),
        ) == spec_class_exprs_of(parsed_file.module.body@, class_name@),
{
    let ghost view_of = |pair: (Option<&Expr>, Option<&Expr>)|
        (
            match pair.0 {
                Some(e) => Some(*e),
                None => None,
            },
            match pair.1 {
                Some(e) => Some(*e),
                None => None,
            },
        );
    let mut exprs: Vec<(Option<&'a Expr>, Option<&'a Expr>)> = Vec::new();
    let class = match find_class_by_name(&parsed_file.module.body, class_name) {
        Some(c) => c,
        None => {
            proof {
                assert(exprs@.map_values(view_of) =~= Seq::<
                    (Option<Expr>, Option<Expr>),
                >::empty());
            }
            return exprs;
        },
    };
    let members = &class.body;
    let mut i: usize = 0;
    proof {
        assert(exprs@.map_values(view_of) + crate::procedure::spec_class_exprs(members@, 0)
            =~= crate::procedure::spec_class_exprs(members@, 0));
    }
    while i < members.len()
        invariant
            i <= members@.len(),
            crate::procedure::spec_class_exprs(class.body@, 0) =~= exprs@.map_values(view_of)
                + crate::procedure::spec_class_exprs(members@, i as int),
        decreases members@.len() - i,
    {
        match &members[i] {
            ClassMember::Method(method) => {
                match &method.key {
                    PropName::Ident(_name) => {
                        let ghost before = exprs@.map_values(view_of);
                        let mut found = decorator_parser.extract_procedure_schema_exprs(
                            &method.decorators,
                        );
                        let ghost found_views = found@.map_values(view_of);
                        exprs.append(&mut found);
                        proof {
                            assert(exprs@.map_values(view_of) =~= before + found_views);
                            assert(before + (crate::decorator::spec_procedure_exprs(
                                method.decorators@,
                                0,
                            ) + crate::procedure::spec_class_exprs(members@, i + 1)) =~= (before
                                + crate::decorator::spec_procedure_exprs(method.decorators@, 0))
                                + crate::procedure::spec_class_exprs(members@, i + 1));
                        }
                    },
                    _ => {},
                }
            },
            _ => {},
        }
        i += 1;
    }
    proof {
        assert(exprs@.map_values(view_of) + Seq::<(Option<Expr>, Option<Expr>)>::empty()
            =~= exprs@.map_values(view_of));
    }
    exprs
}

/// Flattens one schema slot in place. When flattening succeeds and yields
/// a different text, the new text is stored and the bare-reference marker
/// is dropped; otherwise both the text and the marker are left exactly as
/// they were. A missing text or expression changes nothing. A bare
/// reference to a fully flattened local initializer ends up holding
/// exactly that initializer's text.
#[verifier::loop_isolation(false)]
pub fn try_flatten_schema(
    project: &Project,
    schema: &mut Option<String>,
    schema_ref: &mut Option<String>,
    expr: Option<&Expr>,
    parsed_file: &ParsedFile,
    importable: &Vec<String>,
    base_directory: &str,
) -> (changed: bool)
    ensures
        !changed ==> *final(schema) == *old(schema) && *final(schema_ref) == *old(schema_ref),
        changed ==> (match (*final(schema), *old(schema)) {
            (Some(a), Some(b)) => a@ != b@,
            _ => false,
        }) && *final(schema_ref) is None,
        *old(schema) is None || expr is None ==> !changed,
        (match (*old(schema), expr) {
            (Some(text), Some(e)) => match *e {
                Expr::Ident(name) => (text@ == name@ && spec_bare_ref_to_flattened(
                    *project,
                    *parsed_file,
                    views_of(importable@),
                    name@,
                )) ==> (match *final(schema) {
                    Some(t) => t@ == text_of(
                        spec_local_initializer(*parsed_file, name@).unwrap(),
                    ),
                    None => false,
                }),
                _ => true,
            },
            _ => true,
        }),
{
    let text = match &*schema {
        Some(t) => str_to_string(t.as_str()),
        None => {
            return false;
        },
    };
    let e = match expr {
        Some(e) => e,
        None => {
            return false;
        },
    };
    let mut ids: Vec<String> = Vec::new();
    let mut t: usize = 0;
    proof {
        assert(views_of(ids@) =~= views_of(importable@).subrange(0, 0));
    }
    while t < importable.len()
        invariant
            t <= importable@.len(),
            views_of(ids@) == views_of(importable@).subrange(0, t as int),
        decreases importable@.len() - t,
    {
        let ghost before = views_of(ids@);
        ids.push(str_to_string(importable[t].as_str()));
        proof {
            assert(views_of(ids@) =~= before.push(importable@[t as int]@));
            assert(views_of(importable@).subrange(0, t + 1) =~= views_of(importable@).subrange(
                0,
                t as int,
            ).push(importable@[t as int]@));
        }
        t += 1;
    }
    proof {
        assert(views_of(importable@).subrange(0, importable@.len() as int) =~= views_of(
            importable@,
        ));
    }
    match flatten_zod_schema(project, e, text.as_str(), parsed_file, base_directory, ids) {
        Ok(flattened) => {
            if !str_eq(flattened.as_str(), text.as_str()) {
                *schema = Some(flattened);
                *schema_ref = None;
                true
            } else {
                false
            }
        },
        Err(_) => false,
    }
}

/// One slot of a procedure after the flatten pass relates to what it was:
/// either untouched, or a present text rewritten while its bare-reference
/// marker stays or is dropped — a marker never appears.
pub open spec fn spec_side_flattened(
    new_schema: Option<String>,
    new_marker: Option<String>,
    old_schema: Option<String>,
    old_marker: Option<String>,
) -> bool {
    (new_schema == old_schema && new_marker == old_marker) || (old_schema is Some
        && new_schema is Some && (new_marker == old_marker || new_marker is None))
}

/// A procedure after the flatten pass: name and kind untouched; each
/// schema slot untouched or rewritten with its marker dropped.
pub open spec fn spec_proc_flattened(
    new: crate::ProcedureMetadata,
    prev: crate::ProcedureMetadata,
) -> bool {
    new.name == prev.name && new.procedure_type == prev.procedure_type && spec_side_flattened(
        new.input_schema,
        new.input_schema_ref,
        prev.input_schema,
        prev.input_schema_ref,
    ) && spec_side_flattened(
        new.output_schema,
        new.output_schema_ref,
        prev.output_schema,
        prev.output_schema_ref,
    )
}

/// A router after the flatten pass: identity and procedure list shape
/// untouched; each procedure flattened in place.
pub open spec fn spec_router_flattened(new: RouterMetadata, prev: RouterMetadata) -> bool {
    new.name == prev.name && new.alias == prev.alias && new.file_path == prev.file_path
        && new.procedures@.len() == prev.procedures@.len() && (forall|p: int|
        0 <= p < new.procedures@.len() ==> spec_proc_flattened(
            #[trigger] new.procedures@[p],
            prev.procedures@[p],
        ))
}

/// A procedure whose input arrived as a bare reference to a fully
/// flattened local initializer whose text differs from the name: the pass
/// must inline it, dropping the bare-reference marker.
pub open spec fn spec_bare_input_must_drop(
    project: Project,
    locations: Seq<(String, String)>,
    router: RouterMetadata,
    p: int,
) -> bool {
    project.spec_has(router.file_path@) && {
        let file = project.files@[project.spec_index_of(router.file_path@)];
        let exprs = spec_class_exprs_of(file.module.body@, router.name@);
        0 <= p < router.procedures@.len() && p < exprs.len() && (match (
        router.procedures@[p].input_schema, exprs[p].0) {
            (Some(text), Some(e)) => match e {
                Expr::Ident(name) => text@ == name@ && spec_bare_ref_to_flattened(
                    project,
                    file,
                    spec_location_keys(locations),
                    name@,
                ) && (match spec_local_initializer(file, name@) {
                    Some(init) => text_of(init) != name@,
                    None => false,
                }),
                _ => false,
            },
            _ => false,
        })
    }
}

/// Flattens one procedure against its file: both schema slots are flattened
/// through `try_flatten_schema`; when anything changed, the remaining
/// unimportable identifiers are substituted once more and the identifier
/// list is re-collected from what the final texts still reference.
#[verifier::loop_isolation(false)]
#[verifier::rlimit(60)]
fn flatten_procedure(
    project: &Project,
    procedure: ProcedureMetadata,
    input_expr: Option<&Expr>,
    output_expr: Option<&Expr>,
    parsed_file: &ParsedFile,
    imports_map: &ImportsMap,
    importable: &Vec<String>,
    base_directory: &str,
) -> (r: ProcedureMetadata)
    ensures
        spec_proc_flattened(r, procedure),
        (match (procedure.input_schema, input_expr) {
            (Some(text), Some(e)) => match *e {
                Expr::Ident(name) => (text@ == name@ && spec_bare_ref_to_flattened(
                    *project,
                    *parsed_file,
                    views_of(importable@),
                    name@,
                ) && (match spec_local_initializer(*parsed_file, name@) {
                    Some(init) => text_of(init) != name@,
                    None => false,
                })) ==> r.input_schema_ref is None,
                _ => true,
            },
            _ => true,
        }),
{
    let mut procedure = procedure;
    let mut changed = false;

    if try_flatten_schema(
        project,
        &mut procedure.input_schema,
        &mut procedure.input_schema_ref,
        input_expr,
        parsed_file,
        importable,
        base_directory,
    ) {
        changed = true;
    }
    if try_flatten_schema(
        project,
        &mut procedure.output_schema,
        &mut procedure.output_schema_ref,
        output_expr,
        parsed_file,
        importable,
        base_directory,
    ) {
        changed = true;
    }

    if resolve_remaining_identifiers(
        project,
        &mut procedure,
        parsed_file,
        importable,
        base_directory,
    ) {
        changed = true;
    }

    if changed {
        recollect_schema_identifiers(project, &mut procedure, parsed_file, imports_map);
    }
    procedure
}

/// Flattens every schema a procedure cannot satisfy by a direct import.
/// Every router keeps its identity and its procedures' names, kinds and
/// count; a schema slot is either untouched or rewritten with its
/// bare-reference marker dropped; and a bare reference to a fully
/// flattened local initializer with a different text always loses its
/// marker — it was inlined.
#[verifier::loop_isolation(false)]
#[verifier::rlimit(100)]
fn flatten_unimportable_schemas(
    project: &Project,
    routers: Vec<RouterMetadata>,
    schema_locations: &Vec<(String, String)>,
    base_directory: &str,
) -> (r: Vec<RouterMetadata>)
    ensures
        r@.len() == routers@.len(),
        forall|k: int| 0 <= k < routers@.len() ==> spec_router_flattened(
            #[trigger] r@[k],
            routers@[k],
        ),
        forall|k: int, p: int|
            0 <= k < routers@.len() && #[trigger] spec_bare_input_must_drop(
                *project,
                schema_locations@,
                routers@[k],
                p,
            ) ==> r@[k].procedures@[p].input_schema_ref is None,
{
    let decorator_parser = DecoratorParser::new();
    let resolver = ImportResolver::new();
    let mut importable: Vec<String> = Vec::new();
    let mut i: usize = 0;
    proof {
        assert(views_of(importable@) =~= spec_location_keys(schema_locations@).subrange(0, 0));
    }
    while i < schema_locations.len()
        invariant
            i <= schema_locations@.len(),
            views_of(importable@) == spec_location_keys(schema_locations@).subrange(
                0,
                i as int,
            ),
        decreases schema_locations@.len() - i,
    {
        let ghost before = views_of(importable@);
        importable.push(str_to_string(schema_locations[i].0.as_str()));
        proof {
            assert(views_of(importable@) =~= before.push(schema_locations@[i as int].0@));
            assert(spec_location_keys(schema_locations@).subrange(0, i + 1)
                =~= spec_location_keys(schema_locations@).subrange(0, i as int).push(
                schema_locations@[i as int].0@,
            ));
        }
        i += 1;
    }
    proof {
        assert(spec_location_keys(schema_locations@).subrange(
            0,
            schema_locations@.len() as int,
        ) =~= spec_location_keys(schema_locations@));
        assert(views_of(importable@) == spec_location_keys(schema_locations@));
    }

    let mut remaining = routers;
    let mut done: Vec<RouterMetadata> = Vec::new();
    let ghost all = remaining@;
    let mut r: usize = 0;
    while r < remaining.len()
        invariant
            remaining@ == all,
            r <= all.len(),
            done@.len() == r,
            views_of(importable@) == spec_location_keys(schema_locations@),
            forall|k: int| 0 <= k < r ==> spec_router_flattened(
                #[trigger] done@[k],
                all[k],
            ),
            forall|k: int, p: int|
                0 <= k < r && #[trigger] spec_bare_input_must_drop(
                    *project,
                    schema_locations@,
                    all[k],
                    p,
                ) ==> done@[k].procedures@[p].input_schema_ref is None,
        decreases all.len() - r,
    {
        let file_path = str_to_string(remaining[r].file_path.as_str());
        let class_name = str_to_string(remaining[r].name.as_str());
        let mut entry = RouterMetadata {
            name: remaining[r].name.clone(),
            alias: match &remaining[r].alias {
                Some(a) => Some(a.clone()),
                None => None,
            },
            file_path: remaining[r].file_path.clone(),
            procedures: Vec::new(),
        };
        proof {
            assert(entry.name == all[r as int].name);
            assert(entry.alias == all[r as int].alias);
            assert(entry.file_path == all[r as int].file_path);
        }
        match project.get(file_path.as_str()) {
            Some(parsed_file) => {
                let exprs = procedure_exprs_of_router(
                    parsed_file,
                    class_name.as_str(),
                    &decorator_parser,
                );
                let imports_map = resolver.build_imports_map(project, parsed_file, base_directory);
                let ghost old_procs = remaining@[r as int].procedures@;
                let ghost spec_exprs = spec_class_exprs_of(
                    parsed_file.module.body@,
                    class_name@,
                );
                let source = &remaining[r];
                let mut p: usize = 0;
                while p < source.procedures.len()
                    invariant
                        p <= source.procedures@.len(),
                        source.procedures@ == old_procs,
                        entry.procedures@.len() == p,
                        entry.name == all[r as int].name,
                        entry.alias == all[r as int].alias,
                        entry.file_path == all[r as int].file_path,
                        views_of(importable@) == spec_location_keys(schema_locations@),
                        exprs@.map_values(
                            |pair: (Option<&Expr>, Option<&Expr>)|
                                (
                                    match pair.0 {
                                        Some(e) => Some(*e),
                                        None => None,
                                    },
                                    match pair.1 {
                                        Some(e) => Some(*e),
                                        None => None,
                                    },
                                ),
                        ) == spec_exprs,
                        forall|q: int| 0 <= q < p ==> spec_proc_flattened(
                            #[trigger] entry.procedures@[q],
                            old_procs[q],
                        ),
                        forall|q: int|
                            0 <= q < p && q < spec_exprs.len() && (match (
                            old_procs[q].input_schema, spec_exprs[q].0) {
                                (Some(text), Some(e)) => match e {
                                    Expr::Ident(name) => text@ == name@
                                        && spec_bare_ref_to_flattened(
                                        *project,
                                        *parsed_file,
                                        spec_location_keys(schema_locations@),
                                        name@,
                                    ) && (match spec_local_initializer(*parsed_file, name@) {
                                        Some(init) => text_of(init) != name@,
                                        None => false,
                                    }),
                                    _ => false,
                                },
                                _ => false,
                            }) ==> (#[trigger] entry.procedures@[q]).input_schema_ref is None,
                    decreases source.procedures@.len() - p,
                {
                    let procedure = copy_procedure(&source.procedures[p]);
                    let (input_expr, output_expr) = if p < exprs.len() {
                        (exprs[p].0, exprs[p].1)
                    } else {
                        (None, None)
                    };
                    proof {
                        if p < exprs.len() {
                            assert(spec_exprs[p as int] == exprs@.map_values(
                                |pair: (Option<&Expr>, Option<&Expr>)|
                                    (
                                        match pair.0 {
                                            Some(e) => Some(*e),
                                            None => None,
                                        },
                                        match pair.1 {
                                            Some(e) => Some(*e),
                                            None => None,
                                        },
                                    ),
                            )[p as int]);
                        }
                    }
                    let flattened = flatten_procedure(
                        project,
                        procedure,
                        input_expr,
                        output_expr,
                        parsed_file,
                        &imports_map,
                        &importable,
                        base_directory,
                    );
                    entry.procedures.push(flattened);
                    p += 1;
                }
                proof {
                    assert(spec_router_flattened(entry, all[r as int]));
                    assert(file_path@ == all[r as int].file_path@);
                    assert(*parsed_file == project.files@[project.spec_index_of(
                        all[r as int].file_path@,
                    )]);
                    assert(class_name@ == all[r as int].name@);
                    assert forall|p2: int| #[trigger] spec_bare_input_must_drop(
                        *project,
                        schema_locations@,
                        all[r as int],
                        p2,
                    ) implies entry.procedures@[p2].input_schema_ref is None by {
                        assert(spec_class_exprs_of(
                            project.files@[project.spec_index_of(
                                all[r as int].file_path@,
                            )].module.body@,
                            all[r as int].name@,
                        ) == spec_exprs);
                    }
                }
                done.push(entry);
            },
            None => {
                let source = &remaining[r];
                let mut p: usize = 0;
                while p < source.procedures.len()
                    invariant
                        p <= source.procedures@.len(),
                        source.procedures@ == remaining@[r as int].procedures@,
                        entry.procedures@.len() == p,
                        entry.name == all[r as int].name,
                        entry.alias == all[r as int].alias,
                        entry.file_path == all[r as int].file_path,
                        forall|q: int| 0 <= q < p ==> spec_proc_flattened(
                            #[trigger] entry.procedures@[q],
                            remaining@[r as int].procedures@[q],
                        ),
                    decreases source.procedures@.len() - p,
                {
                    let procedure = copy_procedure(&source.procedures[p]);
                    proof {
                        assert(spec_proc_flattened(
                            procedure,
                            remaining@[r as int].procedures@[p as int],
                        ));
                    }
                    entry.procedures.push(procedure);
                    p += 1;
                }
                proof {
                    assert(file_path@ == all[r as int].file_path@);
                    assert(!project.spec_has(all[r as int].file_path@));
                    assert(spec_router_flattened(entry, all[r as int]));
                }
                done.push(entry);
            },
        }
        r += 1;
    }
    done
}

/// A copy of a procedure entry: every field holds the same value, the
/// identifier list the same names.
fn copy_procedure(p: &ProcedureMetadata) -> (r: ProcedureMetadata)
    ensures
        r.name == p.name,
        r.procedure_type == p.procedure_type,
        r.input_schema == p.input_schema,
        r.output_schema == p.output_schema,
        r.input_schema_ref == p.input_schema_ref,
        r.output_schema_ref == p.output_schema_ref,
        r.schema_identifiers@ == p.schema_identifiers@,
{
    let mut identifiers: Vec<String> = Vec::new();
    let mut i: usize = 0;
    while i < p.schema_identifiers.len()
        invariant
            i <= p.schema_identifiers@.len(),
            identifiers@ == p.schema_identifiers@.subrange(0, i as int),
        decreases p.schema_identifiers@.len() - i,
    {
        identifiers.push(p.schema_identifiers[i].clone());
        proof {
            assert(p.schema_identifiers@.subrange(0, i + 1) =~= p.schema_identifiers@.subrange(
                0,
                i as int,
            ).push(p.schema_identifiers@[i as int]));
        }
        i += 1;
    }
    proof {
        assert(p.schema_identifiers@.subrange(0, p.schema_identifiers@.len() as int)
            =~= p.schema_identifiers@);
        assert(identifiers@ =~= p.schema_identifiers@);
    }
    ProcedureMetadata {
        name: p.name.clone(),
        procedure_type: p.procedure_type,
        input_schema: match &p.input_schema {
            Some(s) => Some(s.clone()),
            None => None,
        },
        output_schema: match &p.output_schema {
            Some(s) => Some(s.clone()),
            None => None,
        },
        input_schema_ref: match &p.input_schema_ref {
            Some(s) => Some(s.clone()),
            None => None,
        },
        output_schema_ref: match &p.output_schema_ref {
            Some(s) => Some(s.clone()),
            None => None,
        },
        schema_identifiers: identifiers,
    }
}


/// Resolves each identifier of the procedure that is not importable and
/// substitutes its flattened initializer into the schema texts; reports
/// whether anything changed. Only the schema texts move: names, kinds,
/// markers, identifier lists and the presence of each text stay.
#[verifier::loop_isolation(false)]
fn resolve_remaining_identifiers(
    project: &Project,
    procedure: &mut crate::ProcedureMetadata,
    parsed_file: &ParsedFile,
    importable: &Vec<String>,
    base_directory: &str,
) -> (changed: bool)
    ensures
        final(procedure).name == old(procedure).name,
        final(procedure).procedure_type == old(procedure).procedure_type,
        final(procedure).input_schema_ref == old(procedure).input_schema_ref,
        final(procedure).output_schema_ref == old(procedure).output_schema_ref,
        final(procedure).schema_identifiers == old(procedure).schema_identifiers,
        final(procedure).input_schema is Some <==> old(procedure).input_schema is Some,
        final(procedure).output_schema is Some <==> old(procedure).output_schema is Some,
        !changed ==> final(procedure).input_schema == old(procedure).input_schema
            && final(procedure).output_schema == old(procedure).output_schema,
{
    let mut changed = false;
    let mut i: usize = 0;
    while i < procedure.schema_identifiers.len()
        invariant
            procedure.name == old(procedure).name,
            procedure.procedure_type == old(procedure).procedure_type,
            procedure.input_schema_ref == old(procedure).input_schema_ref,
            procedure.output_schema_ref == old(procedure).output_schema_ref,
            procedure.schema_identifiers == old(procedure).schema_identifiers,
            procedure.input_schema is Some <==> old(procedure).input_schema is Some,
            procedure.output_schema is Some <==> old(procedure).output_schema is Some,
            !changed ==> procedure.input_schema == old(procedure).input_schema
                && procedure.output_schema == old(procedure).output_schema,
        decreases procedure.schema_identifiers@.len() - i,
    {
        let identifier = str_to_string(procedure.schema_identifiers[i].as_str());
        if crate::text::str_len(identifier.as_str()) > 0 && !crate::flatten::name_in(
            importable,
            identifier.as_str(),
        ) {
            let mut ids: Vec<String> = Vec::new();
            let mut t: usize = 0;
            while t < importable.len()
                decreases importable@.len() - t,
            {
                ids.push(str_to_string(importable[t].as_str()));
                t += 1;
            }
            let ident_expr = Expr::Ident(str_to_string(identifier.as_str()));
            match flatten_zod_schema(
                project,
                &ident_expr,
                identifier.as_str(),
                parsed_file,
                base_directory,
                ids,
            ) {
                Ok(resolved) => {
                    if !str_eq(resolved.as_str(), identifier.as_str()) {
                        match &procedure.input_schema {
                            Some(text) => {
                                if str_contains(text.as_str(), identifier.as_str()) {
                                    procedure.input_schema = Some(
                                        crate::text::replace_all(
                                            text.as_str(),
                                            identifier.as_str(),
                                            resolved.as_str(),
                                        ),
                                    );
                                    changed = true;
                                }
                            },
                            None => {},
                        }
                        match &procedure.output_schema {
                            Some(text) => {
                                if str_contains(text.as_str(), identifier.as_str()) {
                                    procedure.output_schema = Some(
                                        crate::text::replace_all(
                                            text.as_str(),
                                            identifier.as_str(),
                                            resolved.as_str(),
                                        ),
                                    );
                                    changed = true;
                                }
                            },
                            None => {},
                        }
                    }
                },
                Err(_) => {},
            }
        }
        i += 1;
    }
    changed
}

/// Re-collects the identifier list after substitution: the candidates are
/// the old identifiers together with the names that the initializers they
/// reach — locally or through the file's imports — can have introduced,
/// expanded up to the flattening depth; the names still occurring in the
/// final schema texts are kept, in lexicographic order. Only the
/// identifier list moves.
#[verifier::loop_isolation(false)]

/// Whether an identifier is kept for the final list: nonempty and
/// occurring in one of the two schema texts.
pub open spec fn spec_id_kept(p: ProcedureMetadata, s: Seq<char>) -> bool {
    s.len() > 0 && ((match p.input_schema {
        Some(t) => crate::text::contains_seq(t@, s),
        None => false,
    }) || (match p.output_schema {
        Some(t) => crate::text::contains_seq(t@, s),
        None => false,
    }))
}

/// A prefix-preserving extension keeps every held path.
proof fn lemma_prefix_keeps_in(shorter: Seq<Seq<char>>, longer: Seq<Seq<char>>, s: Seq<char>)
    requires
        shorter.len() <= longer.len(),
        longer.subrange(0, shorter.len() as int) == shorter,
        spec_view_in(shorter, s),
    ensures
        spec_view_in(longer, s),
{
    let w = choose|w: int| 0 <= w < shorter.len() && #[trigger] shorter[w] == s;
    assert(longer.subrange(0, shorter.len() as int)[w] == shorter[w]);
    assert(longer[w] == s);
}
#[verifier::loop_isolation(false)]
#[verifier::rlimit(100)]
fn recollect_schema_identifiers(
    project: &Project,
    procedure: &mut crate::ProcedureMetadata,
    parsed_file: &ParsedFile,
    imports_map: &ImportsMap,
)
    ensures
        final(procedure).name == old(procedure).name,
        final(procedure).procedure_type == old(procedure).procedure_type,
        final(procedure).input_schema == old(procedure).input_schema,
        final(procedure).output_schema == old(procedure).output_schema,
        final(procedure).input_schema_ref == old(procedure).input_schema_ref,
        final(procedure).output_schema_ref == old(procedure).output_schema_ref,
        vstd::relations::sorted_by(
            views_of(final(procedure).schema_identifiers@),
            lex_leq_fn(),
        ),
        views_of(final(procedure).schema_identifiers@).no_duplicates(),
        forall|k: int|
            0 <= k < final(procedure).schema_identifiers@.len() ==> spec_id_kept(
                *old(procedure),
                (#[trigger] final(procedure).schema_identifiers@[k])@,
            ),
        forall|q: int|
            0 <= q < old(procedure).schema_identifiers@.len() && spec_id_kept(
                *old(procedure),
                (#[trigger] old(procedure).schema_identifiers@[q])@,
            ) ==> spec_view_in(
                views_of(final(procedure).schema_identifiers@),
                old(procedure).schema_identifiers@[q]@,
            ),
{
    let mut candidates: Vec<String> = Vec::new();
    let mut i: usize = 0;
    while i < procedure.schema_identifiers.len()
        invariant
            procedure == old(procedure),
            i <= procedure.schema_identifiers@.len(),
            views_of(candidates@).no_duplicates(),
            forall|q: int| 0 <= q < i ==> spec_view_in(
                views_of(candidates@),
                (#[trigger] procedure.schema_identifiers@[q])@,
            ),
        decreases procedure.schema_identifiers@.len() - i,
    {
        let ghost before = views_of(candidates@);
        if !crate::flatten::name_in(&candidates, procedure.schema_identifiers[i].as_str()) {
            proof {
                crate::text::lemma_in_names_views(
                    candidates@,
                    procedure.schema_identifiers@[i as int]@,
                );
            }
            candidates.push(str_to_string(procedure.schema_identifiers[i].as_str()));
            proof {
                assert(views_of(candidates@) =~= before.push(
                    procedure.schema_identifiers@[i as int]@,
                ));
                assert forall|a: int, b: int|
                    0 <= a < b < views_of(candidates@).len() implies views_of(candidates@)[a]
                    != views_of(candidates@)[b] by {
                    if b == before.len() {
                        assert(!spec_view_in(before, procedure.schema_identifiers@[i as int]@));
                        if views_of(candidates@)[a] == views_of(candidates@)[b] {
                            assert(before[a] == procedure.schema_identifiers@[i as int]@);
                        }
                    }
                }
                assert(views_of(candidates@).subrange(0, before.len() as int) =~= before);
                assert forall|q: int| 0 <= q < i + 1 implies spec_view_in(
                    views_of(candidates@),
                    (#[trigger] procedure.schema_identifiers@[q])@,
                ) by {
                    if q < i {
                        lemma_prefix_keeps_in(
                            before,
                            views_of(candidates@),
                            procedure.schema_identifiers@[q]@,
                        );
                    } else {
                        assert(views_of(candidates@).last()
                            == procedure.schema_identifiers@[i as int]@);
                    }
                }
            }
        } else {
            proof {
                crate::text::lemma_in_names_views(
                    candidates@,
                    procedure.schema_identifiers@[i as int]@,
                );
            }
        }
        i += 1;
    }

    let mut round: usize = 0;
    while round < DEFAULT_MAX_SCHEMA_FLATTEN_DEPTH
        invariant
            procedure == old(procedure),
            views_of(candidates@).no_duplicates(),
            forall|q: int| 0 <= q < procedure.schema_identifiers@.len() ==> spec_view_in(
                views_of(candidates@),
                (#[trigger] procedure.schema_identifiers@[q])@,
            ),
        decreases DEFAULT_MAX_SCHEMA_FLATTEN_DEPTH - round,
    {
        let snapshot_len = candidates.len();
        let mut c: usize = 0;
        while c < snapshot_len
            invariant
                procedure == old(procedure),
                snapshot_len <= candidates@.len(),
                views_of(candidates@).no_duplicates(),
                forall|q: int| 0 <= q < procedure.schema_identifiers@.len() ==> spec_view_in(
                    views_of(candidates@),
                    (#[trigger] procedure.schema_identifiers@[q])@,
                ),
            decreases snapshot_len - c,
        {
            let name = str_to_string(candidates[c].as_str());
            match find_local_initializer(parsed_file, name.as_str()) {
                Some(initializer) => {
                    let ghost before = candidates@.map_values(|s: String| s@);
                    crate::decorator::collect_into(initializer, &mut candidates);
                    proof {
                        crate::decorator::lemma_collect_expr_grows(*initializer, before);
                        crate::decorator::lemma_collect_expr_distinct(*initializer, before);
                        assert(views_of(candidates@).subrange(0, before.len() as int)
                            =~= before);
                        assert forall|q: int|
                            0 <= q < procedure.schema_identifiers@.len() implies spec_view_in(
                            views_of(candidates@),
                            (#[trigger] procedure.schema_identifiers@[q])@,
                        ) by {
                            lemma_prefix_keeps_in(
                                before,
                                views_of(candidates@),
                                procedure.schema_identifiers@[q]@,
                            );
                        }
                    }
                },
                None => {
                    match imports_map.get(name.as_str()) {
                        Some(resolved) => {
                            let source_path = str_to_string(resolved.source_file.as_str());
                            match project.get(source_path.as_str()) {
                                Some(imported_file) => {
                                    match find_local_initializer(imported_file, name.as_str()) {
                                        Some(initializer) => {
                                            let ghost before = candidates@.map_values(
                                                |s: String| s@,
                                            );
                                            crate::decorator::collect_into(
                                                initializer,
                                                &mut candidates,
                                            );
                                            proof {
                                                crate::decorator::lemma_collect_expr_grows(
                                                    *initializer,
                                                    before,
                                                );
                                                crate::decorator::lemma_collect_expr_distinct(
                                                    *initializer,
                                                    before,
                                                );
                                                assert(views_of(candidates@).subrange(
                                                    0,
                                                    before.len() as int,
                                                ) =~= before);
                                                assert forall|q: int|
                                                    0 <= q
                                                        < procedure.schema_identifiers@.len() implies spec_view_in(
                                                    views_of(candidates@),
                                                    (
                                                    #[trigger] procedure.schema_identifiers@[q])@,
                                                ) by {
                                                    lemma_prefix_keeps_in(
                                                        before,
                                                        views_of(candidates@),
                                                        procedure.schema_identifiers@[q]@,
                                                    );
                                                }
                                            }
                                        },
                                        None => {},
                                    }
                                },
                                None => {},
                            }
                        },
                        None => {},
                    }
                },
            }
            c += 1;
        }
        if candidates.len() == snapshot_len {
            break ;
        }
        round += 1;
    }

    let mut kept: Vec<String> = Vec::new();
    let mut k: usize = 0;
    while k < candidates.len()
        invariant
            procedure == old(procedure),
            k <= candidates@.len(),
            views_of(candidates@).no_duplicates(),
            views_of(kept@).no_duplicates(),
            forall|w: int| 0 <= w < kept@.len() ==> spec_view_in(
                views_of(candidates@).subrange(0, k as int),
                (#[trigger] kept@[w])@,
            ),
            forall|w: int| 0 <= w < kept@.len() ==> spec_id_kept(
                *old(procedure),
                (#[trigger] kept@[w])@,
            ),
            forall|s: Seq<char>|
                spec_view_in(
                    views_of(candidates@).subrange(0, k as int),
                    s,
                ) && spec_id_kept(*old(procedure), s) ==> spec_view_in(views_of(kept@), s),
        decreases candidates@.len() - k,
    {
        let ghost kept_before = views_of(kept@);
        let identifier = &candidates[k];
        let mut taken = false;
        if crate::text::str_len(identifier.as_str()) > 0 {
            let in_input = match &procedure.input_schema {
                Some(text) => str_contains(text.as_str(), identifier.as_str()),
                None => false,
            };
            let in_output = match &procedure.output_schema {
                Some(text) => str_contains(text.as_str(), identifier.as_str()),
                None => false,
            };
            if in_input || in_output {
                kept.push(str_to_string(identifier.as_str()));
                taken = true;
                proof {
                    assert(views_of(kept@) =~= kept_before.push(candidates@[k as int]@));
                    assert(views_of(kept@).subrange(0, kept_before.len() as int)
                        =~= kept_before);
                    assert(!spec_view_in(kept_before, candidates@[k as int]@)) by {
                        if spec_view_in(kept_before, candidates@[k as int]@) {
                            let w = choose|w: int|
                                0 <= w < kept_before.len() && #[trigger] kept_before[w]
                                    == candidates@[k as int]@;
                            let w2 = choose|w2: int|
                                0 <= w2 < k && #[trigger] views_of(candidates@).subrange(
                                    0,
                                    k as int,
                                )[w2] == kept_before[w];
                            assert(views_of(candidates@)[w2] == views_of(
                                candidates@,
                            )[k as int]);
                        }
                    }
                    assert forall|a: int, b: int|
                        0 <= a < b < views_of(kept@).len() implies views_of(kept@)[a]
                        != views_of(kept@)[b] by {
                        if b == kept_before.len() {
                            if views_of(kept@)[a] == views_of(kept@)[b] {
                                assert(kept_before[a] == candidates@[k as int]@);
                            }
                        }
                    }
                    assert forall|w: int| 0 <= w < kept@.len() implies spec_view_in(
                        views_of(candidates@).subrange(0, k + 1),
                        (#[trigger] kept@[w])@,
                    ) by {
                        if w < kept_before.len() {
                            let w2 = choose|w2: int|
                                0 <= w2 < k && #[trigger] views_of(candidates@).subrange(
                                    0,
                                    k as int,
                                )[w2] == kept_before[w];
                            assert(views_of(candidates@).subrange(0, k + 1)[w2]
                                == kept_before[w]);
                            assert(kept@[w]@ == kept_before[w]);
                        } else {
                            assert(views_of(candidates@).subrange(0, k + 1)[k as int]
                                == candidates@[k as int]@);
                        }
                    }
                }
            } else {
                proof {
                    assert forall|w: int| 0 <= w < kept@.len() implies spec_view_in(
                        views_of(candidates@).subrange(0, k + 1),
                        (#[trigger] kept@[w])@,
                    ) by {
                        let w2 = choose|w2: int|
                            0 <= w2 < k && #[trigger] views_of(candidates@).subrange(
                                0,
                                k as int,
                            )[w2] == kept@[w]@;
                        assert(views_of(candidates@).subrange(0, k + 1)[w2] == kept@[w]@);
                    }
                }
            }
        }
        proof {
            if !taken {
                assert forall|w: int| 0 <= w < kept@.len() implies spec_view_in(
                    views_of(candidates@).subrange(0, k + 1),
                    (#[trigger] kept@[w])@,
                ) by {
                    let w2 = choose|w2: int|
                        0 <= w2 < k && #[trigger] views_of(candidates@).subrange(
                            0,
                            k as int,
                        )[w2] == kept@[w]@;
                    assert(views_of(candidates@).subrange(0, k + 1)[w2] == kept@[w]@);
                }
            }
            assert(taken ==> views_of(kept@).last() == candidates@[k as int]@);
            assert(!taken ==> !spec_id_kept(*old(procedure), candidates@[k as int]@));
            assert forall|s: Seq<char>|
                spec_view_in(views_of(candidates@).subrange(0, k + 1), s) && spec_id_kept(
                    *old(procedure),
                    s,
                ) implies spec_view_in(views_of(kept@), s) by {
                let w = choose|w: int|
                    0 <= w < k + 1 && #[trigger] views_of(candidates@).subrange(0, k + 1)[w]
                        == s;
                if w < k {
                    assert(views_of(candidates@).subrange(0, k as int)[w] == s);
                    assert(spec_view_in(views_of(candidates@).subrange(0, k as int), s));
                    if taken {
                        lemma_prefix_keeps_in(kept_before, views_of(kept@), s);
                    }
                } else {
                    assert(candidates@[k as int]@ == s);
                }
            }
        }
        k += 1;
    }
    proof {
        assert(views_of(candidates@).subrange(0, candidates@.len() as int) =~= views_of(
            candidates@,
        ));
    }
    let sorted = sort_strings(kept);
    proof {
        crate::text::lemma_lex_total_ordering();
        views_of(kept@).lemma_sort_by_ensures(lex_leq_fn());
        broadcast use vstd::seq_lib::group_to_multiset_ensures;

        views_of(kept@).to_multiset_ensures();
        views_of(sorted@).to_multiset_ensures();
        assert(views_of(sorted@).to_multiset() =~= views_of(kept@).to_multiset());
        assert forall|k2: int| 0 <= k2 < sorted@.len() implies spec_id_kept(
            *old(procedure),
            (#[trigger] sorted@[k2])@,
        ) by {
            assert(views_of(sorted@)[k2] == sorted@[k2]@);
            assert(views_of(sorted@).to_multiset().count(sorted@[k2]@) > 0);
            assert(views_of(kept@).contains(sorted@[k2]@));
            let w = choose|w: int|
                0 <= w < views_of(kept@).len() && views_of(kept@)[w] == sorted@[k2]@;
            assert(kept@[w]@ == sorted@[k2]@);
        }
        views_of(kept@).lemma_multiset_has_no_duplicates();
        views_of(sorted@).lemma_multiset_has_no_duplicates_conv();
        assert forall|s: Seq<char>|
            spec_view_in(views_of(kept@), s) implies spec_view_in(views_of(sorted@), s) by {
            let w = choose|w: int|
                0 <= w < views_of(kept@).len() && #[trigger] views_of(kept@)[w] == s;
            assert(views_of(kept@).to_multiset().count(s) > 0);
            assert(views_of(sorted@).contains(s));
            let w2 = choose|w2: int|
                0 <= w2 < views_of(sorted@).len() && views_of(sorted@)[w2] == s;
            assert(spec_view_in(views_of(sorted@), s));
        }
    }
    procedure.schema_identifiers = sorted;
}


/// The length facts of `lemma_sorted_selection` alone.
proof fn lemma_sorted_selection_len(
    project: Project,
    base: Seq<char>,
    pattern: Seq<char>,
    sorted: Seq<Seq<char>>,
)
    requires
        sorted == spec_selected_from(project, base, pattern, 0).sort_by(lex_leq_fn()),
    ensures
        sorted.len() == spec_selected_from(project, base, pattern, 0).len(),
        (sorted.len() == 0) == (forall|j: int|
            0 <= j < project.files@.len() ==> !spec_file_selected(
                base,
                pattern,
                #[trigger] project.files@[j],
            )),
{
    lemma_sorted_selection(project, base, pattern, sorted);
}

/// The membership fact of `lemma_sorted_selection` for one path alone.
proof fn lemma_sorted_selection_has(
    project: Project,
    base: Seq<char>,
    pattern: Seq<char>,
    sorted: Seq<Seq<char>>,
    path: Seq<char>,
)
    requires
        sorted == spec_selected_from(project, base, pattern, 0).sort_by(lex_leq_fn()),
    ensures
        spec_view_in(sorted, path) == (exists|j: int|
            0 <= j < project.files@.len() && spec_file_selected(
                base,
                pattern,
                #[trigger] project.files@[j],
            ) && project.files@[j].file_path@ == path),
{
    lemma_sorted_selection(project, base, pattern, sorted);
}

/// The saturating sum of the routers' procedure counts from `i` on, as the
/// result reports it.
pub open spec fn spec_sat_procedures(routers: Seq<RouterMetadata>, i: int, acc: int) -> int
    decreases routers.len() - i,
{
    if i < 0 || i >= routers.len() {
        acc
    } else {
        let n = routers[i].procedures@.len() as int;
        if acc + n <= usize::MAX as int {
            spec_sat_procedures(routers, i + 1, acc + n)
        } else {
            spec_sat_procedures(routers, i + 1, acc)
        }
    }
}


/// The sorted selection holds the same paths as the run's selection fold:
/// same length, empty together, and a path stands in one exactly when a
/// selected file of the run has it.
proof fn lemma_sorted_selection(
    project: Project,
    base: Seq<char>,
    pattern: Seq<char>,
    sorted: Seq<Seq<char>>,
)
    requires
        sorted == spec_selected_from(project, base, pattern, 0).sort_by(lex_leq_fn()),
    ensures
        sorted.len() == spec_selected_from(project, base, pattern, 0).len(),
        (sorted.len() == 0) == (forall|j: int|
            0 <= j < project.files@.len() ==> !spec_file_selected(
                base,
                pattern,
                #[trigger] project.files@[j],
            )),
        forall|path: Seq<char>| #[trigger] spec_view_in(sorted, path) == (exists|j: int|
            0 <= j < project.files@.len() && spec_file_selected(
                base,
                pattern,
                #[trigger] project.files@[j],
            ) && project.files@[j].file_path@ == path),
{
    broadcast use vstd::seq_lib::group_to_multiset_ensures;

    lemma_selected_empty(project, base, pattern, 0);
    let fold = spec_selected_from(project, base, pattern, 0);
    crate::text::lemma_lex_total_ordering();
    fold.lemma_sort_by_ensures(lex_leq_fn());
    fold.to_multiset_ensures();
    sorted.to_multiset_ensures();
    assert(sorted.to_multiset() =~= fold.to_multiset());
    assert(sorted.len() == fold.len());
    assert forall|path: Seq<char>| #[trigger] spec_view_in(sorted, path) == (exists|j: int|
        0 <= j < project.files@.len() && spec_file_selected(
            base,
            pattern,
            #[trigger] project.files@[j],
        ) && project.files@[j].file_path@ == path) by {
        lemma_selected_member(project, base, pattern, 0, path);
        if spec_view_in(sorted, path) {
            let k = choose|k: int| 0 <= k < sorted.len() && #[trigger] sorted[k] == path;
            assert(sorted.to_multiset().count(path) > 0);
            assert(fold.contains(path));
            let j = choose|j: int| 0 <= j < fold.len() && fold[j] == path;
            assert(spec_view_in(fold, path));
        }
        if spec_view_in(fold, path) {
            let k = choose|k: int| 0 <= k < fold.len() && #[trigger] fold[k] == path;
            assert(fold.to_multiset().count(path) > 0);
            assert(sorted.contains(path));
            let j = choose|j: int| 0 <= j < sorted.len() && sorted[j] == path;
            assert(spec_view_in(sorted, path));
        }
    }
}


/// The total number of procedure entries over the routers, summed with
/// saturation at the machine's limit.
#[verifier::loop_isolation(false)]
fn count_procedures(routers: &Vec<RouterMetadata>) -> (n: usize)
    ensures
        n as int == spec_sat_procedures(routers@, 0, 0),
{
    let mut procedure_count: usize = 0;
    let mut i: usize = 0;
    while i < routers.len()
        invariant
            i <= routers@.len(),
            spec_sat_procedures(routers@, 0, 0) == spec_sat_procedures(
                routers@,
                i as int,
                procedure_count as int,
            ),
        decreases routers@.len() - i,
    {
        let n = routers[i].procedures.len();
        if procedure_count <= usize::MAX - n {
            procedure_count += n;
        } else {
            proof {
                assert(procedure_count as int + n as int > usize::MAX as int);
            }
        }
        i += 1;
    }
    procedure_count
}


/// No file of the run is selected by the pattern under the base
/// directory.
#[verifier::opaque]
pub open spec fn spec_none_selected(project: Project, base: Seq<char>, pattern: Seq<char>) -> bool {
    forall|j: int|
        0 <= j < project.files@.len() ==> !spec_file_selected(
            base,
            pattern,
            #[trigger] project.files@[j],
        )
}

/// Every selected file of the run declares no router class.
#[verifier::opaque]
pub open spec fn spec_selection_lacks_routers(
    project: Project,
    base: Seq<char>,
    pattern: Seq<char>,
) -> bool {
    forall|j: int|
        0 <= j < project.files@.len() && spec_file_selected(
            base,
            pattern,
            #[trigger] project.files@[j],
        ) ==> spec_no_routers_at(project, project.files@[j].file_path@)
}

/// Runs the whole pipeline over the run's files: selects router files by
/// the pattern, extracts routers and procedures, builds schema locations,
/// flattens unimportable schemas, and yields the result counts with the
/// generated text. It fails with the pattern error when the pattern does
/// not compile, with the no-files error when no file is selected, and with
/// the no-routers error when the selected files declare no router class;
/// when some selected file declares one, it succeeds, the text is the
/// emitted server module over routers extracted from the run, and the
/// counts are those of the extraction.
#[verifier::loop_isolation(false)]
#[verifier::rlimit(100)]
#[verifier::spinoff_prover]
pub fn run_generation(
    project: &Project,
    base_directory: &str,
    output_path: &str,
    router_pattern: &str,
    transformer: Option<&TransformerInfo>,
) -> (r: Result<(GenerationResult, String), CliError>)
    ensures
        !glob_compiles(router_pattern@) ==> (r matches Err(e) && (e matches CliError::Scanner(se)
            && se matches ScannerError::InvalidPattern(p, _m) && p@ == router_pattern@)),
        glob_compiles(router_pattern@) && spec_none_selected(
            *project,
            base_directory@,
            router_pattern@,
        ) ==> (r matches Err(e2) && (e2 matches CliError::Scanner(se2) && se2 matches
            ScannerError::NoFilesFound { pattern, root } && pattern@ == router_pattern@ && root@
            == base_directory@)),
        glob_compiles(router_pattern@) && !spec_none_selected(
            *project,
            base_directory@,
            router_pattern@,
        ) && spec_selection_lacks_routers(*project, base_directory@, router_pattern@) ==> (
        r matches Err(e3) && e3 matches CliError::Generator(ge) && ge is NoRouters),
        glob_compiles(router_pattern@) && !spec_selection_lacks_routers(
            *project,
            base_directory@,
            router_pattern@,
        ) ==> r is Ok,
        r matches Ok(pair) ==> pair.0.router_count >= 1 && pair.0.duration_milliseconds == 0,
        r matches Ok(pair3) ==> pair3.0.router_count == spec_routers_of_paths(
            *project,
            spec_selected_from(*project, base_directory@, router_pattern@, 0).sort_by(
                lex_leq_fn(),
            ),
            0,
        ).len() && pair3.0.procedure_count == spec_sat_entries(
            spec_routers_of_paths(
                *project,
                spec_selected_from(*project, base_directory@, router_pattern@, 0).sort_by(
                    lex_leq_fn(),
                ),
                0,
            ),
            0,
            0,
        ),
        r matches Ok(pair2) ==> (exists|
            routers: Seq<RouterMetadata>,
            locations: Seq<(String, String)>,
            g: StaticGenerator,
        |
            {
                &&& pair2.1@ == spec_generate(
                    g,
                    routers,
                    locations,
                    spec_server_file_path(output_path@),
                )
                &&& pair2.0.router_count == routers.len()
                &&& pair2.0.procedure_count == spec_sat_procedures(routers, 0, 0)
                &&& routers.len() >= 1
                &&& !g.use_single_quotes
                &&& g.use_semicolons
                &&& (match (g.transformer, transformer) {
                    (Some(a), Some(b)) => a.package_name@ == b.package_name@ && a.import_name@
                        == b.import_name@ && a.is_default_import == b.is_default_import,
                    (None, None) => true,
                    _ => false,
                })
                &&& (forall|k: int|
                    0 <= k < routers.len() ==> (exists|rk: RouterMetadata|
                        spec_router_flattened(#[trigger] routers[k], rk)
                            && spec_extracted_router_ok(*project, rk)))
            }),
{
    let matcher = match compile_pattern(router_pattern) {
        Ok(m) => m,
        Err(message) => {
            return Err(
                CliError::Scanner(
                    ScannerError::InvalidPattern(str_to_string(router_pattern), message),
                ),
            );
        },
    };

    let router_files = select_router_files(project, base_directory, &matcher);
    proof {
        assert((views_of(router_files@).len() == 0) == spec_none_selected(
            *project,
            base_directory@,
            router_pattern@,
        )) by {
            reveal(spec_none_selected);
            lemma_sorted_selection_len(
                *project,
                base_directory@,
                router_pattern@,
                views_of(router_files@),
            );
        }
        assert(spec_none_selected(*project, base_directory@, router_pattern@)
            ==> spec_selection_lacks_routers(*project, base_directory@, router_pattern@)) by {
            reveal(spec_none_selected);
            reveal(spec_selection_lacks_routers);
        }
    }
    if router_files.len() == 0 {
        return Err(
            CliError::Scanner(
                ScannerError::NoFilesFound {
                    pattern: str_to_string(router_pattern),
                    root: str_to_string(base_directory),
                },
            ),
        );
    }

    let routers = extract_routers_from_files(project, &router_files);
    proof {
        assert(routers@.len() == 0 ==> spec_selection_lacks_routers(
            *project,
            base_directory@,
            router_pattern@,
        )) by {
            reveal(spec_selection_lacks_routers);
            if routers@.len() == 0 {
                assert forall|j: int|
                    0 <= j < project.files@.len() && spec_file_selected(
                        base_directory@,
                        router_pattern@,
                        #[trigger] project.files@[j],
                    ) implies spec_no_routers_at(*project, project.files@[j].file_path@) by {
                    lemma_sorted_selection_has(
                        *project,
                        base_directory@,
                        router_pattern@,
                        views_of(router_files@),
                        project.files@[j].file_path@,
                    );
                    assert(spec_view_in(
                        views_of(router_files@),
                        project.files@[j].file_path@,
                    ));
                    let f = choose|f: int|
                        0 <= f < views_of(router_files@).len() && #[trigger] views_of(
                            router_files@,
                        )[f] == project.files@[j].file_path@;
                    assert((router_files@[f])@ == project.files@[j].file_path@);
                }
            }
        }
        assert(spec_selection_lacks_routers(*project, base_directory@, router_pattern@)
            ==> routers@.len() == 0) by {
            reveal(spec_selection_lacks_routers);
            if spec_selection_lacks_routers(*project, base_directory@, router_pattern@) {
                assert forall|f: int| 0 <= f < router_files@.len() implies spec_no_routers_at(
                    *project,
                    (#[trigger] router_files@[f])@,
                ) by {
                    lemma_sorted_selection_has(
                        *project,
                        base_directory@,
                        router_pattern@,
                        views_of(router_files@),
                        (router_files@[f])@,
                    );
                    assert(views_of(router_files@)[f] == (router_files@[f])@);
                    assert(spec_view_in(views_of(router_files@), (router_files@[f])@));
                    let j = choose|j: int|
                        0 <= j < project.files@.len() && spec_file_selected(
                            base_directory@,
                            router_pattern@,
                            #[trigger] project.files@[j],
                        ) && project.files@[j].file_path@ == (router_files@[f])@;
                }
                assert(routers@.len() == 0);
            }
        }
    }
    if routers.len() == 0 {
        return Err(CliError::Generator(GeneratorError::NoRouters));
    }

    let ghost extracted_views = routers@.map_values(
        |m: RouterMetadata| spec_router_meta_view(m),
    );
    proof {
        lemma_sat_entries(routers@, extracted_views, 0, 0);
        assert(extracted_views == spec_routers_of_paths(
            *project,
            spec_selected_from(*project, base_directory@, router_pattern@, 0).sort_by(
                lex_leq_fn(),
            ),
            0,
        ));
    }
    let pair = emit_server_module(
        project,
        routers,
        &router_files,
        base_directory,
        output_path,
        transformer,
    );
    Ok(pair)
}

/// Flattens the extracted routers, emits the server module text and
/// reports the counts: the text is the emitted module over the flattened
/// routers and the run's schema locations, each flattened router stems
/// from an extracted one, and the counts are the extraction's.
#[verifier::rlimit(100)]
fn emit_server_module(
    project: &Project,
    routers: Vec<RouterMetadata>,
    router_files: &Vec<String>,
    base_directory: &str,
    output_path: &str,
    transformer: Option<&TransformerInfo>,
) -> (pair: (GenerationResult, String))
    requires
        routers@.len() >= 1,
        forall|k: int| 0 <= k < routers@.len() ==> spec_extracted_router_ok(
            *project,
            #[trigger] routers@[k],
        ),
    ensures
        pair.0.router_count >= 1,
        pair.0.duration_milliseconds == 0,
        pair.0.router_count == routers@.len(),
        pair.0.procedure_count == spec_sat_procedures(routers@, 0, 0),
        exists|
            flat: Seq<RouterMetadata>,
            locations: Seq<(String, String)>,
            g: StaticGenerator,
        |
            {
                &&& pair.1@ == spec_generate(
                    g,
                    flat,
                    locations,
                    spec_server_file_path(output_path@),
                )
                &&& pair.0.router_count == flat.len()
                &&& pair.0.procedure_count == spec_sat_procedures(flat, 0, 0)
                &&& flat.len() >= 1
                &&& !g.use_single_quotes
                &&& g.use_semicolons
                &&& (match (g.transformer, transformer) {
                    (Some(a), Some(b)) => a.package_name@ == b.package_name@ && a.import_name@
                        == b.import_name@ && a.is_default_import == b.is_default_import,
                    (None, None) => true,
                    _ => false,
                })
                &&& (forall|k: int|
                    0 <= k < flat.len() ==> (exists|rk: RouterMetadata|
                        spec_router_flattened(#[trigger] flat[k], rk)
                            && spec_extracted_router_ok(*project, rk)))
            },
{
    let schema_locations = build_schema_locations(project, router_files, base_directory);
    let ghost extracted = routers@;
    let routers = flatten_unimportable_schemas(
        project,
        routers,
        &schema_locations,
        base_directory,
    );
    proof {
        assert forall|k: int| 0 <= k < routers@.len() implies (exists|rk: RouterMetadata|
            spec_router_flattened(#[trigger] routers@[k], rk) && spec_extracted_router_ok(
                *project,
                rk,
            )) by {
            assert(spec_router_flattened(routers@[k], extracted[k])
                && spec_extracted_router_ok(*project, extracted[k]));
        }
    }

    let server_path = server_file_path(output_path);
    let generator = StaticGenerator::new().with_transformer(
        match transformer {
            Some(t) => Some(
                TransformerInfo {
                    package_name: str_to_string(t.package_name.as_str()),
                    import_name: str_to_string(t.import_name.as_str()),
                    is_default_import: t.is_default_import,
                },
            ),
            None => None,
        },
    );
    let text = generate_server_file(&generator, &routers, &schema_locations, server_path.as_str());

    let router_count = routers.len();
    let procedure_count = count_procedures(&routers);

    proof {
        assert(server_path@ == spec_server_file_path(output_path@));
        assert(text@ == spec_generate(
            generator,
            routers@,
            schema_locations@,
            spec_server_file_path(output_path@),
        ));
        assert(spec_sat_procedures(routers@, 0, 0) == procedure_count as int);
        lemma_sat_flattened(routers@, extracted, 0, 0);
    }
    (GenerationResult { router_count, procedure_count, duration_milliseconds: 0 }, text)
}

} // verus!
