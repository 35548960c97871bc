//! The code generator: emits the aggregate server module as text.
//!
//! Generation is a pure function of its inputs — the same routers, schema
//! locations and output path always yield character-identical text. Every
//! emitting function's contract states the exact text it produces, so that
//! determinism is part of what is proved.

use vstd::prelude::*;

use crate::module::TransformerInfo;
use crate::paths::{spec_parent_dir, is_absolute_path, parent_dir, spec_is_absolute_path};
use crate::text::{
    concat2, concat3, ends_with_seq, str_ends_with,
    str_eq, str_len, str_to_string, substring,
};
use crate::{ProcedureMetadata, ProcedureType, RouterMetadata};

verus! {

/// What `pathdiff::diff_paths` computes for a pair of paths: the relative
/// path from the second to the first, a function of the two paths alone.
pub uninterp spec fn rel_path_of(path: Seq<char>, base: Seq<char>) -> Option<Seq<char>>;

/// Relies on `pathdiff::diff_paths`: the relative path from `base` to
/// `path`, computed from the two paths alone.
#[verifier::external_body]
fn diff_paths(path: &str, base: &str) -> (r: Option<String>)
    ensures
        match r {
            Some(p) => rel_path_of(path@, base@) == Some(p@),
            None => rel_path_of(path@, base@) is None,
        },
{
    pathdiff::diff_paths(path, base).map(|p| p.to_string_lossy().into_owned())
}

/// Emits the fixed preamble of the generated server module and the import
/// lines for the schemas it references.
#[derive(Debug, Clone, PartialEq, Eq)]
pub struct StaticGenerator {
    pub use_single_quotes: bool,
    pub use_semicolons: bool,
    pub transformer: Option<TransformerInfo>,
}

/// The quote character the generator writes, as text.
pub open spec fn spec_quote(g: StaticGenerator) -> Seq<char> {
    if g.use_single_quotes {
        "'"@
    } else {
        "\""@
    }
}

/// The statement terminator the generator writes.
pub open spec fn spec_term(g: StaticGenerator) -> Seq<char> {
    if g.use_semicolons {
        ";"@
    } else {
        Seq::empty()
    }
}

/// The library import line.
pub open spec fn spec_trpc_import(g: StaticGenerator) -> Seq<char> {
    "import { initTRPC } from "@ + spec_quote(g) + "@trpc/server"@ + spec_quote(g) + spec_term(g)
}

/// The validator import line.
pub open spec fn spec_zod_import(g: StaticGenerator) -> Seq<char> {
    "import { z } from "@ + spec_quote(g) + "zod"@ + spec_quote(g) + spec_term(g)
}

/// The transformer import line.
pub open spec fn spec_transformer_import(g: StaticGenerator, t: TransformerInfo) -> Seq<char> {
    if t.is_default_import {
        "import "@ + t.import_name@ + " from "@ + spec_quote(g) + t.package_name@ + spec_quote(g)
            + spec_term(g)
    } else {
        "import { "@ + t.import_name@ + " } from "@ + spec_quote(g) + t.package_name@
            + spec_quote(g) + spec_term(g)
    }
}

/// The initializer constant.
pub open spec fn spec_t_declaration(g: StaticGenerator) -> Seq<char> {
    match g.transformer {
        Some(t) => "const t = initTRPC.create({ transformer: "@ + t.import_name@ + " })"@
            + spec_term(g),
        None => "const t = initTRPC.create()"@ + spec_term(g),
    }
}

/// The base-procedure constant.
pub open spec fn spec_public_procedure(g: StaticGenerator) -> Seq<char> {
    "const publicProcedure = t.procedure"@ + spec_term(g)
}

/// The whole static preamble: the import lines, a blank line, and the two
/// constants, each line newline-terminated.
pub open spec fn spec_static_declarations(g: StaticGenerator) -> Seq<char> {
    spec_trpc_import(g) + "\n"@ + spec_zod_import(g) + "\n"@ + (match g.transformer {
        Some(t) => spec_transformer_import(g, t) + "\n"@,
        None => Seq::empty(),
    }) + "\n"@ + spec_t_declaration(g) + "\n"@ + spec_public_procedure(g) + "\n"@
}

impl StaticGenerator {
    /// A generator with double quotes, semicolons and no transformer.
    pub fn new() -> (r: StaticGenerator)
        ensures
            r.use_single_quotes == false,
            r.use_semicolons == true,
            r.transformer is None,
    {
        StaticGenerator { use_single_quotes: false, use_semicolons: true, transformer: None }
    }

    /// The same generator writing single quotes when asked.
    pub fn with_single_quotes(self, use_single_quotes: bool) -> (r: StaticGenerator)
        ensures
            r == (StaticGenerator { use_single_quotes, ..self }),
    {
        StaticGenerator { use_single_quotes, ..self }
    }

    /// The same generator writing semicolons when asked.
    pub fn with_semicolons(self, use_semicolons: bool) -> (r: StaticGenerator)
        ensures
            r == (StaticGenerator { use_semicolons, ..self }),
    {
        StaticGenerator { use_semicolons, ..self }
    }

    /// The same generator threading the given transformer into its output.
    pub fn with_transformer(self, transformer: Option<TransformerInfo>) -> (r: StaticGenerator)
        ensures
            r == (StaticGenerator { transformer, ..self }),
    {
        StaticGenerator { transformer, ..self }
    }

    /// The quote this generator writes.
    pub fn quote(&self) -> (r: &'static str)
        ensures
            r@ == spec_quote(*self),
    {
        if self.use_single_quotes {
            "'"
        } else {
            "\""
        }
    }

    /// The statement terminator this generator writes.
    pub fn terminator(&self) -> (r: &'static str)
        ensures
            r@ == spec_term(*self),

    {
        let r = if self.use_semicolons {
            ";"
        } else {
            ""
        };
        proof {
            reveal_strlit("");
            assert(""@ =~= Seq::<char>::empty());
        }
        r
    }

    /// The library import line.
    pub fn generate_trpc_import(&self) -> (r: String)
        ensures
            r@ == spec_trpc_import(*self),
    {
        let mut r = concat2("import { initTRPC } from ", self.quote());
        r.append("@trpc/server");
        r.append(self.quote());
        r.append(self.terminator());
        r
    }

    /// The validator import line.
    pub fn generate_zod_import(&self) -> (r: String)
        ensures
            r@ == spec_zod_import(*self),
    {
        let mut r = concat2("import { z } from ", self.quote());
        r.append("zod");
        r.append(self.quote());
        r.append(self.terminator());
        r
    }

    /// The initializer constant, threading the transformer when one is set.
    pub fn generate_t_declaration(&self) -> (r: String)
        ensures
            r@ == spec_t_declaration(*self),
    {
        match &self.transformer {
            Some(t) => {
                let mut r = concat2(
                    "const t = initTRPC.create({ transformer: ",
                    t.import_name.as_str(),
                );
                r.append(" })");
                r.append(self.terminator());
                r
            },
            None => concat2("const t = initTRPC.create()", self.terminator()),
        }
    }

    /// The transformer import line for the given transformer.
    pub fn generate_transformer_import(&self, transformer: &TransformerInfo) -> (r: String)
        ensures
            r@ == spec_transformer_import(*self, *transformer),
    {
        if transformer.is_default_import {
            let mut r = concat3("import ", transformer.import_name.as_str(), " from ");
            r.append(self.quote());
            r.append(transformer.package_name.as_str());
            r.append(self.quote());
            r.append(self.terminator());
            r
        } else {
            let mut r = concat3("import { ", transformer.import_name.as_str(), " } from ");
            r.append(self.quote());
            r.append(transformer.package_name.as_str());
            r.append(self.quote());
            r.append(self.terminator());
            r
        }
    }

    /// The base-procedure constant.
    pub fn generate_public_procedure_declaration(&self) -> (r: String)
        ensures
            r@ == spec_public_procedure(*self),
    {
        concat2("const publicProcedure = t.procedure", self.terminator())
    }

    /// The whole static preamble: library and validator imports, the
    /// transformer import when one is set, a blank line, the initializer
    /// constant and the base-procedure constant.
    pub fn generate_static_declarations(&self) -> (r: String)
        ensures
            r@ == spec_static_declarations(*self),
    {
        let mut output = self.generate_trpc_import();
        output.append("\n");
        let zod = self.generate_zod_import();
        output.append(zod.as_str());
        output.append("\n");
        match &self.transformer {
            Some(t) => {
                let line = self.generate_transformer_import(t);
                output.append(line.as_str());
                output.append("\n");
            },
            None => {},
        }
        output.append("\n");
        let t_decl = self.generate_t_declaration();
        output.append(t_decl.as_str());
        output.append("\n");
        let public_procedure = self.generate_public_procedure_declaration();
        output.append(public_procedure.as_str());
        output.append("\n");
        output
    }

    /// The import lines for the given schema names: names are taken in
    /// first appearance order without repeats, each looked up in the
    /// locations; located names are grouped by resolved import path in
    /// first appearance order and emitted one line per path.
    #[verifier::loop_isolation(false)]
    pub fn generate_schema_imports(
        &self,
        schema_names: &Vec<String>,
        schema_locations: &Vec<(String, String)>,
        output_file_path: &str,
    ) -> (r: String)
        ensures
            r@ == spec_schema_imports(
                *self,
                schema_names@.map_values(|s: String| s@),
                schema_locations@,
                output_file_path@,
            ),
    {
        let output_dir = output_dir_of(output_file_path);
        let groups = group_schema_names_by_path(
            schema_names,
            schema_locations,
            output_dir.as_str(),
        );
        let ghost gv = groups@.map_values(|g: (String, Vec<String>)| spec_group_view(g));
        let mut r = String::new();
        let mut i: usize = 0;
        proof {
            assert(r@ =~= Seq::<char>::empty());
            assert(Seq::<char>::empty() + spec_import_lines(*self, gv, 0) =~= spec_import_lines(
                *self,
                gv,
                0,
            ));
        }
        while i < groups.len()
            invariant
                i <= groups@.len(),
                gv == groups@.map_values(|g: (String, Vec<String>)| spec_group_view(g)),
                spec_import_lines(*self, gv, 0) == r@ + spec_import_lines(*self, gv, i as int),
            decreases groups@.len() - i,
        {
            let path = &groups[i].0;
            let names = &groups[i].1;
            let ghost nv = names@.map_values(|s: String| s@);
            let mut line = str_to_string("import { ");
            let mut k: usize = 0;
            proof {
                assert(line@ + spec_join_names(nv, 0, 0) =~= line@);
            }
            while k < names.len()
                invariant
                    k <= names@.len(),
                    nv == names@.map_values(|s: String| s@),
                    line@ == "import { "@ + spec_join_names(nv, 0, k as int),
                decreases names@.len() - k,
            {
                let ghost line_before = line@;
                if k > 0 {
                    line.append(", ");
                }
                line.append(names[k].as_str());
                proof {
                    assert(nv[k as int] == names@[k as int]@);
                    if k == 0 {
                        assert(line@ =~= "import { "@ + spec_join_names(nv, 0, 1));
                    } else {
                        assert(spec_join_names(nv, 0, k + 1) == spec_join_names(
                            nv,
                            0,
                            k as int,
                        ) + (", "@ + nv[k as int]));
                        assert(line@ =~= "import { "@ + spec_join_names(nv, 0, k + 1));
                    }
                }
                k += 1;
            }
            line.append(" } from ");
            line.append(self.quote());
            line.append(path.as_str());
            line.append(self.quote());
            line.append(self.terminator());
            line.append("\n");
            proof {
                assert(gv[i as int] == spec_group_view(groups@[i as int]));
                assert(line@ =~= spec_import_line(*self, gv[i as int]));
            }
            let ghost r_before = r@;
            r.append(line.as_str());
            proof {
                assert(r_before + (line@ + spec_import_lines(*self, gv, i + 1)) =~= (r_before
                    + line@) + spec_import_lines(*self, gv, i + 1));
            }
            i += 1;
        }
        r
    }
}

/// The directory the output file lies in, with `.` for a bare file name.
pub fn output_dir_of(output_file_path: &str) -> (r: String)
    ensures
        r@ == spec_output_dir(output_file_path@),
{
    match parent_dir(output_file_path) {
        Some(d) => {
            proof {
                assert(spec_parent_dir(output_file_path@) == Some(d@));
                assert(d@ == spec_output_dir(output_file_path@));
            }
            d
        },
        None => {
            let r = str_to_string(".");
            r
        },
    }
}

/// The view of one import group: the path and the names it gathers.
pub open spec fn spec_group_view(g: (String, Vec<String>)) -> (Seq<char>, Seq<Seq<char>>) {
    (g.0@, g.1@.map_values(|s: String| s@))
}

/// The names of a group joined with `, `, from index `a` to `b`.
pub open spec fn spec_join_names(names: Seq<Seq<char>>, a: int, b: int) -> Seq<char>
    decreases b - a,
{
    if a < 0 || a >= b || b > names.len() {
        Seq::empty()
    } else if a + 1 == b {
        if a == 0 {
            names[a]
        } else {
            ", "@ + names[a]
        }
    } else {
        spec_join_names(names, a, b - 1) + (if b - 1 == 0 {
            names[b - 1]
        } else {
            ", "@ + names[b - 1]
        })
    }
}

/// One import line for a group.
pub open spec fn spec_import_line(g: StaticGenerator, group: (Seq<char>, Seq<Seq<char>>)) -> Seq<
    char,
> {
    "import { "@ + spec_join_names(group.1, 0, group.1.len() as int) + " } from "@ + spec_quote(g)
        + group.0 + spec_quote(g) + spec_term(g) + "\n"@
}

/// The import lines of the groups from `i` on.
pub open spec fn spec_import_lines(
    g: StaticGenerator,
    groups: Seq<(Seq<char>, Seq<Seq<char>>)>,
    i: int,
) -> Seq<char>
    decreases groups.len() - i,
{
    if i < 0 || i >= groups.len() {
        Seq::empty()
    } else {
        spec_import_line(g, groups[i]) + spec_import_lines(g, groups, i + 1)
    }
}

/// The text of the schema import section: the groups of the deduplicated,
/// located names, one line each.
pub open spec fn spec_schema_imports(
    g: StaticGenerator,
    schema_names: Seq<Seq<char>>,
    schema_locations: Seq<(String, String)>,
    output_file_path: Seq<char>,
) -> Seq<char> {
    let output_dir = spec_output_dir(output_file_path);
    let groups = spec_groups(schema_names, schema_locations, output_dir, 0, Seq::empty(), Seq::empty());
    spec_import_lines(g, groups, 0)
}

/// The directory of the output file: the part before the last `/`, with
/// the root kept, or `.` when the path has no separator.
pub open spec fn spec_output_dir(output_file_path: Seq<char>) -> Seq<char> {
    if exists|i: int| 0 <= i < output_file_path.len() && output_file_path[i] == '/' {
        let i = choose|i: int|
            0 <= i < output_file_path.len() && output_file_path[i] == '/' && forall|j: int|
                i < j < output_file_path.len() ==> output_file_path[j] != '/';
        if i == 0 {
            seq!['/']
        } else {
            output_file_path.subrange(0, i)
        }
    } else {
        "."@
    }
}

/// The first location recorded for a name, if any.
pub open spec fn spec_lookup_location(
    locations: Seq<(String, String)>,
    name: Seq<char>,
    i: int,
) -> Option<Seq<char>>
    decreases locations.len() - i,
{
    if i < 0 || i >= locations.len() {
        None
    } else if locations[i].0@ == name {
        Some(locations[i].1@)
    } else {
        spec_lookup_location(locations, name, i + 1)
    }
}

/// The import path used for a source path: the literal path when the
/// output directory is absolute and the source is not (an external
/// package), else the relative path from the output directory with the
/// TypeScript extension stripped and a `./` prefix added when needed.
pub open spec fn spec_resolve_import_path(output_dir: Seq<char>, source_path: Seq<char>) -> Seq<
    char,
> {
    if spec_is_absolute_path(output_dir) && !spec_is_absolute_path(source_path) {
        source_path
    } else {
        spec_calculate_relative_path(output_dir, source_path)
    }
}

/// The relative import path from a directory to a file: what the path
/// difference yields (the file itself when there is none), with a
/// trailing `.ts` or `.tsx` stripped, prefixed with `./` unless it already
/// starts with `.` or `/`.
pub open spec fn spec_calculate_relative_path(from_dir: Seq<char>, to_file: Seq<char>) -> Seq<
    char,
> {
    let relative = match rel_path_of(to_file, from_dir) {
        Some(p) => p,
        None => to_file,
    };
    let without_ext = if ends_with_seq(relative, ".ts"@) {
        relative.subrange(0, relative.len() - 3)
    } else if ends_with_seq(relative, ".tsx"@) {
        relative.subrange(0, relative.len() - 4)
    } else {
        relative
    };
    if without_ext.len() >= 1 && (without_ext[0] == '.' || without_ext[0] == '/') {
        without_ext
    } else {
        "./"@ + without_ext
    }
}

/// The groups after processing the names from `i` on: a new name with a
/// location joins the group of its resolved path, appending a new group
/// when the path is new; repeated and unlocated names are skipped.
pub open spec fn spec_groups(
    names: Seq<Seq<char>>,
    locations: Seq<(String, String)>,
    output_dir: Seq<char>,
    i: int,
    seen: Seq<Seq<char>>,
    acc: Seq<(Seq<char>, Seq<Seq<char>>)>,
) -> Seq<(Seq<char>, Seq<Seq<char>>)>
    decreases names.len() - i,
{
    if i < 0 || i >= names.len() {
        acc
    } else if spec_seen_has(seen, names[i]) {
        spec_groups(names, locations, output_dir, i + 1, seen, acc)
    } else {
        let seen2 = seen.push(names[i]);
        match spec_lookup_location(locations, names[i], 0) {
            None => spec_groups(names, locations, output_dir, i + 1, seen2, acc),
            Some(source_path) => {
                let import_path = spec_resolve_import_path(output_dir, source_path);
                spec_groups(
                    names,
                    locations,
                    output_dir,
                    i + 1,
                    seen2,
                    spec_add_to_group(acc, import_path, names[i]),
                )
            },
        }
    }
}

/// Whether a name was already processed.
pub open spec fn spec_seen_has(seen: Seq<Seq<char>>, name: Seq<char>) -> bool {
    exists|k: int| 0 <= k < seen.len() && seen[k] == name
}

/// The groups with `name` appended to the group of `path`, or with a new
/// group for `path` appended when none exists yet.
pub open spec fn spec_add_to_group(
    acc: Seq<(Seq<char>, Seq<Seq<char>>)>,
    path: Seq<char>,
    name: Seq<char>,
) -> Seq<(Seq<char>, Seq<Seq<char>>)>
    decreases acc.len(),
{
    if acc.len() == 0 {
        seq![(path, seq![name])]
    } else if acc[0].0 == path {
        seq![(acc[0].0, acc[0].1.push(name))] + acc.skip(1)
    } else {
        seq![acc[0]] + spec_add_to_group(acc.skip(1), path, name)
    }
}

/// The relative import path from a directory to a file, as
/// `spec_calculate_relative_path` states it.
pub fn calculate_relative_path(from_dir: &str, to_file: &str) -> (r: String)
    ensures
        r@ == spec_calculate_relative_path(from_dir@, to_file@),
{
    let relative = match diff_paths(to_file, from_dir) {
        Some(p) => p,
        None => str_to_string(to_file),
    };
    let rel_len = str_len(relative.as_str());
    proof {
        reveal_strlit(".ts");
        reveal_strlit(".tsx");
    }
    let without_ext = if str_ends_with(relative.as_str(), ".ts") {
        substring(relative.as_str(), 0, rel_len - 3)
    } else if str_ends_with(relative.as_str(), ".tsx") {
        substring(relative.as_str(), 0, rel_len - 4)
    } else {
        relative
    };
    let we_len = str_len(without_ext.as_str());
    if we_len >= 1 {
        let c = crate::text::char_at(without_ext.as_str(), 0);
        if c == '.' || c == '/' {
            return without_ext;
        }
    }
    let r = concat2("./", without_ext.as_str());
    proof {
        reveal_strlit("./");
        assert(r@ =~= "./"@ + without_ext@);
    }
    r
}

/// The import path for a source path against the output directory.
pub fn resolve_import_path(output_dir: &str, source_path: &str) -> (r: String)
    ensures
        r@ == spec_resolve_import_path(output_dir@, source_path@),
{
    if is_absolute_path(output_dir) && !is_absolute_path(source_path) {
        str_to_string(source_path)
    } else {
        calculate_relative_path(output_dir, source_path)
    }
}

/// Groups the schema names by resolved import path: names in first
/// appearance order without repeats, looked up in the locations; each
/// located name joins the group of its resolved path, and paths keep first
/// appearance order.
#[verifier::loop_isolation(false)]
pub fn group_schema_names_by_path(
    schema_names: &Vec<String>,
    schema_locations: &Vec<(String, String)>,
    output_dir: &str,
) -> (r: Vec<(String, Vec<String>)>)
    ensures
        r@.map_values(|g: (String, Vec<String>)| spec_group_view(g)) == spec_groups(
            schema_names@.map_values(|s: String| s@),
            schema_locations@,
            output_dir@,
            0,
            Seq::empty(),
            Seq::empty(),
        ),
{
    let mut seen: Vec<String> = Vec::new();
    let mut groups: Vec<(String, Vec<String>)> = Vec::new();
    let mut i: usize = 0;
    proof {
        assert(seen@.map_values(|s: String| s@) =~= Seq::<Seq<char>>::empty());
        assert(groups@.map_values(|g: (String, Vec<String>)| spec_group_view(g)) =~= Seq::<
            (Seq<char>, Seq<Seq<char>>),
        >::empty());
    }
    let ghost name_views = schema_names@.map_values(|s: String| s@);
    while i < schema_names.len()
        invariant
            i <= schema_names@.len(),
            name_views == schema_names@.map_values(|s: String| s@),
            spec_groups(
                name_views,
                schema_locations@,
                output_dir@,
                0,
                Seq::empty(),
                Seq::empty(),
            ) == spec_groups(
                name_views,
                schema_locations@,
                output_dir@,
                i as int,
                seen@.map_values(|s: String| s@),
                groups@.map_values(|g: (String, Vec<String>)| spec_group_view(g)),
            ),
        decreases schema_names@.len() - i,
    {
        let name = &schema_names[i];
        proof {
            assert(name_views[i as int] == name@);
        }
        let ghost seen_views = seen@.map_values(|s: String| s@);
        let ghost group_views = groups@.map_values(|g: (String, Vec<String>)| spec_group_view(g));
        let already = crate::flatten::name_in(&seen, name.as_str());
        proof {
            assert(already == spec_seen_has(seen_views, name@)) by {
                if already {
                    let k = choose|k: int| 0 <= k < seen@.len() && (#[trigger] seen@[k])@ == name@;
                    assert(seen_views[k] == name@);
                }
                if spec_seen_has(seen_views, name@) {
                    let k = choose|k: int|
                        0 <= k < seen_views.len() && seen_views[k] == name@;
                    assert(seen@[k]@ == name@);
                }
            }
        }
        if !already {
            seen.push(str_to_string(name.as_str()));
            proof {
                assert(seen@.map_values(|s: String| s@) =~= seen_views.push(name@));
            }
            match lookup_location(schema_locations, name.as_str()) {
                Some(source_path) => {
                    let import_path = resolve_import_path(output_dir, source_path.as_str());
                    add_to_group(&mut groups, import_path, str_to_string(name.as_str()));
                },
                None => {},
            }
        }
        i += 1;
    }
    groups
}

fn lookup_location<'a>(locations: &'a Vec<(String, String)>, name: &str) -> (r: Option<
    &'a String,
>)
    ensures
        match r {
            Some(p) => spec_lookup_location(locations@, name@, 0) == Some(p@),
            None => spec_lookup_location(locations@, name@, 0) is None,
        },
{
    let mut i: usize = 0;
    while i < locations.len()
        invariant
            i <= locations@.len(),
            spec_lookup_location(locations@, name@, 0) == spec_lookup_location(
                locations@,
                name@,
                i as int,
            ),
        decreases locations@.len() - i,
    {
        if str_eq(locations[i].0.as_str(), name) {
            return Some(&locations[i].1);
        }
        i += 1;
    }
    None
}

#[verifier::loop_isolation(false)]
fn add_to_group(groups: &mut Vec<(String, Vec<String>)>, path: String, name: String)
    ensures
        final(groups)@.map_values(|g: (String, Vec<String>)| spec_group_view(g))
            == spec_add_to_group(
            old(groups)@.map_values(|g: (String, Vec<String>)| spec_group_view(g)),
            path@,
            name@,
        ),
{
    let ghost orig = groups@.map_values(|g: (String, Vec<String>)| spec_group_view(g));
    let mut i: usize = 0;
    proof {
        assert(orig.skip(0) =~= orig);
        assert(orig.subrange(0, 0) + spec_add_to_group(orig, path@, name@) =~= spec_add_to_group(
            orig,
            path@,
            name@,
        ));
    }
    while i < groups.len()
        invariant
            i <= groups@.len(),
            groups@.map_values(|g: (String, Vec<String>)| spec_group_view(g)) == orig,
            spec_add_to_group(orig, path@, name@) =~= orig.subrange(0, i as int)
                + spec_add_to_group(orig.skip(i as int), path@, name@),
        decreases groups@.len() - i,
    {
        if str_eq(groups[i].0.as_str(), path.as_str()) {
            let ghost v0 = groups@;
            let mut entry = groups.remove(i);
            let ghost e0 = entry;
            entry.1.push(name);
            let ghost e1 = entry;
            groups.insert(i, entry);
            proof {
                let f = |g: (String, Vec<String>)| spec_group_view(g);
                let after = groups@.map_values(f);
                let target = orig.subrange(0, i as int) + spec_add_to_group(
                    orig.skip(i as int),
                    path@,
                    name@,
                );
                assert(spec_add_to_group(orig.skip(i as int), path@, name@) == seq![
                    (orig.skip(i as int)[0].0, orig.skip(i as int)[0].1.push(name@)),
                ] + orig.skip(i as int).skip(1));
                assert(groups@ =~= v0.update(i as int, e1));
                assert(e1.1@ == e0.1@.push(name));
                assert(e1.1@.map_values(|s: String| s@) =~= e0.1@.map_values(
                    |s: String| s@,
                ).push(name@));
                assert(after.len() == target.len());
                assert forall|j: int| 0 <= j < after.len() implies after[j] == target[j] by {
                    assert(after[j] == f(groups@[j]));
                    if j < i {
                        assert(groups@[j] == v0[j]);
                        assert(target[j] == orig[j]);
                    } else if j == i {
                        assert(groups@[j] == e1);
                        assert(orig[i as int] == f(v0[i as int]));
                        assert(orig.skip(i as int)[0] == orig[i as int]);
                        assert(target[j] == (orig[i as int].0, orig[i as int].1.push(name@)));
                    } else {
                        assert(groups@[j] == v0[j]);
                        assert(orig.skip(i as int).skip(1)[j - i - 1] == orig[j]);
                        assert(target[j] == orig[j]);
                    }
                }
                assert(after =~= target);
            }
            return;
        }
        proof {
            assert(orig.skip(i as int)[0] == orig[i as int]);
            assert(orig.skip(i as int).skip(1) =~= orig.skip(i as int + 1));
            assert(orig.subrange(0, i as int) + (seq![orig[i as int]] + spec_add_to_group(
                orig.skip(i + 1),
                path@,
                name@,
            )) =~= orig.subrange(0, i as int + 1) + spec_add_to_group(
                orig.skip(i + 1),
                path@,
                name@,
            ));
        }
        i += 1;
    }
    let ghost v0 = groups@;
    let mut names_vec: Vec<String> = Vec::new();
    names_vec.push(name);
    let ghost nv0 = names_vec@;
    groups.push((path, names_vec));
    proof {
        let f = |g: (String, Vec<String>)| spec_group_view(g);
        let after = groups@.map_values(f);
        assert(nv0.map_values(|s: String| s@) =~= seq![name@]);
        assert(spec_add_to_group(orig.skip(orig.len() as int), path@, name@) == seq![
            (path@, seq![name@]),
        ]);
        assert(orig.subrange(0, orig.len() as int) =~= orig);
        let target = orig.subrange(0, orig.len() as int) + spec_add_to_group(
            orig.skip(orig.len() as int),
            path@,
            name@,
        );
        assert(after.len() == target.len());
        assert forall|j: int| 0 <= j < after.len() implies after[j] == target[j] by {
            assert(after[j] == f(groups@[j]));
            if j < v0.len() {
                assert(groups@[j] == v0[j]);
                assert(target[j] == orig[j]);
            } else {
                assert(j == groups@.len() - 1);
                assert(groups@[j].0 == path);
                assert(groups@[j].1@ == nv0);
                assert(f(groups@[j]) == (path@, nv0.map_values(|s: String| s@)));
                assert(target[j] == (path@, seq![name@]));
            }
        }
        assert(after =~= target);
    }
}

/// The whole static preamble with the default style, as a standalone
/// section.
pub fn generate_static_section() -> (r: String)
    ensures
        r@ == spec_static_declarations(
            StaticGenerator { use_single_quotes: false, use_semicolons: true, transformer: None },
        ),
{
    let generator = StaticGenerator::new();
    generator.generate_static_declarations()
}

} // verus!
