//! Emission of the aggregate server module: the preamble, the schema
//! imports, one router block per router, and the combined `appRouter`
//! export with its inferred type. The whole output is a pure function of
//! the inputs; each emitting function's contract gives the exact text, so
//! equal inputs provably yield character-identical output.

use vstd::prelude::*;

use crate::generator::{
    spec_schema_imports, spec_static_declarations, spec_term, StaticGenerator,
};
use crate::text::{concat2, lower_first, lower_first_seq, str_to_string};
use crate::{ProcedureMetadata, ProcedureType, RouterMetadata};

verus! {

/// One procedure clause of a router block: the method name bound to a
/// `publicProcedure` chain with its optional schema calls and its kind.
pub open spec fn spec_procedure_clause(p: ProcedureMetadata) -> Seq<char> {
    "  "@ + p.name@ + ": publicProcedure"@ + (match p.input_schema {
        Some(s) => ".input("@ + s@ + ")"@,
        None => Seq::empty(),
    }) + (match p.output_schema {
        Some(s) => ".output("@ + s@ + ")"@,
        None => Seq::empty(),
    }) + "."@ + (match p.procedure_type {
        ProcedureType::Query => "query"@,
        ProcedureType::Mutation => "mutation"@,
    }) + "(async () => ({}) as any),\n"@
}

/// The procedure clauses of a router, from `i` on.
pub open spec fn spec_procedure_clauses(ps: Seq<ProcedureMetadata>, i: int) -> Seq<char>
    decreases ps.len() - i,
{
    if i < 0 || i >= ps.len() {
        Seq::empty()
    } else {
        spec_procedure_clause(ps[i]) + spec_procedure_clauses(ps, i + 1)
    }
}

/// The constant name a router block is bound to: the class name with its
/// first letter lower-cased.
pub open spec fn spec_router_const(r: RouterMetadata) -> Seq<char> {
    lower_first_seq(r.name@)
}

/// One router block.
pub open spec fn spec_router_block(g: StaticGenerator, r: RouterMetadata) -> Seq<char> {
    "const "@ + spec_router_const(r) + " = t.router({\n"@ + spec_procedure_clauses(
        r.procedures@,
        0,
    ) + "})"@ + spec_term(g) + "\n\n"@
}

/// The router blocks, from `i` on.
pub open spec fn spec_router_blocks(g: StaticGenerator, rs: Seq<RouterMetadata>, i: int) -> Seq<
    char,
>
    decreases rs.len() - i,
{
    if i < 0 || i >= rs.len() {
        Seq::empty()
    } else {
        spec_router_block(g, rs[i]) + spec_router_blocks(g, rs, i + 1)
    }
}

/// The aggregate key a router merges under: its alias when one was given,
/// else the lower-camel form of its class name.
pub open spec fn spec_app_key(r: RouterMetadata) -> Seq<char> {
    match r.alias {
        Some(a) => a@,
        None => lower_first_seq(r.name@),
    }
}

/// The entries of the combined router, from `i` on.
pub open spec fn spec_app_entries(rs: Seq<RouterMetadata>, i: int) -> Seq<char>
    decreases rs.len() - i,
{
    if i < 0 || i >= rs.len() {
        Seq::empty()
    } else {
        "  "@ + spec_app_key(rs[i]) + ": "@ + spec_router_const(rs[i]) + ",\n"@
            + spec_app_entries(rs, i + 1)
    }
}

/// The combined `appRouter` export and its inferred type export.
pub open spec fn spec_app_router(g: StaticGenerator, rs: Seq<RouterMetadata>) -> Seq<char> {
    "export const appRouter = t.router({\n"@ + spec_app_entries(rs, 0) + "})"@ + spec_term(g)
        + "\n\nexport type AppRouter = typeof appRouter"@ + spec_term(g) + "\n"@
}

/// The schema names one procedure contributes to the import section: its
/// bare input and output references, then the identifiers found in its
/// schema texts.
pub open spec fn spec_procedure_names(p: ProcedureMetadata) -> Seq<Seq<char>> {
    (match p.input_schema_ref {
        Some(r) => seq![r@],
        None => Seq::empty(),
    }) + (match p.output_schema_ref {
        Some(r) => seq![r@],
        None => Seq::empty(),
    }) + p.schema_identifiers@.map_values(|s: String| s@)
}

/// The schema names of a router's procedures, from `i` on.
pub open spec fn spec_router_names(ps: Seq<ProcedureMetadata>, i: int) -> Seq<Seq<char>>
    decreases ps.len() - i,
{
    if i < 0 || i >= ps.len() {
        Seq::empty()
    } else {
        spec_procedure_names(ps[i]) + spec_router_names(ps, i + 1)
    }
}

/// The schema names of all routers, from `i` on, in first appearance
/// order.
pub open spec fn spec_collect_names(rs: Seq<RouterMetadata>, i: int) -> Seq<Seq<char>>
    decreases rs.len() - i,
{
    if i < 0 || i >= rs.len() {
        Seq::empty()
    } else {
        spec_router_names(rs[i].procedures@, 0) + spec_collect_names(rs, i + 1)
    }
}

/// The whole generated server module for the given routers, schema
/// locations and output path.
pub open spec fn spec_generate(
    g: StaticGenerator,
    routers: Seq<RouterMetadata>,
    schema_locations: Seq<(String, String)>,
    output_path: Seq<char>,
) -> Seq<char> {
    spec_static_declarations(g) + spec_schema_imports(
        g,
        spec_collect_names(routers, 0),
        schema_locations,
        output_path,
    ) + "\n"@ + spec_router_blocks(g, routers, 0) + spec_app_router(g, routers)
}

#[verifier::loop_isolation(false)]
fn collect_schema_names(routers: &Vec<RouterMetadata>) -> (r: Vec<String>)
    ensures
        r@.map_values(|s: String| s@) == spec_collect_names(routers@, 0),
{
    let mut names: Vec<String> = Vec::new();
    let mut i: usize = 0;
    proof {
        assert(names@.map_values(|s: String| s@) + spec_collect_names(routers@, 0)
            =~= spec_collect_names(routers@, 0));
    }
    while i < routers.len()
        invariant
            i <= routers@.len(),
            spec_collect_names(routers@, 0) == names@.map_values(|s: String| s@)
                + spec_collect_names(routers@, i as int),
        decreases routers@.len() - i,
    {
        let procedures = &routers[i].procedures;
        let mut k: usize = 0;
        proof {
            assert(names@.map_values(|s: String| s@) + (spec_router_names(procedures@, 0)
                + spec_collect_names(routers@, i + 1)) =~= (names@.map_values(|s: String| s@)
                + spec_router_names(procedures@, 0)) + spec_collect_names(routers@, i + 1));
        }
        while k < procedures.len()
            invariant
                k <= procedures@.len(),
                spec_collect_names(routers@, 0) == (names@.map_values(|s: String| s@)
                    + spec_router_names(procedures@, k as int)) + spec_collect_names(
                    routers@,
                    i + 1,
                ),
            decreases procedures@.len() - k,
        {
            let p = &procedures[k];
            let ghost before = names@.map_values(|s: String| s@);
            match &p.input_schema_ref {
                Some(reference) => {
                    names.push(str_to_string(reference.as_str()));
                },
                None => {},
            }
            match &p.output_schema_ref {
                Some(reference) => {
                    names.push(str_to_string(reference.as_str()));
                },
                None => {},
            }
            let ids = &p.schema_identifiers;
            let mut j: usize = 0;
            proof {
                assert(names@.map_values(|s: String| s@) =~= before + (match p.input_schema_ref {
                    Some(r_) => seq![r_@],
                    None => Seq::<Seq<char>>::empty(),
                }) + (match p.output_schema_ref {
                    Some(r_) => seq![r_@],
                    None => Seq::<Seq<char>>::empty(),
                }));
            }
            let ghost mid = names@.map_values(|s: String| s@);
            while j < ids.len()
                invariant
                    j <= ids@.len(),
                    names@.map_values(|s: String| s@) =~= mid + ids@.map_values(
                        |s: String| s@,
                    ).subrange(0, j as int),
                decreases ids@.len() - j,
            {
                let ghost nv_before = names@.map_values(|s: String| s@);
                names.push(str_to_string(ids[j].as_str()));
                proof {
                    assert(names@.map_values(|s: String| s@) =~= nv_before.push(
                        ids@[j as int]@,
                    ));
                    assert(ids@.map_values(|s: String| s@).subrange(0, j + 1)
                        =~= ids@.map_values(|s: String| s@).subrange(0, j as int).push(
                        ids@[j as int]@,
                    ));
                    assert(mid + ids@.map_values(|s: String| s@).subrange(0, j as int).push(
                        ids@[j as int]@,
                    ) =~= (mid + ids@.map_values(|s: String| s@).subrange(0, j as int)).push(
                        ids@[j as int]@,
                    ));
                }
                j += 1;
            }
            proof {
                assert(ids@.map_values(|s: String| s@).subrange(0, ids@.len() as int)
                    =~= ids@.map_values(|s: String| s@));
                assert(names@.map_values(|s: String| s@) =~= before + spec_procedure_names(*p));
                assert(spec_router_names(procedures@, k as int) == spec_procedure_names(
                    procedures@[k as int],
                ) + spec_router_names(procedures@, k + 1));
                assert((before + spec_procedure_names(*p)) + spec_router_names(
                    procedures@,
                    k + 1,
                ) =~= before + (spec_procedure_names(*p) + spec_router_names(
                    procedures@,
                    k + 1,
                )));
            }
            k += 1;
        }
        i += 1;
    }
    proof {
        assert(names@.map_values(|s: String| s@) + Seq::<Seq<char>>::empty() =~= names@.map_values(
            |s: String| s@,
        ));
    }
    names
}

fn procedure_clause(p: &ProcedureMetadata) -> (r: String)
    ensures
        r@ == spec_procedure_clause(*p),
{
    let mut r = concat2("  ", p.name.as_str());
    r.append(": publicProcedure");
    match &p.input_schema {
        Some(s) => {
            r.append(".input(");
            r.append(s.as_str());
            r.append(")");
        },
        None => {},
    }
    match &p.output_schema {
        Some(s) => {
            r.append(".output(");
            r.append(s.as_str());
            r.append(")");
        },
        None => {},
    }
    r.append(".");
    match p.procedure_type {
        ProcedureType::Query => {
            r.append("query");
        },
        ProcedureType::Mutation => {
            r.append("mutation");
        },
    }
    r.append("(async () => ({}) as any),\n");
    r
}

#[verifier::loop_isolation(false)]
fn router_block(g: &StaticGenerator, router: &RouterMetadata) -> (r: String)
    ensures
        r@ == spec_router_block(*g, *router),
{
    let const_name = lower_first(router.name.as_str());
    let mut r = concat2("const ", const_name.as_str());
    r.append(" = t.router({\n");
    let ghost head = r@;
    let procedures = &router.procedures;
    let mut i: usize = 0;
    proof {
        assert(head + spec_procedure_clauses(procedures@, 0) =~= head + spec_procedure_clauses(
            procedures@,
            0,
        ));
    }
    while i < procedures.len()
        invariant
            i <= procedures@.len(),
            head + spec_procedure_clauses(procedures@, 0) == r@ + spec_procedure_clauses(
                procedures@,
                i as int,
            ),
        decreases procedures@.len() - i,
    {
        let clause = procedure_clause(&procedures[i]);
        let ghost r_before = r@;
        r.append(clause.as_str());
        proof {
            assert(r_before + (clause@ + spec_procedure_clauses(procedures@, i + 1)) =~= (
            r_before + clause@) + spec_procedure_clauses(procedures@, i + 1));
        }
        i += 1;
    }
    r.append("})");
    r.append(g.terminator());
    r.append("\n\n");
    proof {
        assert(r@ =~= spec_router_block(*g, *router));
    }
    r
}

#[verifier::loop_isolation(false)]
fn app_router(g: &StaticGenerator, routers: &Vec<RouterMetadata>) -> (r: String)
    ensures
        r@ == spec_app_router(*g, routers@),
{
    let mut r = str_to_string("export const appRouter = t.router({\n");
    let ghost head = r@;
    let mut i: usize = 0;
    while i < routers.len()
        invariant
            i <= routers@.len(),
            head + spec_app_entries(routers@, 0) == r@ + spec_app_entries(routers@, i as int),
        decreases routers@.len() - i,
    {
        let router = &routers[i];
        let key = match &router.alias {
            Some(a) => str_to_string(a.as_str()),
            None => lower_first(router.name.as_str()),
        };
        let const_name = lower_first(router.name.as_str());
        let mut entry = concat2("  ", key.as_str());
        entry.append(": ");
        entry.append(const_name.as_str());
        entry.append(",\n");
        proof {
            assert(entry@ =~= "  "@ + spec_app_key(routers@[i as int]) + ": "@
                + spec_router_const(routers@[i as int]) + ",\n"@);
        }
        let ghost r_before = r@;
        r.append(entry.as_str());
        proof {
            assert(r_before + (entry@ + spec_app_entries(routers@, i + 1)) =~= (r_before
                + entry@) + spec_app_entries(routers@, i + 1));
        }
        i += 1;
    }
    r.append("})");
    r.append(g.terminator());
    r.append("\n\nexport type AppRouter = typeof appRouter");
    r.append(g.terminator());
    r.append("\n");
    proof {
        assert(r@ =~= spec_app_router(*g, routers@));
    }
    r
}

/// Emits the whole server module for the given routers: the preamble of
/// the given generator, the import lines for every schema name the
/// procedures reference, one router block per router, and the combined
/// `appRouter` with its type export. Equal inputs yield identical text.
#[verifier::loop_isolation(false)]
pub fn generate_server_file(
    generator: &StaticGenerator,
    routers: &Vec<RouterMetadata>,
    schema_locations: &Vec<(String, String)>,
    output_path: &str,
) -> (r: String)
    ensures
        r@ == spec_generate(*generator, routers@, schema_locations@, output_path@),
{
    let mut r = generator.generate_static_declarations();
    let names = collect_schema_names(routers);
    let imports = generator.generate_schema_imports(&names, schema_locations, output_path);
    r.append(imports.as_str());
    r.append("\n");
    let ghost head = r@;
    let mut i: usize = 0;
    while i < routers.len()
        invariant
            i <= routers@.len(),
            head + spec_router_blocks(*generator, routers@, 0) == r@ + spec_router_blocks(
                *generator,
                routers@,
                i as int,
            ),
        decreases routers@.len() - i,
    {
        let block = router_block(generator, &routers[i]);
        let ghost r_before = r@;
        r.append(block.as_str());
        proof {
            assert(r_before + (block@ + spec_router_blocks(*generator, routers@, i + 1)) =~= (
            r_before + block@) + spec_router_blocks(*generator, routers@, i + 1));
        }
        i += 1;
    }
    let tail = app_router(generator, routers);
    r.append(tail.as_str());
    proof {
        assert(r@ =~= spec_generate(*generator, routers@, schema_locations@, output_path@));
    }
    r
}

/// Both calls of the generator on the same inputs yield the same text:
/// the output is a function of the routers, the locations and the output
/// path alone.
pub proof fn lemma_generate_deterministic(
    g: StaticGenerator,
    routers: Seq<RouterMetadata>,
    schema_locations: Seq<(String, String)>,
    output_path: Seq<char>,
    first: Seq<char>,
    second: Seq<char>,
)
    requires
        first == spec_generate(g, routers, schema_locations, output_path),
        second == spec_generate(g, routers, schema_locations, output_path),
    ensures
        first == second,
{
}

} // verus!
