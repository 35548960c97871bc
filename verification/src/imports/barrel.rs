//! Matching of re-export statements in barrel (index) files.

use vstd::prelude::*;

use crate::ast::{ExportSpecifier, ModuleItem, NamedExport};
use crate::imports::module_resolution::{resolve_module_path, spec_resolve_module_path};
use crate::paths::{is_relative_path, spec_is_relative_path};
use crate::project::Project;
use crate::text::{str_eq, str_to_string};

verus! {

/// A named re-export that matches the searched name: the name it had in its
/// source module, the name it is exported under, and the resolved source.
#[derive(Debug, Clone, PartialEq, Eq)]
pub struct BarrelExport {
    pub original_name: String,
    pub exported_name: String,
    pub source_path: String,
}

/// A star re-export (`export * from './module'`) with its resolved source.
#[derive(Debug, Clone, PartialEq, Eq)]
pub struct StarExport {
    pub source_path: String,
}

/// The result of scanning one barrel item for an export of a name.
#[derive(Debug, Clone, PartialEq, Eq)]
pub enum BarrelExportMatch {
    Named(BarrelExport),
    Star(StarExport),
    NoMatch,
}

/// The original name under which a named export statement re-exports
/// `target_name`, if one of its specifiers does.
pub open spec fn spec_named_export_match(export: NamedExport, target_name: Seq<char>) -> Option<
    Seq<char>,
> {
    if exists|i: int|
        0 <= i < export.specifiers@.len() && spec_specifier_exports(
            export.specifiers@[i],
            target_name,
        ) {
        let i = choose|i: int|
            0 <= i < export.specifiers@.len() && spec_specifier_exports(
                export.specifiers@[i],
                target_name,
            ) && forall|j: int|
                0 <= j < i ==> !spec_specifier_exports(export.specifiers@[j], target_name);
        match export.specifiers@[i] {
            ExportSpecifier::Named(named) => Some(named.orig@),
            ExportSpecifier::Other => None,
        }
    } else {
        None
    }
}

/// Whether one export specifier exports the searched name: its exported
/// name, or its original name when it has no alias, equals the target.
pub open spec fn spec_specifier_exports(s: ExportSpecifier, target_name: Seq<char>) -> bool {
    match s {
        ExportSpecifier::Named(named) => match named.exported {
            Some(e) => e@ == target_name,
            None => named.orig@ == target_name,
        },
        ExportSpecifier::Other => false,
    }
}

fn specifier_exports(s: &ExportSpecifier, target_name: &str) -> (r: bool)
    ensures
        r == spec_specifier_exports(*s, target_name@),
{
    match s {
        ExportSpecifier::Named(named) => {
            match &named.exported {
                Some(e) => str_eq(e.as_str(), target_name),
                None => str_eq(named.orig.as_str(), target_name),
            }
        },
        ExportSpecifier::Other => false,
    }
}

/// Checks one module item of a barrel file for an export matching
/// `target_name`. A named re-export from a relative, resolvable source that
/// lists the name matches as `Named`; a star re-export from a relative,
/// resolvable source matches as `Star`; everything else — a non-export
/// item, a package specifier, an unresolvable source, or a named export
/// that does not list the name — matches as nothing, in both directions.
#[verifier::loop_isolation(false)]
#[verifier::rlimit(60)]
pub fn find_export_in_barrel_item(
    project: &Project,
    item: &ModuleItem,
    target_name: &str,
    barrel_directory: &str,
) -> (r: BarrelExportMatch)
    ensures
        match r {
            BarrelExportMatch::Named(e) => project.spec_has(e.source_path@)
                && e.exported_name@ == target_name@ && (match *item {
                ModuleItem::ExportNamed(export) => match export.src {
                    Some(src) => spec_is_relative_path(src@) && spec_resolve_module_path(
                        *project,
                        barrel_directory@,
                        src@,
                    ) == Some(e.source_path@) && spec_named_export_match(export, target_name@)
                        == Some(e.original_name@),
                    None => false,
                },
                _ => false,
            }),
            BarrelExportMatch::Star(e) => project.spec_has(e.source_path@) && (match *item {
                ModuleItem::ExportAll(export) => spec_is_relative_path(export.src@)
                    && spec_resolve_module_path(*project, barrel_directory@, export.src@) == Some(
                    e.source_path@,
                ),
                _ => false,
            }),
            BarrelExportMatch::NoMatch => (match *item {
                ModuleItem::ExportNamed(export) => match export.src {
                    Some(src) => !spec_is_relative_path(src@) || spec_resolve_module_path(
                        *project,
                        barrel_directory@,
                        src@,
                    ) is None || spec_named_export_match(export, target_name@) is None,
                    None => true,
                },
                ModuleItem::ExportAll(export) => !spec_is_relative_path(export.src@)
                    || spec_resolve_module_path(*project, barrel_directory@, export.src@) is None,
                _ => true,
            }),
        },
{
    match item {
        ModuleItem::ExportNamed(export) => {
            let src = match &export.src {
                Some(s) => s,
                None => {
                    return BarrelExportMatch::NoMatch;
                },
            };
            if !is_relative_path(src.as_str()) {
                return BarrelExportMatch::NoMatch;
            }
            let resolved = match resolve_module_path(project, barrel_directory, src.as_str()) {
                Some(p) => p,
                None => {
                    return BarrelExportMatch::NoMatch;
                },
            };
            let mut i: usize = 0;
            while i < export.specifiers.len()
                invariant
                    i <= export.specifiers@.len(),
                    forall|j: int|
                        0 <= j < i ==> !spec_specifier_exports(
                            export.specifiers@[j],
                            target_name@,
                        ),
                decreases export.specifiers@.len() - i,
            {
                if specifier_exports(&export.specifiers[i], target_name) {
                    match &export.specifiers[i] {
                        ExportSpecifier::Named(named) => {
                            let exported_name = match &named.exported {
                                Some(e) => str_to_string(e.as_str()),
                                None => str_to_string(named.orig.as_str()),
                            };
                            proof {
                                let w = i as int;
                                assert(0 <= w < export.specifiers@.len()
                                    && spec_specifier_exports(
                                    export.specifiers@[w],
                                    target_name@,
                                ) && forall|j: int|
                                    0 <= j < w ==> !spec_specifier_exports(
                                        export.specifiers@[j],
                                        target_name@,
                                    ));
                                let c = choose|k: int|
                                    0 <= k < export.specifiers@.len() && spec_specifier_exports(
                                        export.specifiers@[k],
                                        target_name@,
                                    ) && forall|j: int|
                                        0 <= j < k ==> !spec_specifier_exports(
                                            export.specifiers@[j],
                                            target_name@,
                                        );
                                assert(spec_specifier_exports(
                                    export.specifiers@[w],
                                    target_name@,
                                ));
                                if c < w {
                                    assert(!spec_specifier_exports(
                                        export.specifiers@[c],
                                        target_name@,
                                    ));
                                }
                                if c > w {
                                    assert(!spec_specifier_exports(
                                        export.specifiers@[w],
                                        target_name@,
                                    ));
                                }
                                assert(c == w);
                            }
                            return BarrelExportMatch::Named(
                                BarrelExport {
                                    original_name: str_to_string(named.orig.as_str()),
                                    exported_name,
                                    source_path: resolved,
                                },
                            );
                        },
                        ExportSpecifier::Other => {},
                    }
                }
                i += 1;
            }
            proof {
                if exists|k: int|
                    0 <= k < export.specifiers@.len() && spec_specifier_exports(
                        export.specifiers@[k],
                        target_name@,
                    ) {
                    let w = choose|k: int|
                        0 <= k < export.specifiers@.len() && spec_specifier_exports(
                            export.specifiers@[k],
                            target_name@,
                        );
                    assert(!spec_specifier_exports(export.specifiers@[w], target_name@));
                }
            }
            BarrelExportMatch::NoMatch
        },
        ModuleItem::ExportAll(export) => {
            if !is_relative_path(export.src.as_str()) {
                return BarrelExportMatch::NoMatch;
            }
            match resolve_module_path(project, barrel_directory, export.src.as_str()) {
                Some(p) => BarrelExportMatch::Star(StarExport { source_path: p }),
                None => BarrelExportMatch::NoMatch,
            }
        },
        _ => BarrelExportMatch::NoMatch,
    }
}

} // verus!
