//! Watch-mode decisions: the watch configuration, which paths deserve a
//! regeneration, and the filtering of debounced change events. The event
//! loop itself — watching, sleeping, signals — is the caller's part; it
//! hands events over as plain values and acts on what these functions
//! decide.

use vstd::prelude::*;

use crate::error::ParserError;
use crate::module::TransformerInfo;
use crate::paths::{has_component, has_extension, path_starts_with, spec_path_starts_with};
use crate::scanner::{DirectoryListing, FileScanner};
use crate::text::{concat2, ends_with_seq, usize_to_string};

verus! {

/// The debounce applied before a change triggers regeneration, when none
/// is chosen.
pub const DEFAULT_DEBOUNCE_MILLISECONDS: u64 = 300;

/// Configuration for watch mode.
#[derive(Debug, Clone, PartialEq, Eq)]
pub struct WatchConfig {
    pub router_pattern: String,
    pub output_directory: String,
    pub base_directory: String,
    pub debounce_milliseconds: u64,
    pub verbose: bool,
    pub transformer: Option<TransformerInfo>,
}

impl WatchConfig {
    /// A watch configuration with the default debounce, quiet logging and
    /// no transformer.
    pub fn new(router_pattern: String, output_directory: String, base_directory: String) -> (r:
        WatchConfig)
        ensures
            r.router_pattern == router_pattern,
            r.output_directory == output_directory,
            r.base_directory == base_directory,
            r.debounce_milliseconds == DEFAULT_DEBOUNCE_MILLISECONDS,
            !r.verbose,
            r.transformer is None,
    {
        WatchConfig {
            router_pattern,
            output_directory,
            base_directory,
            debounce_milliseconds: DEFAULT_DEBOUNCE_MILLISECONDS,
            verbose: false,
            transformer: None,
        }
    }

    /// The same configuration with the given transformer.
    pub fn with_transformer(self, transformer: Option<TransformerInfo>) -> (r: WatchConfig)
        ensures
            r == (WatchConfig { transformer, ..self }),
    {
        WatchConfig { transformer, ..self }
    }

    /// The same configuration with another debounce.
    pub fn with_debounce_milliseconds(self, milliseconds: u64) -> (r: WatchConfig)
        ensures
            r == (WatchConfig { debounce_milliseconds: milliseconds, ..self }),
    {
        WatchConfig { debounce_milliseconds: milliseconds, ..self }
    }

    /// The same configuration with verbose logging switched as given.
    pub fn with_verbose(self, verbose: bool) -> (r: WatchConfig)
        ensures
            r == (WatchConfig { verbose, ..self }),
    {
        WatchConfig { verbose, ..self }
    }
}

/// An event of the watch loop: changed paths, or the wish to stop.
#[derive(Debug, Clone, PartialEq, Eq)]
pub enum WatchEvent {
    FileChanged(Vec<String>),
    Shutdown,
}

/// Whether the watch filter keeps a path: it lies outside the output
/// directory, holds no `node_modules` component, and names a TypeScript
/// file.
pub open spec fn spec_watch_keeps(path: Seq<char>, output_directory: Seq<char>) -> bool {
    !spec_path_starts_with(path, output_directory) && !crate::paths::spec_has_path_component(
        path,
        "node_modules"@,
    ) && ends_with_seq(path, seq!['.', 't', 's'])
}

/// Decides whether a path is watched: true exactly when it does not lie
/// in the output directory, contains no `node_modules` component, and is
/// a TypeScript file.
pub fn should_watch_path(path: &str, output_directory: &str) -> (r: bool)
    ensures
        r == spec_watch_keeps(path@, output_directory@),
{
    if path_starts_with(path, output_directory) {
        return false;
    }
    if has_component(path, "node_modules") {
        return false;
    }
    proof {
        reveal_strlit(".ts");
        assert(seq!['.'] + "ts"@ =~= seq!['.', 't', 's']) by {
            reveal_strlit("ts");
        }
    }
    has_extension(path, "ts")
}

/// The paths of a list that the watch filter keeps, in the list's order.
pub open spec fn spec_watch_filter(
    paths: Seq<Seq<char>>,
    output_directory: Seq<char>,
) -> Seq<Seq<char>>
    decreases paths.len(),
{
    if paths.len() == 0 {
        Seq::empty()
    } else if spec_watch_keeps(paths[0], output_directory) {
        seq![paths[0]] + spec_watch_filter(paths.skip(1), output_directory)
    } else {
        spec_watch_filter(paths.skip(1), output_directory)
    }
}

/// The watchable files of a listing: exactly those the scanner's sorted
/// selection holds that the watch filter keeps, in the scan's order; the
/// scanner's errors pass through.
#[verifier::loop_isolation(false)]
pub fn find_watchable_files(
    base_directory: &str,
    listing: &DirectoryListing,
    pattern: &str,
    output_directory: &str,
) -> (r: Result<Vec<String>, crate::error::ScannerError>)
    ensures
        r matches Ok(files) ==> crate::text::views_of(files@) == spec_watch_filter(
            crate::scanner::spec_scan_from(
                base_directory@,
                pattern@,
                listing.entries@,
                0,
            ).sort_by(crate::text::lex_leq_fn()),
            output_directory@,
        ),
{
    let scanner = match FileScanner::new(base_directory, listing) {
        Ok(s) => s,
        Err(e) => {
            return Err(e);
        },
    };
    let scanned = match scanner.scan(listing, pattern) {
        Ok(files) => files,
        Err(e) => {
            return Err(e);
        },
    };
    let ghost scanned_views = crate::text::views_of(scanned@);
    let ghost full = spec_watch_filter(scanned_views, output_directory@);
    let mut watchable: Vec<String> = Vec::new();
    let mut i: usize = 0;
    proof {
        assert(scanned_views.skip(0) =~= scanned_views);
        assert(crate::text::views_of(watchable@) + full =~= full);
    }
    while i < scanned.len()
        invariant
            i <= scanned@.len(),
            full == crate::text::views_of(watchable@) + spec_watch_filter(
                scanned_views.skip(i as int),
                output_directory@,
            ),
        decreases scanned@.len() - i,
    {
        let ghost before = crate::text::views_of(watchable@);
        let ghost rest = spec_watch_filter(scanned_views.skip(i + 1), output_directory@);
        proof {
            assert(scanned_views.skip(i as int)[0] == scanned@[i as int]@);
            assert(scanned_views.skip(i as int).skip(1) =~= scanned_views.skip(i + 1));
        }
        if should_watch_path(scanned[i].as_str(), output_directory) {
            watchable.push(crate::text::str_to_string(scanned[i].as_str()));
            proof {
                assert(crate::text::views_of(watchable@) =~= before.push(
                    scanned@[i as int]@,
                ));
                assert(before + (seq![scanned@[i as int]@] + rest) =~= before.push(
                    scanned@[i as int]@,
                ) + rest);
            }
        }
        i += 1;
    }
    proof {
        assert(scanned_views.skip(scanned_views.len() as int) =~= Seq::<Seq<char>>::empty());
        assert(full =~= crate::text::views_of(watchable@) + Seq::<Seq<char>>::empty());
        assert(crate::text::views_of(watchable@) =~= full);
    }
    Ok(watchable)
}

/// One debounced change event as the watcher reports it: the path and
/// whether the event kind is a plain change.
#[derive(Debug, Clone, PartialEq, Eq)]
pub struct DebouncedChange {
    pub path: String,
    pub is_any_kind: bool,
}

/// Keeps the paths of plain change events that pass the watch filter, in
/// event order.
/// The paths of a list of change events that the watch loop keeps: those
/// of plain change events that pass the watch filter, in event order.
pub open spec fn spec_changed_filter(
    events: Seq<DebouncedChange>,
    output_directory: Seq<char>,
) -> Seq<Seq<char>>
    decreases events.len(),
{
    if events.len() == 0 {
        Seq::empty()
    } else if events[0].is_any_kind && spec_watch_keeps(events[0].path@, output_directory) {
        seq![events[0].path@] + spec_changed_filter(events.skip(1), output_directory)
    } else {
        spec_changed_filter(events.skip(1), output_directory)
    }
}

#[verifier::loop_isolation(false)]
pub fn extract_changed_paths(events: &Vec<DebouncedChange>, output_directory: &str) -> (r: Vec<
    String,
>)
    ensures
        crate::text::views_of(r@) == spec_changed_filter(events@, output_directory@),
{
    let ghost full = spec_changed_filter(events@, output_directory@);
    let mut changed: Vec<String> = Vec::new();
    let mut i: usize = 0;
    proof {
        assert(events@.skip(0) =~= events@);
        assert(crate::text::views_of(changed@) + full =~= full);
    }
    while i < events.len()
        invariant
            i <= events@.len(),
            full == crate::text::views_of(changed@) + spec_changed_filter(
                events@.skip(i as int),
                output_directory@,
            ),
        decreases events@.len() - i,
    {
        let ghost before = crate::text::views_of(changed@);
        let ghost rest = spec_changed_filter(events@.skip(i + 1), output_directory@);
        proof {
            assert(events@.skip(i as int)[0] == events@[i as int]);
            assert(events@.skip(i as int).skip(1) =~= events@.skip(i + 1));
        }
        if events[i].is_any_kind && should_watch_path(events[i].path.as_str(), output_directory) {
            changed.push(crate::text::str_to_string(events[i].path.as_str()));
            proof {
                assert(crate::text::views_of(changed@) =~= before.push(
                    events@[i as int].path@,
                ));
                assert(before + (seq![events@[i as int].path@] + rest) =~= before.push(
                    events@[i as int].path@,
                ) + rest);
            }
        }
        i += 1;
    }
    proof {
        assert(events@.skip(events@.len() as int) =~= Seq::<DebouncedChange>::empty());
        assert(full =~= crate::text::views_of(changed@) + Seq::<Seq<char>>::empty());
        assert(crate::text::views_of(changed@) =~= full);
    }
    changed
}

/// The lines of the error summary printed after a failed regeneration:
/// the first error's message, then either every further message (verbose)
/// or one line counting them.
pub fn error_summary_lines(errors: &Vec<ParserError>, verbose: bool) -> (r: Vec<String>)
    ensures
        errors@.len() == 0 ==> r@.len() == 0,
        errors@.len() > 0 && verbose ==> r@.len() == errors@.len(),
{
    let mut lines: Vec<String> = Vec::new();
    if errors.len() == 0 {
        return lines;
    }
    lines.push(errors[0].message());
    if errors.len() == 1 {
        return lines;
    }
    if verbose {
        let mut i: usize = 1;
        while i < errors.len()
            invariant
                1 <= i <= errors@.len(),
                lines@.len() == i,
            decreases errors@.len() - i,
        {
            lines.push(errors[i].message());
            i += 1;
        }
    } else {
        let rest = usize_to_string(errors.len() - 1);
        let mut line = concat2("  ... and ", rest.as_str());
        line.append(" more errors");
        lines.push(line);
    }
    lines
}

} // verus!
