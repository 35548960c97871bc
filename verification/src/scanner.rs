//! The file scanner: selects the files of a directory tree that match a
//! glob pattern, skipping hidden entries.
//!
//! The tree arrives as a listing value — each entry a path with a file
//! flag — so selection is a pure function of the listing; a caller that
//! walks the real tree hands the listing over in walk order.

use vstd::prelude::*;

use crate::error::ScannerError;
use crate::paths::{path_starts_with, spec_path_starts_with};
use crate::text::{
    char_at, lex_leq_fn, sort_strings, starts_with_seq, str_eq, str_len, str_starts_with,
    str_to_string, substring, views_of,
};

verus! {

/// Whether a glob pattern compiles, with literal path separators: what
/// `globset::GlobBuilder::build` followed by `GlobSetBuilder::build`
/// decides for the pattern alone — the parse, and the compilation of the
/// parsed glob within the library's fixed automaton size limit.
pub uninterp spec fn glob_compiles(pattern: Seq<char>) -> bool;

/// Whether a path matches a glob pattern compiled with literal path
/// separators: what `globset::GlobSet::is_match` yields for the set
/// holding that one pattern, a function of the pattern and the path alone.
pub uninterp spec fn glob_matches(pattern: Seq<char>, path: Seq<char>) -> bool;

/// A compiled glob with the pattern it was built from; the matcher field
/// is only ever built from the pattern field, by `compile_pattern`, so
/// `pattern_of` names that pattern.
#[verifier::external_body]
pub struct PatternMatcher {
    pattern: String,
    matcher: globset::GlobSet,
}

/// The pattern a compiled matcher was built from.
pub uninterp spec fn pattern_of(m: PatternMatcher) -> Seq<char>;

/// Relies on `globset::GlobBuilder::build` and `GlobSetBuilder::build`:
/// compiles the pattern with literal path separators, through the set
/// builder, whose compilation is fallible rather than panicking; a pattern
/// the parser rejects, or whose compiled form exceeds the library's size
/// limit, yields the error text.
#[verifier::external_body]
pub fn compile_pattern(pattern: &str) -> (r: Result<PatternMatcher, String>)
    ensures
        r is Ok <==> glob_compiles(pattern@),
        r matches Ok(m) ==> pattern_of(m) == pattern@,
{
    let glob = match globset::GlobBuilder::new(pattern).literal_separator(true).build() {
        Ok(g) => g,
        Err(e) => return Err(e.to_string()),
    };
    let mut builder = globset::GlobSetBuilder::new();
    builder.add(glob);
    match builder.build() {
        Ok(set) => Ok(PatternMatcher { pattern: pattern.to_string(), matcher: set }),
        Err(e) => Err(e.to_string()),
    }
}

impl PatternMatcher {
    /// Relies on `globset::GlobSet::is_match`: whether the path matches
    /// the one-pattern set; the set was built from the recorded pattern,
    /// so the answer is a function of pattern and path.
    #[verifier::external_body]
    pub fn is_match(&self, path: &str) -> (r: bool)
        ensures
            r == glob_matches(pattern_of(*self), path@),
    {
        self.matcher.is_match(path)
    }
}

/// The path of an entry relative to the base directory: the part after
/// `base/`, or the path itself when it does not lie under the base.
pub open spec fn spec_relative_to(path: Seq<char>, base: Seq<char>) -> Seq<char> {
    if starts_with_seq(path, base + seq!['/']) {
        path.skip(base.len() as int + 1)
    } else {
        path
    }
}

/// Whether a relative path is hidden: one of its `/`-separated components
/// begins with a dot.
pub open spec fn spec_has_hidden_component(rel: Seq<char>) -> bool {
    exists|i: int|
        0 <= i < rel.len() && #[trigger] rel[i] == '.' && (i == 0 || rel[i - 1] == '/')
}

/// One entry of a directory listing.
#[derive(Debug, Clone, PartialEq, Eq)]
pub struct DirEntry {
    pub path: String,
    pub is_file: bool,
}

/// A directory tree as a value: its entries in walk order.
#[derive(Debug, Clone, PartialEq, Eq)]
pub struct DirectoryListing {
    pub entries: Vec<DirEntry>,
}

/// Whether the scanner keeps an entry: a file, lying under the base, whose
/// relative path is not hidden and matches the pattern.
pub open spec fn spec_scan_keeps(
    base: Seq<char>,
    pattern: Seq<char>,
    entry: DirEntry,
) -> bool {
    entry.is_file && spec_path_starts_with(entry.path@, base) && !spec_has_hidden_component(
        spec_relative_to(entry.path@, base),
    ) && glob_matches(pattern, spec_relative_to(entry.path@, base))
}

/// The kept paths of the entries from `i` on, in listing order.
pub open spec fn spec_scan_from(
    base: Seq<char>,
    pattern: Seq<char>,
    entries: Seq<DirEntry>,
    i: int,
) -> Seq<Seq<char>>
    decreases entries.len() - i,
{
    if i < 0 || i >= entries.len() {
        Seq::empty()
    } else if spec_scan_keeps(base, pattern, entries[i]) {
        seq![entries[i].path@] + spec_scan_from(base, pattern, entries, i + 1)
    } else {
        spec_scan_from(base, pattern, entries, i + 1)
    }
}

/// The path of an entry relative to a base directory.
pub(crate) fn relative_path_to(path: &str, base: &str) -> (r: String)
    ensures
        r@ == spec_relative_to(path@, base@),
{
    let prefix = crate::text::concat2(base, "/");
    proof {
        reveal_strlit("/");
        assert(prefix@ =~= base@ + seq!['/']);
    }
    if str_starts_with(path, prefix.as_str()) {
        let len = str_len(path);
        let base_len = str_len(base);
        substring(path, base_len + 1, len)
    } else {
        str_to_string(path)
    }
}

/// Whether a relative path has a hidden component.
#[verifier::loop_isolation(false)]
pub(crate) fn relative_has_hidden_component(rel: &str) -> (r: bool)
    ensures
        r == spec_has_hidden_component(rel@),
{
    let len = str_len(rel);
    let mut i: usize = 0;
    while i < len
        invariant
            i <= len,
            forall|j: int|
                0 <= j < i ==> !(#[trigger] rel@[j] == '.' && (j == 0 || rel@[j - 1] == '/')),
        decreases len - i,
    {
        let c = char_at(rel, i);
        if c == '.' {
            if i == 0 {
                return true;
            }
            let prev = char_at(rel, i - 1);
            if prev == '/' {
                return true;
            }
        }
        i += 1;
    }
    false
}

/// Whether the listing holds the path as a directory.
pub open spec fn spec_listing_has_dir(entries: Seq<DirEntry>, path: Seq<char>) -> bool {
    exists|i: int|
        0 <= i < entries.len() && (#[trigger] entries[i]).path@ == path && !entries[i].is_file
}

/// Whether the listing holds the path as a file.
pub open spec fn spec_listing_has_file(entries: Seq<DirEntry>, path: Seq<char>) -> bool {
    exists|i: int|
        0 <= i < entries.len() && (#[trigger] entries[i]).path@ == path && entries[i].is_file
}

/// Scans a directory listing for the files matching a glob pattern.
#[derive(Debug, Clone, PartialEq, Eq)]
pub struct FileScanner {
    pub base_dir: String,
    pub max_depth: Option<usize>,
    pub follow_symlinks: bool,
}

impl FileScanner {
    /// A scanner rooted at `base_dir`, judged against the listing: when
    /// the listing holds the base as a directory the scanner is built;
    /// when it holds it only as a file the path is no directory; when it
    /// holds it not at all the directory is missing.
    #[verifier::loop_isolation(false)]
    pub fn new(base_dir: &str, listing: &DirectoryListing) -> (r: Result<
        FileScanner,
        ScannerError,
    >)
        ensures
            spec_listing_has_dir(listing.entries@, base_dir@) <==> (r matches Ok(s)
                && s.base_dir@ == base_dir@ && s.max_depth is None && !s.follow_symlinks),
            !spec_listing_has_dir(listing.entries@, base_dir@) && spec_listing_has_file(
                listing.entries@,
                base_dir@,
            ) ==> (r matches Err(e) && (e matches ScannerError::NotADirectory(p) && p@
                == base_dir@)),
            !spec_listing_has_dir(listing.entries@, base_dir@) && !spec_listing_has_file(
                listing.entries@,
                base_dir@,
            ) ==> (r matches Err(e2) && (e2 matches ScannerError::DirectoryNotFound(p2) && p2@
                == base_dir@)),
    {
        let mut found_dir = false;
        let mut found_file = false;
        let mut i: usize = 0;
        while i < listing.entries.len()
            invariant
                i <= listing.entries@.len(),
                found_dir == spec_listing_has_dir(listing.entries@.subrange(0, i as int), base_dir@),
                found_file == spec_listing_has_file(
                    listing.entries@.subrange(0, i as int),
                    base_dir@,
                ),
            decreases listing.entries@.len() - i,
        {
            let ghost prefix = listing.entries@.subrange(0, i as int);
            if str_eq(listing.entries[i].path.as_str(), base_dir) {
                if listing.entries[i].is_file {
                    found_file = true;
                } else {
                    found_dir = true;
                }
            }
            proof {
                let next = listing.entries@.subrange(0, i + 1);
                assert(next =~= prefix.push(listing.entries@[i as int]));
                assert(forall|j: int| 0 <= j < prefix.len() ==> next[j] == prefix[j]);
                assert(next[i as int] == listing.entries@[i as int]);
                if spec_listing_has_dir(next, base_dir@) && !spec_listing_has_dir(
                    prefix,
                    base_dir@,
                ) {
                    let w = choose|k: int|
                        0 <= k < next.len() && (#[trigger] next[k]).path@ == base_dir@
                            && !next[k].is_file;
                    if w < i {
                        assert(prefix[w] == next[w]);
                    }
                }
                if spec_listing_has_file(next, base_dir@) && !spec_listing_has_file(
                    prefix,
                    base_dir@,
                ) {
                    let w = choose|k: int|
                        0 <= k < next.len() && (#[trigger] next[k]).path@ == base_dir@
                            && next[k].is_file;
                    if w < i {
                        assert(prefix[w] == next[w]);
                    }
                }
            }
            i += 1;
        }
        proof {
            assert(listing.entries@.subrange(0, listing.entries@.len() as int)
                =~= listing.entries@);
        }
        if found_dir {
            Ok(
                FileScanner {
                    base_dir: str_to_string(base_dir),
                    max_depth: None,
                    follow_symlinks: false,
                },
            )
        } else if found_file {
            Err(ScannerError::NotADirectory(str_to_string(base_dir)))
        } else {
            Err(ScannerError::DirectoryNotFound(str_to_string(base_dir)))
        }
    }

    /// The same scanner keeping only entries within the given depth. The
    /// depth bound is honoured by the caller that walks the tree; the
    /// selection itself judges whatever the listing holds.
    pub fn with_max_depth(self, max_depth: usize) -> (r: FileScanner)
        ensures
            r == (FileScanner { max_depth: Some(max_depth), ..self }),
    {
        FileScanner { max_depth: Some(max_depth), ..self }
    }

    /// The base directory this scanner is rooted at.
    pub fn base_dir(&self) -> (r: &String)
        ensures
            r@ == self.base_dir@,
    {
        &self.base_dir
    }

    /// The files of the listing matching the pattern: files under the
    /// base, with no hidden component in their relative path, whose
    /// relative path matches; sorted into lexicographic path order. An
    /// invalid pattern yields the pattern error.
    #[verifier::loop_isolation(false)]
    pub fn scan(&self, listing: &DirectoryListing, pattern: &str) -> (r: Result<
        Vec<String>,
        ScannerError,
    >)
        ensures
            glob_compiles(pattern@) <==> r is Ok,
            r matches Ok(files) ==> files@.map_values(|s: String| s@) == spec_scan_from(
                self.base_dir@,
                pattern@,
                listing.entries@,
                0,
            ).sort_by(lex_leq_fn()),
            r matches Err(e) ==> e matches ScannerError::InvalidPattern(p, _m) && p@ == pattern@,
    {
        let matcher = match compile_pattern(pattern) {
            Ok(m) => m,
            Err(message) => {
                return Err(ScannerError::InvalidPattern(str_to_string(pattern), message));
            },
        };
        let mut files: Vec<String> = Vec::new();
        let mut i: usize = 0;
        proof {
            assert(files@.map_values(|s: String| s@) + spec_scan_from(
                self.base_dir@,
                pattern@,
                listing.entries@,
                0,
            ) =~= spec_scan_from(self.base_dir@, pattern@, listing.entries@, 0));
        }
        while i < listing.entries.len()
            invariant
                i <= listing.entries@.len(),
                pattern_of(matcher) == pattern@,
                spec_scan_from(self.base_dir@, pattern@, listing.entries@, 0)
                    == files@.map_values(|s: String| s@) + spec_scan_from(
                    self.base_dir@,
                    pattern@,
                    listing.entries@,
                    i as int,
                ),
            decreases listing.entries@.len() - i,
        {
            let entry = &listing.entries[i];
            if entry.is_file && path_starts_with(entry.path.as_str(), self.base_dir.as_str()) {
                let rel = relative_path_to(entry.path.as_str(), self.base_dir.as_str());
                if !relative_has_hidden_component(rel.as_str()) && matcher.is_match(rel.as_str()) {
                    let ghost before = files@.map_values(|s: String| s@);
                    files.push(str_to_string(entry.path.as_str()));
                    proof {
                        assert(files@.map_values(|s: String| s@) =~= before.push(
                            entry.path@,
                        ));
                        assert(before + (seq![entry.path@] + spec_scan_from(
                            self.base_dir@,
                            pattern@,
                            listing.entries@,
                            i + 1,
                        )) =~= before.push(entry.path@) + spec_scan_from(
                            self.base_dir@,
                            pattern@,
                            listing.entries@,
                            i + 1,
                        ));
                    }
                }
            }
            i += 1;
        }
        proof {
            assert(files@.map_values(|s: String| s@) + Seq::<Seq<char>>::empty()
                =~= files@.map_values(|s: String| s@));
        }
        let sorted = sort_strings(files);
        proof {
            assert(views_of(sorted@) == spec_scan_from(
                self.base_dir@,
                pattern@,
                listing.entries@,
                0,
            ).sort_by(lex_leq_fn()));
        }
        Ok(sorted)
    }

    /// The same selection as `scan`; the listing's paths are already
    /// absolute, so no further resolution applies.
    pub fn scan_absolute(&self, listing: &DirectoryListing, pattern: &str) -> (r: Result<
        Vec<String>,
        ScannerError,
    >)
        ensures
            glob_compiles(pattern@) <==> r is Ok,
            r matches Ok(files) ==> files@.map_values(|s: String| s@) == spec_scan_from(
                self.base_dir@,
                pattern@,
                listing.entries@,
                0,
            ).sort_by(lex_leq_fn()),
    {
        self.scan(listing, pattern)
    }
}

/// Scans a listing for router files with a fresh scanner rooted at
/// `base_dir`.
pub fn scan_for_routers(base_dir: &str, listing: &DirectoryListing, pattern: &str) -> (r: Result<
    Vec<String>,
    ScannerError,
>)
    ensures
        r matches Ok(files) ==> glob_compiles(pattern@) && files@.map_values(|s: String| s@)
            == spec_scan_from(base_dir@, pattern@, listing.entries@, 0).sort_by(lex_leq_fn()),
        r matches Err(e) ==> ((e matches ScannerError::DirectoryNotFound(p) && p@ == base_dir@)
            || (e matches ScannerError::NotADirectory(p2) && p2@ == base_dir@) || (e matches
            ScannerError::InvalidPattern(p3, _m) && p3@ == pattern@)),
{
    let scanner = match FileScanner::new(base_dir, listing) {
        Ok(s) => s,
        Err(e) => {
            return Err(e);
        },
    };
    scanner.scan(listing, pattern)
}

} // verus!
