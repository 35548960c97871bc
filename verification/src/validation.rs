//! Validation helpers: line-diff computation between the existing and the
//! freshly generated output, parsing of type-checker diagnostics, and the
//! search order for the type-checker binary.

use vstd::prelude::*;

use crate::paths::join_path;
use crate::text::{
    char_at, concat2, str_eq, str_len, str_starts_with, str_to_string, substring,
};

verus! {

/// One line-level change of a diff.
#[derive(Debug, Clone, Copy, PartialEq, Eq, Structural)]
pub enum ChangeKind {
    Inserted,
    Removed,
    Unchanged,
}

/// The change sequence `similar::TextDiff::from_lines` yields for a pair
/// of texts, a function of the two texts alone.
pub uninterp spec fn change_seq_of(old_text: Seq<char>, new_text: Seq<char>) -> Seq<ChangeKind>;

/// The unified-diff text `similar` renders for a pair of texts under the
/// given headers and context radius, a function of its arguments alone.
pub uninterp spec fn unified_text_of(
    old_text: Seq<char>,
    new_text: Seq<char>,
    old_header: Seq<char>,
    new_header: Seq<char>,
    context_radius: int,
) -> Seq<char>;

/// Relies on `similar::TextDiff::from_lines` and `iter_all_changes`: the
/// tag of each line-level change, in order.
#[verifier::external_body]
fn diff_changes(old_text: &str, new_text: &str) -> (r: Vec<ChangeKind>)
    ensures
        r@ == change_seq_of(old_text@, new_text@),
{
    similar::TextDiff::from_lines(old_text, new_text).iter_all_changes().map(
        |change| match change.tag() {
            similar::ChangeTag::Insert => ChangeKind::Inserted,
            similar::ChangeTag::Delete => ChangeKind::Removed,
            similar::ChangeTag::Equal => ChangeKind::Unchanged,
        },
    ).collect()
}

/// Relies on `similar`'s `unified_diff` with `context_radius` and
/// `header`: the rendered unified diff.
#[verifier::external_body]
fn unified_diff_text(
    old_text: &str,
    new_text: &str,
    old_header: &str,
    new_header: &str,
    context_radius: usize,
) -> (r: String)
    ensures
        r@ == unified_text_of(
            old_text@,
            new_text@,
            old_header@,
            new_header@,
            context_radius as int,
        ),
{
    similar::TextDiff::from_lines(old_text, new_text).unified_diff().context_radius(
        context_radius,
    ).header(old_header, new_header).to_string()
}

/// The number of changes of one kind.
pub open spec fn spec_count_kind(changes: Seq<ChangeKind>, kind: ChangeKind) -> int
    decreases changes.len(),
{
    if changes.len() == 0 {
        0
    } else {
        (if changes[0] == kind {
            1int
        } else {
            0int
        }) + spec_count_kind(changes.skip(1), kind)
    }
}

proof fn lemma_count_le_len(changes: Seq<ChangeKind>, kind: ChangeKind)
    ensures
        0 <= spec_count_kind(changes, kind) <= changes.len(),
    decreases changes.len(),
{
    if changes.len() > 0 {
        lemma_count_le_len(changes.skip(1), kind);
    }
}

/// The outcome of comparing the existing output with the new one.
#[derive(Debug, Clone, PartialEq, Eq)]
pub struct DiffResult {
    pub has_changes: bool,
    pub lines_added: usize,
    pub lines_removed: usize,
    pub unified_diff: String,
}

/// The number of context lines a diff shows around each change.
pub const DIFF_CONTEXT_LINES: usize = 3;

/// Compares the old content, absent for a new file, with the new one.
/// Identical texts yield no changes and an empty diff; otherwise the
/// added and removed line counts come from the change sequence, and the
/// unified diff is rendered under `a/{path}` and `b/{path}` headers, with
/// `/dev/null` for a new file.
#[verifier::loop_isolation(false)]
pub fn compute_diff(old_content: Option<&str>, new_content: &str, file_path: &str) -> (r:
    DiffResult)
    ensures
        (match old_content {
            Some(old_text) => old_text@ == new_content@,
            None => ""@ == new_content@,
        }) ==> !r.has_changes && r.lines_added == 0 && r.lines_removed == 0
            && r.unified_diff@.len() == 0,
        !(match old_content {
            Some(old_text2) => old_text2@ == new_content@,
            None => ""@ == new_content@,
        }) ==> r.has_changes && r.lines_added == spec_count_kind(
            change_seq_of(
                match old_content {
                    Some(o) => o@,
                    None => ""@,
                },
                new_content@,
            ),
            ChangeKind::Inserted,
        ) && r.lines_removed == spec_count_kind(
            change_seq_of(
                match old_content {
                    Some(o2) => o2@,
                    None => ""@,
                },
                new_content@,
            ),
            ChangeKind::Removed,
        ) && r.unified_diff@ == unified_text_of(
            match old_content {
                Some(o3) => o3@,
                None => ""@,
            },
            new_content@,
            match old_content {
                Some(_) => "a/"@ + file_path@,
                None => "/dev/null"@,
            },
            "b/"@ + file_path@,
            DIFF_CONTEXT_LINES as int,
        ),
{
    let old = match old_content {
        Some(o) => o,
        None => "",
    };

    if str_eq(old, new_content) {
        return DiffResult {
            has_changes: false,
            lines_added: 0,
            lines_removed: 0,
            unified_diff: String::new(),
        };
    }

    let changes = diff_changes(old, new_content);
    let mut lines_added: usize = 0;
    let mut lines_removed: usize = 0;
    let mut i: usize = 0;
    let ghost all = changes@;
    proof {
        assert(all.skip(0) =~= all);
    }
    while i < changes.len()
        invariant
            i <= changes@.len(),
            changes@ == all,
            lines_added <= i,
            lines_removed <= i,
            lines_added + spec_count_kind(all.skip(i as int), ChangeKind::Inserted)
                == spec_count_kind(all, ChangeKind::Inserted),
            lines_removed + spec_count_kind(all.skip(i as int), ChangeKind::Removed)
                == spec_count_kind(all, ChangeKind::Removed),
        decreases changes@.len() - i,
    {
        proof {
            lemma_count_le_len(all.skip(i as int), ChangeKind::Inserted);
            lemma_count_le_len(all.skip(i as int), ChangeKind::Removed);
            assert(all.skip(i as int)[0] == all[i as int]);
            assert(all.skip(i as int).skip(1) =~= all.skip(i as int + 1));
        }
        match changes[i] {
            ChangeKind::Inserted => {
                lines_added += 1;
            },
            ChangeKind::Removed => {
                lines_removed += 1;
            },
            ChangeKind::Unchanged => {},
        }
        i += 1;
    }
    proof {
        assert(all.skip(all.len() as int) =~= Seq::<ChangeKind>::empty());
    }

    let old_header = match old_content {
        Some(_) => concat2("a/", file_path),
        None => str_to_string("/dev/null"),
    };
    let new_header = concat2("b/", file_path);

    let unified_diff = unified_diff_text(
        old,
        new_content,
        old_header.as_str(),
        new_header.as_str(),
        DIFF_CONTEXT_LINES,
    );

    DiffResult { has_changes: true, lines_added, lines_removed, unified_diff }
}

/// A type-checker finding's severity.
#[derive(Debug, Clone, Copy, PartialEq, Eq, Structural)]
pub enum TscSeverity {
    Error,
    Warning,
}

/// One finding parsed out of the type-checker's plain output.
#[derive(Debug, Clone, PartialEq, Eq)]
pub struct TscError {
    pub file: String,
    pub line: usize,
    pub column: usize,
    pub code: String,
    pub message: String,
    pub severity: TscSeverity,
}

/// A whole validation run: its findings and their counts by severity.
#[derive(Debug, Clone, PartialEq, Eq)]
pub struct TscResult {
    pub success: bool,
    pub errors: Vec<TscError>,
    pub error_count: usize,
    pub warning_count: usize,
}

fn trim_ascii(line: &str) -> (r: String)
    ensures
        line@.len() == 0 ==> r@.len() == 0,
{
    let len = str_len(line);
    let mut start: usize = 0;
    while start < len
        invariant
            start <= len,
            len == line@.len(),
        decreases len - start,
    {
        let c = char_at(line, start);
        if c == ' ' || c == '\t' || c == '\r' || c == '\n' {
            start += 1;
        } else {
            break ;
        }
    }
    let mut end: usize = len;
    while end > start
        invariant
            start <= end <= len,
            len == line@.len(),
        decreases end,
    {
        let c = char_at(line, end - 1);
        if c == ' ' || c == '\t' || c == '\r' || c == '\n' {
            end -= 1;
        } else {
            break ;
        }
    }
    substring(line, start, end)
}

fn split_once_colon_space(text: &str) -> (r: Option<(String, String)>) {
    let len = str_len(text);
    if len < 2 {
        return None;
    }
    let mut i: usize = 0;
    while i < len - 1
        invariant
            len == text@.len(),
            2 <= len,
            i <= len - 1,
        decreases len - i,
    {
        if char_at(text, i) == ':' && char_at(text, i + 1) == ' ' {
            let head = substring(text, 0, i);
            let tail = substring(text, i + 2, len);
            return Some((head, tail));
        }
        i += 1;
    }
    None
}

fn rfind_char(text: &str, target: char) -> (r: Option<usize>)
    ensures
        r matches Some(i) ==> i < text@.len() && text@[i as int] == target,
{
    let len = str_len(text);
    let mut i: usize = len;
    while i > 0
        invariant
            i <= len,
            len == text@.len(),
        decreases i,
    {
        i -= 1;
        if char_at(text, i) == target {
            return Some(i);
        }
    }
    None
}

fn parse_usize(text: &str) -> (r: Option<usize>) {
    let len = str_len(text);
    if len == 0 {
        return None;
    }
    let mut value: usize = 0;
    let mut i: usize = 0;
    while i < len
        invariant
            i <= len,
            len == text@.len(),
        decreases len - i,
    {
        let c = char_at(text, i);
        let digit: usize = if c == '0' {
            0
        } else if c == '1' {
            1
        } else if c == '2' {
            2
        } else if c == '3' {
            3
        } else if c == '4' {
            4
        } else if c == '5' {
            5
        } else if c == '6' {
            6
        } else if c == '7' {
            7
        } else if c == '8' {
            8
        } else if c == '9' {
            9
        } else {
            return None;
        };
        if value > (usize::MAX - digit) / 10 {
            return None;
        }
        value = value * 10 + digit;
        i += 1;
    }
    Some(value)
}

/// Parses one line of type-checker output of the shape
/// `file(line,column): severity TScode: message`; any other line yields
/// nothing. The severity word decides the finding's severity.
pub fn parse_tsc_error_line(line: &str) -> (r: Option<TscError>)
    ensures
        line@.len() == 0 ==> r is None,
{
    let trimmed = trim_ascii(line);
    if str_len(trimmed.as_str()) == 0 {
        return None;
    }

    let (file_location, rest) = match split_once_colon_space(trimmed.as_str()) {
        Some(pair) => pair,
        None => {
            return None;
        },
    };

    proof {
        reveal_strlit("error TS");
        reveal_strlit("warning TS");
    }
    let (severity, after_severity) = if str_starts_with(rest.as_str(), "error TS") {
        let rest_len = str_len(rest.as_str());
        (TscSeverity::Error, substring(rest.as_str(), 6, rest_len))
    } else if str_starts_with(rest.as_str(), "warning TS") {
        let rest_len = str_len(rest.as_str());
        (TscSeverity::Warning, substring(rest.as_str(), 8, rest_len))
    } else {
        return None;
    };

    let (code, message) = match split_once_colon_space(after_severity.as_str()) {
        Some(pair) => pair,
        None => {
            return None;
        },
    };

    let open_paren = match rfind_char(file_location.as_str(), '(') {
        Some(i) => i,
        None => {
            return None;
        },
    };
    let close_paren = match rfind_char(file_location.as_str(), ')') {
        Some(i) => i,
        None => {
            return None;
        },
    };
    if open_paren >= close_paren {
        return None;
    }
    let file = substring(file_location.as_str(), 0, open_paren);
    let line_col = substring(file_location.as_str(), open_paren + 1, close_paren);

    let comma = match find_char(line_col.as_str(), ',') {
        Some(i) => i,
        None => {
            return None;
        },
    };
    let line_col_len = str_len(line_col.as_str());
    let line_text = trim_ascii(substring(line_col.as_str(), 0, comma).as_str());
    let col_text = trim_ascii(substring(line_col.as_str(), comma + 1, line_col_len).as_str());
    let line_number = match parse_usize(line_text.as_str()) {
        Some(v) => v,
        None => {
            return None;
        },
    };
    let column = match parse_usize(col_text.as_str()) {
        Some(v) => v,
        None => {
            return None;
        },
    };

    Some(
        TscError {
            file,
            line: line_number,
            column,
            code: trim_ascii(code.as_str()),
            message,
            severity,
        },
    )
}

fn find_char(text: &str, target: char) -> (r: Option<usize>)
    ensures
        r matches Some(i) ==> i < text@.len() && text@[i as int] == target,
{
    let len = str_len(text);
    let mut i: usize = 0;
    while i < len
        invariant
            i <= len,
            len == text@.len(),
        decreases len - i,
    {
        if char_at(text, i) == target {
            return Some(i);
        }
        i += 1;
    }
    None
}

/// Parses every line of type-checker output, keeping the findings in
/// order; at most one finding comes from each line.
pub fn collect_tsc_errors(lines: &Vec<String>) -> (r: Vec<TscError>)
    ensures
        r@.len() <= lines@.len(),
{
    let mut errors: Vec<TscError> = Vec::new();
    let mut i: usize = 0;
    while i < lines.len()
        invariant
            i <= lines@.len(),
            errors@.len() <= i,
        decreases lines@.len() - i,
    {
        match parse_tsc_error_line(lines[i].as_str()) {
            Some(e) => {
                errors.push(e);
            },
            None => {},
        }
        i += 1;
    }
    errors
}

/// Builds the result of a validation run from its findings and whether the
/// checker process exited successfully: the run succeeds when the process
/// did and no finding is an error.
pub fn build_tsc_result(errors: Vec<TscError>, process_success: bool) -> (r: TscResult)
    ensures
        r.error_count <= r.errors@.len(),
        r.warning_count <= r.errors@.len(),
        r.success == (process_success && r.error_count == 0),
        r.errors == errors,
{
    let mut error_count: usize = 0;
    let mut warning_count: usize = 0;
    let mut i: usize = 0;
    while i < errors.len()
        invariant
            i <= errors@.len(),
            error_count <= i,
            warning_count <= i,
        decreases errors@.len() - i,
    {
        match errors[i].severity {
            TscSeverity::Error => {
                error_count += 1;
            },
            TscSeverity::Warning => {
                warning_count += 1;
            },
        }
        i += 1;
    }
    let success = process_success && error_count == 0;
    TscResult { success, errors, error_count, warning_count }
}

/// The candidate locations of the type-checker binary near a project: the
/// `node_modules/.bin/tsc` of the base directory and of its three nearest
/// ancestors, in that order.
pub fn tsc_search_paths(base_directory: &str) -> (r: Vec<String>)
    ensures
        r@.len() == 4,
{
    let mut paths: Vec<String> = Vec::new();
    paths.push(join_path(base_directory, "node_modules/.bin/tsc"));
    paths.push(join_path(base_directory, "../node_modules/.bin/tsc"));
    paths.push(join_path(base_directory, "../../node_modules/.bin/tsc"));
    paths.push(join_path(base_directory, "../../../node_modules/.bin/tsc"));
    paths
}

/// Finds the type-checker binary: the first of the candidate paths near
/// the base directory that exists, else the first `tsc` found under the
/// search-path directories. The caller probes the file system and hands
/// over which paths exist and the directories of the search path.
pub fn find_tsc(
    base_directory: &str,
    existing_paths: &Vec<String>,
    path_directories: &Vec<String>,
) -> (r: Option<String>)
    ensures
        r matches Some(p) ==> crate::text::spec_in_names(existing_paths@, p@),
{
    let candidates = tsc_search_paths(base_directory);
    let mut i: usize = 0;
    while i < candidates.len()
        decreases candidates@.len() - i,
    {
        if crate::flatten::name_in(existing_paths, candidates[i].as_str()) {
            proof {
                let k = choose|k: int|
                    0 <= k < existing_paths@.len() && (#[trigger] existing_paths@[k])@
                        == candidates@[i as int]@;
            }
            return Some(str_to_string(candidates[i].as_str()));
        }
        i += 1;
    }
    let mut d: usize = 0;
    while d < path_directories.len()
        decreases path_directories@.len() - d,
    {
        let candidate = join_path(path_directories[d].as_str(), "tsc");
        if crate::flatten::name_in(existing_paths, candidate.as_str()) {
            return Some(candidate);
        }
        d += 1;
    }
    None
}

} // verus!
