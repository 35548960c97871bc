//! Positions and spans for source diagnostics: turning a line and column
//! into a character offset and choosing how much of the source to
//! highlight. Offsets and lengths count characters.

use vstd::prelude::*;

use crate::text::{char_at, str_len};

verus! {

/// The highest offset within the highlight window: a token is cut off
/// after this many characters.
pub const MAX_ERROR_HIGHLIGHT: usize = 20;

/// Whether a character ends a highlighted token: whitespace, a semicolon
/// or a comma.
pub open spec fn spec_is_token_end(c: char) -> bool {
    c == ' ' || c == '\t' || c == '\n' || c == '\r' || c == ';' || c == ','
}

/// The character offset where the given one-indexed line starts: the
/// position after the `line - 1`th newline, or the end of the content
/// when it has fewer lines.
pub open spec fn spec_line_start(content: Seq<char>, target_line: int, i: int, current: int) -> int
    decreases content.len() - i,
{
    if current >= target_line || i < 0 || i >= content.len() {
        i
    } else if content[i] == '\n' {
        spec_line_start(content, target_line, i + 1, current + 1)
    } else {
        spec_line_start(content, target_line, i + 1, current)
    }
}

/// Finds the character offset where the one-indexed `target_line` begins;
/// content with fewer lines yields its end.
#[verifier::loop_isolation(false)]
pub fn find_line_start_offset(content: &str, target_line: usize) -> (r: usize)
    ensures
        r == spec_line_start(content@, target_line as int, 0, 1),
        r <= content@.len(),
{
    let len = str_len(content);
    let mut current_line: usize = 1;
    let mut i: usize = 0;
    while i < len && current_line < target_line
        invariant
            i <= len,
            target_line < 1 || current_line <= target_line,
            spec_line_start(content@, target_line as int, 0, 1) == spec_line_start(
                content@,
                target_line as int,
                i as int,
                current_line as int,
            ),
        decreases len - i,
    {
        if char_at(content, i) == '\n' {
            current_line += 1;
        }
        i += 1;
    }
    i
}

/// The number of characters to highlight from `offset`: the token up to
/// whitespace, a semicolon or a comma, capped, and at least one.
pub open spec fn spec_error_length(content: Seq<char>, offset: int, length: int) -> int
    decreases content.len() - offset - length,
{
    if offset < 0 || offset + length >= content.len() || length >= MAX_ERROR_HIGHLIGHT as int {
        if length < 1 {
            1
        } else {
            length
        }
    } else if spec_is_token_end(content[offset + length]) {
        if length < 1 {
            1
        } else {
            length
        }
    } else {
        spec_error_length(content, offset, length + 1)
    }
}

/// Finds a reasonable highlight length for an error at `offset`: the
/// length of the token there, capped at the window and never zero. An
/// offset at or past the end highlights a single character.
#[verifier::loop_isolation(false)]
pub fn find_error_length(content: &str, offset: usize) -> (r: usize)
    ensures
        offset < content@.len() ==> r == spec_error_length(content@, offset as int, 0),
        offset >= content@.len() ==> r == 1,
        1 <= r <= MAX_ERROR_HIGHLIGHT,
{
    let len = str_len(content);
    if offset >= len {
        return 1;
    }
    let mut length: usize = 0;
    while offset + length < len && length < MAX_ERROR_HIGHLIGHT
        invariant
            offset < len,
            length <= MAX_ERROR_HIGHLIGHT,
            offset + length <= len,
            spec_error_length(content@, offset as int, 0) == spec_error_length(
                content@,
                offset as int,
                length as int,
            ),
        decreases len - offset - length,
    {
        let c = char_at(content, offset + length);
        if c == ' ' || c == '\t' || c == '\n' || c == '\r' || c == ';' || c == ',' {
            break ;
        }
        length += 1;
    }
    if length < 1 {
        1
    } else {
        length
    }
}

/// Turns a one-indexed line and column into a character offset.
pub fn line_column_to_offset(content: &str, line: usize, column: usize) -> (r: usize)
    ensures
        spec_line_start(content@, line as int, 0, 1) + (if column >= 1 {
            column - 1
        } else {
            0
        }) <= usize::MAX ==> r == spec_line_start(content@, line as int, 0, 1) + (if column >= 1 {
            column - 1
        } else {
            0
        }),
{
    let line_start = find_line_start_offset(content, line);
    let column_offset = if column >= 1 {
        column - 1
    } else {
        0
    };
    if line_start <= usize::MAX - column_offset {
        line_start + column_offset
    } else {
        usize::MAX
    }
}

/// The hard failure raised when a run finds no router class at all: the
/// files that were searched.
#[derive(Debug, Clone, PartialEq, Eq)]
pub struct NoRoutersDiagnostic {
    pub searched_files: Vec<String>,
}

impl NoRoutersDiagnostic {
    /// The rendered message of this diagnostic.
    pub fn message(&self) -> (r: String)
        ensures
            r@ == "No @Router decorated classes found"@,
    {
        crate::text::str_to_string("No @Router decorated classes found")
    }
}

} // verus!
