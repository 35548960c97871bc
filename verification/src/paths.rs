//! Pure path text helpers.
//!
//! Paths travel through this crate as plain text with `/` separators; these
//! helpers implement the few operations the analyses need, each against a
//! specification over the character sequence.

use vstd::prelude::*;

use crate::text::{
    char_at, concat2, concat3, ends_with_seq, starts_with_seq,
    str_ends_with, str_eq, str_len, str_starts_with, str_to_string,
    substring,
};

verus! {

/// A specifier is relative when it starts with `.` or `/`; only such
/// specifiers are followed across files.
pub open spec fn spec_is_relative_path(s: Seq<char>) -> bool {
    s.len() >= 1 && (s[0] == '.' || s[0] == '/')
}

/// Whether a module specifier is relative (starts with `.` or `/`).
pub fn is_relative_path(specifier: &str) -> (r: bool)
    ensures
        r == spec_is_relative_path(specifier@),
{
    if str_len(specifier) >= 1 {
        let c = char_at(specifier, 0);
        c == '.' || c == '/'
    } else {
        false
    }
}

/// A path is absolute when it starts with `/`.
pub open spec fn spec_is_absolute_path(s: Seq<char>) -> bool {
    s.len() >= 1 && s[0] == '/'
}

/// Whether a path is absolute.
pub fn is_absolute_path(path: &str) -> (r: bool)
    ensures
        r == spec_is_absolute_path(path@),
{
    if str_len(path) >= 1 {
        char_at(path, 0) == '/'
    } else {
        false
    }
}

/// The path with every leading `./` segment removed, so that a joined
/// path compares literally with the run's recorded paths.
pub open spec fn spec_strip_dot_segments(s: Seq<char>) -> Seq<char>
    decreases s.len(),
{
    if s.len() >= 2 && s[0] == '.' && s[1] == '/' {
        spec_strip_dot_segments(s.skip(2))
    } else {
        s
    }
}

#[verifier::loop_isolation(false)]
fn strip_dot_segments(s: &str) -> (r: String)
    ensures
        r@ == spec_strip_dot_segments(s@),
{
    let mut start: usize = 0;
    let len = str_len(s);
    proof {
        assert(s@.skip(0) =~= s@);
    }
    while len - start >= 2 && char_at(s, start) == '.' && char_at(s, start + 1) == '/'
        invariant
            start <= len,
            spec_strip_dot_segments(s@) == spec_strip_dot_segments(s@.skip(start as int)),
        decreases len - start,
    {
        proof {
            assert(s@.skip(start as int)[0] == s@[start as int]);
            assert(s@.skip(start as int)[1] == s@[start as int + 1]);
            assert(s@.skip(start as int).skip(2) =~= s@.skip(start as int + 2));
        }
        start += 2;
    }
    proof {
        let tail = s@.skip(start as int);
        if tail.len() >= 2 {
            assert(tail[0] == s@[start as int]);
            assert(tail[1] == s@[start as int + 1]);
        }
        assert(spec_strip_dot_segments(tail) == tail);
        assert(s@.subrange(start as int, len as int) =~= tail);
    }
    substring(s, start, len)
}

/// The result of joining `rel` onto `dir`: `rel` itself when absolute or
/// when `dir` is empty, else the two with a single `/` between them, with
/// `rel`'s leading `./` segments dropped.
pub open spec fn spec_join_path(dir: Seq<char>, rel: Seq<char>) -> Seq<char> {
    if spec_is_absolute_path(rel) || dir.len() == 0 {
        rel
    } else {
        let stripped = spec_strip_dot_segments(rel);
        if dir[dir.len() - 1] == '/' {
            dir + stripped
        } else {
            dir + seq!['/'] + stripped
        }
    }
}

/// Joins a relative path onto a directory.
pub fn join_path(dir: &str, rel: &str) -> (r: String)
    ensures
        r@ == spec_join_path(dir@, rel@),
{
    if is_absolute_path(rel) || str_len(dir) == 0 {
        return str_to_string(rel);
    }
    let stripped = strip_dot_segments(rel);
    let dir_len = str_len(dir);
    if char_at(dir, dir_len - 1) == '/' {
        concat2(dir, stripped.as_str())
    } else {
        let r = concat3(dir, "/", stripped.as_str());
        proof {
            reveal_strlit("/");
            assert(dir@ + "/"@ + stripped@ =~= dir@ + seq!['/'] + stripped@);
        }
        r
    }
}

/// The position just after the last `/` of `s`, or 0 when `s` has none.
pub open spec fn spec_after_last_slash(s: Seq<char>) -> int {
    if exists|i: int| 0 <= i < s.len() && s[i] == '/' {
        1 + (choose|i: int|
            0 <= i < s.len() && s[i] == '/' && forall|j: int| i < j < s.len() ==> s[j] != '/')
    } else {
        0
    }
}

/// The index of the last `/` in `path`, if any.
fn last_slash_index(path: &str) -> (r: Option<usize>)
    ensures
        match r {
            Some(i) => i < path@.len() && path@[i as int] == '/' && forall|j: int|
                i < j < path@.len() ==> path@[j] != '/',
            None => forall|j: int| 0 <= j < path@.len() ==> path@[j] != '/',
        },
{
    let len = str_len(path);
    let mut i: usize = len;
    while i > 0
        invariant
            i <= len,
            len == path@.len(),
            forall|j: int| i <= j < path@.len() ==> path@[j] != '/',
        decreases i,
    {
        i -= 1;
        if char_at(path, i) == '/' {
            return Some(i);
        }
    }
    None
}

/// The directory part of a path: everything before the last `/`, with the
/// root kept as `/`. `None` when the path has no separator.
/// The directory part of a path: everything before the last `/`, the root
/// itself for a path whose only `/` leads it, nothing for a bare name.
pub open spec fn spec_parent_dir(path: Seq<char>) -> Option<Seq<char>> {
    if exists|i: int| 0 <= i < path.len() && path[i] == '/' {
        let i = spec_after_last_slash(path) - 1;
        Some(
            if i == 0 {
                seq!['/']
            } else {
                path.subrange(0, i)
            },
        )
    } else {
        None
    }
}

pub fn parent_dir(path: &str) -> (r: Option<String>)
    ensures
        match r {
            Some(p) => spec_parent_dir(path@) == Some(p@),
            None => spec_parent_dir(path@) is None,
        },
{
    match last_slash_index(path) {
        Some(i) => {
            proof {
                assert(0 <= i < path@.len() && path@[i as int] == '/');
                assert(spec_after_last_slash(path@) == i + 1) by {
                    let c = choose|k: int|
                        0 <= k < path@.len() && path@[k] == '/' && forall|j: int|
                            k < j < path@.len() ==> path@[j] != '/';
                    if c < i {
                        assert(path@[i as int] == '/');
                    }
                    if c > i {
                        assert(path@[c] == '/');
                    }
                }
            }
            if i == 0 {
                let r = str_to_string("/");
                proof {
                    reveal_strlit("/");
                    assert(r@ =~= seq!['/']);
                }
                Some(r)
            } else {
                Some(substring(path, 0, i))
            }
        },
        None => None,
    }
}

/// The file name of a path: everything after the last `/`.
pub fn file_name(path: &str) -> (r: String)
    ensures
        r@ == path@.subrange(spec_after_last_slash(path@), path@.len() as int),
{
    let len = str_len(path);
    match last_slash_index(path) {
        Some(i) => {
            proof {
                let w = i as int;
                assert(0 <= w < path@.len() && path@[w] == '/');
                assert(spec_after_last_slash(path@) == i + 1) by {
                    let c = choose|k: int|
                        0 <= k < path@.len() && path@[k] == '/' && forall|j: int|
                            k < j < path@.len() ==> path@[j] != '/';
                    if c < w {
                        assert(path@[w] != '/');
                    }
                    if c > w {
                        assert(path@[c] != '/');
                    }
                }
            }
            substring(path, i + 1, len)
        },
        None => {
            proof {
                assert(path@.subrange(0, path@.len() as int) =~= path@);
            }
            str_to_string(path)
        },
    }
}

/// Where the stem of the file name ends: at the last `.` that lies strictly
/// inside the file name, or at the end of the path when there is none.
pub open spec fn spec_stem_end(path: Seq<char>) -> int {
    let start = spec_after_last_slash(path);
    if exists|k: int| start < k < path.len() && path[k] == '.' {
        choose|k: int|
            start < k < path.len() && path[k] == '.' && forall|j: int|
                k < j < path.len() ==> path[j] != '.'
    } else {
        path.len() as int
    }
}

/// The path with its file name's extension replaced by `ext`, or with
/// `.ext` appended when the file name has no extension.
pub open spec fn spec_with_extension(path: Seq<char>, ext: Seq<char>) -> Seq<char> {
    path.subrange(0, spec_stem_end(path)) + seq!['.'] + ext
}

/// The path with everything from the last `.` of its file name replaced by
/// the given extension, or with `.ext` appended when the file name has no
/// dot, as `Path::with_extension` does for a plain name.
pub fn with_extension(path: &str, ext: &str) -> (r: String)
    ensures
        r@ == spec_with_extension(path@, ext@),
{
    let len = str_len(path);
    let start = match last_slash_index(path) {
        Some(i) => {
            proof {
                let w = i as int;
                assert(spec_after_last_slash(path@) == i + 1) by {
                    let c = choose|k: int|
                        0 <= k < path@.len() && path@[k] == '/' && forall|j: int|
                            k < j < path@.len() ==> path@[j] != '/';
                    if c < w {
                        assert(path@[w] != '/');
                    }
                    if c > w {
                        assert(path@[c] != '/');
                    }
                }
            }
            i + 1
        },
        None => {
            proof {
                assert(spec_after_last_slash(path@) == 0);
            }
            0
        },
    };
    let ghost name_start = spec_after_last_slash(path@);
    let mut dot: Option<usize> = None;
    let mut k: usize = start;
    while k < len
        invariant
            start <= len,
            len == path@.len(),
            start == name_start,
            k >= start,
            match dot {
                Some(d) => start <= d < k <= len && path@[d as int] == '.' && forall|j: int|
                    d < j < k ==> path@[j] != '.',
                None => k <= len && forall|j: int| start <= j < k ==> path@[j] != '.',
            },
        decreases len - k,
    {
        if char_at(path, k) == '.' {
            dot = Some(k);
        }
        k += 1;
    }
    let stem_end = match dot {
        Some(d) => {
            if d > start {
                proof {
                    assert(spec_stem_end(path@) == d) by {
                        assert(name_start < d < path@.len() && path@[d as int] == '.');
                        let c = choose|k: int|
                            name_start < k < path@.len() && path@[k] == '.' && forall|j: int|
                                k < j < path@.len() ==> path@[j] != '.';
                        if c < d {
                            assert(path@[d as int] != '.');
                        }
                        if c > d {
                            assert(path@[c] != '.');
                        }
                    }
                }
                d
            } else {
                proof {
                    assert(spec_stem_end(path@) == len) by {
                        if exists|k: int| name_start < k < path@.len() && path@[k] == '.' {
                            let w = choose|k: int|
                                name_start < k < path@.len() && path@[k] == '.';
                            assert(path@[w] != '.');
                        }
                    }
                }
                len
            }
        },
        None => {
            proof {
                assert(spec_stem_end(path@) == len) by {
                    if exists|k: int| name_start < k < path@.len() && path@[k] == '.' {
                        let w = choose|k: int| name_start < k < path@.len() && path@[k] == '.';
                        assert(path@[w] != '.');
                    }
                }
            }
            len
        },
    };
    let stem = substring(path, 0, stem_end);
    let r = concat3(stem.as_str(), ".", ext);
    proof {
        reveal_strlit(".");
        assert(stem@ + "."@ + ext@ =~= path@.subrange(0, spec_stem_end(path@)) + seq!['.'] + ext@);
    }
    r
}

/// Whether `path` ends with `.` followed by `ext`.
pub fn has_extension(path: &str, ext: &str) -> (r: bool)
    ensures
        r == ends_with_seq(path@, seq!['.'] + ext@),
{
    let dotted = concat2(".", ext);
    proof {
        reveal_strlit(".");
        assert(dotted@ =~= seq!['.'] + ext@);
    }
    str_ends_with(path, dotted.as_str())
}

/// Whether `path` lies under `prefix`: it equals the prefix or continues it
/// at a component boundary.
pub open spec fn spec_path_starts_with(path: Seq<char>, prefix: Seq<char>) -> bool {
    path == prefix || (prefix.len() >= 1 && prefix[prefix.len() - 1] == '/' && starts_with_seq(
        path,
        prefix,
    )) || starts_with_seq(path, prefix + seq!['/'])
}

/// Whether `path` equals `prefix` or lies inside it.
pub fn path_starts_with(path: &str, prefix: &str) -> (r: bool)
    ensures
        r == spec_path_starts_with(path@, prefix@),
{
    if str_eq(path, prefix) {
        return true;
    }
    let prefix_len = str_len(prefix);
    if prefix_len >= 1 && char_at(prefix, prefix_len - 1) == '/' && str_starts_with(path, prefix) {
        return true;
    }
    let with_slash = concat2(prefix, "/");
    proof {
        reveal_strlit("/");
        assert(prefix@ + "/"@ =~= prefix@ + seq!['/']);
    }
    str_starts_with(path, with_slash.as_str())
}

/// Whether the name occurs in the path delimited on both sides — at an
/// end of the path or against a `/`: for a slash-free name, whether some
/// path component is exactly that name.
pub open spec fn spec_has_path_component(path: Seq<char>, name: Seq<char>) -> bool {
    exists|i: int|
        0 <= i && i + name.len() <= path.len() && name.len() > 0 && (i == 0 || path[i - 1]
            == '/') && (i + name.len() == path.len() || path[i + name.len()] == '/')
            && #[trigger] crate::text::matches_at(path, name, i)
}

/// Whether any component of the path is exactly `name`.
#[verifier::loop_isolation(false)]
pub(crate) fn has_component(path: &str, name: &str) -> (r: bool)
    ensures
        r == spec_has_path_component(path@, name@),
{
    let len = str_len(path);
    let nlen = crate::text::str_len(name);
    if nlen == 0 || nlen > len {
        return false;
    }
    let mut i: usize = 0;
    while i <= len - nlen
        invariant
            nlen <= len,
            i <= len - nlen + 1,
            forall|w: int|
                0 <= w < i ==> !((w == 0 || path@[w - 1] == '/') && (w + nlen == len || path@[w
                    + nlen as int] == '/') && #[trigger] crate::text::matches_at(
                    path@,
                    name@,
                    w,
                )),
        decreases len - nlen + 1 - i,
    {
        let at_start_boundary = i == 0 || char_at(path, i - 1) == '/';
        let at_end_boundary = i + nlen == len || char_at(path, i + nlen) == '/';
        if at_start_boundary && at_end_boundary && crate::text::str_matches_at(path, name, i) {
            return true;
        }
        i += 1;
    }
    false
}

} // verus!
