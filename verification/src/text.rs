//! Verified text utilities.
//!
//! All analyses in this crate work on substitution and inspection of source
//! text, so the string operations they rely on are implemented and verified
//! here, with full functional specifications over `Seq<char>` views.
//! Positions and lengths are counted in characters throughout.

use vstd::prelude::*;
use vstd::string::*;

verus! {

/// Relies on `String::push`: appends the given character to the end of the
/// string.
pub assume_specification[ String::push ](s: &mut String, c: char)
    ensures
        final(s)@ == old(s)@ + seq![c],
;

/// True when `pat` occurs in `s` starting at character position `i`.
pub open spec fn matches_at(s: Seq<char>, pat: Seq<char>, i: int) -> bool {
    0 <= i && i + pat.len() <= s.len() && s.subrange(i, i + pat.len()) == pat
}

/// True when `pat` occurs somewhere in `s`.
pub open spec fn contains_seq(s: Seq<char>, pat: Seq<char>) -> bool {
    exists|i: int| matches_at(s, pat, i)
}

/// True when `s` begins with `pat`.
pub open spec fn starts_with_seq(s: Seq<char>, pat: Seq<char>) -> bool {
    matches_at(s, pat, 0)
}

/// True when `s` ends with `pat`.
pub open spec fn ends_with_seq(s: Seq<char>, pat: Seq<char>) -> bool {
    pat.len() <= s.len() && matches_at(s, pat, s.len() - pat.len())
}

/// The text that results from replacing every occurrence of `from` in `s`
/// with `to`, scanning left to right without overlap, as `str::replace` does.
pub open spec fn replace_seq(s: Seq<char>, from: Seq<char>, to: Seq<char>) -> Seq<char>
    decreases s.len(),
    when from.len() >= 1
{
    if s.len() < from.len() {
        s
    } else if s.subrange(0, from.len() as int) == from {
        to + replace_seq(s.skip(from.len() as int), from, to)
    } else {
        seq![s[0]] + replace_seq(s.skip(1), from, to)
    }
}

/// Replacing anything in a text too short to contain the pattern, in
/// particular in the empty text, changes nothing.
pub proof fn lemma_replace_short(s: Seq<char>, from: Seq<char>, to: Seq<char>)
    requires
        from.len() >= 1,
        s.len() < from.len(),
    ensures
        replace_seq(s, from, to) == s,
{
}

/// Replacing the pattern inside the pattern itself yields the replacement.
pub proof fn lemma_replace_whole(from: Seq<char>, to: Seq<char>)
    requires
        from.len() >= 1,
    ensures
        replace_seq(from, from, to) == to,
{
    assert(from.subrange(0, from.len() as int) =~= from);
    assert(from.skip(from.len() as int) =~= Seq::<char>::empty());
    lemma_replace_short(Seq::<char>::empty(), from, to);
    assert(to + Seq::<char>::empty() =~= to);
}

/// Replacing a pattern by itself changes nothing.
pub proof fn lemma_replace_identity(s: Seq<char>, from: Seq<char>)
    requires
        from.len() >= 1,
    ensures
        replace_seq(s, from, from) == s,
    decreases s.len(),
{
    if s.len() < from.len() {
    } else if s.subrange(0, from.len() as int) == from {
        lemma_replace_identity(s.skip(from.len() as int), from);
        assert(from + s.skip(from.len() as int) =~= s);
    } else {
        lemma_replace_identity(s.skip(1), from);
        assert(seq![s[0]] + s.skip(1) =~= s);
    }
}

/// A text that does not contain the pattern is unchanged by replacement.
pub proof fn lemma_replace_absent(s: Seq<char>, from: Seq<char>, to: Seq<char>)
    requires
        from.len() >= 1,
        !contains_seq(s, from),
    ensures
        replace_seq(s, from, to) == s,
    decreases s.len(),
{
    if s.len() < from.len() {
    } else if s.subrange(0, from.len() as int) == from {
        assert(matches_at(s, from, 0));
    } else {
        assert(!contains_seq(s.skip(1), from)) by {
            if contains_seq(s.skip(1), from) {
                let i = choose|i: int| matches_at(s.skip(1), from, i);
                assert(s.subrange(i + 1, i + 1 + from.len()) =~= s.skip(1).subrange(
                    i,
                    i + from.len(),
                ));
                assert(matches_at(s, from, i + 1));
            }
        }
        lemma_replace_absent(s.skip(1), from, to);
        assert(seq![s[0]] + s.skip(1) =~= s);
    }
}

proof fn lemma_replace_step_match(s: Seq<char>, from: Seq<char>, to: Seq<char>, i: int)
    requires
        from.len() >= 1,
        matches_at(s, from, i),
    ensures
        replace_seq(s.skip(i), from, to) == to + replace_seq(
            s.skip(i + from.len()),
            from,
            to,
        ),
{
    let t = s.skip(i);
    assert(t.subrange(0, from.len() as int) =~= s.subrange(i, i + from.len()));
    assert(t.skip(from.len() as int) =~= s.skip(i + from.len()));
}

proof fn lemma_replace_step_nomatch(s: Seq<char>, from: Seq<char>, to: Seq<char>, i: int)
    requires
        from.len() >= 1,
        0 <= i < s.len(),
        !matches_at(s, from, i),
    ensures
        replace_seq(s.skip(i), from, to) == seq![s[i]] + replace_seq(s.skip(i + 1), from, to),
{
    let t = s.skip(i);
    if t.len() < from.len() {
        assert(t.skip(1) =~= s.skip(i + 1));
        lemma_replace_short(t.skip(1), from, to);
        assert(seq![s[i]] + t.skip(1) =~= t);
    } else {
        assert(t.subrange(0, from.len() as int) =~= s.subrange(i, i + from.len()));
        assert(t.subrange(0, from.len() as int) != from);
        assert(t.skip(1) =~= s.skip(i + 1));
        assert(t[0] == s[i]);
    }
}

/// Whether `pat` occurs in `s` at character position `i`.
pub fn str_matches_at(s: &str, pat: &str, i: usize) -> (b: bool)
    ensures
        b == matches_at(s@, pat@, i as int),
{
    let s_len: usize = s.unicode_len();
    let pat_len: usize = pat.unicode_len();
    if i > s_len || pat_len > s_len - i {
        return false;
    }
    let mut j: usize = 0;
    while j < pat_len
        invariant
            i + pat_len <= s_len,
            s_len == s@.len(),
            pat_len == pat@.len(),
            j <= pat_len,
            forall|k: int| 0 <= k < j ==> s@[i + k] == pat@[k],
        decreases pat_len - j,
    {
        if s.get_char(i + j) != pat.get_char(j) {
            proof {
                if matches_at(s@, pat@, i as int) {
                    assert(s@.subrange(i as int, i + pat@.len())[j as int] == s@[i + j]);
                }
            }
            return false;
        }
        j += 1;
    }
    proof {
        assert(s@.subrange(i as int, i + pat@.len()) =~= pat@);
    }
    true
}

/// Whether `s` contains `pat`.
pub fn str_contains(s: &str, pat: &str) -> (b: bool)
    ensures
        b == contains_seq(s@, pat@),
{
    let s_len: usize = s.unicode_len();
    let pat_len: usize = pat.unicode_len();
    if pat_len > s_len {
        proof {
            if contains_seq(s@, pat@) {
                let i = choose|i: int| matches_at(s@, pat@, i);
            }
        }
        return false;
    }
    if pat_len == 0 {
        proof {
            assert(s@.subrange(0, 0) =~= pat@);
            assert(matches_at(s@, pat@, 0));
        }
        return true;
    }
    let mut i: usize = 0;
    while i <= s_len - pat_len
        invariant
            1 <= pat_len <= s_len,
            s_len == s@.len(),
            pat_len == pat@.len(),
            i <= s_len - pat_len + 1,
            forall|k: int| 0 <= k < i ==> !matches_at(s@, pat@, k),
        decreases s_len + 1 - pat_len - i,
    {
        if str_matches_at(s, pat, i) {
            return true;
        }
        i += 1;
    }
    proof {
        assert forall|k: int| !matches_at(s@, pat@, k) by {
            if 0 <= k < i {
            }
        }
    }
    false
}

/// Whether `s` begins with `pat`.
pub fn str_starts_with(s: &str, pat: &str) -> (b: bool)
    ensures
        b == starts_with_seq(s@, pat@),
{
    str_matches_at(s, pat, 0)
}

/// Whether `s` ends with `pat`.
pub fn str_ends_with(s: &str, pat: &str) -> (b: bool)
    ensures
        b == ends_with_seq(s@, pat@),
{
    let s_len: usize = s.unicode_len();
    let pat_len: usize = pat.unicode_len();
    if pat_len > s_len {
        return false;
    }
    str_matches_at(s, pat, s_len - pat_len)
}

/// Whether two string slices hold the same characters.
pub fn str_eq(a: &str, b: &str) -> (r: bool)
    ensures
        r == (a@ == b@),
{
    let a_len: usize = a.unicode_len();
    let b_len: usize = b.unicode_len();
    if a_len != b_len {
        return false;
    }
    let r = str_matches_at(a, b, 0);
    proof {
        assert(a@.subrange(0, a@.len() as int) =~= a@);
    }
    r
}

/// The text with every occurrence of `from` replaced by `to`, scanning left
/// to right without overlap.
pub fn replace_all(s: &str, from: &str, to: &str) -> (r: String)
    requires
        from@.len() >= 1,
    ensures
        r@ == replace_seq(s@, from@, to@),
{
    let s_len: usize = s.unicode_len();
    let from_len: usize = from.unicode_len();
    let mut r = String::new();
    let mut i: usize = 0;
    proof {
        assert(r@ =~= Seq::<char>::empty());
        assert(s@.skip(0) =~= s@);
        assert(Seq::<char>::empty() + replace_seq(s@, from@, to@) =~= replace_seq(
            s@,
            from@,
            to@,
        ));
    }
    while i < s_len
        invariant
            from@.len() >= 1,
            from_len == from@.len(),
            s_len == s@.len(),
            i <= s_len,
            r@ + replace_seq(s@.skip(i as int), from@, to@) == replace_seq(s@, from@, to@),
        decreases s_len - i,
    {
        if str_matches_at(s, from, i) {
            r.append(to);
            proof {
                lemma_replace_step_match(s@, from@, to@, i as int);
            }
            i += from_len;
        } else {
            let piece = s.substring_char(i, i + 1);
            r.append(piece);
            proof {
                lemma_replace_step_nomatch(s@, from@, to@, i as int);
                assert(piece@ =~= seq![s@[i as int]]);
            }
            i += 1;
        }
    }
    proof {
        assert(s@.skip(s_len as int) =~= Seq::<char>::empty());
        lemma_replace_short(s@.skip(s_len as int), from@, to@);
        assert(r@ + Seq::<char>::empty() =~= r@);
    }
    r
}

/// A copy of a string slice as an owned `String`.
pub fn str_to_string(s: &str) -> (r: String)
    ensures
        r@ == s@,
{
    String::from_str(s)
}

/// `a` and `b` joined into one owned `String`.
pub fn concat2(a: &str, b: &str) -> (r: String)
    ensures
        r@ == a@ + b@,
{
    let mut r = String::from_str(a);
    r.append(b);
    r
}

/// `a`, `b` and `c` joined into one owned `String`.
pub fn concat3(a: &str, b: &str, c: &str) -> (r: String)
    ensures
        r@ == a@ + b@ + c@,
{
    let mut r = String::from_str(a);
    r.append(b);
    r.append(c);
    r
}

/// The character at position `i` of `s`.
pub fn char_at(s: &str, i: usize) -> (c: char)
    requires
        i < s@.len(),
    ensures
        c == s@[i as int],
{
    s.get_char(i)
}

/// The characters of `s` from `from` (inclusive) to `to` (exclusive).
pub fn substring(s: &str, from: usize, to: usize) -> (r: String)
    requires
        from <= to <= s@.len(),
    ensures
        r@ == s@.subrange(from as int, to as int),
{
    let piece = s.substring_char(from, to);
    String::from_str(piece)
}

/// The number of characters in `s`.
pub fn str_len(s: &str) -> (n: usize)
    ensures
        n == s@.len(),
{
    s.unicode_len()
}

/// Whether one of the names, viewed as character sequences, equals `name`.
pub open spec fn spec_in_names(names: Seq<String>, name: Seq<char>) -> bool {
    exists|i: int| 0 <= i < names.len() && (#[trigger] names[i])@ == name
}

/// Whether one of the name views equals `name`.
pub open spec fn spec_view_in(names: Seq<Seq<char>>, name: Seq<char>) -> bool {
    exists|i: int| 0 <= i < names.len() && #[trigger] names[i] == name
}

/// Membership among names and among their views agree.
pub proof fn lemma_in_names_views(names: Seq<String>, name: Seq<char>)
    ensures
        spec_in_names(names, name) == spec_view_in(names.map_values(|s: String| s@), name),
{
    let views = names.map_values(|s: String| s@);
    if spec_in_names(names, name) {
        let i = choose|i: int| 0 <= i < names.len() && (#[trigger] names[i])@ == name;
        assert(views[i] == name);
    }
    if spec_view_in(views, name) {
        let i = choose|i: int| 0 <= i < views.len() && #[trigger] views[i] == name;
        assert(names[i]@ == name);
    }
}

/// The decimal digit character for a value below ten.
pub open spec fn dec_digit(d: int) -> char {
    if d == 0 {
        '0'
    } else if d == 1 {
        '1'
    } else if d == 2 {
        '2'
    } else if d == 3 {
        '3'
    } else if d == 4 {
        '4'
    } else if d == 5 {
        '5'
    } else if d == 6 {
        '6'
    } else if d == 7 {
        '7'
    } else if d == 8 {
        '8'
    } else {
        '9'
    }
}

/// The decimal representation of `n`, without sign or leading zeros.
pub open spec fn dec_str(n: nat) -> Seq<char>
    decreases n,
{
    if n < 10 {
        seq![dec_digit(n as int)]
    } else {
        dec_str(n / 10) + seq![dec_digit((n % 10) as int)]
    }
}

fn digit_str(d: usize) -> (r: &'static str)
    requires
        d < 10,
    ensures
        r@ == seq![dec_digit(d as int)],
{
    proof {
        reveal_strlit("0");
        reveal_strlit("1");
        reveal_strlit("2");
        reveal_strlit("3");
        reveal_strlit("4");
        reveal_strlit("5");
        reveal_strlit("6");
        reveal_strlit("7");
        reveal_strlit("8");
        reveal_strlit("9");
    }
    let r = match d {
        0 => "0",
        1 => "1",
        2 => "2",
        3 => "3",
        4 => "4",
        5 => "5",
        6 => "6",
        7 => "7",
        8 => "8",
        _ => "9",
    };
    proof {
        assert(r@ =~= seq![dec_digit(d as int)]);
    }
    r
}

/// The decimal representation of `n` as text.
pub fn usize_to_string(n: usize) -> (r: String)
    ensures
        r@ == dec_str(n as nat),
{
    if n < 10 {
        return str_to_string(digit_str(n));
    }
    let mut r = String::new();
    let mut m: usize = n;
    while m > 0
        invariant
            m > 0 ==> dec_str(n as nat) == dec_str(m as nat) + r@,
            m == 0 ==> dec_str(n as nat) == r@,
        decreases m,
    {
        let d: usize = m % 10;
        let rest: usize = m / 10;
        let digit = digit_str(d);
        let new_r = concat2(digit, r.as_str());
        proof {
            if rest > 0 {
                assert(m >= 10) by (nonlinear_arith)
                    requires
                        rest == m / 10,
                        rest > 0,
                        m > 0,
                ;
                assert(dec_str(m as nat) == dec_str((m / 10) as nat) + seq![
                    dec_digit((m % 10) as int),
                ]);
                assert(dec_str((m / 10) as nat) + seq![dec_digit((m % 10) as int)] + r@
                    =~= dec_str((m / 10) as nat) + (seq![dec_digit((m % 10) as int)] + r@));
            } else {
                assert(m < 10) by (nonlinear_arith)
                    requires
                        rest == m / 10,
                        rest == 0,
                        m > 0,
                ;
                assert(dec_str(m as nat) == seq![dec_digit(m as int)]);
            }
            assert(m % 10 < 10 && m / 10 < m) by (nonlinear_arith)
                requires
                    m > 0,
            ;
        }
        r = new_r;
        m = rest;
    }
    r
}

/// ASCII upper-case letters mapped to lower case; every other character kept.
pub open spec fn lower_char(c: char) -> char {
    if 'A' <= c && c <= 'Z' {
        ((c as int) + 32) as char
    } else {
        c
    }
}

fn char_to_lower(c: char) -> (r: char)
    ensures
        r == lower_char(c),
{
    if 'A' <= c && c <= 'Z' {
        let b: u8 = (c as u32) as u8;
        (b + 32) as char
    } else {
        c
    }
}

/// The text with its first character lower-cased, as a router class name is
/// turned into its derived aggregate key.
pub open spec fn lower_first_seq(s: Seq<char>) -> Seq<char> {
    if s.len() == 0 {
        s
    } else {
        seq![lower_char(s[0])] + s.skip(1)
    }
}

/// `s` with its first character lower-cased.
pub fn lower_first(s: &str) -> (r: String)
    ensures
        r@ == lower_first_seq(s@),
{
    let len: usize = s.unicode_len();
    if len == 0 {
        return String::new();
    }
    let c = char_to_lower(s.get_char(0));
    let mut r = String::new();
    r.push(c);
    let rest = s.substring_char(1, len);
    r.append(rest);
    proof {
        assert(seq![lower_char(s@[0])] + s@.skip(1) =~= r@);
    }
    r
}


/// Lexicographic order on character sequences, by code point: the order the
/// scanner's results are reported in.
pub open spec fn spec_lex_leq(a: Seq<char>, b: Seq<char>) -> bool
    decreases a.len(),
{
    if a.len() == 0 {
        true
    } else if b.len() == 0 {
        false
    } else if a[0] != b[0] {
        a[0] < b[0]
    } else {
        spec_lex_leq(a.skip(1), b.skip(1))
    }
}

/// The lexicographic order as a relation value, for use with ordering
/// lemmas.
pub open spec fn lex_leq_fn() -> spec_fn(Seq<char>, Seq<char>) -> bool {
    |a: Seq<char>, b: Seq<char>| spec_lex_leq(a, b)
}

proof fn lemma_lex_reflexive(a: Seq<char>)
    ensures
        spec_lex_leq(a, a),
    decreases a.len(),
{
    if a.len() > 0 {
        lemma_lex_reflexive(a.skip(1));
    }
}

proof fn lemma_lex_transitive(a: Seq<char>, b: Seq<char>, c: Seq<char>)
    requires
        spec_lex_leq(a, b),
        spec_lex_leq(b, c),
    ensures
        spec_lex_leq(a, c),
    decreases a.len(),
{
    if a.len() == 0 {
    } else if a[0] == b[0] && b.len() > 0 && b[0] == c[0] {
        lemma_lex_transitive(a.skip(1), b.skip(1), c.skip(1));
    }
}

proof fn lemma_lex_antisymmetric(a: Seq<char>, b: Seq<char>)
    requires
        spec_lex_leq(a, b),
        spec_lex_leq(b, a),
    ensures
        a == b,
    decreases a.len(),
{
    if a.len() == 0 {
        assert(a =~= b);
    } else {
        lemma_lex_antisymmetric(a.skip(1), b.skip(1));
        assert(a =~= seq![a[0]] + a.skip(1));
        assert(b =~= seq![b[0]] + b.skip(1));
    }
}

proof fn lemma_lex_strongly_connected(a: Seq<char>, b: Seq<char>)
    ensures
        spec_lex_leq(a, b) || spec_lex_leq(b, a),
    decreases a.len(),
{
    if a.len() > 0 && b.len() > 0 && a[0] == b[0] {
        lemma_lex_strongly_connected(a.skip(1), b.skip(1));
    }
}

/// The lexicographic order is a total ordering.
pub proof fn lemma_lex_total_ordering()
    ensures
        vstd::relations::total_ordering(lex_leq_fn()),
{
    let leq = lex_leq_fn();
    assert forall|x: Seq<char>| #[trigger] leq(x, x) by {
        lemma_lex_reflexive(x);
    }
    assert forall|x: Seq<char>, y: Seq<char>| #[trigger] leq(x, y) && #[trigger] leq(y, x)
        implies x == y by {
        lemma_lex_antisymmetric(x, y);
    }
    assert forall|x: Seq<char>, y: Seq<char>, z: Seq<char>|
        #[trigger] leq(x, y) && #[trigger] leq(y, z) implies leq(x, z) by {
        lemma_lex_transitive(x, y, z);
    }
    assert forall|x: Seq<char>, y: Seq<char>| #[trigger] leq(x, y) || #[trigger] leq(y, x) by {
        lemma_lex_strongly_connected(x, y);
    }
}

/// Whether `a` comes no later than `b` in lexicographic order.
#[verifier::loop_isolation(false)]
pub fn str_lex_leq(a: &str, b: &str) -> (r: bool)
    ensures
        r == spec_lex_leq(a@, b@),
{
    let a_len = str_len(a);
    let b_len = str_len(b);
    let mut i: usize = 0;
    proof {
        assert(a@.skip(0) =~= a@);
        assert(b@.skip(0) =~= b@);
    }
    while i < a_len && i < b_len
        invariant
            i <= a_len,
            i <= b_len,
            spec_lex_leq(a@, b@) == spec_lex_leq(a@.skip(i as int), b@.skip(i as int)),
        decreases a_len - i,
    {
        let ca = char_at(a, i);
        let cb = char_at(b, i);
        proof {
            assert(a@.skip(i as int)[0] == a@[i as int]);
            assert(b@.skip(i as int)[0] == b@[i as int]);
            assert(a@.skip(i as int).skip(1) =~= a@.skip(i as int + 1));
            assert(b@.skip(i as int).skip(1) =~= b@.skip(i as int + 1));
        }
        if ca != cb {
            return ca < cb;
        }
        i += 1;
    }
    a_len <= b_len
}

/// The views of the strings in a vector.
pub open spec fn views_of(v: Seq<String>) -> Seq<Seq<char>> {
    v.map_values(|s: String| s@)
}

/// Sorts the strings into lexicographic order: the result is exactly the
/// input's view sequence sorted by `lex_leq_fn`.
#[verifier::loop_isolation(false)]
pub fn sort_strings(v: Vec<String>) -> (r: Vec<String>)
    ensures
        views_of(r@) == views_of(v@).sort_by(lex_leq_fn()),
{
    let ghost leq = lex_leq_fn();
    proof {
        lemma_lex_total_ordering();
    }
    let mut result: Vec<String> = Vec::new();
    let mut i: usize = 0;
    proof {
        assert(views_of(result@) =~= Seq::<Seq<char>>::empty());
        assert(views_of(v@).subrange(0, 0) =~= Seq::<Seq<char>>::empty());
        assert(Seq::<Seq<char>>::empty().to_multiset() =~= views_of(
            result@,
        ).to_multiset());
    }
    while i < v.len()
        invariant
            i <= v@.len(),
            vstd::relations::sorted_by(views_of(result@), lex_leq_fn()),
            views_of(result@).to_multiset() == views_of(v@).subrange(
                0,
                i as int,
            ).to_multiset(),
        decreases v@.len() - i,
    {
        let element = str_to_string(v[i].as_str());
        let mut pos: usize = 0;
        while pos < result.len() && str_lex_leq(result[pos].as_str(), element.as_str())
            invariant
                pos <= result@.len(),
                forall|j: int|
                    0 <= j < pos ==> spec_lex_leq(#[trigger] views_of(result@)[j], element@),
            decreases result@.len() - pos,
        {
            pos += 1;
        }
        let ghost before = views_of(result@);
        result.insert(pos, element);
        proof {
            let after = views_of(result@);
            assert(after =~= before.insert(pos as int, v@[i as int]@));
            lemma_insert_keeps_sorted(before, v@[i as int]@, pos as int);
            lemma_insert_multiset(before, v@[i as int]@, pos as int);
            assert(views_of(v@).subrange(0, i + 1) =~= views_of(v@).subrange(0, i as int).push(
                v@[i as int]@,
            ));
            broadcast use vstd::seq_lib::group_to_multiset_ensures;

            assert(views_of(v@).subrange(0, i + 1).to_multiset() =~= views_of(v@).subrange(
                0,
                i as int,
            ).to_multiset().insert(v@[i as int]@));
        }
        i += 1;
    }
    proof {
        assert(views_of(v@).subrange(0, v@.len() as int) =~= views_of(v@));
        views_of(v@).lemma_sort_by_ensures(lex_leq_fn());
        vstd::seq_lib::lemma_sorted_unique(
            views_of(result@),
            views_of(v@).sort_by(lex_leq_fn()),
            lex_leq_fn(),
        );
    }
    result
}

/// Inserting an element at the first position whose entry is not below it
/// keeps a lexicographically sorted sequence sorted.
proof fn lemma_insert_keeps_sorted(s: Seq<Seq<char>>, x: Seq<char>, pos: int)
    requires
        vstd::relations::sorted_by(s, lex_leq_fn()),
        0 <= pos <= s.len(),
        forall|j: int| 0 <= j < pos ==> spec_lex_leq(#[trigger] s[j], x),
        pos < s.len() ==> !spec_lex_leq(s[pos], x),
    ensures
        vstd::relations::sorted_by(s.insert(pos, x), lex_leq_fn()),
{
    let leq = lex_leq_fn();
    let t = s.insert(pos, x);
    if pos < s.len() {
        lemma_lex_strongly_connected(s[pos], x);
    }
    assert forall|i: int, j: int| 0 <= i < j < t.len() implies #[trigger] leq(t[i], t[j]) by {
        if i < pos && j < pos {
            assert(leq(s[i], s[j]));
        } else if i < pos && j == pos {
            assert(spec_lex_leq(s[i], x));
        } else if i < pos && j > pos {
            assert(leq(s[i], s[j - 1]));
        } else if i == pos && j > pos {
            if pos < s.len() {
                if j - 1 == pos {
                    assert(spec_lex_leq(x, s[pos]));
                } else {
                    assert(leq(s[pos], s[j - 1]));
                    lemma_lex_transitive(x, s[pos], s[j - 1]);
                }
            }
        } else {
            assert(leq(s[i - 1], s[j - 1]));
        }
    }
}

/// Inserting an element anywhere adds exactly it to the multiset.
proof fn lemma_insert_multiset(s: Seq<Seq<char>>, x: Seq<char>, pos: int)
    requires
        0 <= pos <= s.len(),
    ensures
        s.insert(pos, x).to_multiset() == s.to_multiset().insert(x),
{
    broadcast use vstd::seq_lib::group_to_multiset_ensures;

    let t = s.insert(pos, x);
    let pre = s.subrange(0, pos);
    let suf = s.subrange(pos, s.len() as int);
    assert(t =~= pre + (seq![x] + suf));
    assert(s =~= pre + suf);
    vstd::seq_lib::lemma_multiset_commutative(pre, seq![x] + suf);
    vstd::seq_lib::lemma_multiset_commutative(pre, suf);
    assert(seq![x] + suf =~= suf.insert(0, x));
    vstd::seq_lib::lemma_multiset_commutative(seq![x], suf);
    assert(seq![x] =~= Seq::<Seq<char>>::empty().push(x));
    assert(seq![x].to_multiset() =~= vstd::multiset::Multiset::<Seq<char>>::empty().insert(x));
    assert(t.to_multiset() =~= s.to_multiset().insert(x));
}

} // verus!
