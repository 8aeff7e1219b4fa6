//! Parsing of what the package manager prints: `list` and `outdated`.

use vstd::prelude::*;
use vstd::string::*;
use crate::text::{decode_lossy, is_white, lossy_text, white};

verus! {

/// How many bytes from `i` on come before the next line feed (or the end).
pub open spec fn run_len(b: Seq<u8>, i: int) -> nat
    decreases b.len() - i,
{
    if 0 <= i < b.len() && b[i] != 10u8 {
        run_len(b, i + 1) + 1
    } else {
        0
    }
}

/// The index of the first line feed at or after `i`, or the length.
pub open spec fn next_newline(b: Seq<u8>, i: int) -> int {
    i + run_len(b, i)
}

proof fn lemma_next_newline(b: Seq<u8>, i: int)
    requires
        0 <= i <= b.len(),
    ensures
        i <= next_newline(b, i) <= b.len(),
        next_newline(b, i) < b.len() ==> b[next_newline(b, i)] == 10u8,
        forall|k: int| i <= k < next_newline(b, i) ==> b[k] != 10u8,
    decreases b.len() - i,
{
    if i < b.len() && b[i] != 10u8 {
        lemma_next_newline(b, i + 1);
    }
}

/// The lines of `b` from index `i` on, split as `str::lines` splits text: at
/// each line feed, with a carriage return before it dropped, and no empty
/// line after a final line feed.
pub open spec fn lines_from(b: Seq<u8>, i: int) -> Seq<Seq<u8>>
    decreases b.len() - i,
{
    if i < 0 || i >= b.len() {
        Seq::empty()
    } else {
        let j = i + run_len(b, i);
        let piece = b.subrange(i, j);
        let line = if j < b.len() && piece.len() > 0 && piece.last() == 13u8 {
            piece.drop_last()
        } else {
            piece
        };
        if j < b.len() {
            seq![line] + lines_from(b, j + 1)
        } else {
            seq![line]
        }
    }
}

/// The lines of a process's output.
pub open spec fn lines_of(b: Seq<u8>) -> Seq<Seq<u8>> {
    lines_from(b, 0)
}

/// The byte sequences held by a sequence of vectors.
pub open spec fn bytes_view(v: Seq<Vec<u8>>) -> Seq<Seq<u8>> {
    v.map_values(|x: Vec<u8>| x@)
}

fn copy_range(b: &[u8], from: usize, to: usize) -> (r: Vec<u8>)
    requires
        from <= to <= b@.len(),
    ensures
        r@ == b@.subrange(from as int, to as int),
{
    let mut r: Vec<u8> = Vec::new();
    let mut k: usize = from;
    while k < to
        invariant
            from <= k <= to <= b@.len(),
            r@ == b@.subrange(from as int, k as int),
        decreases to - k,
    {
        r.push(b[k]);
        k = k + 1;
        assert(r@ =~= b@.subrange(from as int, k as int));
    }
    r
}

/// Splits output into lines, see [`lines_from`].
pub fn split_lines(b: &[u8]) -> (r: Vec<Vec<u8>>)
    ensures
        bytes_view(r@) == lines_of(b@),
{
    let mut out: Vec<Vec<u8>> = Vec::new();
    let mut i: usize = 0;
    let n = b.len();
    while i < n
        invariant
            n == b@.len(),
            0 <= i <= n,
            bytes_view(out@) + lines_from(b@, i as int) == lines_of(b@),
        decreases n - i,
    {
        let mut j: usize = i;
        while j < n && b[j] != 10u8
            invariant
                i <= j <= n,
                n == b@.len(),
                next_newline(b@, i as int) == next_newline(b@, j as int),
            decreases n - j,
        {
            j = j + 1;
        }
        proof {
            lemma_next_newline(b@, i as int);
        }
        let mut end: usize = j;
        if j < n && end > i && b[end - 1] == 13u8 {
            end = end - 1;
        }
        let line = copy_range(b, i, end);
        let ghost before = bytes_view(out@);
        let ghost line_view = line@;
        out.push(line);
        proof {
            let piece = b@.subrange(i as int, j as int);
            if j < n && piece.len() > 0 && piece.last() == 13u8 {
                assert(piece.drop_last() =~= b@.subrange(i as int, end as int));
            } else {
                assert(piece =~= b@.subrange(i as int, end as int));
            }
            assert(bytes_view(out@) =~= before.push(line_view));
            assert(lines_from(b@, i as int) == seq![line_view] + lines_from(b@, j + 1));
            assert(bytes_view(out@) + lines_from(b@, j + 1) =~= before + lines_from(b@, i as int));
        }
        if j < n {
            i = j + 1;
        } else {
            i = j;
        }
    }
    out
}

/// The index after the run of non-white characters that starts at `i`.
pub open spec fn word_end(s: Seq<char>, i: int) -> int
    decreases s.len() - i,
{
    if 0 <= i < s.len() && !is_white(s[i]) {
        word_end(s, i + 1)
    } else {
        i
    }
}

/// The index after the run of white characters that starts at `i`.
pub open spec fn space_end(s: Seq<char>, i: int) -> int
    decreases s.len() - i,
{
    if 0 <= i < s.len() && is_white(s[i]) {
        space_end(s, i + 1)
    } else {
        i
    }
}

/// The first whitespace-delimited token of a line, as
/// `split_whitespace().next()` gives it.
pub open spec fn first_word(s: Seq<char>) -> Option<Seq<char>> {
    let a = space_end(s, 0);
    let e = word_end(s, a);
    if a < e {
        Some(s.subrange(a, e))
    } else {
        None
    }
}

/// The name and version of a `list` line that has the shape
/// `^(\S+) \((.+)\)$`: a non-empty run of non-white characters, one space,
/// and a non-empty parenthesised text without line feeds that ends the line.
pub open spec fn gem_line_parts(s: Seq<char>) -> Option<(Seq<char>, Seq<char>)> {
    let n = word_end(s, 0);
    if 0 < n && n + 4 <= s.len() && s[n] == ' ' && s[n + 1] == '(' && s.last() == ')'
        && forall|k: int| n + 2 <= k < s.len() - 1 ==> s[k] != '\n' {
        Some((s.subrange(0, n), s.subrange(n + 2, s.len() - 1)))
    } else {
        None
    }
}

/// The pattern of a `list` line.
pub const GEM_LINE_PATTERN: &'static str = "^(\\S+) \\((.+)\\)$";

/// Relies on `regex::Regex::new` and `regex::Regex::captures`: the pattern
/// compiles, and a line matches it with the two groups that
/// [`gem_line_parts`] describes, or does not match.
#[verifier::external_body]
fn gem_line_captures(pattern: &str, line: &str) -> (r: Option<(String, String)>)
    requires
        pattern@ == GEM_LINE_PATTERN@,
    ensures
        match r {
            Some(p) => gem_line_parts(line@) == Some((p.0@, p.1@)),
            None => gem_line_parts(line@) is None,
        },
{
    let re = match regex::Regex::new(pattern) {
        Ok(re) => re,
        Err(_) => return None,
    };
    match re.captures(line) {
        Some(c) => Some((c[1].to_string(), c[2].to_string())),
        None => None,
    }
}

/// The version that the first `list` line naming `name` exactly gives,
/// looking from line `k` on.
pub open spec fn listed_version_from(name: Seq<char>, lines: Seq<Seq<u8>>, k: int) -> Option<
    Seq<char>,
>
    decreases lines.len() - k,
{
    if k < 0 || k >= lines.len() {
        None
    } else {
        match gem_line_parts(lossy_text(lines[k])) {
            Some(p) => if p.0 == name {
                Some(p.1)
            } else {
                listed_version_from(name, lines, k + 1)
            },
            None => listed_version_from(name, lines, k + 1),
        }
    }
}

/// The version of `name` in the output of `list`, if a line names it.
pub open spec fn listed_version(name: Seq<char>, out: Seq<u8>) -> Option<Seq<char>> {
    listed_version_from(name, lines_of(out), 0)
}

pub open spec fn opt_text(o: Option<String>) -> Option<Seq<char>> {
    match o {
        Some(s) => Some(s@),
        None => None,
    }
}

/// Finds the version of `name` in the output of `list`.
pub fn version_in_listing(name: &str, out: &[u8]) -> (r: Option<String>)
    ensures
        opt_text(r) == listed_version(name@, out@),
{
    let lines = split_lines(out);
    let mut k: usize = 0;
    while k < lines.len()
        invariant
            0 <= k <= lines@.len(),
            bytes_view(lines@) == lines_of(out@),
            listed_version(name@, out@) == listed_version_from(name@, bytes_view(lines@), k as int),
        decreases lines@.len() - k,
    {
        let text = decode_lossy(lines[k].as_slice());
        assert(bytes_view(lines@)[k as int] == lines[k as int]@);
        match gem_line_captures(GEM_LINE_PATTERN, text.as_str()) {
            Some(p) => {
                let (found, version) = p;
                let wanted = String::from_str(name);
                if found == wanted {
                    return Some(version);
                }
            },
            None => {},
        }
        k = k + 1;
    }
    None
}

/// Whether any line of `outdated` output from `k` on starts with `name`.
pub open spec fn outdated_lists_from(name: Seq<char>, lines: Seq<Seq<u8>>, k: int) -> bool {
    exists|i: int| k <= i < lines.len() && first_word(lossy_text(lines[i])) == Some(name)
}

/// Whether `name` is the first token of some line of `outdated` output.
pub open spec fn outdated_lists(name: Seq<char>, out: Seq<u8>) -> bool {
    outdated_lists_from(name, lines_of(out), 0)
}

/// The first whitespace-delimited token of a line.
pub fn first_token(line: &str) -> (r: Option<String>)
    ensures
        opt_text(r) == first_word(line@),
{
    let n = line.unicode_len();
    let mut a: usize = 0;
    while a < n && white(line.get_char(a))
        invariant
            a <= n,
            n == line@.len(),
            space_end(line@, 0) == space_end(line@, a as int),
        decreases n - a,
    {
        a = a + 1;
    }
    let mut e: usize = a;
    while e < n && !white(line.get_char(e))
        invariant
            a <= e <= n,
            n == line@.len(),
            word_end(line@, a as int) == word_end(line@, e as int),
        decreases n - e,
    {
        e = e + 1;
    }
    if a < e {
        Some(String::from_str(line.substring_char(a, e)))
    } else {
        None
    }
}

/// Whether `name` is the first token of some line of `outdated` output.
pub fn listing_mentions(name: &str, out: &[u8]) -> (r: bool)
    ensures
        r == outdated_lists(name@, out@),
{
    let lines = split_lines(out);
    let mut k: usize = 0;
    while k < lines.len()
        invariant
            0 <= k <= lines@.len(),
            bytes_view(lines@) == lines_of(out@),
            forall|i: int| 0 <= i < k ==> first_word(lossy_text(bytes_view(lines@)[i])) != Some(
                name@,
            ),
        decreases lines@.len() - k,
    {
        let text = decode_lossy(lines[k].as_slice());
        assert(bytes_view(lines@)[k as int] == lines[k as int]@);
        match first_token(text.as_str()) {
            Some(word) => {
                let wanted = String::from_str(name);
                if word == wanted {
                    return true;
                }
            },
            None => {},
        }
        k = k + 1;
    }
    false
}

proof fn lemma_word_end_at(s: Seq<char>, i: int, n: int)
    requires
        0 <= i <= n < s.len(),
        forall|k: int| i <= k < n ==> !is_white(s[k]),
        is_white(s[n]),
    ensures
        word_end(s, i) == n,
    decreases n - i,
{
    if i < n {
        lemma_word_end_at(s, i + 1, n);
    }
}

/// A `list` line written as `<name> (<version>)` gives back exactly that
/// name and that version, whatever the version holds (colons, spaces,
/// parentheses), when the name is a non-empty run without white space and
/// the version is non-empty and free of line feeds.
pub proof fn lemma_gem_line_round_trip(name: Seq<char>, version: Seq<char>)
    requires
        name.len() > 0,
        forall|k: int| 0 <= k < name.len() ==> !is_white(#[trigger] name[k]),
        version.len() > 0,
        forall|k: int| 0 <= k < version.len() ==> #[trigger] version[k] != '\n',
    ensures
        gem_line_parts(name + " ("@ + version + ")"@) == Some((name, version)),
{
    reveal_strlit(" (");
    reveal_strlit(")");
    let s = name + " ("@ + version + ")"@;
    let n = name.len() as int;
    assert(s[n] == ' ');
    assert(s[n + 1] == '(');
    assert forall|k: int| 0 <= k < n implies !is_white(s[k]) by {
        assert(s[k] == name[k]);
    }
    lemma_word_end_at(s, 0, n);
    assert(s.subrange(0, n) =~= name);
    assert(s.subrange(n + 2, s.len() - 1) =~= version);
    assert forall|k: int| n + 2 <= k < s.len() - 1 implies s[k] != '\n' by {
        assert(s[k] == version[k - n - 2]);
    }
}

/// The version of a gem is the one on the first line that names it: when
/// line `k` reads `<name> (<version>)` and no line before it names the gem,
/// the listing gives exactly `version`.
pub proof fn lemma_listed_version_first(
    name: Seq<char>,
    version: Seq<char>,
    lines: Seq<Seq<u8>>,
    k: int,
)
    requires
        name.len() > 0,
        forall|i: int| 0 <= i < name.len() ==> !is_white(#[trigger] name[i]),
        version.len() > 0,
        forall|i: int| 0 <= i < version.len() ==> #[trigger] version[i] != '\n',
        0 <= k < lines.len(),
        lossy_text(lines[k]) == name + " ("@ + version + ")"@,
        forall|j: int|
            0 <= j < k ==> !(#[trigger] gem_line_parts(lossy_text(lines[j])) matches Some(p) && p.0
                == name),
    ensures
        listed_version_from(name, lines, 0) == Some(version),
{
    lemma_gem_line_round_trip(name, version);
    lemma_listed_from(name, version, lines, 0, k);
}

proof fn lemma_listed_from(name: Seq<char>, version: Seq<char>, lines: Seq<Seq<u8>>, j: int, k: int)
    requires
        0 <= j <= k < lines.len(),
        gem_line_parts(lossy_text(lines[k])) == Some((name, version)),
        forall|i: int|
            0 <= i < k ==> !(#[trigger] gem_line_parts(lossy_text(lines[i])) matches Some(p) && p.0
                == name),
    ensures
        listed_version_from(name, lines, j) == Some(version),
    decreases k - j,
{
    if j < k {
        lemma_listed_from(name, version, lines, j + 1, k);
    }
}

/// A gem that no line names has no version.
pub proof fn lemma_listed_version_absent(name: Seq<char>, lines: Seq<Seq<u8>>, j: int)
    requires
        0 <= j,
        forall|i: int|
            0 <= i < lines.len() ==> !(#[trigger] gem_line_parts(lossy_text(lines[i])) matches Some(
                p,
            ) && p.0 == name),
    ensures
        listed_version_from(name, lines, j) is None,
    decreases lines.len() - j,
{
    if j < lines.len() {
        lemma_listed_version_absent(name, lines, j + 1);
    }
}

} // verus!
