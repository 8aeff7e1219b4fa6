//! Which language a query fixture belongs to, read off its path.

use vstd::prelude::*;
use vstd::string::*;

verus! {

/// Both slashes separate path components.
pub open spec fn is_sep(c: char) -> bool {
    c == '/' || c == '\\'
}

/// How many characters from `i` on come before the next separator.
pub open spec fn seg_len(s: Seq<char>, i: int) -> nat
    decreases s.len() - i,
{
    if 0 <= i < s.len() && !is_sep(s[i]) {
        seg_len(s, i + 1) + 1
    } else {
        0
    }
}

/// A piece between separators that names a component: not empty, not `.`.
pub open spec fn is_component(p: Seq<char>) -> bool {
    p.len() > 0 && p != seq!['.']
}

/// The components of a path from index `i` on.
pub open spec fn components_from(s: Seq<char>, i: int) -> Seq<Seq<char>>
    decreases s.len() - i,
{
    if i < 0 || i >= s.len() {
        Seq::empty()
    } else {
        let j = i + seg_len(s, i);
        let piece = s.subrange(i, j);
        let rest = if j < s.len() {
            components_from(s, j + 1)
        } else {
            Seq::empty()
        };
        if is_component(piece) {
            seq![piece] + rest
        } else {
            rest
        }
    }
}

proof fn lemma_seg_len(s: Seq<char>, i: int)
    requires
        0 <= i <= s.len(),
    ensures
        i + seg_len(s, i) <= s.len(),
        i + seg_len(s, i) < s.len() ==> is_sep(s[i + seg_len(s, i)]),
    decreases s.len() - i,
{
    if i < s.len() && !is_sep(s[i]) {
        lemma_seg_len(s, i + 1);
    }
}

/// The component that follows the first component equal to `root`, looking
/// from index `k` on.
pub open spec fn after_root_from(comps: Seq<Seq<char>>, root: Seq<char>, k: int) -> Option<Seq<char>>
    decreases comps.len() - k,
{
    if k < 0 || k >= comps.len() {
        None
    } else if comps[k] == root {
        if k + 1 < comps.len() {
            Some(comps[k + 1])
        } else {
            None
        }
    } else {
        after_root_from(comps, root, k + 1)
    }
}

/// The language a path names: the component after its `languages`.
pub open spec fn language_of(path: Seq<char>) -> Option<Seq<char>> {
    after_root_from(components_from(path, 0), "languages"@, 0)
}

/// The language of a fixture and its query: the one both name, or the one
/// that only one of them names.
pub open spec fn detected_language(fixture: Seq<char>, query: Seq<char>) -> Option<Seq<char>> {
    match (language_of(fixture), language_of(query)) {
        (Some(f), Some(q)) => if f == q {
            Some(f)
        } else {
            None
        },
        (Some(f), None) => Some(f),
        (None, Some(q)) => Some(q),
        (None, None) => None,
    }
}

/// Splits a path into its components, see [`components_from`].
pub fn path_components(path: &str) -> (r: Vec<String>)
    ensures
        r.deep_view() == components_from(path@, 0),
{
    let n = path.unicode_len();
    let mut out: Vec<String> = Vec::new();
    let mut i: usize = 0;
    while i < n
        invariant
            n == path@.len(),
            0 <= i <= n,
            out.deep_view() + components_from(path@, i as int) == components_from(path@, 0),
        decreases n - i,
    {
        let mut j: usize = i;
        while j < n && !(path.get_char(j) == '/' || path.get_char(j) == '\\')
            invariant
                i <= j <= n,
                n == path@.len(),
                i + seg_len(path@, i as int) == j + seg_len(path@, j as int),
            decreases n - j,
        {
            j = j + 1;
        }
        proof {
            lemma_seg_len(path@, i as int);
        }
        let piece = path.substring_char(i, j);
        let keep = j > i && !(j == i + 1 && path.get_char(i) == '.');
        let ghost before = out.deep_view();
        proof {
            let p = path@.subrange(i as int, j as int);
            if j == i + 1 {
                if path@[i as int] == '.' {
                    assert(p =~= seq!['.']);
                } else {
                    assert(p[0] != seq!['.'][0]);
                }
            } else if j > i + 1 {
                assert(p.len() != 1);
            }
        }
        if keep {
            out.push(String::from_str(piece));
            assert(out.deep_view() =~= before.push(piece@));
        }
        proof {
            let rest = if j < n {
                components_from(path@, j + 1)
            } else {
                Seq::empty()
            };
            if keep {
                assert(components_from(path@, i as int) == seq![piece@] + rest);
                assert(out.deep_view() + rest =~= before + components_from(path@, i as int));
            } else {
                assert(out.deep_view() + rest =~= before + components_from(path@, i as int));
            }
        }
        if j < n {
            i = j + 1;
        } else {
            i = j;
        }
    }
    assert(out.deep_view() + components_from(path@, i as int) =~= out.deep_view());
    out
}

/// The language a path names, see [`language_of`].
pub fn extract_language_id(path: &str) -> (r: Option<String>)
    ensures
        r.deep_view() == language_of(path@),
{
    let comps = path_components(path);
    let root = String::from_str("languages");
    let mut k: usize = 0;
    while k < comps.len()
        invariant
            0 <= k <= comps@.len(),
            root@ == "languages"@,
            comps.deep_view() == components_from(path@, 0),
            language_of(path@) == after_root_from(comps.deep_view(), "languages"@, k as int),
        decreases comps@.len() - k,
    {
        if comps[k] == root {
            if k + 1 < comps.len() {
                return Some(comps[k + 1].clone());
            } else {
                return None;
            }
        }
        k = k + 1;
    }
    None
}

/// The language of a query fixture and its query file, as both paths name
/// it; the two must not name different languages, and one must name one.
pub fn detect_language_id(fixture_path: &str, query_path: &str) -> (r: String)
    requires
        detected_language(fixture_path@, query_path@) is Some,
    ensures
        Some(r@) == detected_language(fixture_path@, query_path@),
{
    let f = extract_language_id(fixture_path);
    let q = extract_language_id(query_path);
    match f {
        Some(f) => f,
        None => match q {
            Some(q) => q,
            None => String::new(),
        },
    }
}

} // verus!
