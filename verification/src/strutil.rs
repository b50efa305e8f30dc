//! Verified string helpers.
//!
//! Keys, prefixes and local paths are plain UTF-8 strings throughout the
//! crate, so the path/key algebra reduces to a handful of exact string
//! operations, each specified over the `Seq<char>` view.

use vstd::prelude::*;

verus! {

/// The characters of `s` strictly after position `i`.
pub open spec fn seq_after(s: Seq<char>, i: int) -> Seq<char> {
    s.subrange(i + 1, s.len() as int)
}

/// True when `c` occurs in `s`.
pub open spec fn seq_contains_char(s: Seq<char>, c: char) -> bool {
    exists|i: int| 0 <= i < s.len() && s[i] == c
}

/// Position of the last occurrence of `c` in `s`, if any.
pub open spec fn spec_find_last(s: Seq<char>, c: char) -> Option<int> {
    if seq_contains_char(s, c) {
        Some(choose|i: int| 0 <= i < s.len() && s[i] == c && (forall|j: int|
            i < j < s.len() ==> s[j] != c))
    } else {
        None
    }
}

/// There is exactly one position fitting the `spec_find_last` description,
/// so the `choose` above is pinned down.
proof fn lemma_find_last_unique(s: Seq<char>, c: char, i: int)
    requires
        0 <= i < s.len(),
        s[i] == c,
        forall|j: int| i < j < s.len() ==> s[j] != c,
    ensures
        spec_find_last(s, c) == Some(i),
{
    assert(seq_contains_char(s, c));
    let w = choose|w: int| 0 <= w < s.len() && s[w] == c && (forall|j: int|
        w < j < s.len() ==> s[j] != c);
    if w < i {
        assert(s[i] != c);
    } else if i < w {
        assert(s[w] != c);
    }
}

/// When `c` occurs in `s`, some position is its last occurrence.
proof fn lemma_exists_last(s: Seq<char>, c: char)
    requires
        seq_contains_char(s, c),
    ensures
        exists|i: int|
            0 <= i < s.len() && s[i] == c && (forall|j: int| i < j < s.len() ==> s[j] != c),
    decreases s.len(),
{
    let k = choose|k: int| 0 <= k < s.len() && s[k] == c;
    if s[s.len() - 1] == c {
        let i = s.len() - 1;
        assert(0 <= i < s.len() && s[i] == c && (forall|j: int|
            i < j < s.len() ==> s[j] != c));
    } else {
        assert(seq_contains_char(s.drop_last(), c)) by {
            assert(s.drop_last()[k] == c);
        }
        lemma_exists_last(s.drop_last(), c);
        let i = choose|i: int|
            0 <= i < s.drop_last().len() && s.drop_last()[i] == c && (forall|j: int|
                i < j < s.drop_last().len() ==> s.drop_last()[j] != c);
        assert(s[i] == c);
        assert forall|j: int| i < j < s.len() implies s[j] != c by {
            if j < s.len() - 1 {
                assert(s.drop_last()[j] != c);
            }
        }
    }
}

/// Index of the last occurrence of `c` in `s`, scanning from the end.
pub fn find_last(s: &str, c: char) -> (r: Option<usize>)
    ensures
        s@.len() <= usize::MAX,
        match r {
            Some(i) => i < s@.len() && spec_find_last(s@, c) == Some(i as int),
            None => spec_find_last(s@, c) is None,
        },
{
    let n = s.unicode_len();
    let mut i = n;
    while i > 0
        invariant
            i <= n,
            n == s@.len(),
            forall|j: int| i <= j < s@.len() ==> s@[j] != c,
        decreases i,
    {
        i = i - 1;
        if s.get_char(i) == c {
            proof {
                lemma_find_last_unique(s@, c, i as int);
            }
            return Some(i);
        }
    }
    proof {
        if seq_contains_char(s@, c) {
            let w = choose|w: int| 0 <= w < s@.len() && s@[w] == c;
            assert(s@[w] != c);
        }
    }
    None
}

/// True when `p` is a prefix of `s`, comparing characters.
pub fn starts_with(s: &str, p: &str) -> (r: bool)
    ensures
        r == p@.is_prefix_of(s@),
{
    let sn = s.unicode_len();
    let pn = p.unicode_len();
    if pn > sn {
        assert(!p@.is_prefix_of(s@));
        return false;
    }
    let mut i: usize = 0;
    while i < pn
        invariant
            i <= pn <= sn,
            sn == s@.len(),
            pn == p@.len(),
            forall|j: int| 0 <= j < i ==> s@[j] == p@[j],
        decreases pn - i,
    {
        if s.get_char(i) != p.get_char(i) {
            assert(!p@.is_prefix_of(s@));
            return false;
        }
        i = i + 1;
    }
    assert(p@ =~= s@.subrange(0, pn as int));
    true
}

/// Character-wise equality of two string slices.
pub fn str_eq(a: &str, b: &str) -> (r: bool)
    ensures
        r == (a@ == b@),
{
    let an = a.unicode_len();
    let bn = b.unicode_len();
    if an != bn {
        return false;
    }
    let mut i: usize = 0;
    while i < an
        invariant
            i <= an,
            an == a@.len(),
            an == b@.len(),
            forall|j: int| 0 <= j < i ==> a@[j] == b@[j],
        decreases an - i,
    {
        if a.get_char(i) != b.get_char(i) {
            return false;
        }
        i = i + 1;
    }
    assert(a@ =~= b@);
    true
}

/// Concatenation of two string slices.
pub fn concat_str(a: &str, b: &str) -> (r: String)
    ensures
        r@ == a@ + b@,
{
    let s = String::from_str(a);
    s.concat(b)
}

/// Concatenation of three string slices.
pub fn concat3(a: &str, b: &str, c: &str) -> (r: String)
    ensures
        r@ == a@ + b@ + c@,
{
    let s = String::from_str(a);
    let s = s.concat(b);
    s.concat(c)
}

/// The suffix of `s` from character position `from` on.
pub fn suffix_from(s: &str, from: usize) -> (r: String)
    requires
        from <= s@.len(),
    ensures
        r@ == s@.subrange(from as int, s@.len() as int),
{
    let n = s.unicode_len();
    String::from_str(s.substring_char(from, n))
}

/// The characters of `s` after its last `'/'`, or all of `s` when it has
/// none.
pub open spec fn spec_after_last_slash(s: Seq<char>) -> Seq<char> {
    match spec_find_last(s, '/') {
        Some(i) => seq_after(s, i),
        None => s,
    }
}

/// The part of `s` after its last `'/'`.
pub fn after_last_slash(s: &str) -> (r: String)
    ensures
        r@ == spec_after_last_slash(s@),
{
    match find_last(s, '/') {
        Some(i) => suffix_from(s, i + 1),
        None => String::from_str(s),
    }
}

/// Unicode lowercasing as `str::to_lowercase` performs it; a function of
/// the characters alone.
pub uninterp spec fn lower_of(s: Seq<char>) -> Seq<char>;

/// Relies on str::to_lowercase: the lowercased text depends on the
/// characters alone.
#[verifier::external_body]
pub(crate) fn lowercase(s: &str) -> (r: String)
    ensures
        r@ == lower_of(s@),
{
    s.to_lowercase()
}

/// Whether some string in `names` reads `name`.
pub open spec fn spec_name_in(names: Seq<String>, name: Seq<char>) -> bool {
    exists|i: int| 0 <= i < names.len() && names[i]@ == name
}

/// Membership of `name` among `names`, by character comparison.
pub fn contains_name(names: &Vec<String>, name: &str) -> (r: bool)
    ensures
        r == spec_name_in(names@, name@),
{
    let n = names.len();
    let mut i: usize = 0;
    while i < n
        invariant
            i <= n,
            n == names@.len(),
            forall|k: int| 0 <= k < i ==> names@[k]@ != name@,
        decreases n - i,
    {
        if str_eq(names[i].as_str(), name) {
            assert(names@[i as int]@ == name@);
            return true;
        }
        i = i + 1;
    }
    false
}

/// The dash-to-underscore rewrite applied to environment-variable name parts.
pub open spec fn spec_dashes_to_underscores(s: Seq<char>) -> Seq<char> {
    s.map_values(|c: char| if c == '-' { '_' } else { c })
}

/// `s` with every `'-'` replaced by `'_'`, as environment-variable names
/// require.
pub fn dashes_to_underscores(s: &str) -> (r: String)
    ensures
        r@ == spec_dashes_to_underscores(s@),
{
    let n = s.unicode_len();
    let mut out = String::new();
    proof {
        reveal_strlit("_");
    }
    let mut i: usize = 0;
    while i < n
        invariant
            i <= n,
            n == s@.len(),
            "_"@ =~= seq!['_'],
            out@ =~= spec_dashes_to_underscores(s@.subrange(0, i as int)),
        decreases n - i,
    {
        let c = s.get_char(i);
        if c == '-' {
            out.append("_");
        } else {
            let piece = s.substring_char(i, i + 1);
            out.append(piece);
        }
        proof {
            assert(spec_dashes_to_underscores(s@.subrange(0, i + 1)) =~= spec_dashes_to_underscores(
                s@.subrange(0, i as int),
            ).push(if s@[i as int] == '-' { '_' } else { s@[i as int] }));
        }
        i = i + 1;
    }
    proof {
        assert(s@.subrange(0, n as int) =~= s@);
    }
    out
}

} // verus!
