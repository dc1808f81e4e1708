//! Character-level helpers for the pipe-delimited path strings that address
//! nodes in both the document tree and the presentation tree.

use vstd::prelude::*;

verus! {

/// The delimiter that separates path segments.
pub open spec fn sep() -> char {
    '|'
}

/// The index of the end of the segment that starts at `i`: the first
/// delimiter at or after `i`, or the end of the string.
pub open spec fn seg_end(s: Seq<char>, i: int) -> int
    decreases s.len() - i,
{
    if i < 0 || i >= s.len() {
        s.len() as int
    } else if s[i] == sep() {
        i
    } else {
        seg_end(s, i + 1)
    }
}

pub proof fn lemma_seg_end(s: Seq<char>, i: int)
    requires
        0 <= i <= s.len(),
    ensures
        i <= seg_end(s, i) <= s.len(),
        seg_end(s, i) < s.len() ==> s[seg_end(s, i)] == sep(),
        forall|k: int| i <= k < seg_end(s, i) ==> s[k] != sep(),
    decreases s.len() - i,
{
    if i < s.len() && s[i] != sep() {
        lemma_seg_end(s, i + 1);
    }
}

/// The number of segments of `s` counted from position `i`: one more than
/// the number of delimiters at or after `i`. The empty string still counts
/// as one (empty) segment.
pub open spec fn seg_count_from(s: Seq<char>, i: int) -> nat
    decreases s.len() - i,
{
    if i < 0 || i >= s.len() {
        1
    } else if s[i] == sep() {
        1 + seg_count_from(s, i + 1)
    } else {
        seg_count_from(s, i + 1)
    }
}

/// The number of pipe-delimited segments of `s`.
pub open spec fn seg_count(s: Seq<char>) -> nat {
    seg_count_from(s, 0)
}

/// `p` is an initial run of `s`.
pub open spec fn is_prefix(p: Seq<char>, s: Seq<char>) -> bool {
    p.len() <= s.len() && p == s.subrange(0, p.len() as int)
}

/// `s` extends `p` with a delimiter and at least the start of one further
/// segment. This is the condition under which a path search descends: a
/// bare prefix whose next character is not the delimiter must not match.
pub open spec fn is_sep_extension(p: Seq<char>, s: Seq<char>) -> bool {
    p.len() < s.len() && is_prefix(p, s) && s[p.len() as int] == sep()
}

/// Appending `sep` and a delimiter-free piece adds exactly one segment.
pub proof fn lemma_seg_count_append(a: Seq<char>, b: Seq<char>)
    requires
        forall|k: int| 0 <= k < b.len() ==> b[k] != sep(),
    ensures
        seg_count(a + seq![sep()] + b) == seg_count(a) + 1,
{
    let s = a + seq![sep()] + b;
    lemma_seg_count_part(s, a, b, 0);
}

proof fn lemma_seg_count_part(s: Seq<char>, a: Seq<char>, b: Seq<char>, i: int)
    requires
        s == a + seq![sep()] + b,
        forall|k: int| 0 <= k < b.len() ==> b[k] != sep(),
        0 <= i <= a.len(),
    ensures
        seg_count_from(s, i) == seg_count_from(a, i) + 1,
    decreases s.len() - i,
{
    if i < a.len() {
        assert(s[i] == a[i]);
        lemma_seg_count_part(s, a, b, i + 1);
    } else {
        assert(s[i] == sep());
        lemma_seg_count_tailfree(s, i + 1);
    }
}

proof fn lemma_seg_count_tailfree(s: Seq<char>, i: int)
    requires
        0 <= i <= s.len(),
        forall|k: int| i <= k < s.len() ==> s[k] != sep(),
    ensures
        seg_count_from(s, i) == 1,
    decreases s.len() - i,
{
    if i < s.len() {
        lemma_seg_count_tailfree(s, i + 1);
    }
}

/// A string without delimiters is a single segment.
pub proof fn lemma_seg_count_single(a: Seq<char>)
    requires
        forall|k: int| 0 <= k < a.len() ==> a[k] != sep(),
    ensures
        seg_count(a) == 1,
{
    lemma_seg_count_tailfree(a, 0);
}

/// Character-by-character string equality, so that contracts can speak of
/// the views of the two strings.
pub fn str_eq(a: &str, b: &str) -> (r: bool)
    ensures
        r == (a@ == b@),
{
    let n = a.unicode_len();
    if n != b.unicode_len() {
        return false;
    }
    let mut k: usize = 0;
    while k < n
        invariant
            k <= n,
            n == a@.len(),
            n == b@.len(),
            forall|t: int| 0 <= t < k ==> a@[t] == b@[t],
        decreases n - k,
    {
        if a.get_char(k) != b.get_char(k) {
            return false;
        }
        k = k + 1;
    }
    proof {
        assert(a@ =~= b@);
    }
    true
}

/// Whether `a` equals the slice `s[i..j)`.
pub fn str_eq_range(a: &str, s: &str, i: usize, j: usize) -> (r: bool)
    requires
        i <= j <= s@.len(),
    ensures
        r == (a@ == s@.subrange(i as int, j as int)),
{
    let ghost sub = s@.subrange(i as int, j as int);
    let n = a.unicode_len();
    if n != j - i {
        return false;
    }
    let mut k: usize = 0;
    while k < n
        invariant
            k <= n,
            n == a@.len(),
            n == j - i,
            i <= j <= s@.len(),
            sub == s@.subrange(i as int, j as int),
            forall|t: int| 0 <= t < k ==> a@[t] == s@[i + t],
        decreases n - k,
    {
        if a.get_char(k) != s.get_char(i + k) {
            return false;
        }
        k = k + 1;
    }
    proof {
        assert(a@ =~= sub);
    }
    true
}

/// Whether `prefix` is an initial run of `s`. The match is plain
/// substring-from-start: it is not delimiter-aware.
pub fn str_starts_with(s: &str, prefix: &str) -> (r: bool)
    ensures
        r == is_prefix(prefix@, s@),
{
    let n = prefix.unicode_len();
    if n > s.unicode_len() {
        return false;
    }
    str_eq_range(prefix, s, 0, n)
}

/// The end of the path segment that starts at `i`.
pub fn find_seg_end(s: &str, i: usize) -> (j: usize)
    requires
        i <= s@.len(),
    ensures
        j == seg_end(s@, i as int),
        i <= j <= s@.len(),
{
    proof {
        lemma_seg_end(s@, i as int);
    }
    let n = s.unicode_len();
    let mut k: usize = i;
    while k < n
        invariant
            i <= k <= n,
            n == s@.len(),
            forall|t: int| i <= t < k ==> s@[t] != sep(),
            seg_end(s@, i as int) == seg_end(s@, k as int),
        decreases n - k,
    {
        if s.get_char(k) == '|' {
            return k;
        }
        k = k + 1;
    }
    k
}

/// `parent`, the delimiter, then `id`: how one more level extends a path.
pub fn join_path(parent: &str, id: &str) -> (r: String)
    ensures
        r@ == parent@ + seq![sep()] + id@,
{
    let mut s = String::from_str(parent);
    s.append("|");
    s.append(id);
    proof {
        reveal_strlit("|");
        assert(s@ =~= parent@ + seq![sep()] + id@);
    }
    s
}

} // verus!
