use vstd::prelude::*;

verus! {

/// `c` occurs somewhere in `s`.
pub open spec fn has_char(s: Seq<char>, c: char) -> bool {
    exists|i: int| 0 <= i < s.len() && s[i] == c
}

/// `i` is the position of the first occurrence of `c` in `s`.
pub open spec fn is_first(s: Seq<char>, c: char, i: int) -> bool {
    &&& 0 <= i < s.len()
    &&& s[i] == c
    &&& forall|j: int| 0 <= j < i ==> s[j] != c
}

/// The position of the first occurrence of `c` in `s` (meaningful when `has_char(s, c)`).
pub open spec fn first_index_of(s: Seq<char>, c: char) -> int {
    choose|i: int| is_first(s, c, i)
}

/// `a` and `b` are the same character once ASCII upper case is folded to lower case,
/// where `b` is the lower-case reference character.
pub open spec fn ascii_fold_eq(a: char, b: char) -> bool {
    a == b || ('a' <= b && b <= 'z' && (a as u32) + 32 == (b as u32))
}

/// `s` spells `lit` with ASCII letters in any case (`lit` is written in lower case).
pub open spec fn matches_ignoring_ascii_case(s: Seq<char>, lit: Seq<char>) -> bool {
    &&& s.len() == lit.len()
    &&& forall|i: int| 0 <= i < s.len() ==> ascii_fold_eq(#[trigger] s[i], lit[i])
}

proof fn lemma_first_unique(s: Seq<char>, c: char, i: int)
    requires
        is_first(s, c, i),
    ensures
        first_index_of(s, c) == i,
{
    let k = first_index_of(s, c);
    assert(is_first(s, c, k));
    if k < i {
        assert(s[k] == c);
    } else if i < k {
        assert(s[i] == c);
    }
}

/// The position of the first `c` in `s`, or `None` when `s` holds no `c`.
pub fn find_char(s: &str, c: char) -> (r: Option<usize>)
    ensures
        r is None <==> !has_char(s@, c),
        r matches Some(i) ==> is_first(s@, c, i as int) && first_index_of(s@, c) == i,
{
    let n = s.unicode_len();
    let mut i: usize = 0;
    while i < n
        invariant
            n == s@.len(),
            0 <= i <= n,
            forall|j: int| 0 <= j < i ==> s@[j] != c,
        decreases n - i,
    {
        if s.get_char(i) == c {
            proof {
                lemma_first_unique(s@, c, i as int);
            }
            return Some(i);
        }
        i = i + 1;
    }
    None
}

/// Whether `a` and `b` hold the same characters.
pub fn same_chars(a: &str, b: &str) -> (r: bool)
    ensures
        r == (a@ == b@),
{
    let n = a.unicode_len();
    if n != b.unicode_len() {
        return false;
    }
    let mut i: usize = 0;
    while i < n
        invariant
            n == a@.len(),
            n == b@.len(),
            0 <= i <= n,
            forall|j: int| 0 <= j < i ==> a@[j] == b@[j],
        decreases n - i,
    {
        if a.get_char(i) != b.get_char(i) {
            return false;
        }
        i = i + 1;
    }
    assert(a@ =~= b@);
    true
}

fn fold_eq(a: char, b: char) -> (r: bool)
    ensures
        r == ascii_fold_eq(a, b),
{
    a == b || ('a' <= b && b <= 'z' && (a as u32) + 32 == (b as u32))
}

/// Whether the characters of `s` from position `from` to its end spell `lit`,
/// ignoring the case of ASCII letters (`lit` is written in lower case).
pub fn tail_matches_ignoring_ascii_case(s: &str, from: usize, lit: &str) -> (r: bool)
    requires
        from <= s@.len(),
    ensures
        r == matches_ignoring_ascii_case(s@.subrange(from as int, s@.len() as int), lit@),
{
    let ghost tail = s@.subrange(from as int, s@.len() as int);
    let n = s.unicode_len();
    let m = lit.unicode_len();
    if n - from != m {
        return false;
    }
    let mut i: usize = 0;
    while i < m
        invariant
            n == s@.len(),
            m == lit@.len(),
            n - from == m,
            from <= n,
            0 <= i <= m,
            tail == s@.subrange(from as int, n as int),
            forall|j: int| 0 <= j < i ==> ascii_fold_eq(#[trigger] tail[j], lit@[j]),
        decreases m - i,
    {
        if !fold_eq(s.get_char(from + i), lit.get_char(i)) {
            assert(!ascii_fold_eq(tail[i as int], lit@[i as int]));
            return false;
        }
        i = i + 1;
    }
    true
}

} // verus!
