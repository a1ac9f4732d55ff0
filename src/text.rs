use vstd::prelude::*;

verus! {

/// `p` occurs in `s` starting at index `i`.
pub open spec fn occurs_at(s: Seq<char>, p: Seq<char>, i: int) -> bool {
    0 <= i && i + p.len() <= s.len() && s.subrange(i, i + p.len()) == p
}

/// The first index at or after `i` where `p` occurs in `s`.
pub open spec fn first_occurrence_from(s: Seq<char>, p: Seq<char>, i: int) -> Option<int>
    decreases s.len() + 1 - i,
{
    if i < 0 || i + p.len() > s.len() {
        None
    } else if occurs_at(s, p, i) {
        Some(i)
    } else {
        first_occurrence_from(s, p, i + 1)
    }
}

/// The first index where `p` occurs in `s`.
pub open spec fn first_occurrence(s: Seq<char>, p: Seq<char>) -> Option<int> {
    first_occurrence_from(s, p, 0)
}

/// `s` with the first occurrence of `p` replaced by `w` (unchanged when `p` does not occur).
pub open spec fn replace_first(s: Seq<char>, p: Seq<char>, w: Seq<char>) -> Seq<char> {
    match first_occurrence(s, p) {
        Some(i) => s.subrange(0, i) + w + s.subrange(i + p.len(), s.len() as int),
        None => s,
    }
}

/// The part of `s` before the first `c` (all of `s` when there is none).
pub open spec fn before_first(s: Seq<char>, c: char) -> Seq<char> {
    match first_occurrence(s, seq![c]) {
        Some(i) => s.subrange(0, i),
        None => s,
    }
}

pub proof fn lemma_first_occurrence_from_bounds(s: Seq<char>, p: Seq<char>, i: int)
    requires
        0 <= i,
    ensures
        first_occurrence_from(s, p, i) matches Some(k) ==> i <= k && occurs_at(s, p, k) && (
        forall|j: int| i <= j < k ==> !occurs_at(s, p, j)),
        first_occurrence_from(s, p, i) is None ==> forall|j: int|
            i <= j ==> !occurs_at(s, p, j),
    decreases s.len() + 1 - i,
{
    if i < 0 || i + p.len() > s.len() {
    } else if occurs_at(s, p, i) {
    } else {
        lemma_first_occurrence_from_bounds(s, p, i + 1);
    }
}

/// Whether `p` occurs in `s` at index `i`, comparing character by character.
fn occurs_here(s: &str, p: &str, i: usize) -> (r: bool)
    requires
        i + p@.len() <= s@.len(),
    ensures
        r == occurs_at(s@, p@, i as int),
{
    let slen = s.unicode_len();
    let plen = p.unicode_len();
    let mut j: usize = 0;
    while j < plen
        invariant
            slen == s@.len(),
            plen == p@.len(),
            i + plen <= s@.len(),
            j <= plen,
            forall|k: int| 0 <= k < j ==> s@[i + k] == p@[k],
        decreases plen - j,
    {
        if s.get_char(i + j) != p.get_char(j) {
            assert(s@.subrange(i as int, i + plen)[j as int] != p@[j as int]);
            return false;
        }
        j = j + 1;
    }
    assert(s@.subrange(i as int, i + plen) =~= p@);
    true
}

/// The first index where `p` occurs in `s`.
pub fn find_first(s: &str, p: &str) -> (r: Option<usize>)
    ensures
        r matches Some(i) ==> first_occurrence(s@, p@) == Some(i as int) && i + p@.len() <= s@.len(),
        r is None ==> first_occurrence(s@, p@) is None,
{
    let slen = s.unicode_len();
    let plen = p.unicode_len();
    if plen > slen {
        return None;
    }
    if plen == 0 {
        assert(s@.subrange(0, 0) =~= p@);
        return Some(0);
    }
    let mut i: usize = 0;
    while i <= slen - plen
        invariant
            slen == s@.len(),
            plen == p@.len(),
            1 <= plen <= slen,
            i <= slen - plen + 1,
            first_occurrence_from(s@, p@, 0) == first_occurrence_from(s@, p@, i as int),
        decreases slen - plen + 1 - i,
    {
        if occurs_here(s, p, i) {
            proof {
                lemma_first_occurrence_from_bounds(s@, p@, 0);
            }
            return Some(i);
        }
        i = i + 1;
    }
    None
}

/// Whether `a` and `b` hold the same characters.
pub fn same_text(a: &str, b: &str) -> (r: bool)
    ensures
        r == (a@ == b@),
{
    let alen = a.unicode_len();
    let blen = b.unicode_len();
    if alen != blen {
        return false;
    }
    let r = occurs_here(a, b, 0);
    assert(a@.subrange(0, alen as int) =~= a@);
    r
}

/// `s` with the first occurrence of `p` replaced by `w`.
pub fn replace_first_text(s: &str, p: &str, w: &str) -> (r: String)
    ensures
        r@ == replace_first(s@, p@, w@),
{
    match find_first(s, p) {
        Some(i) => {
            proof {
                lemma_first_occurrence_from_bounds(s@, p@, 0);
            }
            let slen = s.unicode_len();
            let plen = p.unicode_len();
            let mut r = s.substring_char(0, i).to_owned();
            r.append(w);
            r.append(s.substring_char(i + plen, slen));
            r
        },
        None => s.to_owned(),
    }
}

/// The part of `s` before the first `c`.
pub fn text_before_first<'a>(s: &'a str, c: &str) -> (r: &'a str)
    requires
        c@.len() == 1,
    ensures
        r@ == before_first(s@, c@[0]),
{
    assert(c@ =~= seq![c@[0]]);
    match find_first(s, c) {
        Some(i) => {
            proof {
                lemma_first_occurrence_from_bounds(s@, c@, 0);
            }
            s.substring_char(0, i)
        },
        None => s,
    }
}

} // verus!
