//! Resolution of discrepancies between several data sources.

use std::hash::Hash;
use vstd::prelude::*;

verus! {

/// The texts of a list of strings, in order.
pub open spec fn texts(values: Seq<String>) -> Seq<Seq<char>> {
    values.map_values(|v: String| v@)
}

/// How often `x` occurs in `s`.
pub open spec fn occurrences(s: Seq<Seq<char>>, x: Seq<char>) -> nat
    decreases s.len(),
{
    if s.len() == 0 {
        0
    } else {
        occurrences(s.drop_last(), x) + if s.last() == x {
            1nat
        } else {
            0nat
        }
    }
}

/// `k` is the position of the most common value of `s`: no value occurs more
/// often than `s[k]`, and every value at an earlier position occurs less often.
/// Among values that are equally common the one that comes first wins.
pub open spec fn is_mode_at(s: Seq<Seq<char>>, k: int) -> bool {
    &&& 0 <= k < s.len()
    &&& forall|j: int| 0 <= j < s.len() ==> occurrences(s, #[trigger] s[j]) <= occurrences(s, s[k])
    &&& forall|j: int| 0 <= j < k ==> occurrences(s, #[trigger] s[j]) < occurrences(s, s[k])
}

/// The mode is unique: a list has at most one mode position, so that the
/// most common value is one value and no other.
pub proof fn law_mode_unique(s: Seq<Seq<char>>, k1: int, k2: int)
    requires
        is_mode_at(s, k1),
        is_mode_at(s, k2),
    ensures
        k1 == k2,
{
    if k1 < k2 {
        assert(occurrences(s, s[k1]) < occurrences(s, s[k2]));
        assert(occurrences(s, s[k2]) <= occurrences(s, s[k1]));
    } else if k2 < k1 {
        assert(occurrences(s, s[k2]) < occurrences(s, s[k1]));
        assert(occurrences(s, s[k1]) <= occurrences(s, s[k2]));
    }
}

/// Counts the entries of `values` whose text is that of `x`.
fn count_of(values: &Vec<String>, x: &String) -> (c: usize)
    ensures
        c == occurrences(texts(values@), x@),
{
    let ghost s = texts(values@);
    let mut c: usize = 0;
    let mut i: usize = 0;
    while i < values.len()
        invariant
            i <= values.len(),
            s == texts(values@),
            c <= i,
            c == occurrences(s.take(i as int), x@),
        decreases values.len() - i,
    {
        proof {
            assert(s.take(i + 1).drop_last() == s.take(i as int));
            assert(s.take(i + 1).last() == values@[i as int]@);
        }
        if values[i] == *x {
            c = c + 1;
        }
        i = i + 1;
    }
    proof {
        assert(s.take(i as int) == s);
    }
    c
}

/// Returns the most common value. Of several values that are equally common
/// the one whose first occurrence comes first is returned; an empty list has
/// no mode.
pub fn mode(values: &Vec<String>) -> (r: Option<&String>)
    ensures
        values.len() == 0 <==> r is None,
        r matches Some(w) ==> exists|k: int|
            is_mode_at(texts(values@), k) && *w == #[trigger] values@[k],
{
    if values.len() == 0 {
        return None;
    }
    let ghost s = texts(values@);
    let mut best: usize = 0;
    let mut best_count: usize = count_of(values, &values[0]);
    let mut i: usize = 1;
    while i < values.len()
        invariant
            1 <= i <= values.len(),
            s == texts(values@),
            best < i,
            best_count == occurrences(s, s[best as int]),
            forall|j: int| 0 <= j < i ==> occurrences(s, #[trigger] s[j]) <= best_count,
            forall|j: int| 0 <= j < best ==> occurrences(s, #[trigger] s[j]) < best_count,
        decreases values.len() - i,
    {
        let c = count_of(values, &values[i]);
        if c > best_count {
            best = i;
            best_count = c;
        }
        i = i + 1;
    }
    assert(is_mode_at(s, best as int));
    Some(&values[best])
}

/// Returns the median value. No median is defined by this library: the
/// result is `None` for every list.
pub fn median<T: Ord + Hash>(_values: &Vec<T>) -> (r: Option<&T>)
    ensures
        r is None,
{
    None
}

} // verus!
