//! Small helpers on plain identifier lists: membership, copying, and
//! order-preserving removal, with their `Seq`-level descriptions.

use vstd::prelude::*;

verus! {

/// `s` with every occurrence of `x` taken out, other elements kept in order.
pub open spec fn without_usize(s: Seq<usize>, x: usize) -> Seq<usize>
    decreases s.len(),
{
    if s.len() == 0 {
        Seq::empty()
    } else if s.last() == x {
        without_usize(s.drop_last(), x)
    } else {
        without_usize(s.drop_last(), x).push(s.last())
    }
}

/// `s` with every occurrence of `x` taken out, other elements kept in order.
pub open spec fn without_u64(s: Seq<u64>, x: u64) -> Seq<u64>
    decreases s.len(),
{
    if s.len() == 0 {
        Seq::empty()
    } else if s.last() == x {
        without_u64(s.drop_last(), x)
    } else {
        without_u64(s.drop_last(), x).push(s.last())
    }
}

/// Removal commutes with extension at the back.
pub proof fn lemma_without_usize_push(s: Seq<usize>, z: usize, x: usize)
    ensures
        without_usize(s.push(z), x) == (if z != x {
            without_usize(s, x).push(z)
        } else {
            without_usize(s, x)
        }),
{
    assert(s.push(z).drop_last() =~= s);
    assert(s.push(z).last() == z);
}

/// Removal commutes with extension at the back.
pub proof fn lemma_without_u64_push(s: Seq<u64>, z: u64, x: u64)
    ensures
        without_u64(s.push(z), x) == (if z != x {
            without_u64(s, x).push(z)
        } else {
            without_u64(s, x)
        }),
{
    assert(s.push(z).drop_last() =~= s);
    assert(s.push(z).last() == z);
}

/// What removal keeps: only elements of `s` other than `x`, every element of
/// `s` other than `x`, and freedom from duplicates.
pub proof fn lemma_without_usize_props(s: Seq<usize>, x: usize)
    ensures
        forall|k: int|
            0 <= k < without_usize(s, x).len() ==> s.contains(#[trigger] without_usize(s, x)[k])
                && without_usize(s, x)[k] != x,
        forall|y: usize| s.contains(y) && y != x ==> without_usize(s, x).contains(y),
        s.no_duplicates() ==> without_usize(s, x).no_duplicates(),
    decreases s.len(),
{
    let w = without_usize(s, x);
    if s.len() == 0 {
    } else {
        let rest = s.drop_last();
        let wr = without_usize(rest, x);
        lemma_without_usize_props(rest, x);
        assert forall|k: int|
            0 <= k < w.len() implies s.contains(#[trigger] w[k]) && w[k] != x by {
            if s.last() != x && k == w.len() - 1 {
                assert(s[s.len() - 1] == w[k]);
            } else {
                assert(wr[k] == w[k]);
                assert(rest.contains(w[k]));
                let j = choose|j: int| 0 <= j < rest.len() && rest[j] == w[k];
                assert(s[j] == w[k]);
            }
        }
        assert forall|y: usize| s.contains(y) && y != x implies w.contains(y) by {
            let j = choose|j: int| 0 <= j < s.len() && s[j] == y;
            if j == s.len() - 1 {
                assert(s.last() == y);
                assert(w[w.len() - 1] == y);
            } else {
                assert(rest[j] == y);
                assert(rest.contains(y));
                assert(wr.contains(y));
                let k = choose|k: int| 0 <= k < wr.len() && wr[k] == y;
                assert(w[k] == y);
            }
        }
        if s.no_duplicates() {
            assert(rest.no_duplicates());
            if s.last() != x {
                assert forall|k: int| 0 <= k < wr.len() implies wr[k] != s.last() by {
                    assert(rest.contains(wr[k]));
                    let j = choose|j: int| 0 <= j < rest.len() && rest[j] == wr[k];
                    assert(s[j] == wr[k]);
                    assert(s[j] != s[s.len() - 1]);
                }
                assert forall|a: int, b: int|
                    0 <= a < w.len() && 0 <= b < w.len() && a != b implies w[a] != w[b] by {
                    if a < wr.len() && b < wr.len() {
                        assert(wr[a] != wr[b]);
                    }
                }
            }
        }
    }
}

/// What removal keeps: only elements of `s` other than `x`, every element of
/// `s` other than `x`, and freedom from duplicates.
pub proof fn lemma_without_u64_props(s: Seq<u64>, x: u64)
    ensures
        forall|k: int|
            0 <= k < without_u64(s, x).len() ==> s.contains(#[trigger] without_u64(s, x)[k])
                && without_u64(s, x)[k] != x,
        forall|y: u64| s.contains(y) && y != x ==> without_u64(s, x).contains(y),
        s.no_duplicates() ==> without_u64(s, x).no_duplicates(),
    decreases s.len(),
{
    let w = without_u64(s, x);
    if s.len() == 0 {
    } else {
        let rest = s.drop_last();
        let wr = without_u64(rest, x);
        lemma_without_u64_props(rest, x);
        assert forall|k: int|
            0 <= k < w.len() implies s.contains(#[trigger] w[k]) && w[k] != x by {
            if s.last() != x && k == w.len() - 1 {
                assert(s[s.len() - 1] == w[k]);
            } else {
                assert(wr[k] == w[k]);
                assert(rest.contains(w[k]));
                let j = choose|j: int| 0 <= j < rest.len() && rest[j] == w[k];
                assert(s[j] == w[k]);
            }
        }
        assert forall|y: u64| s.contains(y) && y != x implies w.contains(y) by {
            let j = choose|j: int| 0 <= j < s.len() && s[j] == y;
            if j == s.len() - 1 {
                assert(s.last() == y);
                assert(w[w.len() - 1] == y);
            } else {
                assert(rest[j] == y);
                assert(rest.contains(y));
                assert(wr.contains(y));
                let k = choose|k: int| 0 <= k < wr.len() && wr[k] == y;
                assert(w[k] == y);
            }
        }
        if s.no_duplicates() {
            assert(rest.no_duplicates());
            if s.last() != x {
                assert forall|k: int| 0 <= k < wr.len() implies wr[k] != s.last() by {
                    assert(rest.contains(wr[k]));
                    let j = choose|j: int| 0 <= j < rest.len() && rest[j] == wr[k];
                    assert(s[j] == wr[k]);
                    assert(s[j] != s[s.len() - 1]);
                }
                assert forall|a: int, b: int|
                    0 <= a < w.len() && 0 <= b < w.len() && a != b implies w[a] != w[b] by {
                    if a < wr.len() && b < wr.len() {
                        assert(wr[a] != wr[b]);
                    }
                }
            }
        }
    }
}

/// Whether `v` holds `x`.
pub fn holds_usize(v: &Vec<usize>, x: usize) -> (b: bool)
    ensures
        b == v@.contains(x),
{
    let mut i: usize = 0;
    while i < v.len()
        invariant
            i <= v@.len(),
            forall|k: int| 0 <= k < i ==> v@[k] != x,
        decreases v@.len() - i,
    {
        if v[i] == x {
            assert(v@[i as int] == x);
            return true;
        }
        i += 1;
    }
    false
}

/// Whether `v` holds `x`.
pub fn holds_u64(v: &Vec<u64>, x: u64) -> (b: bool)
    ensures
        b == v@.contains(x),
{
    let mut i: usize = 0;
    while i < v.len()
        invariant
            i <= v@.len(),
            forall|k: int| 0 <= k < i ==> v@[k] != x,
        decreases v@.len() - i,
    {
        if v[i] == x {
            assert(v@[i as int] == x);
            return true;
        }
        i += 1;
    }
    false
}

/// A fresh list holding the same identifiers in the same order.
pub fn copy_usize(v: &Vec<usize>) -> (r: Vec<usize>)
    ensures
        r@ == v@,
{
    let mut out: Vec<usize> = Vec::new();
    let mut i: usize = 0;
    while i < v.len()
        invariant
            i <= v@.len(),
            out@ == v@.subrange(0, i as int),
        decreases v@.len() - i,
    {
        proof {
            assert(v@.subrange(0, i as int + 1) =~= v@.subrange(0, i as int).push(v@[i as int]));
        }
        out.push(v[i]);
        i += 1;
    }
    proof {
        assert(v@.subrange(0, v@.len() as int) =~= v@);
    }
    out
}

/// `v` with every occurrence of `x` taken out, other elements kept in order.
pub fn remove_usize(v: &Vec<usize>, x: usize) -> (r: Vec<usize>)
    ensures
        r@ == without_usize(v@, x),
{
    let mut out: Vec<usize> = Vec::new();
    let mut i: usize = 0;
    while i < v.len()
        invariant
            i <= v@.len(),
            out@ == without_usize(v@.subrange(0, i as int), x),
        decreases v@.len() - i,
    {
        proof {
            assert(v@.subrange(0, i as int + 1) =~= v@.subrange(0, i as int).push(v@[i as int]));
            lemma_without_usize_push(v@.subrange(0, i as int), v@[i as int], x);
        }
        if v[i] != x {
            out.push(v[i]);
        }
        i += 1;
    }
    proof {
        assert(v@.subrange(0, v@.len() as int) =~= v@);
    }
    out
}

/// `v` with every occurrence of `x` taken out, other elements kept in order.
pub fn remove_u64(v: &Vec<u64>, x: u64) -> (r: Vec<u64>)
    ensures
        r@ == without_u64(v@, x),
{
    let mut out: Vec<u64> = Vec::new();
    let mut i: usize = 0;
    while i < v.len()
        invariant
            i <= v@.len(),
            out@ == without_u64(v@.subrange(0, i as int), x),
        decreases v@.len() - i,
    {
        proof {
            assert(v@.subrange(0, i as int + 1) =~= v@.subrange(0, i as int).push(v@[i as int]));
            lemma_without_u64_push(v@.subrange(0, i as int), v@[i as int], x);
        }
        if v[i] != x {
            out.push(v[i]);
        }
        i += 1;
    }
    proof {
        assert(v@.subrange(0, v@.len() as int) =~= v@);
    }
    out
}

} // verus!
