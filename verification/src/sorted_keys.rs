use vstd::prelude::*;

verus! {

/// The keys stand in strictly ascending order (so none occurs twice).
pub open spec fn strictly_sorted(s: Seq<u64>) -> bool {
    forall|i: int, j: int| 0 <= i < j < s.len() ==> s[i] < s[j]
}

/// The key `k` occurs in `s`.
pub open spec fn has_key(s: Seq<u64>, k: int) -> bool {
    exists|i: int| 0 <= i < s.len() && s[i] == k
}

/// The first position whose key is not below `k`.
pub fn lower_bound(v: &Vec<u64>, k: u64) -> (pos: usize)
    requires
        strictly_sorted(v@),
    ensures
        pos <= v.len(),
        forall|i: int| 0 <= i < pos ==> v@[i] < k,
        forall|i: int| pos <= i < v.len() ==> v@[i] >= k,
{
    let mut lo: usize = 0;
    let mut hi: usize = v.len();
    while lo < hi
        invariant
            lo <= hi <= v.len(),
            strictly_sorted(v@),
            forall|i: int| 0 <= i < lo ==> v@[i] < k,
            forall|i: int| hi <= i < v.len() ==> v@[i] >= k,
        decreases hi - lo,
    {
        let mid = lo + (hi - lo) / 2;
        if v[mid] < k {
            lo = mid + 1;
        } else {
            hi = mid;
        }
    }
    lo
}

/// Whether the key `k` occurs in the sorted keys `v`.
pub fn contains_key(v: &Vec<u64>, k: u64) -> (found: bool)
    requires
        strictly_sorted(v@),
    ensures
        found == has_key(v@, k as int),
{
    let pos = lower_bound(v, k);
    if pos < v.len() && v[pos] == k {
        true
    } else {
        proof {
            if has_key(v@, k as int) {
                let i = choose|i: int| 0 <= i < v@.len() && v@[i] == k;
                if i < pos {
                } else if i > pos {
                    assert(v@[pos as int] < v@[i]);
                }
            }
        }
        false
    }
}

/// Adds the key `k` to the sorted keys `v`, keeping them sorted.
pub fn insert_key(v: &mut Vec<u64>, k: u64)
    requires
        strictly_sorted(old(v)@),
    ensures
        strictly_sorted(final(v)@),
        forall|x: int| has_key(final(v)@, x) <==> (has_key(old(v)@, x) || x == k),
{
    let pos = lower_bound(v, k);
    if pos < v.len() && v[pos] == k {
        return;
    }
    let ghost before = v@;
    v.insert(pos, k);
    proof {
        before.insert_ensures(pos as int, k);
        let after = v@;
        assert(after == before.insert(pos as int, k));
        assert forall|i: int, j: int| 0 <= i < j < after.len() implies after[i] < after[j] by {
            if j < pos {
            } else if j == pos {
            } else if i < pos {
                assert(after[j] == before[j - 1]);
            } else if i == pos {
                assert(after[j] == before[j - 1]);
                assert(before[j - 1] >= k);
                if j - 1 == pos {
                    assert(before[pos as int] != k);
                } else {
                    assert(before[pos as int] < before[j - 1]);
                    assert(before[pos as int] >= k);
                }
            } else {
                assert(after[i] == before[i - 1]);
                assert(after[j] == before[j - 1]);
            }
        }
        assert forall|x: int| has_key(after, x) <==> (has_key(before, x) || x == k) by {
            if has_key(after, x) {
                let i = choose|i: int| 0 <= i < after.len() && after[i] == x;
                if i < pos {
                    assert(before[i] == x);
                } else if i > pos {
                    assert(before[i - 1] == x);
                }
            }
            if has_key(before, x) {
                let i = choose|i: int| 0 <= i < before.len() && before[i] == x;
                if i < pos {
                    assert(after[i] == x);
                } else {
                    assert(after[i + 1] == x);
                }
            }
            if x == k {
                assert(after[pos as int] == x);
            }
        }
    }
}

} // verus!
