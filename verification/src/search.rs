//! Binary search over a sorted slice, locating the first occurrence of the
//! target value.
use vstd::prelude::*;

verus! {

/// Whether a sequence is sorted in nondecreasing order.
pub open spec fn sorted(s: Seq<i64>) -> bool {
    forall|a: int, b: int| 0 <= a < b < s.len() ==> #[trigger] s[a] <= #[trigger] s[b]
}

/// Finds the index of the first occurrence of `t` in the sorted slice `v`,
/// or `None` when `t` does not occur at all.
pub fn binary_search(v: &[i64], t: &i64) -> (r: Option<usize>)
    requires
        sorted(v@),
    ensures
        match r {
            Some(i) => i < v@.len() && v@[i as int] == *t && forall|j: int|
                0 <= j < i ==> v@[j] != *t,
            None => forall|j: int| 0 <= j < v@.len() ==> v@[j] != *t,
        },
{
    let tv: i64 = *t;
    let mut lo: usize = 0;
    let mut hi: usize = v.len();
    while lo < hi
        invariant
            sorted(v@),
            tv == *t,
            lo <= hi <= v@.len(),
            forall|j: int| 0 <= j < lo ==> v@[j] < tv,
            forall|j: int| hi <= j < v@.len() ==> v@[j] > tv,
        decreases hi - lo,
    {
        let mid: usize = lo + (hi - lo) / 2;
        let x: i64 = v[mid];
        if x < tv {
            assert(forall|j: int| 0 <= j <= mid ==> v@[j] <= v@[mid as int]);
            lo = mid + 1;
        } else if x > tv {
            assert(forall|j: int| mid <= j < v@.len() ==> v@[mid as int] <= v@[j]);
            hi = mid;
        } else {
            let mut k: usize = mid;
            while k > 0 && v[k - 1] == tv
                invariant
                    sorted(v@),
                    tv == *t,
                    0 <= k <= mid < v@.len(),
                    v@[k as int] == tv,
                decreases k,
            {
                k = k - 1;
            }
            assert forall|j: int| 0 <= j < k implies v@[j] != tv by {
                if v@[j] == tv {
                    assert(v@[j] <= v@[k - 1]);
                    assert(v@[k - 1] <= v@[k as int]);
                }
            }
            return Some(k);
        }
    }
    None
}

} // verus!
