//! Small list helpers shared by the engine and by choreography building.

use vstd::prelude::*;

verus! {

/// Copy a vector of `Copy` elements; the result views equal.
pub fn copy_vec<T: Copy>(v: &Vec<T>) -> (r: Vec<T>)
    ensures
        r@ == v@,
{
    let mut r: Vec<T> = Vec::new();
    let mut i: usize = 0;
    while i < v.len()
        invariant
            i <= v@.len(),
            r@ == v@.subrange(0, i as int),
        decreases v@.len() - i,
    {
        r.push(v[i]);
        proof {
            assert(r@ =~= v@.subrange(0, i + 1));
        }
        i += 1;
    }
    proof {
        assert(r@ =~= v@);
    }
    r
}

/// A counter value advanced by `by`, saturating at the maximum `usize`.
pub open spec fn spec_step_inc(s: int, by: int) -> int {
    if s + by > usize::MAX {
        usize::MAX as int
    } else {
        s + by
    }
}

/// Advance a counter by one, saturating at the maximum.
pub fn inc_sat(s: usize) -> (r: usize)
    ensures
        r as int == spec_step_inc(s as int, 1),
{
    if s < usize::MAX {
        s + 1
    } else {
        s
    }
}

/// The entries are ordered by nondecreasing time key.
pub open spec fn sorted_by_time<T>(s: Seq<(i64, T)>) -> bool {
    forall|i: int, j: int| 0 <= i < j < s.len() ==> (#[trigger] s[i]).0 <= (#[trigger] s[j]).0
}

/// Insertion sort of `(time, payload)` entries by nondecreasing time: the
/// result is sorted, holds exactly the input entries, and an already sorted
/// list comes back unchanged. No order among equal times is promised.
pub fn sort_by_time<T>(v: &mut Vec<(i64, T)>)
    ensures
        sorted_by_time(final(v)@),
        final(v)@.to_multiset() == old(v)@.to_multiset(),
        final(v)@.len() == old(v)@.len(),
        sorted_by_time(old(v)@) ==> final(v)@ == old(v)@,
{
    let ghost orig = v@;
    let mut i: usize = 1;
    while i < v.len()
        invariant
            1 <= i,
            v@.len() == orig.len(),
            v@.to_multiset() == orig.to_multiset(),
            forall|a: int, b: int|
                0 <= a < b < i ==> (#[trigger] v@[a]).0 <= (#[trigger] v@[b]).0,
            sorted_by_time(orig) ==> v@ == orig,
        decreases v@.len() - i,
    {
        let mut j: usize = i;
        while j > 0 && v[j - 1].0 > v[j].0
            invariant
                0 < i < v@.len(),
                j <= i,
                v@.len() == orig.len(),
                v@.to_multiset() == orig.to_multiset(),
                forall|a: int, b: int|
                    0 <= a < b <= i && b != j ==> (#[trigger] v@[a]).0 <= (#[trigger] v@[b]).0,
                sorted_by_time(orig) ==> v@ == orig,
            decreases j,
        {
            let ghost pre = v@;
            let e = v.remove(j);
            let ghost mid = v@;
            v.insert(j - 1, e);
            proof {
                broadcast use vstd::seq_lib::group_to_multiset_ensures;

                let cur = v@;
                assert(cur.remove(j - 1 as int) =~= mid);
                assert(cur[j - 1 as int] == pre[j as int]);
                assert(cur.remove(j - 1 as int).to_multiset() =~= cur.to_multiset().remove(
                    cur[j - 1 as int]));
                assert(pre.remove(j as int).to_multiset() =~= pre.to_multiset().remove(
                    pre[j as int]));
                assert(cur.to_multiset().remove(pre[j as int]) =~= pre.to_multiset().remove(
                    pre[j as int]));
                assert(cur.to_multiset().count(pre[j as int]) > 0) by {
                    assert(cur.contains(pre[j as int]));
                }
                assert(pre.to_multiset().count(pre[j as int]) > 0) by {
                    assert(pre.contains(pre[j as int]));
                }
                assert(cur.to_multiset() =~= pre.to_multiset()) by {
                    assert forall|x: (i64, T)| cur.to_multiset().count(x)
                        == pre.to_multiset().count(x) by {
                        if x == pre[j as int] {
                            assert(cur.to_multiset().remove(x).count(x) + 1 == cur.to_multiset(
                            ).count(x));
                            assert(pre.to_multiset().remove(x).count(x) + 1 == pre.to_multiset(
                            ).count(x));
                        } else {
                            assert(cur.to_multiset().remove(pre[j as int]).count(x)
                                == cur.to_multiset().count(x));
                            assert(pre.to_multiset().remove(pre[j as int]).count(x)
                                == pre.to_multiset().count(x));
                        }
                    }
                }
                if sorted_by_time(orig) {
                    assert(pre[j - 1 as int].0 <= pre[j as int].0);
                    assert(false);
                }
            }
            j -= 1;
        }
        proof {
            if j > 0 {
                assert forall|a: int| 0 <= a < j implies (#[trigger] v@[a]).0 <= v@[j as int].0 by {
                    if a < j - 1 {
                        assert(v@[a].0 <= v@[j - 1 as int].0);
                    }
                }
            }
            assert(forall|a: int, b: int|
                0 <= a < b <= i ==> (#[trigger] v@[a]).0 <= (#[trigger] v@[b]).0);
        }
        i += 1;
    }
    proof {
        if v@.len() == 0 {
            assert(v@ =~= orig);
        }
    }
}

/// Resize `v` to exactly `length` elements, popping from the end when it is
/// too long and pushing copies of `extension` when it is too short.
pub fn adjust<T: Copy>(v: &mut Vec<T>, length: usize, extension: T)
    ensures
        final(v)@.len() == length,
        forall|i: int|
            0 <= i < length ==> final(v)@[i] == (if i < old(v)@.len() {
                old(v)@[i]
            } else {
                extension
            }),
{
    if v.len() > length {
        while v.len() > length
            invariant
                length <= v@.len() <= old(v)@.len(),
                v@ == old(v)@.subrange(0, v@.len() as int),
            decreases v@.len(),
        {
            v.pop();
            proof {
                assert(v@ =~= old(v)@.subrange(0, v@.len() as int));
            }
        }
    } else if v.len() < length {
        while v.len() < length
            invariant
                old(v)@.len() <= v@.len() <= length,
                v@.subrange(0, old(v)@.len() as int) == old(v)@,
                forall|i: int| old(v)@.len() <= i < v@.len() ==> v@[i] == extension,
            decreases length - v@.len(),
        {
            v.push(extension);
            proof {
                assert(v@.subrange(0, old(v)@.len() as int) =~= old(v)@);
            }
        }
    }
    proof {
        assert(forall|i: int| 0 <= i < old(v)@.len() && i < length ==> v@[i] == old(v)@[i]);
    }
}

} // verus!
