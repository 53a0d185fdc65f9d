use vstd::prelude::*;

verus! {

/// `order` lists each position of `keys` exactly once.
pub open spec fn is_permutation_of_positions(order: Seq<usize>, n: int) -> bool {
    &&& order.len() == n
    &&& forall|k: int| 0 <= k < order.len() ==> (#[trigger] order[k]) < n
    &&& forall|a: int, b: int| 0 <= a < b < order.len() ==> order[a] != order[b]
}

/// The keys, read in `order`, never decrease.
pub open spec fn ascending_by(keys: Seq<i32>, order: Seq<usize>) -> bool {
    forall|a: int, b: int| 0 <= a < b < order.len() ==> keys[order[a] as int] <= keys[order[b] as int]
}

/// Equal keys keep their relative positions.
pub open spec fn stable_by(keys: Seq<i32>, order: Seq<usize>) -> bool {
    forall|a: int, b: int|
        0 <= a < b < order.len() && keys[order[a] as int] == keys[order[b] as int] ==> order[a] < order[b]
}

/// The positions of `keys` in ascending key order, equal keys in the order
/// they have in `keys`: how stored steps are listed, by ordinal.
pub fn order_by_key(keys: &Vec<i32>) -> (r: Vec<usize>)
    ensures
        is_permutation_of_positions(r@, keys@.len() as int),
        ascending_by(keys@, r@),
        stable_by(keys@, r@),
{
    let n = keys.len();
    let mut order: Vec<usize> = Vec::new();
    let mut i: usize = 0;
    while i < n
        invariant
            n == keys.len(),
            0 <= i <= n,
            is_permutation_of_positions(order@, i as int),
            ascending_by(keys@, order@),
            stable_by(keys@, order@),
        decreases n - i,
    {
        let ki = keys[i];
        let mut p: usize = 0;
        while p < order.len() && keys[order[p]] <= ki
            invariant
                n == keys.len(),
                0 <= i < n,
                0 <= p <= order.len(),
                is_permutation_of_positions(order@, i as int),
                ki == keys@[i as int],
                forall|k: int| 0 <= k < p ==> keys@[order@[k] as int] <= ki,
            decreases order.len() - p,
        {
            p = p + 1;
        }
        let ghost old_order = order@;
        order.insert(p, i);
        proof {
            assert(order@ == old_order.insert(p as int, i));
            assert forall|a: int, b: int| 0 <= a < b < order@.len() implies order@[a] != order@[b] by {
                if a < p && b < p {
                } else if a < p && b == p {
                } else if a < p && b > p {
                    assert(order@[b] == old_order[b - 1]);
                } else if a == p {
                    assert(order@[b] == old_order[b - 1]);
                } else {
                    assert(order@[a] == old_order[a - 1]);
                    assert(order@[b] == old_order[b - 1]);
                }
            }
            assert forall|a: int, b: int| 0 <= a < b < order@.len() implies
                keys@[order@[a] as int] <= keys@[order@[b] as int] by {
                if b < p {
                } else if b == p {
                } else if a < p {
                    assert(order@[b] == old_order[b - 1]);
                    if p < old_order.len() {
                        assert(keys@[old_order[p as int] as int] > ki);
                        assert(keys@[old_order[p as int] as int] <= keys@[old_order[b - 1] as int] || p == b - 1);
                    }
                } else if a == p {
                    assert(order@[b] == old_order[b - 1]);
                    assert(keys@[old_order[p as int] as int] > ki);
                    assert(keys@[old_order[p as int] as int] <= keys@[old_order[b - 1] as int] || p == b - 1);
                } else {
                    assert(order@[a] == old_order[a - 1]);
                    assert(order@[b] == old_order[b - 1]);
                }
            }
            assert forall|a: int, b: int|
                0 <= a < b < order@.len() && keys@[order@[a] as int] == keys@[order@[b] as int]
                implies order@[a] < order@[b] by {
                if b < p {
                } else if b == p {
                } else if a < p {
                    assert(order@[b] == old_order[b - 1]);
                    assert(keys@[old_order[p as int] as int] > ki);
                    assert(keys@[old_order[p as int] as int] <= keys@[old_order[b - 1] as int] || p == b - 1);
                } else if a == p {
                    assert(order@[b] == old_order[b - 1]);
                    assert(keys@[old_order[p as int] as int] > ki);
                    assert(keys@[old_order[p as int] as int] <= keys@[old_order[b - 1] as int] || p == b - 1);
                } else {
                    assert(order@[a] == old_order[a - 1]);
                    assert(order@[b] == old_order[b - 1]);
                }
            }
        }
        i = i + 1;
    }
    order
}

} // verus!
