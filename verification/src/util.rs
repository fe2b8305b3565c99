use vstd::prelude::*;

verus! {

/// `order` lists every index below `n` exactly once.
pub open spec fn is_permutation(order: Seq<usize>, n: nat) -> bool {
    &&& order.len() == n
    &&& forall|j: int| 0 <= j < order.len() ==> (#[trigger] order[j]) < n
    &&& forall|i: int, j: int| 0 <= i < order.len() && 0 <= j < order.len() && i != j ==> order[i] != order[j]
}

/// Rearranges `items` so that position `j` holds the item that was at
/// `order[j]`.
pub fn sort_by_indices<T>(items: &mut Vec<T>, order: Vec<usize>)
    requires
        is_permutation(order@, old(items)@.len()),
    ensures
        final(items)@.len() == old(items)@.len(),
        forall|j: int| 0 <= j < order@.len() ==> final(items)@[j] == old(items)@[order@[j] as int],
{
    let ghost orig = old(items)@;
    let n = items.len();
    let mut slots: Vec<Option<T>> = Vec::new();
    let mut rest: Vec<T> = Vec::new();
    std::mem::swap(items, &mut rest);
    let mut k: usize = 0;
    while rest.len() > 0
        invariant
            n == orig.len(),
            k <= n,
            rest@ == orig.skip(k as int),
            slots@.len() == k,
            items@.len() == 0,
            forall|i: int| 0 <= i < k ==> slots@[i] == Some(orig[i]),
        decreases rest@.len(),
    {
        let x = rest.remove(0);
        proof {
            assert(orig.skip(k as int)[0] == orig[k as int]);
            assert(orig.skip(k + 1) =~= orig.skip(k as int).drop_first());
        }
        slots.push(Some(x));
        k = k + 1;
    }
    assert(k == n) by {
        assert(orig.skip(k as int).len() == 0);
    }
    let mut j: usize = 0;
    while j < order.len()
        invariant
            is_permutation(order@, n as nat),
            n == orig.len(),
            slots@.len() == n,
            j <= order@.len(),
            items@.len() == j,
            forall|x: int| 0 <= x < j ==> items@[x] == orig[order@[x] as int],
            forall|i: int| 0 <= i < n ==> (slots@[i] == Some(orig[i])
                || exists|x: int| 0 <= x < j && order@[x] == i),
            forall|x: int| j <= x < order@.len() ==> slots@[order@[x] as int] == Some(orig[order@[x] as int]),
        decreases order@.len() - j,
    {
        let idx = order[j];
        assert(slots@[idx as int] == Some(orig[idx as int]));
        let taken = slots[idx].take();
        let x = match taken {
            Some(v) => v,
            None => {
                assert(false);
                return;
            },
        };
        items.push(x);
        proof {
            assert forall|y: int| j + 1 <= y < order@.len() implies slots@[order@[y] as int] == Some(orig[order@[y] as int]) by {
                assert(order@[y] != order@[j as int]);
            }
            assert forall|i: int| 0 <= i < n implies (slots@[i] == Some(orig[i])
                || exists|x: int| 0 <= x < j + 1 && order@[x] == i) by {
                if i == idx as int {
                    assert(order@[j as int] == i);
                }
            }
        }
        j = j + 1;
    }
}

} // verus!
