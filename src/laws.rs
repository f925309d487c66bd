use vstd::prelude::*;
use crate::handle::Handle;
use crate::handle_array::{HandleArray, IHandleArrayItem, positions_from};

verus! {

/// `positions_from(s, i)` lists, in strictly increasing order, exactly the
/// positions `j >= max(i, 1)` of `s` whose value holds a non-null handle.
pub proof fn lemma_positions_from<T: IHandleArrayItem>(s: Seq<T>, i: int)
    requires
        0 <= i,
        s.len() <= usize::MAX,
    ensures
        forall|k: int|
            0 <= k < positions_from(s, i).len() ==> {
                let j = #[trigger] positions_from(s, i)[k] as int;
                &&& 1 <= j && i <= j < s.len()
                &&& s[j].handle_of().index != 0
            },
        forall|k1: int, k2: int|
            0 <= k1 < k2 < positions_from(s, i).len() ==> #[trigger] positions_from(s, i)[k1]
                < #[trigger] positions_from(s, i)[k2],
        forall|j: int|
            1 <= j && i <= j < s.len() && #[trigger] s[j].handle_of().index != 0 ==> positions_from(
                s,
                i,
            ).contains(j as usize),
    decreases s.len() - i,
{
    if i < s.len() {
        lemma_positions_from(s, i + 1);
        let rest = positions_from(s, i + 1);
        let p = positions_from(s, i);
        if i >= 1 && s[i].handle_of().index != 0 {
            assert(p == seq![i as usize].add(rest));
            assert forall|k: int| 0 <= k < p.len() implies {
                let j = #[trigger] p[k] as int;
                &&& 1 <= j && i <= j < s.len()
                &&& s[j].handle_of().index != 0
            } by {
                if k > 0 {
                    assert(p[k] == rest[k - 1]);
                }
            }
            assert forall|k1: int, k2: int| 0 <= k1 < k2 < p.len() implies #[trigger] p[k1]
                < #[trigger] p[k2] by {
                assert(p[k2] == rest[k2 - 1]);
                if k1 > 0 {
                    assert(p[k1] == rest[k1 - 1]);
                } else {
                    assert(rest[k2 - 1] >= i + 1);
                }
            }
            assert forall|j: int|
                1 <= j && i <= j < s.len() && #[trigger] s[j].handle_of().index != 0 implies p.contains(
                j as usize,
            ) by {
                if j == i {
                    assert(p[0] == j as usize);
                } else {
                    let k = choose|k: int| 0 <= k < rest.len() && rest[k] == j as usize;
                    assert(p[k + 1] == j as usize);
                }
            }
        } else {
            assert(p == rest);
        }
    }
}

/// The positions that a walk over the live slots yields are exactly the
/// occupied slots, in strictly increasing order; none of them is 0, the
/// sentinel.
pub proof fn lemma_alive_positions<T: IHandleArrayItem + Default>(a: HandleArray<T>)
    ensures
        forall|k: int|
            0 <= k < a.alive_positions().len() ==> #[trigger] a.alive_positions()[k] >= 1
                && a.occupied(a.alive_positions()[k] as int),
        forall|k1: int, k2: int|
            0 <= k1 < k2 < a.alive_positions().len() ==> #[trigger] a.alive_positions()[k1]
                < #[trigger] a.alive_positions()[k2],
        forall|j: int| #[trigger] a.occupied(j) ==> a.alive_positions().contains(j as usize),
{
    assert(a.slots().len() == a.data.len());
    lemma_positions_from(a.slots(), 0);
    assert forall|j: int| #[trigger] a.occupied(j) implies a.alive_positions().contains(
        j as usize,
    ) by {
        assert(a.slots()[j].handle_of().index != 0);
    }
}

/// An inserted value is found at its handle's slot, unchanged but for the
/// handle, which is the one returned; that handle is never null.
pub proof fn lemma_round_trip<T: IHandleArrayItem + Default>(
    before: HandleArray<T>,
    item: T,
    h: Handle,
    after: HandleArray<T>,
)
    requires
        HandleArray::added(before, item, h, after),
    ensures
        1 <= h.index < after.slots().len(),
        after.slots()[h.index as int] == item.with_handle(h),
        after.slots()[h.index as int].handle_of() == h,
{
}

/// In a well-formed store the walk over the live slots yields as many
/// pairs as there are live items.
pub proof fn lemma_alive_count<T: IHandleArrayItem + Default>(a: HandleArray<T>)
    requires
        a.wf(),
    ensures
        a.alive_positions().len() == a.alive_count(),
{
}

/// Each insertion adds one pair to the walk over the live slots and each
/// removal takes one away; a new store yields none. So after any run of
/// insertions and removals (no handle removed twice) the walk yields as
/// many pairs as there were insertions less removals.
pub proof fn lemma_alive_count_steps<T: IHandleArrayItem + Default>(
    before: HandleArray<T>,
    item: T,
    h: Handle,
    after_add: HandleArray<T>,
    removed_handle: Handle,
    after_remove: HandleArray<T>,
)
    requires
        before.wf(),
        after_add.wf(),
        after_remove.wf(),
    ensures
        before.slots().len() == 0 ==> before.alive_positions().len() == 0,
        HandleArray::added(before, item, h, after_add) ==> after_add.alive_positions().len()
            == before.alive_positions().len() + 1,
        HandleArray::removed(before, removed_handle, after_remove) ==> after_remove.alive_positions().len()
            == before.alive_positions().len() - 1,
{
}

/// Removing `h` and then inserting, with no removal in between, reuses the
/// slot of `h` under a handle one generation newer.
pub proof fn lemma_slot_reuse<T: IHandleArrayItem + Default>(
    s0: HandleArray<T>,
    h: Handle,
    s1: HandleArray<T>,
    item: T,
    h2: Handle,
    s2: HandleArray<T>,
)
    requires
        h.generation < usize::MAX,
        HandleArray::removed(s0, h, s1),
        HandleArray::added(s1, item, h2, s2),
    ensures
        h2.index == h.index,
        h2.generation == h.generation + 1,
{
}

/// Writing a value into a slot keeps the store well-formed as long as the
/// value's handle is the one the slot held, as when a value is changed
/// through `get_mut` or `alive_iter_mut` and its handle is left alone.
pub proof fn lemma_update_keeps_wf<T: IHandleArrayItem + Default>(
    a: HandleArray<T>,
    i: int,
    v: T,
    b: HandleArray<T>,
)
    requires
        a.wf(),
        0 <= i < a.slots().len(),
        v.handle_of() == a.slots()[i].handle_of(),
        b.slots() == a.slots().update(i, v),
        b.free_handles() == a.free_handles(),
        b.alive_count() == a.alive_count(),
    ensures
        b.wf(),
        b.alive_positions() == a.alive_positions(),
{
    lemma_positions_equal_handles(a.slots(), b.slots(), 0);
}

/// Two arrays of equal length whose values hold the same handles have the
/// same live positions.
proof fn lemma_positions_equal_handles<T: IHandleArrayItem>(s: Seq<T>, t: Seq<T>, i: int)
    requires
        s.len() == t.len(),
        0 <= i,
        forall|j: int| 0 <= j < s.len() ==> #[trigger] s[j].handle_of() == t[j].handle_of(),
    ensures
        positions_from(s, i) == positions_from(t, i),
    decreases s.len() - i,
{
    if i < s.len() {
        lemma_positions_equal_handles(s, t, i + 1);
    }
}

} // verus!
