use vstd::prelude::*;
use crate::handle::Handle;
use vstd::std_specs::iter::IteratorSpec;

verus! {

/// What a value must offer to be kept in a `HandleArray`: the store stamps
/// each value's handle into the value itself. A value's `Default` form is
/// the empty slot, whose handle has index 0.
pub trait IHandleArrayItem: Sized {
    /// The handle held by the value. An implementation proved with this
    /// library states its own; the default body only lets implementations
    /// written in plain Rust compile, and proofs about a generic item never
    /// rely on it.
    closed spec fn handle_of(&self) -> Handle {
        Handle { index: 0, generation: 0 }
    }

    /// The value with its handle replaced by `h` and all else kept. As with
    /// `handle_of`, the default body is never relied on.
    closed spec fn with_handle(&self, h: Handle) -> Self {
        *self
    }

    fn get_handle(&self) -> (r: Handle)
        ensures
            r == self.handle_of(),
    ;

    fn set_handle(&mut self, handle: Handle)
        ensures
            *final(self) == old(self).with_handle(handle),
            final(self).handle_of() == handle,
    ;
}

/// 1 where the slot value holds a live item (its handle's index is not 0).
pub open spec fn occupied_weight<T: IHandleArrayItem>(v: T) -> nat {
    if v.handle_of().index != 0 { 1 } else { 0 }
}

/// The positions `j >= max(i, 1)` of `s` whose value holds a live item, in
/// increasing order. Position 0 is the sentinel and never counts.
pub open spec fn positions_from<T: IHandleArrayItem>(s: Seq<T>, i: int) -> Seq<usize>
    decreases s.len() - i,
{
    if i >= s.len() {
        Seq::empty()
    } else if i >= 1 && s[i].handle_of().index != 0 {
        seq![i as usize].add(positions_from(s, i + 1))
    } else {
        positions_from(s, i + 1)
    }
}

/// Replacing the value at `j` changes the count of live positions from `i`
/// by the difference of the two values' weights.
proof fn lemma_update_count<T: IHandleArrayItem>(s: Seq<T>, i: int, j: int, v: T)
    requires
        1 <= j < s.len(),
        0 <= i,
    ensures
        i <= j ==> positions_from(s.update(j, v), i).len() + occupied_weight(s[j])
            == positions_from(s, i).len() + occupied_weight(v),
        i > j ==> positions_from(s.update(j, v), i) == positions_from(s, i),
    decreases s.len() - i,
{
    if i < s.len() {
        lemma_update_count(s, i + 1, j, v);
    }
}

/// Appending a value adds its weight to the count of live positions from `i`.
proof fn lemma_push_count<T: IHandleArrayItem>(s: Seq<T>, i: int, v: T)
    requires
        1 <= s.len(),
        0 <= i <= s.len(),
    ensures
        positions_from(s.push(v), i).len() == positions_from(s, i).len() + occupied_weight(v),
    decreases s.len() - i,
{
    if i < s.len() {
        lemma_push_count(s, i + 1, v);
    } else {
        assert(positions_from(s.push(v), i + 1) =~= Seq::<usize>::empty());
    }
}

/// The slot store: a growable array of values, a stack of reclaimed handles
/// and the number of live items.
///
/// Slots are only ever added, never removed or moved, so memory follows the
/// largest number of items ever live at once. Access goes straight to the
/// handle's index: a handle's generation is never compared with the slot's,
/// so a handle kept past its removal reaches whatever the slot holds now.
pub struct HandleArray<T: IHandleArrayItem> {
    pub(crate) data: Vec<T>,
    pub(crate) free_list: Vec<Handle>,
    pub(crate) alive: usize,
}

impl<T: IHandleArrayItem + Default> HandleArray<T> {
    /// The values in the slots, sentinel included.
    pub open(crate) spec fn slots(&self) -> Seq<T> {
        self.data@
    }

    /// The reclaimed handles; the last one is reused first.
    pub open(crate) spec fn free_handles(&self) -> Seq<Handle> {
        self.free_list@
    }

    /// The number of live items.
    pub open(crate) spec fn alive_count(&self) -> nat {
        self.alive as nat
    }

    /// Slot `i` holds a live item.
    pub open spec fn occupied(&self, i: int) -> bool {
        1 <= i < self.slots().len() && self.slots()[i].handle_of().index != 0
    }

    /// The live positions, in increasing order.
    pub open spec fn alive_positions(&self) -> Seq<usize> {
        positions_from(self.slots(), 0)
    }

    /// The store's invariant: slot 0 is an empty sentinel; every other slot
    /// is empty or holds a handle naming its own position; the free list
    /// names distinct empty slots; and the live count is the number of
    /// occupied slots, which with the free list and the sentinel covers the
    /// whole array.
    pub open spec fn wf(&self) -> bool {
        let s = self.slots();
        let f = self.free_handles();
        &&& s.len() == 0 ==> f.len() == 0 && self.alive_count() == 0
        &&& s.len() > 0 ==> s.len() >= 2 && s[0].handle_of().index == 0 && self.alive_count()
            + f.len() + 1 == s.len()
        &&& self.alive_count() == self.alive_positions().len()
        &&& forall|i: int|
            1 <= i < s.len() ==> #[trigger] s[i].handle_of().index == 0 || s[i].handle_of().index
                == i
        &&& forall|k: int|
            0 <= k < f.len() ==> 1 <= #[trigger] f[k].index < s.len() && s[f[k].index as int].handle_of().index == 0
        &&& forall|k1: int, k2: int|
            0 <= k1 < k2 < f.len() ==> #[trigger] f[k1].index != #[trigger] f[k2].index
    }

    /// `after` is `before` with `item` stored under the new handle `h`: the
    /// handle is never null, the slot holds the item stamped with `h`, one
    /// more item is live, and `h` is the last reclaimed handle if there is
    /// one, else a fresh handle (generation 0) at the end of the array.
    pub open spec fn added(before: Self, item: T, h: Handle, after: Self) -> bool {
        &&& h.index >= 1
        &&& after.occupied(h.index as int)
        &&& after.slots()[h.index as int] == item.with_handle(h)
        &&& after.slots()[h.index as int].handle_of() == h
        &&& after.alive_count() == before.alive_count() + 1
        &&& before.free_handles().len() > 0 ==> {
            &&& h == before.free_handles().last()
            &&& after.free_handles() == before.free_handles().drop_last()
            &&& after.slots() == before.slots().update(h.index as int, item.with_handle(h))
        }
        &&& before.free_handles().len() == 0 ==> {
            &&& h == (Handle { index: (before.alive_count() + 1) as usize, generation: 0 })
            &&& after.free_handles() == before.free_handles()
            &&& before.slots().len() > 0 ==> after.slots() == before.slots().push(
                item.with_handle(h),
            )
            &&& before.slots().len() == 0 ==> after.slots().len() == 2
        }
    }

    /// `after` is `before` with the slot of `handle` emptied (its value now
    /// holds the null handle), one item fewer live, and `handle` pushed on
    /// the free list with its generation one higher; other slots are kept.
    pub open spec fn removed(before: Self, handle: Handle, after: Self) -> bool {
        &&& after.alive_count() == before.alive_count() - 1
        &&& after.free_handles() == before.free_handles().push(
            Handle { index: handle.index, generation: (handle.generation + 1) as usize },
        )
        &&& after.slots().len() == before.slots().len()
        &&& after.slots()[handle.index as int].handle_of() == (Handle { index: 0, generation: 0 })
        &&& forall|i: int|
            0 <= i < before.slots().len() && i != handle.index ==> after.slots()[i]
                == before.slots()[i]
    }

    /// An empty store with room reserved for `capacity` slots and as many
    /// reclaimed handles.
    pub fn new(capacity: usize) -> (r: HandleArray<T>)
        ensures
            r.wf(),
            r.slots().len() == 0,
            r.free_handles().len() == 0,
            r.alive_count() == 0,
    {
        HandleArray {
            data: Vec::with_capacity(capacity),
            free_list: Vec::with_capacity(capacity),
            alive: 0,
        }
    }

    /// Stores `item` and returns its handle, which is stamped into the stored
    /// value. The most recently reclaimed handle is reused first; with none
    /// to reuse the array grows by one slot (by two on the very first
    /// insertion, which also places the sentinel at position 0).
    pub fn add_item(&mut self, item: T) -> (h: Handle)
        requires
            old(self).wf(),
        ensures
            final(self).wf(),
            Self::added(*old(self), item, h, *final(self)),
    {
        let mut item = item;
        let len = self.data.len();
        if self.free_list.len() > 0 {
            let handle = self.free_list.pop().unwrap();
            proof {
                let k = self.free_list@.len() as int;
                assert(old(self).free_list@[k] == handle);
            }
            item.set_handle(handle);
            proof {
                lemma_update_count(self.data@, 0, handle.index as int, item);
            }
            self.data.set(handle.index, item);
            self.alive = self.alive + 1;
            proof {
                let f = self.free_list@;
                assert forall|k: int| 0 <= k < f.len() implies f[k].index != handle.index by {
                    assert(old(self).free_list@[k] == f[k]);
                }
                assert(self.alive_positions().len() == self.alive);
            }
            return handle;
        }
        if self.alive == 0 {
            let mut sentinel = T::default();
            sentinel.set_handle(Handle::default());
            self.data.push(sentinel);
            proof {
                assert(positions_from(self.data@, 1) =~= Seq::<usize>::empty());
            }
        }
        let h = Handle { index: self.alive + 1, generation: 0 };
        item.set_handle(h);
        proof {
            lemma_push_count(self.data@, 0, item);
        }
        self.data.push(item);
        self.alive = self.alive + 1;
        h
    }

    /// Empties the slot of `handle` and puts the handle, its generation one
    /// higher, on the free list. The slot must hold a live item: emptying it
    /// twice would list it twice as free. The handle's generation is not
    /// compared with the one stored in the slot.
    pub fn remove_item(&mut self, handle: Handle)
        requires
            old(self).wf(),
            old(self).occupied(handle.index as int),
            handle.generation < usize::MAX,
        ensures
            final(self).wf(),
            Self::removed(*old(self), handle, *final(self)),
    {
        let mut empty = T::default();
        empty.set_handle(Handle::default());
        proof {
            lemma_update_count(self.data@, 0, handle.index as int, empty);
        }
        self.data.set(handle.index, empty);
        let mut handle = handle;
        handle.generation = handle.generation + 1;
        self.free_list.push(handle);
        self.alive = self.alive - 1;
        proof {
            let f = self.free_list@;
            let s = self.data@;
            assert forall|k: int| 0 <= k < f.len() implies 1 <= #[trigger] f[k].index < s.len()
                && s[f[k].index as int].handle_of().index == 0 by {
                if k < f.len() - 1 {
                    assert(old(self).free_list@[k] == f[k]);
                }
            }
            assert forall|k1: int, k2: int| 0 <= k1 < k2 < f.len() implies #[trigger] f[k1].index
                != #[trigger] f[k2].index by {
                assert(old(self).free_list@[k1] == f[k1]);
                if k2 < f.len() - 1 {
                    assert(old(self).free_list@[k2] == f[k2]);
                }
            }
        }
    }

    /// The value in the slot of `handle`, whatever it is: neither liveness
    /// nor generation is checked.
    pub fn get(&self, handle: Handle) -> (r: &T)
        requires
            handle.index < self.slots().len(),
        ensures
            *r == self.slots()[handle.index as int],
    {
        &self.data[handle.index]
    }

    /// Mutable access to the slot of `handle`; as with `get`, nothing is
    /// checked but the bounds.
    pub fn get_mut(&mut self, handle: Handle) -> (r: &mut T)
        requires
            handle.index < old(self).slots().len(),
        ensures
            *r == old(self).slots()[handle.index as int],
            final(self).slots() == old(self).slots().update(handle.index as int, *final(r)),
            final(self).free_handles() == old(self).free_handles(),
            final(self).alive_count() == old(self).alive_count(),
    {
        &mut self.data[handle.index]
    }

    /// Every slot in order, the sentinel and empty slots included.
    pub fn iter(&self) -> (r: std::slice::Iter<'_, T>)
        ensures
            r.remaining() == self.slots().as_ref(),
    {
        broadcast use vstd::std_specs::slice::axiom_spec_slice_iter;
        self.data.as_slice().iter()
    }

    /// Every slot as a mutable slice, the sentinel and empty slots included.
    pub fn iter_mut(&mut self) -> (r: &mut [T])
        ensures
            r@ == old(self).slots(),
            final(self).slots() == final(r)@,
            final(self).free_handles() == old(self).free_handles(),
            final(self).alive_count() == old(self).alive_count(),
    {
        self.data.as_mut_slice()
    }
}

} // verus!
