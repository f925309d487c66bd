use vstd::prelude::*;
use crate::handle_array::{HandleArray, IHandleArrayItem, positions_from};

verus! {

/// Walks the slots of a `HandleArray` and yields each live one with its
/// position, in increasing order, skipping the sentinel and empty slots.
pub struct HandleArrayIter<'a, T: IHandleArrayItem> {
    data: &'a Vec<T>,
    index: usize,
}

/// Like `HandleArrayIter`, yielding mutable access to each live value. It
/// lends one value at a time: each reference ends before the next call.
pub struct HandleArrayIterMut<'a, T: IHandleArrayItem> {
    /// The borrowed slots.
    pub data: &'a mut Vec<T>,
    /// The first position not yet looked at.
    pub index: usize,
}

impl<'a, T: IHandleArrayItem> HandleArrayIter<'a, T> {
    /// The slots walked over.
    pub closed spec fn slots(&self) -> Seq<T> {
        self.data@
    }

    /// The positions still to be yielded.
    pub closed spec fn remaining(&self) -> Seq<usize> {
        positions_from(self.data@, self.index as int)
    }

    /// The next live position and its value, or `None` once all are out.
    pub fn next(&mut self) -> (ret: Option<(usize, &'a T)>)
        ensures
            final(self).slots() == old(self).slots(),
            old(self).remaining().len() == 0 ==> ret is None && final(self).remaining().len() == 0,
            old(self).remaining().len() > 0 ==> (ret matches Some((j, r))
                && j == old(self).remaining()[0]
                && 1 <= j < old(self).slots().len()
                && old(self).slots()[j as int].handle_of().index != 0
                && *r == old(self).slots()[j as int]
                && final(self).remaining() == old(self).remaining().drop_first()),
    {
        let data: &'a Vec<T> = self.data;
        let mut i: usize = self.index;
        while i < data.len()
            invariant
                self.data == data,
                data == old(self).data,
                positions_from(data@, i as int) == positions_from(data@, old(self).index as int),
            decreases data.len() - i,
        {
            if i != 0 && data[i].get_handle().index != 0 {
                self.index = i + 1;
                return Some((i, &data[i]));
            }
            i = i + 1;
        }
        self.index = i;
        None
    }
}

impl<'a, T: IHandleArrayItem> HandleArrayIterMut<'a, T> {
    /// The positions still to be yielded.
    pub open spec fn remaining(&self) -> Seq<usize> {
        positions_from(self.data@, self.index as int)
    }

    /// The next live position with mutable access to its value, or `None`
    /// once all are out. What is written through the reference lands in the
    /// borrowed slots.
    pub fn next(&mut self) -> (ret: Option<(usize, &mut T)>)
        ensures
            *final(final(self).data) == *final(old(self).data),
            old(self).remaining().len() == 0 ==> ret is None
                && final(self).data@ == old(self).data@
                && final(self).remaining().len() == 0,
            old(self).remaining().len() > 0 ==> (ret matches Some((j, r))
                && j == old(self).remaining()[0]
                && 1 <= j < old(self).data@.len()
                && old(self).data@[j as int].handle_of().index != 0
                && *r == old(self).data@[j as int]
                && final(self).data@ == old(self).data@.update(j as int, *final(r))
                && final(self).index == j + 1),
    {
        let mut i: usize = self.index;
        while i < self.data.len()
            invariant
                self.data@ == old(self).data@,
                *final(self.data) == *final(old(self).data),
                positions_from(self.data@, i as int) == positions_from(
                    self.data@,
                    old(self).index as int,
                ),
            decreases self.data.len() - i,
        {
            if i != 0 && self.data[i].get_handle().index != 0 {
                self.index = i + 1;
                return Some((i, &mut self.data[i]));
            }
            i = i + 1;
        }
        self.index = i;
        None
    }
}

impl<T: IHandleArrayItem + Default> HandleArray<T> {
    /// A walk over the live slots, in increasing position order.
    pub fn alive_iter(&self) -> (r: HandleArrayIter<'_, T>)
        ensures
            r.slots() == self.slots(),
            r.remaining() == self.alive_positions(),
    {
        HandleArrayIter { data: &self.data, index: 0 }
    }

    /// A walk over the live slots with mutable access; the store afterwards
    /// holds whatever the walk left in its slots.
    pub fn alive_iter_mut(&mut self) -> (r: HandleArrayIterMut<'_, T>)
        ensures
            r.data@ == old(self).slots(),
            r.index == 0,
            final(self).slots() == (*final(r.data))@,
            final(self).free_handles() == old(self).free_handles(),
            final(self).alive_count() == old(self).alive_count(),
    {
        HandleArrayIterMut { data: &mut self.data, index: 0 }
    }
}

} // verus!
