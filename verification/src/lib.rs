//! A fixed-capacity vector backed by storage whose size never changes after
//! construction.
//!
//! The crate offers two cooperating container types. [`SliceVec`] couples a
//! backing block of runtime-chosen size with a logical length; every slot at
//! or beyond the logical length always holds the element type's default
//! value. [`ArrayVec`] owns a `SliceVec` whose capacity is fixed at the
//! compile-time constant `N` and forwards the whole interface to it.
//! Capacity exhaustion is reported through [`ExtendError`], which hands the
//! rejected item back to the caller.

pub mod iter;

use vstd::prelude::*;

verus! {

/// Holds exactly when `v` is a value that `T`'s `Default` implementation can
/// produce. Slots outside a container's logical prefix always satisfy this.
pub open spec fn is_default<T: Default>(v: T) -> bool {
    call_ensures(T::default, (), v)
}

/// The single error of this crate: a push found no free slot. It carries the
/// number of missing slots (always 1, since only single-element pushes
/// exist) and returns the rejected item to the caller unchanged.
pub struct ExtendError<T> {
    /// How many more slots the container would have needed; always 1.
    pub missing_capacity: usize,
    /// The item that could not be inserted, handed back for reuse.
    pub item: T,
}

/// A vector of `T` with a fixed physical capacity chosen at construction.
///
/// The backing block is created once and never grows or shrinks; only the
/// logical length moves. Slots in `[len, capacity)` always hold `T`'s
/// default value, so nothing logically removed lingers in storage.
pub struct SliceVec<T> {
    len: usize,
    storage: Vec<T>,
}

impl<T> View for SliceVec<T> {
    type V = Seq<T>;

    /// The logical contents: the prefix `[0, len)` of the backing block.
    closed spec fn view(&self) -> Seq<T> {
        self.storage@.take(self.len as int)
    }
}

impl<T> SliceVec<T> {
    /// The full backing block, including the slots beyond the logical length.
    pub closed spec fn slots(&self) -> Seq<T> {
        self.storage@
    }

    /// Total number of physical slots; constant for a given container.
    pub open spec fn spec_capacity(&self) -> int {
        self.slots().len() as int
    }
}

impl<T: Default> SliceVec<T> {
    /// Well-formedness: the logical length fits the backing block, the view
    /// is its logical prefix, and every slot beyond the length is default.
    pub closed spec fn wf(&self) -> bool {
        &&& self.len <= self.storage@.len()
        &&& forall|i: int|
            self.len <= i < self.storage@.len() ==> is_default(#[trigger] self.storage@[i])
    }

    /// Builds an empty container whose backing block holds `capacity`
    /// default-valued slots.
    pub fn with_capacity(capacity: usize) -> (r: Self)
        ensures
            r.wf(),
            r@ == Seq::<T>::empty(),
            r.spec_capacity() == capacity,
    {
        let mut storage: Vec<T> = Vec::new();
        while storage.len() < capacity
            invariant
                storage@.len() <= capacity,
                forall|i: int| 0 <= i < storage@.len() ==> is_default(#[trigger] storage@[i]),
            decreases capacity - storage@.len(),
        {
            storage.push(T::default());
        }
        let r = SliceVec { len: 0, storage };
        proof {
            assert(r@ =~= Seq::<T>::empty());
        }
        r
    }

    /// Total number of physical slots.
    pub fn capacity(&self) -> (r: usize)
        ensures
            r == self.spec_capacity(),
    {
        self.storage.len()
    }

    /// Current logical length.
    pub fn len(&self) -> (r: usize)
        requires
            self.wf(),
        ensures
            r == self@.len(),
    {
        self.len
    }

    /// Whether the container holds no elements.
    pub fn is_empty(&self) -> (r: bool)
        requires
            self.wf(),
        ensures
            r == (self@.len() == 0),
    {
        self.len == 0
    }

    /// Read access to the logical prefix: `Some` exactly on indices below
    /// the logical length.
    pub fn get(&self, i: usize) -> (r: Option<&T>)
        requires
            self.wf(),
        ensures
            i < self@.len() ==> (r matches Some(x) && *x == self@[i as int]),
            i >= self@.len() ==> r is None,
    {
        if i < self.len {
            Some(&self.storage[i])
        } else {
            None
        }
    }

    /// Write access to the logical prefix: overwrites the element at `i`.
    pub fn set(&mut self, i: usize, value: T)
        requires
            old(self).wf(),
            i < old(self)@.len(),
        ensures
            final(self).wf(),
            final(self)@ == old(self)@.update(i as int, value),
            final(self).spec_capacity() == old(self).spec_capacity(),
    {
        self.storage[i] = value;
        proof {
            assert(final(self)@ =~= old(self)@.update(i as int, value));
        }
    }

    /// Moves the element at `i` out of the container, leaving the default
    /// value in its slot. The logical length does not change.
    pub(crate) fn take_at(&mut self, i: usize) -> (r: T)
        requires
            old(self).wf(),
            i < old(self)@.len(),
        ensures
            final(self).wf(),
            r == old(self)@[i as int],
            final(self)@.len() == old(self)@.len(),
            forall|j: int| 0 <= j < old(self)@.len() && j != i ==> final(self)@[j] == old(self)@[j],
            is_default(final(self)@[i as int]),
            final(self).spec_capacity() == old(self).spec_capacity(),
    {
        let mut item: T = T::default();
        core::mem::swap(&mut self.storage[i], &mut item);
        item
    }

    /// Shrinks the logical length to `new_len`, resetting every removed slot
    /// to the default value; a no-op when `new_len` is not below the current
    /// length. Never grows the container and never fails.
    pub fn truncate(&mut self, new_len: usize)
        requires
            old(self).wf(),
        ensures
            final(self).wf(),
            final(self).spec_capacity() == old(self).spec_capacity(),
            new_len >= old(self)@.len() ==> *final(self) == *old(self),
            new_len < old(self)@.len() ==> {
                &&& final(self)@ == old(self)@.take(new_len as int)
                &&& forall|i: int|
                    new_len <= i < old(self)@.len() ==> is_default(#[trigger] final(self).slots()[i])
            },
    {
        if new_len >= self.len {
            return;
        }
        let old_len = self.len;
        let mut i: usize = new_len;
        while i < old_len
            invariant
                old(self).wf(),
                new_len <= i <= old_len,
                old_len == old(self).len,
                old_len == old(self)@.len(),
                self.len == old(self).len,
                self.storage@.len() == old(self).slots().len(),
                forall|j: int| 0 <= j < new_len ==> self.storage@[j] == old(self).slots()[j],
                forall|j: int| new_len <= j < i ==> is_default(#[trigger] self.storage@[j]),
                forall|j: int| i <= j < self.storage@.len() ==> self.storage@[j] == old(self).slots()[j],
            decreases old_len - i,
        {
            self.storage[i] = T::default();
            i += 1;
        }
        proof {
            assert forall|j: int|
                old_len <= j < self.storage@.len() implies is_default(
                #[trigger] self.storage@[j],
            ) by {
                assert(self.storage@[j] == old(self).slots()[j]);
                assert(is_default(old(self).storage@[j]));
            };
        }
        self.len = new_len;
        proof {
            assert(final(self)@ =~= old(self)@.take(new_len as int));
        }
    }

    /// Empties the container, resetting every previously live slot to the
    /// default value.
    pub fn clear(&mut self)
        requires
            old(self).wf(),
        ensures
            final(self).wf(),
            final(self).spec_capacity() == old(self).spec_capacity(),
            final(self)@ == Seq::<T>::empty(),
            forall|i: int|
                0 <= i < old(self)@.len() ==> is_default(#[trigger] final(self).slots()[i]),
    {
        self.truncate(0);
        proof {
            assert(final(self)@ =~= Seq::<T>::empty());
        }
    }

    /// Removes and returns the most recently pushed element, leaving the
    /// default value in the slot it vacated; returns `None` exactly on an
    /// empty container, which it leaves untouched.
    pub fn pop(&mut self) -> (r: Option<T>)
        requires
            old(self).wf(),
        ensures
            final(self).wf(),
            final(self).spec_capacity() == old(self).spec_capacity(),
            old(self)@.len() == 0 ==> r is None && *final(self) == *old(self),
            old(self)@.len() > 0 ==> {
                &&& r == Some(old(self)@.last())
                &&& final(self)@ == old(self)@.drop_last()
                &&& is_default(final(self).slots()[old(self)@.len() - 1])
            },
    {
        if self.len == 0 {
            return None;
        }
        let index = self.len - 1;
        let item = self.take_at(index);
        self.len = index;
        proof {
            assert(final(self)@ =~= old(self)@.drop_last());
        }
        Some(item)
    }

    /// Appends `item` when a free slot exists and reports success; on a full
    /// container, leaves it completely unmodified and returns an error
    /// carrying one missing slot and the rejected item.
    pub fn try_push(&mut self, item: T) -> (r: Result<(), ExtendError<T>>)
        requires
            old(self).wf(),
        ensures
            final(self).wf(),
            final(self).spec_capacity() == old(self).spec_capacity(),
            old(self)@.len() < old(self).spec_capacity() ==> {
                &&& r is Ok
                &&& final(self)@ == old(self)@.push(item)
            },
            old(self)@.len() >= old(self).spec_capacity() ==> {
                &&& *final(self) == *old(self)
                &&& (r matches Err(e) && e.missing_capacity == 1 && e.item == item)
            },
    {
        if self.len < self.storage.len() {
            let index = self.len;
            self.storage[index] = item;
            self.len = index + 1;
            proof {
                assert(final(self)@ =~= old(self)@.push(item));
            }
            Ok(())
        } else {
            Err(ExtendError { missing_capacity: 1, item })
        }
    }

    /// Appends `item` to a container the caller knows is not full. The
    /// fail-fast twin of `try_push`: capacity exhaustion is ruled out up
    /// front instead of being reported back.
    pub fn push(&mut self, item: T)
        requires
            old(self).wf(),
            old(self)@.len() < old(self).spec_capacity(),
        ensures
            final(self).wf(),
            final(self).spec_capacity() == old(self).spec_capacity(),
            final(self)@ == old(self)@.push(item),
    {
        match self.try_push(item) {
            Ok(()) => {}
            Err(_) => {
                vstd::pervasive::unreached::<()>()
            }
        }
    }
}

/// The logical length never exceeds the capacity, in any well-formed
/// container and after any sequence of operations that keep it well-formed.
pub proof fn lemma_len_le_capacity<T: Default>(v: &SliceVec<T>)
    requires
        v.wf(),
    ensures
        v@.len() <= v.spec_capacity(),
{
}

/// An owning container: a [`SliceVec`] whose capacity is fixed at the
/// compile-time constant `N`. Everything it can do, it does by forwarding to
/// the view form over its full backing block.
pub struct ArrayVec<T, const N: usize> {
    inner: SliceVec<T>,
}

impl<T, const N: usize> View for ArrayVec<T, N> {
    type V = Seq<T>;

    /// The logical contents, shared with the view form.
    closed spec fn view(&self) -> Seq<T> {
        self.inner@
    }
}

impl<T, const N: usize> ArrayVec<T, N> {
    /// The full backing block, including the slots beyond the logical length.
    pub closed spec fn slots(&self) -> Seq<T> {
        self.inner.slots()
    }
}

impl<T: Default, const N: usize> ArrayVec<T, N> {
    /// Well-formedness: the underlying view form is well-formed and its
    /// backing block holds exactly `N` slots.
    pub closed spec fn wf(&self) -> bool {
        &&& self.inner.wf()
        &&& self.inner.spec_capacity() == N as int
    }

    /// Builds an empty container over `N` default-valued slots.
    pub fn new() -> (r: Self)
        ensures
            r.wf(),
            r@ == Seq::<T>::empty(),
            r.slots().len() == N,
    {
        ArrayVec { inner: SliceVec::with_capacity(N) }
    }

    /// The view form over this container's full backing block. All reads go
    /// through the same logical prefix, so the two share one view.
    pub fn as_view(&self) -> (r: &SliceVec<T>)
        ensures
            r@ == self@,
            r.slots() == self.slots(),
            self.wf() ==> r.wf() && r.spec_capacity() == N,
    {
        &self.inner
    }

    /// Total number of physical slots: always `N`.
    pub fn capacity(&self) -> (r: usize)
        requires
            self.wf(),
        ensures
            r == N,
    {
        self.inner.capacity()
    }

    /// Current logical length.
    pub fn len(&self) -> (r: usize)
        requires
            self.wf(),
        ensures
            r == self@.len(),
    {
        self.inner.len()
    }

    /// Whether the container holds no elements.
    pub fn is_empty(&self) -> (r: bool)
        requires
            self.wf(),
        ensures
            r == (self@.len() == 0),
    {
        self.inner.is_empty()
    }

    /// Read access to the logical prefix: `Some` exactly on indices below
    /// the logical length.
    pub fn get(&self, i: usize) -> (r: Option<&T>)
        requires
            self.wf(),
        ensures
            i < self@.len() ==> (r matches Some(x) && *x == self@[i as int]),
            i >= self@.len() ==> r is None,
    {
        self.inner.get(i)
    }

    /// Write access to the logical prefix: overwrites the element at `i`.
    pub fn set(&mut self, i: usize, value: T)
        requires
            old(self).wf(),
            i < old(self)@.len(),
        ensures
            final(self).wf(),
            final(self)@ == old(self)@.update(i as int, value),
    {
        self.inner.set(i, value)
    }

    /// Moves the element at `i` out of the container, leaving the default
    /// value in its slot. The logical length does not change.
    pub(crate) fn take_at(&mut self, i: usize) -> (r: T)
        requires
            old(self).wf(),
            i < old(self)@.len(),
        ensures
            final(self).wf(),
            r == old(self)@[i as int],
            final(self)@.len() == old(self)@.len(),
            forall|j: int| 0 <= j < old(self)@.len() && j != i ==> final(self)@[j] == old(self)@[j],
            is_default(final(self)@[i as int]),
    {
        self.inner.take_at(i)
    }

    /// Shrinks the logical length to `new_len`, resetting every removed slot
    /// to the default value; a no-op when `new_len` is not below the current
    /// length.
    pub fn truncate(&mut self, new_len: usize)
        requires
            old(self).wf(),
        ensures
            final(self).wf(),
            new_len >= old(self)@.len() ==> *final(self) == *old(self),
            new_len < old(self)@.len() ==> {
                &&& final(self)@ == old(self)@.take(new_len as int)
                &&& forall|i: int|
                    new_len <= i < old(self)@.len() ==> is_default(#[trigger] final(self).slots()[i])
            },
    {
        self.inner.truncate(new_len)
    }

    /// Empties the container, resetting every previously live slot to the
    /// default value.
    pub fn clear(&mut self)
        requires
            old(self).wf(),
        ensures
            final(self).wf(),
            final(self)@ == Seq::<T>::empty(),
            forall|i: int|
                0 <= i < old(self)@.len() ==> is_default(#[trigger] final(self).slots()[i]),
    {
        self.inner.clear()
    }

    /// Removes and returns the most recently pushed element, leaving the
    /// default value in the slot it vacated; returns `None` exactly on an
    /// empty container, which it leaves untouched.
    pub fn pop(&mut self) -> (r: Option<T>)
        requires
            old(self).wf(),
        ensures
            final(self).wf(),
            old(self)@.len() == 0 ==> r is None && *final(self) == *old(self),
            old(self)@.len() > 0 ==> {
                &&& r == Some(old(self)@.last())
                &&& final(self)@ == old(self)@.drop_last()
                &&& is_default(final(self).slots()[old(self)@.len() - 1])
            },
    {
        self.inner.pop()
    }

    /// Appends `item` when a free slot exists and reports success; on a full
    /// container, leaves it completely unmodified and returns an error
    /// carrying one missing slot and the rejected item.
    pub fn try_push(&mut self, item: T) -> (r: Result<(), ExtendError<T>>)
        requires
            old(self).wf(),
        ensures
            final(self).wf(),
            old(self)@.len() < N ==> {
                &&& r is Ok
                &&& final(self)@ == old(self)@.push(item)
            },
            old(self)@.len() >= N ==> {
                &&& *final(self) == *old(self)
                &&& (r matches Err(e) && e.missing_capacity == 1 && e.item == item)
            },
    {
        self.inner.try_push(item)
    }

    /// Appends `item` to a container the caller knows is not full. The
    /// fail-fast twin of `try_push`: capacity exhaustion is ruled out up
    /// front instead of being reported back.
    pub fn push(&mut self, item: T)
        requires
            old(self).wf(),
            old(self)@.len() < N,
        ensures
            final(self).wf(),
            final(self)@ == old(self)@.push(item),
    {
        self.inner.push(item)
    }
}

/// The logical length never exceeds the fixed capacity `N`, in any
/// well-formed owning container and after any sequence of operations that
/// keep it well-formed.
pub proof fn lemma_array_len_le_capacity<T: Default, const N: usize>(v: &ArrayVec<T, N>)
    requires
        v.wf(),
    ensures
        v@.len() <= N,
{
}

} // verus!
