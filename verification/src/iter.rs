//! Iteration over the containers' logical prefix.
//!
//! Two adapters: [`IntoIter`] consumes an owning container and moves its
//! elements out one by one (restoring each vacated slot to the default
//! value), and [`Iter`] walks a borrowed container yielding references. Both
//! traverse the logical prefix front to back, so elements come out in push
//! order, and neither ever reads past the logical length even though the
//! physical storage may extend further.

use vstd::prelude::*;

use crate::ArrayVec;
use crate::SliceVec;

verus! {

/// A consuming iterator over an owning container: each step moves the
/// element under the cursor out of storage, leaves the default value in its
/// slot, and advances. Once the cursor reaches the logical length it stays
/// there, and every further step reports the end again.
pub struct IntoIter<T, const N: usize> {
    data: ArrayVec<T, N>,
    front_offset: usize,
    taken: Ghost<Seq<T>>,
}

impl<T: Default, const N: usize> IntoIter<T, N> {
    /// The elements not yet yielded, in the order they will come out.
    pub closed spec fn remaining(&self) -> Seq<T> {
        self.data@.skip(self.front_offset as int)
    }

    /// The elements yielded so far, in the order they came out.
    pub closed spec fn yielded(&self) -> Seq<T> {
        self.taken@
    }

    /// Well-formedness: the container is well-formed and the cursor has not
    /// run past its logical length.
    pub closed spec fn wf(&self) -> bool {
        &&& self.data.wf()
        &&& self.front_offset <= self.data@.len()
    }

    /// Yields the next element, or `None` once the sequence is exhausted.
    /// Whatever has been yielded together with whatever remains is always
    /// the sequence the container originally held.
    pub fn next(&mut self) -> (r: Option<T>)
        requires
            old(self).wf(),
        ensures
            final(self).wf(),
            final(self).yielded() + final(self).remaining() == old(self).yielded()
                + old(self).remaining(),
            old(self).remaining().len() == 0 ==> r is None && *final(self) == *old(self),
            old(self).remaining().len() > 0 ==> {
                &&& r == Some(old(self).remaining()[0])
                &&& final(self).remaining() == old(self).remaining().skip(1)
                &&& final(self).yielded() == old(self).yielded().push(old(self).remaining()[0])
            },
    {
        if self.front_offset >= self.data.len() {
            return None;
        }
        let i = self.front_offset;
        let val = self.data.take_at(i);
        self.front_offset = i + 1;
        self.taken = Ghost(self.taken@.push(val));
        proof {
            assert(final(self).remaining() =~= old(self).remaining().skip(1));
            assert(final(self).yielded() + final(self).remaining() =~= old(self).yielded()
                + old(self).remaining());
        }
        Some(val)
    }

    /// The exact number of elements still to come, as both the lower and
    /// the upper bound.
    pub fn size_hint(&self) -> (r: (usize, Option<usize>))
        requires
            self.wf(),
        ensures
            r.0 == self.remaining().len(),
            r.1 == Some(r.0),
    {
        let hint = self.data.len() - self.front_offset;
        (hint, Some(hint))
    }
}

/// Round trip: a consuming iterator that set out over contents `s` and has
/// yielded everything has yielded exactly `s`, in push order.
pub proof fn lemma_exhausted_yielded_all<T: Default, const N: usize>(it: &IntoIter<T, N>, s: Seq<T>)
    requires
        it.yielded() + it.remaining() == s,
        it.remaining().len() == 0,
    ensures
        it.yielded() == s,
{
    assert(it.yielded() =~= s);
}

impl<T: Default, const N: usize> ArrayVec<T, N> {
    /// Consumes the container into an iterator that yields its elements in
    /// push order.
    pub fn into_iter(self) -> (r: IntoIter<T, N>)
        requires
            self.wf(),
        ensures
            r.wf(),
            r.remaining() == self@,
            r.yielded() == Seq::<T>::empty(),
    {
        let r = IntoIter { data: self, front_offset: 0, taken: Ghost(Seq::empty()) };
        proof {
            assert(r.remaining() =~= self@);
        }
        r
    }
}

/// A borrowing iterator: yields references to the elements of the logical
/// prefix, front to back, without touching the container. A fresh one can be
/// requested at any time, and each starts over the same full sequence.
pub struct Iter<'a, T> {
    data: &'a SliceVec<T>,
    pos: usize,
}

impl<'a, T: Default> Iter<'a, T> {
    /// The elements not yet visited, in the order they will be visited.
    pub closed spec fn remaining(&self) -> Seq<T> {
        self.data@.skip(self.pos as int)
    }

    /// Well-formedness: the container is well-formed and the cursor has not
    /// run past its logical length.
    pub closed spec fn wf(&self) -> bool {
        &&& self.data.wf()
        &&& self.pos <= self.data@.len()
    }

    /// Yields a reference to the next element, or `None` once every element
    /// of the logical prefix has been visited.
    pub fn next(&mut self) -> (r: Option<&'a T>)
        requires
            old(self).wf(),
        ensures
            final(self).wf(),
            old(self).remaining().len() == 0 ==> r is None && *final(self) == *old(self),
            old(self).remaining().len() > 0 ==> {
                &&& (r matches Some(x) && *x == old(self).remaining()[0])
                &&& final(self).remaining() == old(self).remaining().skip(1)
            },
    {
        if self.pos >= self.data.len() {
            return None;
        }
        let i = self.pos;
        self.pos = i + 1;
        let r = self.data.get(i);
        proof {
            assert(final(self).remaining() =~= old(self).remaining().skip(1));
        }
        r
    }
}

impl<T: Default> SliceVec<T> {
    /// A borrowing iterator over the logical prefix, starting at the front.
    pub fn iter(&self) -> (r: Iter<'_, T>)
        requires
            self.wf(),
        ensures
            r.wf(),
            r.remaining() == self@,
    {
        let r = Iter { data: self, pos: 0 };
        proof {
            assert(r.remaining() =~= self@);
        }
        r
    }
}

impl<T: Default, const N: usize> ArrayVec<T, N> {
    /// A borrowing iterator over the logical prefix, starting at the front.
    pub fn iter(&self) -> (r: Iter<'_, T>)
        requires
            self.wf(),
        ensures
            r.wf(),
            r.remaining() == self@,
    {
        self.as_view().iter()
    }
}

} // verus!
