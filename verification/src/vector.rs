use crate::into_iter::IntoIter;
use crate::raw_buffer::grown_capacity;
use crate::raw_buffer::RawBuffer;
use vstd::prelude::*;

verus! {

/// The error for `insert`, `remove` and the direct-indexing form when the
/// index lies outside the valid range. Bounds are checked before any slot of
/// the buffer is touched, and the container is left unchanged.
#[derive(Clone, Copy, Debug, PartialEq, Eq, Structural)]
pub struct OutOfBounds;

/// A growable, contiguous container: a [`RawBuffer`] it owns exclusively,
/// plus the count of logically present elements. Slots `[0, len)` of the
/// buffer each hold a live element; slots `[len, capacity)` hold none. All
/// allocation and growth is delegated to the buffer; the container's own job
/// is the logical sequence, which its view presents as a `Seq` of the live
/// elements in order.
pub struct Vec<T> {
    pub(crate) buf: RawBuffer<T>,
    pub(crate) len: usize,
}

impl<T> View for Vec<T> {
    type V = Seq<T>;

    /// The live elements, in order.
    closed spec fn view(&self) -> Seq<T> {
        Seq::new(self.len as nat, |i: int| self.buf.slots()[i]->0)
    }
}

impl<T> Vec<T> {
    /// The number of slots the owned buffer has allocated.
    pub closed spec fn cap(&self) -> nat {
        self.buf.cap()
    }

    /// The container's invariant: the buffer is well formed, the length never
    /// exceeds the capacity, every slot below the length holds a live
    /// element, and every slot from the length up holds none.
    pub closed spec fn wf(&self) -> bool {
        &&& self.buf.wf()
        &&& self.len <= self.buf.cap()
        &&& forall|i: int| 0 <= i < self.len ==> (#[trigger] self.buf.slots()[i]) is Some
        &&& forall|i: int|
            self.len <= i < self.buf.cap() ==> (#[trigger] self.buf.slots()[i]) is None
    }

    /// An empty container: capacity zero, length zero, nothing allocated.
    /// Zero-sized element types are not supported and are excluded by the
    /// `requires`; construction over them would otherwise have to be fatal.
    pub fn new() -> (r: Self)
        requires
            vstd::layout::size_of::<T>() != 0,
        ensures
            r.wf(),
            r@ == Seq::<T>::empty(),
            r.cap() == 0,
    {
        let r = Vec { buf: RawBuffer::new(), len: 0 };
        proof {
            assert(r@ =~= Seq::<T>::empty());
        }
        r
    }

    /// The central invariant of the data model, stated publicly: a well
    /// formed container never holds more elements than its buffer has slots.
    pub proof fn lemma_length_le_capacity(&self)
        requires
            self.wf(),
        ensures
            self@.len() <= self.cap(),
    {
    }

    /// The count of logically present elements.
    pub fn len(&self) -> (r: usize)
        ensures
            r == self@.len(),
    {
        self.len
    }

    /// The count of element slots currently allocated, occupied or not.
    pub fn capacity(&self) -> (r: usize)
        ensures
            r == self.cap(),
    {
        self.buf.capacity()
    }

    /// Appends `value` after the last element, growing the buffer first when
    /// it is full. A growth request whose byte size would exceed the maximum
    /// signed address-space size is fatal and has no recovery path, so the
    /// `requires` excludes it; it is vacuous whenever a slot is still free.
    pub fn push(&mut self, value: T)
        requires
            old(self).wf(),
            old(self)@.len() == old(self).cap() ==> grown_capacity(old(self).cap())
                * vstd::layout::size_of::<T>() <= isize::MAX as nat,
        ensures
            final(self).wf(),
            final(self)@ == old(self)@.push(value),
            final(self).cap() == if old(self)@.len() < old(self).cap() {
                old(self).cap()
            } else {
                grown_capacity(old(self).cap())
            },
    {
        if self.len == self.buf.capacity() {
            self.buf.grow();
        }
        self.buf.put(self.len, value);
        self.len = self.len + 1;
        proof {
            assert(self@ =~= old(self)@.push(value));
        }
    }

    /// Removes and returns the last element, or returns the empty-indicator
    /// on an empty container; emptiness is not an error here.
    pub fn pop(&mut self) -> (r: Option<T>)
        requires
            old(self).wf(),
        ensures
            final(self).wf(),
            final(self).cap() == old(self).cap(),
            old(self)@.len() == 0 ==> r is None && final(self)@ == old(self)@,
            old(self)@.len() > 0 ==> r == Some(old(self)@.last())
                && final(self)@ == old(self)@.drop_last(),
    {
        if self.len == 0 {
            proof {
                assert(self@ =~= old(self)@);
            }
            None
        } else {
            let last = self.len - 1;
            let r = self.buf.take(last);
            self.len = last;
            proof {
                assert(self@ =~= old(self)@.drop_last());
            }
            r
        }
    }

    /// Borrows the element at `index`, or returns the empty-indicator when
    /// `index` lies at or beyond the length; this form never fails.
    pub fn get(&self, index: usize) -> (r: Option<&T>)
        requires
            self.wf(),
        ensures
            index < self@.len() ==> (r matches Some(e) && *e == self@[index as int]),
            index >= self@.len() ==> r is None,
    {
        if index < self.len {
            self.buf.read(index).as_ref()
        } else {
            None
        }
    }

    /// Inserts `value` at `index`, shifting the elements at `[index, len)`
    /// one slot to the right; an index beyond the length is rejected before
    /// any slot is touched, and the container is left unchanged. Each shift
    /// moves an element into a slot that holds none, so no element is
    /// finalized or duplicated by the shift. The growth bound in the
    /// `requires` is that of [`Vec::push`] and is vacuous whenever a slot is
    /// still free or the index is out of range.
    pub fn insert(&mut self, index: usize, value: T) -> (r: Result<(), OutOfBounds>)
        requires
            old(self).wf(),
            index <= old(self)@.len() && old(self)@.len() == old(self).cap() ==> grown_capacity(
                old(self).cap(),
            ) * vstd::layout::size_of::<T>() <= isize::MAX as nat,
        ensures
            final(self).wf(),
            index > old(self)@.len() ==> r is Err && final(self)@ == old(self)@
                && final(self).cap() == old(self).cap(),
            index <= old(self)@.len() ==> r is Ok
                && final(self)@ == old(self)@.insert(index as int, value)
                && final(self).cap() == (if old(self)@.len() < old(self).cap() {
                old(self).cap()
            } else {
                grown_capacity(old(self).cap())
            }),
    {
        if index > self.len {
            proof {
                assert(self@ =~= old(self)@);
            }
            return Err(OutOfBounds);
        }
        if self.len == self.buf.capacity() {
            self.buf.grow();
        }
        let ghost orig = old(self)@;
        let ghost cap0 = self.buf.cap();
        let mut j: usize = self.len;
        while j > index
            invariant
                index <= j <= self.len,
                self.len == orig.len(),
                self.len < self.buf.cap(),
                self.buf.cap() == cap0,
                self.buf.wf(),
                forall|k: int| 0 <= k < j ==> self.buf.slots()[k] == Some(orig[k]),
                self.buf.slots()[j as int] is None,
                forall|k: int| j < k <= self.len ==> self.buf.slots()[k] == Some(orig[k - 1]),
                forall|k: int|
                    self.len < k < self.buf.cap() ==> (#[trigger] self.buf.slots()[k]) is None,
            decreases j,
        {
            let moved = self.buf.take(j - 1).unwrap();
            self.buf.put(j, moved);
            j = j - 1;
        }
        self.buf.put(index, value);
        self.len = self.len + 1;
        proof {
            orig.insert_ensures(index as int, value);
            assert(self@ =~= orig.insert(index as int, value));
        }
        Ok(())
    }

    /// Removes and returns the element at `index`, shifting the elements at
    /// `[index + 1, len)` one slot to the left to close the gap; an index at
    /// or beyond the length is rejected before any slot is touched, and the
    /// container is left unchanged.
    pub fn remove(&mut self, index: usize) -> (r: Result<T, OutOfBounds>)
        requires
            old(self).wf(),
        ensures
            final(self).wf(),
            final(self).cap() == old(self).cap(),
            index >= old(self)@.len() ==> r is Err && final(self)@ == old(self)@,
            index < old(self)@.len() ==> (r matches Ok(v) && v == old(self)@[index as int]
                && final(self)@ == old(self)@.remove(index as int)),
    {
        if index >= self.len {
            proof {
                assert(self@ =~= old(self)@);
            }
            return Err(OutOfBounds);
        }
        let removed = self.buf.take(index).unwrap();
        let ghost orig = old(self)@;
        let ghost cap0 = self.buf.cap();
        let mut j: usize = index;
        while j + 1 < self.len
            invariant
                index <= j < self.len,
                self.len == orig.len(),
                self.len <= self.buf.cap(),
                self.buf.cap() == cap0,
                self.buf.wf(),
                forall|k: int| 0 <= k < index ==> self.buf.slots()[k] == Some(orig[k]),
                forall|k: int| index <= k < j ==> self.buf.slots()[k] == Some(orig[k + 1]),
                self.buf.slots()[j as int] is None,
                forall|k: int| j < k < self.len ==> self.buf.slots()[k] == Some(orig[k]),
                forall|k: int|
                    self.len <= k < self.buf.cap() ==> (#[trigger] self.buf.slots()[k]) is None,
            decreases self.len - j,
        {
            let moved = self.buf.take(j + 1).unwrap();
            self.buf.put(j, moved);
            j = j + 1;
        }
        self.len = self.len - 1;
        proof {
            orig.remove_ensures(index as int);
            assert(self@ =~= orig.remove(index as int));
        }
        Ok(removed)
    }

    /// The direct-indexing form: borrows the element at `index`, which must
    /// lie below the length; an out-of-range index here is a failure, not an
    /// empty-indicator, and the `requires` excludes it.
    pub fn index(&self, index: usize) -> (r: &T)
        requires
            self.wf(),
            index < self@.len(),
        ensures
            *r == self@[index as int],
    {
        self.buf.read(index).as_ref().unwrap()
    }

    /// Consumes the container and returns the iterator over its elements.
    /// Ownership of the buffer, and with it the duty to finalize the
    /// remaining elements before the storage is released, transfers to the
    /// iterator; the source container is moved away and can never be touched
    /// or finalized again.
    pub fn into_iter(self) -> (it: IntoIter<T>)
        requires
            self.wf(),
        ensures
            it.wf(),
            it@ == self@,
    {
        let Vec { buf, len } = self;
        let it = IntoIter::from_parts(buf, len);
        proof {
            assert(it@ =~= self@);
        }
        it
    }
}

} // verus!
