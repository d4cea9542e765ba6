use crate::raw_buffer::RawBuffer;
use vstd::prelude::*;

verus! {

/// One-shot, double-ended, by-value consumption of a [`crate::Vec`]'s elements.
///
/// Consuming a container moves its buffer in here together with a pair of
/// converging cursors over the original length. `start <= end` holds after
/// every operation; the slots in `[start, end)` hold exactly the elements not
/// yet yielded, every slot outside that range holds none, and each call to
/// [`IntoIter::next`] or [`IntoIter::next_back`] narrows the range by one
/// element from its own side. When the iterator is finalized, the elements
/// still in `[start, end)` are finalized before the buffer releases its
/// storage, each exactly once, because the buffer's slots are their sole
/// owner.
pub struct IntoIter<T> {
    buf: RawBuffer<T>,
    start: usize,
    end: usize,
}

impl<T> View for IntoIter<T> {
    type V = Seq<T>;

    /// The elements not yet yielded, in forward order.
    closed spec fn view(&self) -> Seq<T> {
        Seq::new((self.end - self.start) as nat, |i: int| self.buf.slots()[self.start + i]->0)
    }
}

impl<T> IntoIter<T> {
    /// The iterator's invariant: the cursors lie within the buffer in order,
    /// the slots between them each hold a live element, and every other slot
    /// holds none.
    pub closed spec fn wf(&self) -> bool {
        &&& self.buf.wf()
        &&& self.start <= self.end <= self.buf.cap()
        &&& forall|i: int|
            self.start <= i < self.end ==> (#[trigger] self.buf.slots()[i]) is Some
        &&& forall|i: int|
            0 <= i < self.buf.cap() && !(self.start <= i < self.end) ==> (
            #[trigger] self.buf.slots()[i]) is None
    }

    /// Builds the iterator from a buffer whose live elements occupy exactly
    /// the slots `[0, len)`.
    pub(crate) fn from_parts(buf: RawBuffer<T>, len: usize) -> (it: Self)
        requires
            buf.wf(),
            len <= buf.cap(),
            forall|i: int| 0 <= i < len ==> (#[trigger] buf.slots()[i]) is Some,
            forall|i: int| len <= i < buf.cap() ==> (#[trigger] buf.slots()[i]) is None,
        ensures
            it.wf(),
            it@ == Seq::new(len as nat, |i: int| buf.slots()[i]->0),
    {
        let it = IntoIter { buf, start: 0, end: len };
        proof {
            assert(it@ =~= Seq::new(len as nat, |i: int| it.buf.slots()[i]->0));
        }
        it
    }

    /// Yields the first element not yet yielded and advances the front
    /// cursor, or returns the empty-indicator once the range is exhausted.
    pub fn next(&mut self) -> (r: Option<T>)
        requires
            old(self).wf(),
        ensures
            final(self).wf(),
            old(self)@.len() == 0 ==> r is None && final(self)@ == old(self)@,
            old(self)@.len() > 0 ==> r == Some(old(self)@.first())
                && final(self)@ == old(self)@.drop_first(),
    {
        if self.start == self.end {
            proof {
                assert(self@ =~= old(self)@);
            }
            None
        } else {
            let r = self.buf.take(self.start);
            self.start = self.start + 1;
            proof {
                assert(self@ =~= old(self)@.drop_first());
            }
            r
        }
    }

    /// Yields the last element not yet yielded and retreats the back cursor,
    /// or returns the empty-indicator once the range is exhausted.
    pub fn next_back(&mut self) -> (r: Option<T>)
        requires
            old(self).wf(),
        ensures
            final(self).wf(),
            old(self)@.len() == 0 ==> r is None && final(self)@ == old(self)@,
            old(self)@.len() > 0 ==> r == Some(old(self)@.last())
                && final(self)@ == old(self)@.drop_last(),
    {
        if self.start == self.end {
            proof {
                assert(self@ =~= old(self)@);
            }
            None
        } else {
            let last = self.end - 1;
            let r = self.buf.take(last);
            self.end = last;
            proof {
                assert(self@ =~= old(self)@.drop_last());
            }
            r
        }
    }
}

} // verus!
