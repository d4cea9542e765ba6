use vstd::prelude::*;

verus! {

/// The capacity that one growth step reaches from capacity `c`: a first
/// allocation holds a single element, and every later step doubles.
pub open spec fn grown_capacity(c: nat) -> nat {
    if c == 0 {
        1
    } else {
        2 * c
    }
}

/// Owns the backing storage for `capacity()` elements of `T` and decides
/// nothing else: it allocates, grows by doubling, and releases the storage
/// when it is itself finalized, but it never initializes or finalizes an
/// element on its own.
///
/// Each slot is modelled as an `Option<T>`: `None` stands for a slot that
/// holds no logically valid element (uninitialized or moved-out storage),
/// `Some` for a slot holding a live element. The owning container decides
/// which slots are live; the buffer only enforces, through the contracts of
/// [`RawBuffer::put`] and [`RawBuffer::take`], that a live element is never
/// silently overwritten and that a value is moved out of a slot at most once.
pub(crate) struct RawBuffer<T> {
    slots: std::vec::Vec<Option<T>>,
}

impl<T> RawBuffer<T> {
    /// The storage contents, slot by slot.
    pub(crate) closed spec fn slots(&self) -> Seq<Option<T>> {
        self.slots@
    }

    /// The number of element slots currently allocated, occupied or not.
    pub(crate) open spec fn cap(&self) -> nat {
        self.slots().len()
    }

    /// The buffer's invariant: the element type occupies actual storage, and
    /// the allocation stays within the address-space bound that growth checks
    /// before every request.
    pub(crate) closed spec fn wf(&self) -> bool {
        &&& vstd::layout::size_of::<T>() != 0
        &&& self.cap() * vstd::layout::size_of::<T>() <= isize::MAX as nat
    }

    /// An empty buffer: capacity zero, nothing allocated. Zero-sized element
    /// types are rejected at construction, since capacity accounting over
    /// zero-sized slots degenerates; the `requires` excludes them.
    pub(crate) fn new() -> (r: Self)
        requires
            vstd::layout::size_of::<T>() != 0,
        ensures
            r.wf(),
            r.cap() == 0,
    {
        RawBuffer { slots: std::vec::Vec::new() }
    }

    /// One growth step: a first allocation for exactly one element, or a
    /// reallocation to exactly twice the current capacity. The caller must
    /// have checked that the requested byte size stays within the maximum
    /// signed address-space size; a request beyond it, like a failed
    /// allocation, has no recovery path at this layer, so the `requires`
    /// excludes it. Existing slots keep their contents; new slots hold no
    /// element.
    pub(crate) fn grow(&mut self)
        requires
            old(self).wf(),
            grown_capacity(old(self).cap()) * vstd::layout::size_of::<T>() <= isize::MAX as nat,
        ensures
            final(self).wf(),
            final(self).cap() == grown_capacity(old(self).cap()),
            final(self).cap() <= isize::MAX as nat,
            forall|i: int| 0 <= i < old(self).cap() ==> final(self).slots()[i] == old(self).slots()[i],
            forall|i: int|
                old(self).cap() <= i < final(self).cap() ==> final(self).slots()[i] is None,
    {
        proof {
            let s = vstd::layout::size_of::<T>();
            let g = grown_capacity(self.cap());
            assert(g <= g * s) by (nonlinear_arith)
                requires s >= 1,
            ;
            assert(g <= isize::MAX as nat);
        }
        let target: usize = if self.slots.len() == 0 {
            1
        } else {
            2 * self.slots.len()
        };
        let ghost orig = self.slots@;
        while self.slots.len() < target
            invariant
                orig.len() <= self.slots@.len() <= target,
                forall|i: int| 0 <= i < orig.len() ==> self.slots@[i] == orig[i],
                forall|i: int| orig.len() <= i < self.slots@.len() ==> self.slots@[i] is None,
            decreases target - self.slots@.len(),
        {
            self.slots.push(None);
        }
    }

    /// The current capacity as a machine integer.
    pub(crate) fn capacity(&self) -> (r: usize)
        ensures
            r == self.cap(),
    {
        self.slots.len()
    }

    /// Writes `value` into slot `index`, which must hold no element: the
    /// buffer never finalizes a previous value on a write, so a live element
    /// may not be overwritten.
    pub(crate) fn put(&mut self, index: usize, value: T)
        requires
            index < old(self).cap(),
            old(self).slots()[index as int] is None,
        ensures
            final(self).wf() == old(self).wf(),
            final(self).cap() == old(self).cap(),
            final(self).slots() == old(self).slots().update(index as int, Some(value)),
    {
        self.slots.set(index, Some(value));
    }

    /// Moves whatever slot `index` holds out of the buffer, leaving the slot
    /// without an element, so that the same value can never be moved out
    /// twice.
    pub(crate) fn take(&mut self, index: usize) -> (r: Option<T>)
        requires
            index < old(self).cap(),
        ensures
            final(self).wf() == old(self).wf(),
            final(self).cap() == old(self).cap(),
            final(self).slots() == old(self).slots().update(index as int, None),
            r == old(self).slots()[index as int],
    {
        let mut taken: Option<T> = None;
        self.slots.set_and_swap(index, &mut taken);
        taken
    }

    /// Borrows slot `index` as it stands.
    pub(crate) fn read(&self, index: usize) -> (r: &Option<T>)
        requires
            index < self.cap(),
        ensures
            *r == self.slots()[index as int],
    {
        &self.slots[index]
    }
}

} // verus!
