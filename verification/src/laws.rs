use crate::raw_buffer::grown_capacity;
use vstd::prelude::*;

verus! {

/// A push followed immediately by a pop returns the pushed value and leaves
/// the sequence of elements, and with it the length, exactly as it was
/// before the push: stated over the views that the contracts of
/// [`crate::Vec::push`] and [`crate::Vec::pop`] relate, for every container
/// contents `s` and every value `v`.
pub proof fn lemma_push_then_pop<T>(s: Seq<T>, v: T)
    ensures
        s.push(v).len() > 0,
        s.push(v).last() == v,
        s.push(v).drop_last() == s,
        s.push(v).drop_last().len() == s.len(),
{
    assert(s.push(v).drop_last() =~= s);
}

/// The capacity reached after `k` sequential pushes into a container built
/// by [`crate::Vec::new`], following the capacity clause of
/// [`crate::Vec::push`]: the capacity is kept while a slot is free and takes
/// one growth step when the container is full.
pub open spec fn capacity_after_pushes(k: nat) -> nat
    decreases k,
{
    if k == 0 {
        0
    } else {
        let c = capacity_after_pushes((k - 1) as nat);
        if k - 1 < c {
            c
        } else {
            grown_capacity(c)
        }
    }
}

/// Whether `n` is a power of two.
pub open spec fn is_power_of_two(n: nat) -> bool
    decreases n,
{
    if n == 0 {
        false
    } else if n == 1 {
        true
    } else {
        n % 2 == 0 && is_power_of_two(n / 2)
    }
}

/// The capacity after the `k`-th sequential push into an initially empty
/// container is the smallest power of two that is at least `k`; after no
/// push at all it is zero. "Smallest" is the conjunction of the last two
/// clauses: any smaller power of two would lie below `k`.
pub proof fn lemma_capacity_after_pushes(k: nat)
    ensures
        k == 0 ==> capacity_after_pushes(k) == 0,
        k > 0 ==> is_power_of_two(capacity_after_pushes(k)),
        k > 0 ==> k <= capacity_after_pushes(k) < 2 * k,
    decreases k,
{
    if k == 1 {
        assert(capacity_after_pushes(0) == 0);
        assert(capacity_after_pushes(1) == grown_capacity(0));
        assert(is_power_of_two(1));
    } else if k > 1 {
        lemma_capacity_after_pushes((k - 1) as nat);
        let c = capacity_after_pushes((k - 1) as nat);
        if k - 1 < c {
            assert(capacity_after_pushes(k) == c);
        } else {
            assert(capacity_after_pushes(k) == grown_capacity(c));
            assert(c >= 1);
            assert(is_power_of_two(2 * c)) by {
                assert((2 * c) % 2 == 0);
                assert((2 * c) / 2 == c);
            }
        }
    }
}

/// Inserting `v` at position `i` of a length-`n` sequence yields length
/// `n + 1`, puts `v` at position `i`, keeps the elements below `i` in
/// place, and moves the elements previously at `[i, n)` to `[i + 1, n + 1)`
/// in unchanged relative order: stated over the view that the contract of
/// [`crate::Vec::insert`] returns.
pub proof fn lemma_insert_shifts<T>(s: Seq<T>, i: int, v: T)
    requires
        0 <= i <= s.len(),
    ensures
        s.insert(i, v).len() == s.len() + 1,
        s.insert(i, v)[i] == v,
        forall|j: int| 0 <= j < i ==> s.insert(i, v)[j] == s[j],
        forall|j: int| i <= j < s.len() ==> s.insert(i, v)[j + 1] == s[j],
{
    s.insert_ensures(i, v);
}

/// Removing the element at position `i` and then inserting the same value
/// back at `i` restores the original sequence exactly: stated over the
/// views that the contracts of [`crate::Vec::remove`] and
/// [`crate::Vec::insert`] return.
pub proof fn lemma_remove_then_insert_restores<T>(s: Seq<T>, i: int)
    requires
        0 <= i < s.len(),
    ensures
        s.remove(i).insert(i, s[i]) == s,
{
    assert(s.remove(i).insert(i, s[i]) =~= s);
}

/// One forward step of consumption keeps the decomposition of the original
/// element sequence: if the original is the elements already yielded from
/// the front, then the remaining range, then the reverse of those yielded
/// from the back, it still is after [`crate::IntoIter::next`] yields the
/// first remaining element. Together with
/// [`lemma_consume_back_keeps_decomposition`] and
/// [`lemma_consumed_when_exhausted`] this gives the interleaving guarantee:
/// however next and next-back calls are interleaved, every original element
/// is yielded exactly once, and the front yields concatenated with the
/// reversed back yields reproduce the original order.
pub proof fn lemma_consume_front_keeps_decomposition<T>(
    original: Seq<T>,
    front: Seq<T>,
    back: Seq<T>,
    remaining: Seq<T>,
)
    requires
        remaining.len() > 0,
        original == front + remaining + back.reverse(),
    ensures
        original == front.push(remaining.first()) + remaining.drop_first() + back.reverse(),
{
    assert(front.push(remaining.first()) + remaining.drop_first() =~= front + remaining);
}

/// One backward step of consumption keeps the decomposition of the original
/// element sequence: the counterpart of
/// [`lemma_consume_front_keeps_decomposition`] for
/// [`crate::IntoIter::next_back`], which yields the last remaining element.
pub proof fn lemma_consume_back_keeps_decomposition<T>(
    original: Seq<T>,
    front: Seq<T>,
    back: Seq<T>,
    remaining: Seq<T>,
)
    requires
        remaining.len() > 0,
        original == front + remaining + back.reverse(),
    ensures
        original == front + remaining.drop_last() + back.push(remaining.last()).reverse(),
{
    assert(back.push(remaining.last()).reverse() =~= seq![remaining.last()] + back.reverse());
    assert(remaining.drop_last() + (seq![remaining.last()] + back.reverse()) =~= remaining
        + back.reverse());
    assert(front + remaining.drop_last() + back.push(remaining.last()).reverse() =~= front
        + remaining + back.reverse());
}

/// Once the remaining range is empty, the elements yielded from the front
/// followed by the reverse of those yielded from the back are exactly the
/// original elements: each was yielded once, in the original order.
pub proof fn lemma_consumed_when_exhausted<T>(
    original: Seq<T>,
    front: Seq<T>,
    back: Seq<T>,
    remaining: Seq<T>,
)
    requires
        remaining.len() == 0,
        original == front + remaining + back.reverse(),
    ensures
        original == front + back.reverse(),
        original.len() == front.len() + back.len(),
{
    assert(front + remaining + back.reverse() =~= front + back.reverse());
}

} // verus!
