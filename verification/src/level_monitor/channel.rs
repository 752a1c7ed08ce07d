use ringbuf::traits::{Consumer, Observer, Producer, Split};
use ringbuf::{HeapCons, HeapProd, HeapRb};
use vstd::layout::size_of;
use vstd::prelude::*;

verus! {

/// The writing half of a bounded single-producer, single-consumer ring
/// buffer from the `ringbuf` crate.
///
/// The buffer is shared with a [`RingConsumer`] that may run on another
/// thread, so nothing is claimed about how many items it holds.
#[verifier::external_body]
#[verifier::reject_recursive_types(T)]
pub struct RingProducer<T> {
    inner: HeapProd<T>,
}

/// The reading half of a bounded single-producer, single-consumer ring
/// buffer from the `ringbuf` crate.
#[verifier::external_body]
#[verifier::reject_recursive_types(T)]
pub struct RingConsumer<T> {
    inner: HeapCons<T>,
}

/// Calls `ringbuf::HeapRb::new` and `Split::split`: allocates a ring buffer
/// with room for `capacity` items and hands out its two halves.
///
/// `HeapRb::new` panics on a capacity of zero and on a buffer of more than
/// `isize::MAX` bytes, and the buffer counts its places modulo twice the
/// capacity, which must fit: all three are excluded. Nothing is claimed of
/// the halves.
#[verifier::external_body]
pub(crate) fn ring_channel<T>(capacity: usize) -> (halves: (RingProducer<T>, RingConsumer<T>))
    requires
        capacity > 0,
        capacity <= usize::MAX / 2,
        capacity * size_of::<T>() <= isize::MAX,
{
    let (producer, consumer) = HeapRb::<T>::new(capacity).split();
    (RingProducer { inner: producer }, RingConsumer { inner: consumer })
}

impl<T> RingProducer<T> {
    /// Calls `Observer::is_full` on the producer. The answer depends on how
    /// far the consumer has read, so nothing is claimed of it.
    #[verifier::external_body]
    pub(crate) fn is_full(&self) -> (full: bool) {
        self.inner.is_full()
    }

    /// Calls `Producer::try_push`, which never blocks: the item is either
    /// stored or handed back. Whether there was room depends on the
    /// consumer; the claim is only that a refused item comes back unchanged.
    #[verifier::external_body]
    pub(crate) fn try_push(&mut self, item: T) -> (outcome: Result<(), T>)
        ensures
            outcome matches Err(back) ==> back == item,
    {
        self.inner.try_push(item)
    }
}

impl<T> RingConsumer<T> {
    /// Calls `Consumer::try_pop`, which never blocks: it returns the oldest
    /// pending item, or `None` when nothing is pending. What is pending
    /// depends on the producer, so nothing is claimed of the result.
    #[verifier::external_body]
    pub(crate) fn try_pop(&mut self) -> (item: Option<T>) {
        self.inner.try_pop()
    }
}

} // verus!
