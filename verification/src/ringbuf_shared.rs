//! A single producer, single consumer queue of bounded capacity for log
//! entries of 128 bytes, on top of the `ringbuf` crate.
use ringbuf::Consumer;
use ringbuf::Producer;
use ringbuf::RingBuffer;
use vstd::prelude::*;

verus! {

/// One entry of the queue: 128 bytes.
pub type Entry = [u8; 128];

#[verifier::external_type_specification]
#[verifier::external_body]
#[verifier::reject_recursive_types(T)]
pub struct ExProducer<T>(Producer<T>);

#[verifier::external_type_specification]
#[verifier::external_body]
#[verifier::reject_recursive_types(T)]
pub struct ExConsumer<T>(Consumer<T>);

/// The items queued in the ring buffer that `prod` and `cons` are the two
/// ends of, oldest first. The two ends share one buffer, so the contents
/// are a function of the pair.
pub uninterp spec fn ring_contents(prod: Producer<Entry>, cons: Consumer<Entry>) -> Seq<Seq<u8>>;

/// Whether `prod` and `cons` are the two ends of one ring buffer, the ones
/// that one `split` made.
pub uninterp spec fn same_ring(prod: Producer<Entry>, cons: Consumer<Entry>) -> bool;

/// The capacity that the ring buffer of the producer `prod` was made with.
pub uninterp spec fn ring_limit(prod: Producer<Entry>) -> nat;

/// An empty ring buffer with room for `capacity` items, split into its two
/// ends (`ringbuf::RingBuffer::new`, then `ringbuf::RingBuffer::split`).
/// The crate allocates `capacity + 1` slots, hence the bound.
#[verifier::external_body]
fn ring_new(capacity: usize) -> (r: (Producer<Entry>, Consumer<Entry>))
    requires
        capacity < usize::MAX,
    ensures
        same_ring(r.0, r.1),
        ring_contents(r.0, r.1) == Seq::<Seq<u8>>::empty(),
        ring_limit(r.0) == capacity,
{
    RingBuffer::<Entry>::new(capacity).split()
}

/// Appends `elem` at the producer end (`ringbuf::Producer::push`): when
/// fewer than `capacity` items are queued it is appended and `Ok` comes
/// back, otherwise the queue is unchanged and the element comes back in
/// `Err`. The consumer end `cons` is not touched by the call; it is passed
/// so that the contract can speak of the contents; it must be the other end
/// of the same ring.
#[verifier::external_body]
#[allow(unused_variables)]
fn ring_push(prod: &mut Producer<Entry>, cons: &Consumer<Entry>, elem: Entry) -> (r: Result<(), Entry>)
    requires
        same_ring(*old(prod), *cons),
    ensures
        same_ring(*final(prod), *cons),
        ring_limit(*final(prod)) == ring_limit(*old(prod)),
        ring_contents(*old(prod), *cons).len() < ring_limit(*old(prod)) ==> r is Ok && ring_contents(
            *final(prod),
            *cons,
        ) == ring_contents(*old(prod), *cons).push(elem@),
        ring_contents(*old(prod), *cons).len() >= ring_limit(*old(prod)) ==> (r matches Err(e) && e == elem) && ring_contents(*final(prod), *cons) == ring_contents(*old(prod), *cons),
{
    prod.push(elem)
}

/// Takes the oldest item at the consumer end (`ringbuf::Consumer::pop`);
/// `None`, with the queue unchanged, when it is empty. The producer end
/// `prod` is not touched by the call; it is passed so that the contract
/// can speak of the contents; it must be the other end of the same ring.
#[verifier::external_body]
#[allow(unused_variables)]
fn ring_pop(prod: &Producer<Entry>, cons: &mut Consumer<Entry>) -> (r: Option<Entry>)
    requires
        same_ring(*prod, *old(cons)),
    ensures
        same_ring(*prod, *final(cons)),
        ring_contents(*prod, *old(cons)).len() == 0 ==> r is None && ring_contents(
            *prod,
            *final(cons),
        ) == ring_contents(*prod, *old(cons)),
        ring_contents(*prod, *old(cons)).len() > 0 ==> (r matches Some(e) && e@ == ring_contents(
            *prod,
            *old(cons),
        )[0]) && ring_contents(*prod, *final(cons)) == ring_contents(*prod, *old(cons)).drop_first(),
{
    cons.pop()
}

/// A bounded queue of 128 byte entries: entries pushed at one end are
/// popped at the other in the same order, and a push into a full queue
/// drops the entry.
pub struct RingBuf {
    prod: Producer<Entry>,
    cons: Consumer<Entry>,
    capacity: usize,
}

impl View for RingBuf {
    type V = Seq<Seq<u8>>;

    /// The queued entries, oldest first.
    closed spec fn view(&self) -> Seq<Seq<u8>> {
        ring_contents(self.prod, self.cons)
    }
}

impl RingBuf {
    /// The number of entries that the queue holds at most.
    pub closed spec fn spec_capacity(&self) -> usize {
        self.capacity
    }

    /// The queue is tied to its capacity and holds at most that many
    /// entries.
    pub closed spec fn wf(&self) -> bool {
        &&& same_ring(self.prod, self.cons)
        &&& ring_limit(self.prod) == self.capacity
        &&& ring_contents(self.prod, self.cons).len() <= self.capacity
    }

    /// An empty queue with room for `capacity` entries.
    pub fn new(capacity: usize) -> (rb: Self)
        requires
            capacity < usize::MAX,
        ensures
            rb.wf(),
            rb.spec_capacity() == capacity,
            rb@ == Seq::<Seq<u8>>::empty(),
    {
        let (prod, cons) = ring_new(capacity);
        Self { prod, cons, capacity }
    }

    /// The number of entries that the queue holds at most.
    pub fn capacity(&self) -> (r: usize)
        ensures
            r == self.spec_capacity(),
    {
        self.capacity
    }

    /// Appends `item`; it is dropped when the queue is full.
    pub fn push(&mut self, item: Entry)
        requires
            old(self).wf(),
        ensures
            final(self).wf(),
            final(self).spec_capacity() == old(self).spec_capacity(),
            final(self)@.len() <= final(self).spec_capacity(),
            final(self)@ == (if old(self)@.len() < old(self).spec_capacity() {
                old(self)@.push(item@)
            } else {
                old(self)@
            }),
    {
        let _ = ring_push(&mut self.prod, &self.cons, item);
    }

    /// Takes the oldest entry, if there is one.
    pub fn pop(&mut self) -> (r: Option<Entry>)
        requires
            old(self).wf(),
        ensures
            final(self).wf(),
            final(self).spec_capacity() == old(self).spec_capacity(),
            final(self)@.len() <= final(self).spec_capacity(),
            old(self)@.len() == 0 ==> r is None && final(self)@ == old(self)@,
            old(self)@.len() > 0 ==> (r matches Some(e) && e@ == old(self)@[0]) && final(self)@ == old(
                self,
            )@.drop_first(),
    {
        ring_pop(&self.prod, &mut self.cons)
    }
}

} // verus!
