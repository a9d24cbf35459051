//! The bounded PCM ring between capture and analysis. It holds at most its
//! capacity of samples, keeps the newest audio when full, and counts what it
//! had to discard. Samples travel as 32-bit encodings chosen by the producer.
use vstd::prelude::*;

use crossbeam_queue::ArrayQueue;

verus! {

/// The sample rate every capture route is converted to before analysis.
pub const CAPTURE_SAMPLE_RATE: u32 = 48_000;

#[verifier::external_type_specification]
#[verifier::external_body]
#[verifier::reject_recursive_types(T)]
pub struct ExArrayQueue<T>(ArrayQueue<T>);

/// The samples held by a queue, oldest first.
pub uninterp spec fn queue_items(q: ArrayQueue<u32>) -> Seq<u32>;

/// The capacity a queue was created with.
pub uninterp spec fn queue_capacity(q: ArrayQueue<u32>) -> nat;

/// `ArrayQueue::new`: an empty queue with the given capacity. The crate
/// panics on a zero capacity and on one whose next power of two overflows,
/// which the bound here rules out.
#[verifier::external_body]
fn queue_new(cap: usize) -> (q: ArrayQueue<u32>)
    requires
        0 < cap <= 0x4000_0000,
    ensures
        queue_items(q) == Seq::<u32>::empty(),
        queue_capacity(q) == cap,
{
    ArrayQueue::new(cap)
}

/// `ArrayQueue::push_mut`: appends at the back when the queue holds fewer
/// items than its capacity, and otherwise hands the value back unchanged.
#[verifier::external_body]
fn queue_push(q: &mut ArrayQueue<u32>, value: u32) -> (r: Result<(), u32>)
    ensures
        queue_capacity(*final(q)) == queue_capacity(*old(q)),
        queue_items(*old(q)).len() < queue_capacity(*old(q)) ==> r is Ok && queue_items(*final(q))
            == queue_items(*old(q)).push(value),
        queue_items(*old(q)).len() >= queue_capacity(*old(q)) ==> r is Err && r->Err_0 == value
            && queue_items(*final(q)) == queue_items(*old(q)),
{
    q.push_mut(value)
}

/// `ArrayQueue::pop_mut`: removes and returns the oldest item, or `None`
/// when the queue is empty.
#[verifier::external_body]
fn queue_pop(q: &mut ArrayQueue<u32>) -> (r: Option<u32>)
    ensures
        queue_capacity(*final(q)) == queue_capacity(*old(q)),
        queue_items(*old(q)).len() == 0 ==> r is None && queue_items(*final(q)) == queue_items(
            *old(q),
        ),
        queue_items(*old(q)).len() > 0 ==> r == Some(queue_items(*old(q))[0]) && queue_items(
            *final(q),
        ) == queue_items(*old(q)).drop_first(),
{
    q.pop_mut()
}

/// `ArrayQueue::len`: the number of items held.
#[verifier::external_body]
fn queue_len(q: &ArrayQueue<u32>) -> (r: usize)
    ensures
        r == queue_items(*q).len(),
{
    q.len()
}

/// `ArrayQueue::capacity`: the capacity the queue was created with.
#[verifier::external_body]
fn queue_capacity_of(q: &ArrayQueue<u32>) -> (r: usize)
    ensures
        r == queue_capacity(*q),
{
    q.capacity()
}

/// A bounded FIFO of encoded PCM samples.
pub struct PcmRingBuffer {
    samples: ArrayQueue<u32>,
    dropped_samples: u64,
}

/// The capacity chosen for a ring configured with `seconds` of audio:
/// the duration is clamped to 5..=30 seconds at the capture rate.
pub open spec fn configured_capacity(seconds: u8) -> nat {
    let clamped: nat = if seconds < 5 {
        5
    } else if seconds > 30 {
        30
    } else {
        seconds as nat
    };
    (CAPTURE_SAMPLE_RATE as nat) * clamped
}

impl PcmRingBuffer {
    /// The ring's invariant: a positive capacity that the samples held
    /// never exceed.
    pub closed spec fn well_formed(self) -> bool {
        &&& 0 < queue_capacity(self.samples)
        &&& queue_items(self.samples).len() <= queue_capacity(self.samples)
    }

    /// The samples held, oldest first.
    pub closed spec fn items(self) -> Seq<u32> {
        queue_items(self.samples)
    }

    /// The most samples the ring can hold.
    pub closed spec fn spec_capacity(self) -> nat {
        queue_capacity(self.samples)
    }

    /// How many samples were discarded to make room for newer ones.
    pub closed spec fn spec_dropped(self) -> u64 {
        self.dropped_samples
    }

    /// A ring holding `seconds` of capture audio, clamped to 5..=30 seconds.
    pub fn new(seconds: u8) -> (r: Self)
        ensures
            r.well_formed(),
            r.items() == Seq::<u32>::empty(),
            r.spec_capacity() == configured_capacity(seconds),
            r.spec_dropped() == 0,
    {
        let clamped: u8 = if seconds < 5 {
            5
        } else if seconds > 30 {
            30
        } else {
            seconds
        };
        assert(48_000 * (clamped as int) <= 1_440_000) by (nonlinear_arith)
            requires
                clamped <= 30,
        ;
        let capacity: usize = (CAPTURE_SAMPLE_RATE as usize) * (clamped as usize);
        PcmRingBuffer { samples: queue_new(capacity), dropped_samples: 0 }
    }

    /// A ring with an explicit capacity.
    pub fn with_capacity(capacity: usize) -> (r: Self)
        requires
            0 < capacity <= 0x4000_0000,
        ensures
            r.well_formed(),
            r.items() == Seq::<u32>::empty(),
            r.spec_capacity() == capacity,
            r.spec_dropped() == 0,
    {
        PcmRingBuffer { samples: queue_new(capacity), dropped_samples: 0 }
    }

    /// Appends a sample. When the ring is full the oldest sample is dropped
    /// first and the drop counter advances, so the newest audio is kept.
    pub fn push(&mut self, sample: u32)
        requires
            old(self).well_formed(),
        ensures
            final(self).well_formed(),
            final(self).items().len() <= final(self).spec_capacity(),
            final(self).spec_capacity() == old(self).spec_capacity(),
            old(self).items().len() < old(self).spec_capacity() ==> final(self).items() == old(self).items().push(sample) && final(self).spec_dropped() == old(self).spec_dropped(),
            old(self).items().len() == old(self).spec_capacity() ==> final(self).items() == old(self).items().drop_first().push(sample) && final(self).spec_dropped()
                == vstd::wrapping::u64_specs::wrapping_add(old(self).spec_dropped(), 1),
    {
        if let Err(sample) = queue_push(&mut self.samples, sample) {
            let _ = queue_pop(&mut self.samples);
            self.dropped_samples = self.dropped_samples.wrapping_add(1);
            let _ = queue_push(&mut self.samples, sample);
        }
    }

    /// Removes and returns the oldest sample, if any.
    pub fn pop(&mut self) -> (r: Option<u32>)
        requires
            old(self).well_formed(),
        ensures
            final(self).well_formed(),
            final(self).spec_capacity() == old(self).spec_capacity(),
            final(self).spec_dropped() == old(self).spec_dropped(),
            old(self).items().len() == 0 ==> r is None && final(self).items() == old(self).items(),
            old(self).items().len() > 0 ==> r == Some(old(self).items()[0]) && final(self).items()
                == old(self).items().drop_first(),
    {
        queue_pop(&mut self.samples)
    }

    /// The number of samples held.
    pub fn len(&self) -> (r: usize)
        requires
            self.well_formed(),
        ensures
            r == self.items().len(),
            r <= self.spec_capacity(),
    {
        queue_len(&self.samples)
    }

    /// The most samples the ring can hold.
    pub fn capacity(&self) -> (r: usize)
        ensures
            r == self.spec_capacity(),
    {
        queue_capacity_of(&self.samples)
    }

    /// How many samples were discarded to make room for newer ones.
    pub fn dropped_samples(&self) -> (r: u64)
        ensures
            r == self.spec_dropped(),
    {
        self.dropped_samples
    }
}

} // verus!
