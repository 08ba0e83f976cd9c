//! The experience memory: a bounded history of samples from which batches
//! are drawn at random.

use crate::fifo::{push_bounded, push_evicting};
use crate::random::{draw_indices, is_draw, thread_generator};
use crate::replay_log::ReplaySample;
use std::collections::VecDeque;
use vstd::prelude::*;

verus! {

/// The last `capacity` samples that were pushed, oldest first.
pub struct ReplayBuffer {
    buffer: VecDeque<ReplaySample>,
    capacity: usize,
}

/// The items of `items` at the places `indices`, in the order of `indices`.
pub open spec fn picks<T>(items: Seq<T>, indices: Seq<usize>) -> Seq<T> {
    Seq::new(indices.len(), |i: int| items[indices[i] as int])
}

impl View for ReplayBuffer {
    type V = Seq<ReplaySample>;

    closed spec fn view(&self) -> Seq<ReplaySample> {
        self.buffer@
    }
}

impl ReplayBuffer {
    /// How many samples the memory retains.
    pub closed spec fn capacity(&self) -> usize {
        self.capacity
    }

    /// An empty memory that retains `capacity` samples.
    pub fn new(capacity: usize) -> (memory: Self)
        ensures
            memory@ == Seq::<ReplaySample>::empty(),
            memory.capacity() == capacity,
    {
        Self { buffer: VecDeque::new(), capacity }
    }

    /// Records a sample. When the memory is full its oldest sample is
    /// evicted first.
    pub fn push(&mut self, sample: ReplaySample)
        ensures
            final(self)@ == push_bounded(old(self)@, old(self).capacity() as nat, sample),
            final(self)@.len() <= old(self).capacity(),
            final(self).capacity() == old(self).capacity(),
    {
        push_evicting(&mut self.buffer, self.capacity, sample);
    }

    /// The samples at the places `indices`, in that order.
    pub fn gather(&self, indices: &[usize]) -> (batch: Vec<ReplaySample>)
        requires
            forall|i: int| 0 <= i < indices@.len() ==> (#[trigger] indices@[i]) < self@.len(),
        ensures
            batch@ == picks(self@, indices@),
    {
        let mut batch: Vec<ReplaySample> = Vec::new();
        let mut i: usize = 0;
        while i < indices.len()
            invariant
                i <= indices@.len(),
                forall|k: int| 0 <= k < indices@.len() ==> (#[trigger] indices@[k]) < self@.len(),
                batch@ == picks(self@, indices@.take(i as int)),
            decreases indices@.len() - i,
        {
            batch.push(self.buffer[indices[i]]);
            i = i + 1;
        }
        batch
    }

    /// A batch of `batch_size` samples drawn at random without repeats: the
    /// samples at `batch_size` different places of the memory, in no
    /// particular order. The memory must hold that many: see `is_ready`.
    pub fn sample(&self, batch_size: usize) -> (batch: Vec<ReplaySample>)
        requires
            batch_size <= self@.len(),
        ensures
            batch@.len() == batch_size,
            exists|indices: Seq<usize>|
                is_draw(indices, self@.len(), batch_size as nat) && batch@ == picks(self@, indices),
    {
        let mut rng = thread_generator();
        let indices = draw_indices(&mut rng, self.buffer.len(), batch_size);
        let batch = self.gather(indices.as_slice());
        batch
    }

    /// How many samples the memory holds.
    pub fn len(&self) -> (n: usize)
        ensures
            n == self@.len(),
    {
        self.buffer.len()
    }

    /// Whether the memory holds enough samples for a batch of `batch_size`.
    pub fn is_ready(&self, batch_size: usize) -> (ready: bool)
        ensures
            ready <==> self@.len() >= batch_size,
    {
        self.len() >= batch_size
    }
}

} // verus!
