//! The CPU chunk provider's logic: a bounded run of chunk generation in
//! spiral order, and the capacity-1 hand-off slot that carries each finished
//! chunk from the producer to the consumer.
//!
//! The real provider runs the producer on its own thread and blocks each
//! side on a condition variable; that plumbing lives outside this crate.
//! What is verified here is everything the threads agree on: which chunk the
//! producer builds next, what the slot may hold, that a full slot is never
//! overwritten, and that a take empties the slot — so the consumer can never
//! observe the same hand-off twice, nor an empty slot as ready.
use vstd::prelude::*;

use crate::chunk::chunk_generated_spec;
use crate::chunk::chunk_origin;
use crate::chunk::chunk_origin_spec;
use crate::chunk::generate_grid;
use crate::config::SearchConfig;

verus! {

/// Why a provider could not be constructed.
#[derive(Clone, Copy, PartialEq, Eq, Debug, Structural)]
pub enum ProviderError {
    /// The requested chunk count was below 1.
    InvalidChunkCount,
}

/// One hand-off: a chunk's world origin and its generated cells.
pub struct ChunkHandoff {
    /// The chunk's world origin.
    pub origin: (i64, i64),
    /// The chunk's cells, in the shared linearization.
    pub cells: Vec<u8>,
}

/// The capacity-1 rendezvous slot between producer and consumer. A put
/// requires the slot to be empty — the producer blocks until that holds —
/// and a take hands the content out and leaves the slot empty, so no
/// hand-off is ever overwritten or observed twice.
pub struct HandoffSlot {
    slot: Option<ChunkHandoff>,
}

impl HandoffSlot {
    /// What the slot currently holds.
    pub closed spec fn view_spec(self) -> Option<ChunkHandoff> {
        self.slot
    }

    /// A fresh, empty slot.
    pub fn empty() -> (s: HandoffSlot)
        ensures
            s.view_spec() is None,
    {
        HandoffSlot { slot: None }
    }

    /// Whether the slot holds a hand-off ready to take.
    pub fn is_ready(&self) -> (b: bool)
        ensures
            b == self.view_spec() is Some,
    {
        self.slot.is_some()
    }

    /// Stores a hand-off. The slot must be empty: the producer waits for
    /// the consumer rather than overwrite an unconsumed chunk.
    pub fn put(&mut self, value: ChunkHandoff)
        requires
            old(self).view_spec() is None,
        ensures
            final (self).view_spec() == Some(value),
    {
        self.slot = Some(value);
    }

    /// Takes the hand-off out, leaving the slot empty; returns `None` when
    /// nothing is ready. A ready value is returned exactly once.
    pub fn take(&mut self) -> (r: Option<ChunkHandoff>)
        ensures
            r == old(self).view_spec(),
            final (self).view_spec() is None,
    {
        let mut value = None;
        core::mem::swap(&mut value, &mut self.slot);
        value
    }
}

/// The producer's sequential state: which chunk of the bounded run comes
/// next. Chunk `i` of the run sits at the spiral's `i`-th point, scaled by
/// the chunk edge less the margin.
pub struct CPUChunkProvider {
    /// The dimensions chunks are generated with.
    pub cfg: SearchConfig,
    /// How many chunks the run generates in all.
    pub max_chunks: i32,
    /// The spiral index of the next chunk to generate.
    pub next_index: i32,
}

impl CPUChunkProvider {
    /// The provider's invariant: a positive bound and a cursor inside it.
    pub open spec fn wf(self) -> bool {
        &&& self.cfg.wf()
        &&& 1 <= self.max_chunks
        &&& 0 <= self.next_index <= self.max_chunks
    }

    /// Builds a provider for a bounded run of `max_chunks` chunks. A count
    /// below 1 is refused outright, never clamped.
    pub fn new(cfg: &SearchConfig, max_chunks: i32) -> (r: Result<CPUChunkProvider, ProviderError>)
        requires
            cfg.wf(),
        ensures
            match r {
                Ok(p) => {
                    &&& max_chunks >= 1
                    &&& p.cfg == *cfg
                    &&& p.max_chunks == max_chunks
                    &&& p.next_index == 0
                    &&& p.wf()
                },
                Err(e) => max_chunks < 1 && e == ProviderError::InvalidChunkCount,
            },
    {
        if max_chunks < 1 {
            Err(ProviderError::InvalidChunkCount)
        } else {
            Ok(CPUChunkProvider { cfg: *cfg, max_chunks, next_index: 0 })
        }
    }

    /// Whether the bounded run has generated all its chunks.
    pub fn is_finished(&self) -> (b: bool)
        ensures
            b == (self.next_index == self.max_chunks),
    {
        self.next_index == self.max_chunks
    }

    /// Generates the next chunk of the run: its origin is the spiral point
    /// of the cursor scaled by the chunk edge less the margin, its cells are
    /// the hash engine's values there. Returns `None` — and changes nothing
    /// — once the run is exhausted, which is completion, not an error.
    pub fn produce_next(&mut self) -> (r: Option<ChunkHandoff>)
        requires
            old(self).wf(),
        ensures
            final (self).wf(),
            final (self).cfg == old(self).cfg,
            final (self).max_chunks == old(self).max_chunks,
            match r {
                Some(h) => {
                    &&& old(self).next_index < old(self).max_chunks
                    &&& final (self).next_index == old(self).next_index + 1
                    &&& h.origin.0 == chunk_origin_spec(
                        old(self).cfg,
                        old(self).next_index as int,
                    ).0
                    &&& h.origin.1 == chunk_origin_spec(
                        old(self).cfg,
                        old(self).next_index as int,
                    ).1
                    &&& chunk_generated_spec(
                        old(self).cfg,
                        h.cells@,
                        h.origin.0 as int,
                        h.origin.1 as int,
                    )
                },
                None => {
                    &&& old(self).next_index == old(self).max_chunks
                    &&& final (self).next_index == old(self).next_index
                },
            },
    {
        if self.next_index == self.max_chunks {
            return None;
        }
        let origin = chunk_origin(&self.cfg, self.next_index);
        let cells = generate_grid(&self.cfg, origin.0, origin.1);
        self.next_index = self.next_index + 1;
        Some(ChunkHandoff { origin, cells })
    }
}

} // verus!
