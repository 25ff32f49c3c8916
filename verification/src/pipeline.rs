//! The search pipeline: a cooperative state machine, advanced once per
//! frame, that drives the brute-force search across the unbounded spiral
//! chunk sequence.
//!
//! The machine owns the job and the status; the host only performs the
//! actions a tick asks for — compiling kernels, uploading the pattern,
//! dispatching a chunk's generation and match, reading the result back —
//! and reports what happened as the next tick's event. The transition table
//! is the contract: `tick` is a pure function of the machine's state and
//! the event, and the status is replaced wholesale on every transition, so
//! observers only ever see one of its three well-formed variants.
//!
//! The compute backend is an external collaborator. `run_chunk_search` is
//! this crate's own backend: it generates the chunk and scans it on the
//! CPU, and is exactly what a correct compute kernel pair must produce.
use vstd::prelude::*;

use crate::chunk::chunk_origin;
use crate::chunk::chunk_origin_spec;
use crate::chunk::generate_grid;
use crate::chunk::terrain_chunk_spec;
use crate::config::SearchConfig;
use crate::matcher::find_first_match;
use crate::matcher::matches_at_spec;
use crate::matcher::offset_in_range;
use crate::matcher::offset_scan_index;
use crate::spiral::SPIRAL_MAX_INDEX;

verus! {

/// A world position, one signed 64-bit coordinate per axis.
#[derive(Clone, Copy, PartialEq, Eq, Debug, Structural)]
pub struct Position {
    /// The world `x` coordinate.
    pub x: i64,
    /// The world `y` coordinate.
    pub y: i64,
    /// The world `z` coordinate.
    pub z: i64,
}

/// The target pattern a caller publishes: a flattened grid volume of
/// required rotation codes, in the shared linearization.
#[derive(Clone)]
pub struct FinderJob(pub Vec<u8>);

/// The search's externally observed progress: always one of these three
/// well-formed snapshots, replaced wholesale on every transition.
#[derive(Clone, Copy, PartialEq, Eq, Debug, Structural)]
pub enum FinderStatus {
    /// No pattern has been published yet.
    WaitingForJob,
    /// The search is running: how many cells it has scanned, and when it
    /// started (a caller-supplied clock reading).
    Running {
        /// Cells scanned so far.
        blocks: u64,
        /// The clock reading the search started at.
        start_time: u64,
    },
    /// The search found a match.
    Finished {
        /// Cells scanned in all.
        searched_blocks: u64,
        /// The world position of the match.
        pos: Position,
        /// How long the search ran.
        time: u64,
    },
}

/// The pipeline's control state.
#[derive(Clone, Copy, PartialEq, Eq, Debug, Structural)]
pub enum PipelineState {
    /// Waiting for both compute kernels to finish compiling.
    LoadingPipelines,
    /// Kernels ready; idle until a job is published.
    WaitingForTask,
    /// A dispatch for the current chunk is about to be issued.
    WaitingForGPU,
    /// A dispatch is in flight; its result is read on the next tick.
    ReadingData,
    /// A match was found; the machine issues nothing further.
    Finished,
}

/// What the host reports to a tick: the outcome of the work the previous
/// action asked for.
pub enum TickEvent {
    /// The kernels are still compiling.
    PipelinesPending,
    /// Both kernels compiled.
    PipelinesReady,
    /// A kernel failed to compile; fatal.
    PipelineCompileFailed,
    /// No job has been published yet.
    NoJob,
    /// A caller published a target pattern at clock reading `now`.
    JobPublished {
        /// The published pattern.
        job: FinderJob,
        /// The caller's clock reading.
        now: u64,
    },
    /// A frame passed; the dispatch for the current chunk was issued.
    FrameAdvanced,
    /// The result of the in-flight dispatch was read back: the first
    /// matching in-chunk offset, or `None` for the all-bits-set sentinel.
    ResultRead {
        /// The in-chunk match offset, if any.
        hit: Option<(u32, u32, u32)>,
        /// The clock reading at readback.
        now: u64,
    },
    /// The device timed out or the readback failed; fatal.
    DeviceFailed,
}

/// What the host must do before the next tick.
#[derive(Clone, Copy, PartialEq, Eq, Debug, Structural)]
pub enum TickAction {
    /// Nothing; tick again with the next event.
    DoNothing,
    /// Upload the machine's pattern to the compute backend.
    UploadPattern,
    /// Generate and scan the chunk whose world origin is given, then
    /// report the result slot's content.
    Dispatch {
        /// The chunk's world `x` origin.
        origin_x: i64,
        /// The chunk's world `z` origin.
        origin_z: i64,
    },
    /// Stop: an unrecoverable failure, or the scan space is exhausted.
    Halt,
}

/// The cells scanned in the running status, or 0 outside it.
pub open spec fn status_blocks(s: FinderStatus) -> u64 {
    match s {
        FinderStatus::Running { blocks, .. } => blocks,
        _ => 0u64,
    }
}

/// The start clock reading in the running status, or 0 outside it.
pub open spec fn status_start(s: FinderStatus) -> u64 {
    match s {
        FinderStatus::Running { start_time, .. } => start_time,
        _ => 0u64,
    }
}

/// 64-bit saturating addition.
pub open spec fn sat_add_u64(a: u64, b: u64) -> u64 {
    if a + b <= u64::MAX {
        (a + b) as u64
    } else {
        u64::MAX
    }
}

/// The time elapsed from `start` to `now`, clamped at zero if the caller's
/// clock ran backwards.
pub open spec fn elapsed_spec(start: u64, now: u64) -> u64 {
    if now >= start {
        (now - start) as u64
    } else {
        0u64
    }
}

/// Whether an event is well-formed against the configuration: a published
/// job must be a full grid volume.
pub open spec fn event_wf(cfg: SearchConfig, event: TickEvent) -> bool {
    match event {
        TickEvent::JobPublished { job, .. } => job.0.len() == cfg.grid_len_spec(),
        _ => true,
    }
}

/// The search pipeline's whole state: the control state, the chunk cursor,
/// the published pattern, and the status snapshot.
pub struct SearchPipeline {
    /// The dimensions the search runs with.
    pub cfg: SearchConfig,
    /// The control state.
    pub state: PipelineState,
    /// The spiral index of the chunk the current dispatch covers.
    pub chunk_index: i32,
    /// The pattern being searched for, once one was published.
    pub job: Option<FinderJob>,
    /// The externally observed progress snapshot.
    pub status: FinderStatus,
}

impl SearchPipeline {
    /// The machine's invariant: the cursor stays a valid spiral index, a
    /// dispatching state always holds a full-sized pattern and a running
    /// status, the terminal state a finished one, and the idle states a
    /// waiting one.
    pub open spec fn wf(self) -> bool {
        &&& self.cfg.wf()
        &&& 0 <= self.chunk_index <= SPIRAL_MAX_INDEX
        &&& match self.state {
            PipelineState::LoadingPipelines => self.status is WaitingForJob,
            PipelineState::WaitingForTask => self.status is WaitingForJob,
            PipelineState::WaitingForGPU => self.job is Some && self.status is Running,
            PipelineState::ReadingData => self.job is Some && self.status is Running,
            PipelineState::Finished => self.status is Finished,
        }
        &&& match self.job {
            Some(job) => job.0.len() == self.cfg.grid_len_spec(),
            None => true,
        }
    }

    /// The number of cells one chunk scan adds to the running count.
    pub open spec fn interior_cells(self) -> int {
        self.cfg.interior_cells_spec()
    }

    /// The transition table, in full. Every tick of the machine takes
    /// exactly this step: anything not listed leaves the machine unchanged
    /// and asks for nothing.
    pub open spec fn tick_spec(pre: SearchPipeline, event: TickEvent) -> (SearchPipeline, TickAction) {
        match (pre.state, event) {
            (PipelineState::LoadingPipelines, TickEvent::PipelinesReady) => (
                SearchPipeline { state: PipelineState::WaitingForTask, ..pre },
                TickAction::DoNothing,
            ),
            (PipelineState::LoadingPipelines, TickEvent::PipelineCompileFailed) => (
                pre,
                TickAction::Halt,
            ),
            (PipelineState::WaitingForTask, TickEvent::JobPublished { job, now }) => (
                SearchPipeline {
                    state: PipelineState::WaitingForGPU,
                    chunk_index: 0,
                    job: Some(job),
                    status: FinderStatus::Running { blocks: 0, start_time: now },
                    ..pre
                },
                TickAction::UploadPattern,
            ),
            (PipelineState::WaitingForGPU, TickEvent::FrameAdvanced) => (
                SearchPipeline { state: PipelineState::ReadingData, ..pre },
                TickAction::Dispatch {
                    origin_x: chunk_origin_spec(pre.cfg, pre.chunk_index as int).0 as i64,
                    origin_z: chunk_origin_spec(pre.cfg, pre.chunk_index as int).1 as i64,
                },
            ),
            (PipelineState::ReadingData, TickEvent::ResultRead { hit, now }) => {
                let scanned = sat_add_u64(
                    status_blocks(pre.status),
                    pre.interior_cells() as u64,
                );
                let running = FinderStatus::Running {
                    blocks: scanned,
                    start_time: status_start(pre.status),
                };
                match hit {
                    None => {
                        if pre.chunk_index == SPIRAL_MAX_INDEX {
                            (SearchPipeline { status: running, ..pre }, TickAction::Halt)
                        } else {
                            (
                                SearchPipeline {
                                    chunk_index: (pre.chunk_index + 1) as i32,
                                    status: running,
                                    ..pre
                                },
                                TickAction::Dispatch {
                                    origin_x: chunk_origin_spec(
                                        pre.cfg,
                                        pre.chunk_index + 1,
                                    ).0 as i64,
                                    origin_z: chunk_origin_spec(
                                        pre.cfg,
                                        pre.chunk_index + 1,
                                    ).1 as i64,
                                },
                            )
                        }
                    },
                    Some(hit) => (
                        SearchPipeline {
                            state: PipelineState::Finished,
                            status: FinderStatus::Finished {
                                searched_blocks: scanned,
                                pos: Position {
                                    x: (chunk_origin_spec(pre.cfg, pre.chunk_index as int).0
                                        + hit.0) as i64,
                                    y: hit.1 as i64,
                                    z: (chunk_origin_spec(pre.cfg, pre.chunk_index as int).1
                                        + hit.2) as i64,
                                },
                                time: elapsed_spec(status_start(pre.status), now),
                            },
                            ..pre
                        },
                        TickAction::DoNothing,
                    ),
                }
            },
            (PipelineState::ReadingData, TickEvent::DeviceFailed) => (pre, TickAction::Halt),
            (_, _) => (pre, TickAction::DoNothing),
        }
    }

    /// A fresh machine: kernels still loading, cursor at the origin chunk,
    /// no job, status waiting.
    pub fn new(cfg: &SearchConfig) -> (p: SearchPipeline)
        requires
            cfg.wf(),
        ensures
            p.cfg == *cfg,
            p.state == PipelineState::LoadingPipelines,
            p.chunk_index == 0,
            p.job is None,
            p.status == FinderStatus::WaitingForJob,
            p.wf(),
    {
        SearchPipeline {
            cfg: *cfg,
            state: PipelineState::LoadingPipelines,
            chunk_index: 0,
            job: None,
            status: FinderStatus::WaitingForJob,
        }
    }

    /// The current status snapshot, readable at any time.
    pub fn status(&self) -> (s: FinderStatus)
        ensures
            s == self.status,
    {
        self.status
    }

    /// Advances the machine by one tick: consumes the event and takes
    /// exactly the step `tick_spec` lists for it, returning the action the
    /// host must perform before the next tick.
    pub fn tick(&mut self, event: TickEvent) -> (act: TickAction)
        requires
            old(self).wf(),
            event_wf(old(self).cfg, event),
        ensures
            final (self).wf(),
            (*final (self), act) == SearchPipeline::tick_spec(*old(self), event),
            final (self).cfg == old(self).cfg,
    {
        proof {
            assert(self.cfg.interior_cells_spec() <= 0x1000_0000_0000_0000) by (nonlinear_arith)
                requires
                    0 <= self.cfg.chunk_size - self.cfg.chunk_margin <= 0x10_0000 && 0
                        <= self.cfg.world_height <= 0x10_0000 && self.cfg.interior_cells_spec() == (
                    self.cfg.chunk_size - self.cfg.chunk_margin) * (self.cfg.chunk_size
                        - self.cfg.chunk_margin) * self.cfg.world_height,
            ;
        }
        match (self.state, event) {
            (PipelineState::LoadingPipelines, TickEvent::PipelinesReady) => {
                self.state = PipelineState::WaitingForTask;
                TickAction::DoNothing
            },
            (PipelineState::LoadingPipelines, TickEvent::PipelineCompileFailed) => TickAction::Halt,
            (PipelineState::WaitingForTask, TickEvent::JobPublished { job, now }) => {
                self.state = PipelineState::WaitingForGPU;
                self.chunk_index = 0;
                self.job = Some(job);
                self.status = FinderStatus::Running { blocks: 0, start_time: now };
                TickAction::UploadPattern
            },
            (PipelineState::WaitingForGPU, TickEvent::FrameAdvanced) => {
                self.state = PipelineState::ReadingData;
                let origin = chunk_origin(&self.cfg, self.chunk_index);
                TickAction::Dispatch { origin_x: origin.0, origin_z: origin.1 }
            },
            (PipelineState::ReadingData, TickEvent::ResultRead { hit, now }) => {
                let interior = self.interior_cell_count();
                let blocks = match self.status {
                    FinderStatus::Running { blocks, .. } => blocks,
                    _ => 0,
                };
                let start_time = match self.status {
                    FinderStatus::Running { start_time, .. } => start_time,
                    _ => 0,
                };
                let scanned = if blocks <= u64::MAX - interior {
                    blocks + interior
                } else {
                    u64::MAX
                };
                match hit {
                    None => {
                        self.status = FinderStatus::Running { blocks: scanned, start_time };
                        if self.chunk_index == SPIRAL_MAX_INDEX {
                            TickAction::Halt
                        } else {
                            self.chunk_index = self.chunk_index + 1;
                            let origin = chunk_origin(&self.cfg, self.chunk_index);
                            TickAction::Dispatch { origin_x: origin.0, origin_z: origin.1 }
                        }
                    },
                    Some(hit) => {
                        let origin = chunk_origin(&self.cfg, self.chunk_index);
                        let pos = Position {
                            x: origin.0 + hit.0 as i64,
                            y: hit.1 as i64,
                            z: origin.1 + hit.2 as i64,
                        };
                        let time = if now >= start_time {
                            now - start_time
                        } else {
                            0
                        };
                        self.state = PipelineState::Finished;
                        self.status = FinderStatus::Finished {
                            searched_blocks: scanned,
                            pos,
                            time,
                        };
                        TickAction::DoNothing
                    },
                }
            },
            (PipelineState::ReadingData, TickEvent::DeviceFailed) => TickAction::Halt,
            (_, _) => TickAction::DoNothing,
        }
    }

    /// The number of cells one chunk scan covers, computed at run time.
    pub fn interior_cell_count(&self) -> (n: u64)
        requires
            self.cfg.wf(),
        ensures
            n == self.cfg.interior_cells_spec(),
    {
        let d = (self.cfg.chunk_size - self.cfg.chunk_margin) as u64;
        let h = self.cfg.world_height as u64;
        proof {
            assert(d * d <= 0x100_0000_0000 && d * d * h <= 0x1000_0000_0000_0000)
                by (nonlinear_arith)
                requires
                    0 <= d <= 0x10_0000 && 0 <= h <= 0x10_0000,
            ;
        }
        d * d * h
    }
}

/// Runs one chunk's generation and scan on the CPU: the reference compute
/// backend. Returns the first in-chunk offset, in scan order, where the
/// pattern matches the terrain of the chunk at spiral index `chunk_index`,
/// or `None` when the chunk holds no match.
pub fn run_chunk_search(cfg: &SearchConfig, pattern: &Vec<u8>, chunk_index: i32) -> (r: Option<
    (u32, u32, u32),
>)
    requires
        cfg.wf(),
        pattern@.len() == cfg.grid_len_spec(),
        0 <= chunk_index,
    ensures
        ({
            let sx = chunk_origin_spec(*cfg, chunk_index as int).0;
            let sz = chunk_origin_spec(*cfg, chunk_index as int).1;
            let terrain = terrain_chunk_spec(*cfg, sx, sz);
            match r {
                Some(hit) => {
                    &&& offset_in_range(*cfg, hit.0 as int, hit.1 as int, hit.2 as int)
                    &&& matches_at_spec(
                        *cfg,
                        terrain,
                        pattern@,
                        hit.0 as int,
                        hit.1 as int,
                        hit.2 as int,
                    )
                    &&& forall|ox: int, oy: int, oz: int|
                        offset_in_range(*cfg, ox, oy, oz) && offset_scan_index(*cfg, ox, oy, oz)
                            < offset_scan_index(*cfg, hit.0 as int, hit.1 as int, hit.2 as int)
                            ==> !matches_at_spec(*cfg, terrain, pattern@, ox, oy, oz)
                },
                None => forall|ox: int, oy: int, oz: int|
                    offset_in_range(*cfg, ox, oy, oz) ==> !matches_at_spec(
                        *cfg,
                        terrain,
                        pattern@,
                        ox,
                        oy,
                        oz,
                    ),
            }
        }),
{
    let origin = chunk_origin(cfg, chunk_index);
    let chunk = generate_grid(cfg, origin.0, origin.1);
    find_first_match(cfg, &chunk, pattern)
}

} // verus!
