use structure_finder::config::SearchConfig;
use structure_finder::pipeline::{
    run_chunk_search, FinderJob, FinderStatus, Position, SearchPipeline,
    TickAction, TickEvent,
};
use structure_finder::rotation::Rotation;
use structure_finder::terrain::get_block_rotation;

fn small_config() -> SearchConfig {
    SearchConfig {
        chunk_size: 8,
        chunk_margin: 4,
        world_height: 8,
        grid_x: 1,
        grid_y: 1,
        grid_z: 1,
    }
}

fn interior_cells(cfg: &SearchConfig) -> u64 {
    let d = (cfg.chunk_size - cfg.chunk_margin) as u64;
    d * d * cfg.world_height as u64
}

/// End to end: a 1x1x1 wildcard pattern is found within the first chunk,
/// at a scanned-block count of one chunk's interior cells, at the chunk's
/// origin.
#[test]
fn wildcard_search_finishes_in_first_chunk() {
    let cfg = small_config();
    let mut pipeline = SearchPipeline::new(&cfg);

    // Kernels still compiling: nothing to do.
    assert_eq!(pipeline.tick(TickEvent::PipelinesPending), TickAction::DoNothing);
    assert_eq!(pipeline.status(), FinderStatus::WaitingForJob);

    // Kernels ready; idle until a job arrives.
    assert_eq!(pipeline.tick(TickEvent::PipelinesReady), TickAction::DoNothing);
    assert_eq!(pipeline.tick(TickEvent::NoJob), TickAction::DoNothing);
    assert_eq!(pipeline.status(), FinderStatus::WaitingForJob);

    // A caller publishes an all-wildcard 1x1x1 pattern.
    let job = FinderJob(vec![Rotation::new(0, 0).0]);
    let pattern = job.0.clone();
    assert_eq!(
        pipeline.tick(TickEvent::JobPublished { job, now: 1000 }),
        TickAction::UploadPattern
    );
    assert_eq!(
        pipeline.status(),
        FinderStatus::Running { blocks: 0, start_time: 1000 }
    );

    // The next frame dispatches chunk 0, whose origin is the world origin.
    let act = pipeline.tick(TickEvent::FrameAdvanced);
    assert_eq!(act, TickAction::Dispatch { origin_x: 0, origin_z: 0 });

    // The backend scans chunk 0: any cell satisfies a wildcard, so the
    // scan-order-first offset wins.
    let hit = run_chunk_search(&cfg, &pattern, 0);
    assert_eq!(hit, Some((0, 0, 0)));

    // Reading the result finishes the search at the chunk's origin, with
    // exactly one chunk's interior cells scanned.
    assert_eq!(
        pipeline.tick(TickEvent::ResultRead { hit, now: 1007 }),
        TickAction::DoNothing
    );
    assert_eq!(interior_cells(&cfg), 128);
    assert_eq!(
        pipeline.status(),
        FinderStatus::Finished {
            searched_blocks: 128,
            pos: Position { x: 0, y: 0, z: 0 },
            time: 7,
        }
    );

    // The terminal state issues nothing further.
    assert_eq!(
        pipeline.tick(TickEvent::ResultRead { hit: None, now: 2000 }),
        TickAction::DoNothing
    );
    assert_eq!(
        pipeline.status(),
        FinderStatus::Finished {
            searched_blocks: 128,
            pos: Position { x: 0, y: 0, z: 0 },
            time: 7,
        }
    );
}

/// End to end: an impossible pattern never finishes; the status stays
/// `Running` and the scanned-block count strictly increases chunk over
/// chunk.
#[test]
fn impossible_search_keeps_running() {
    let cfg = small_config();
    let mut pipeline = SearchPipeline::new(&cfg);
    assert_eq!(pipeline.tick(TickEvent::PipelinesReady), TickAction::DoNothing);

    // A constraint no terrain rotation can meet: orientation 4 of 5.
    let job = FinderJob(vec![Rotation::new(4, 5).0]);
    let pattern = job.0.clone();
    pipeline.tick(TickEvent::JobPublished { job, now: 0 });
    let mut act = pipeline.tick(TickEvent::FrameAdvanced);
    assert_eq!(act, TickAction::Dispatch { origin_x: 0, origin_z: 0 });

    let mut last_blocks = 0u64;
    for chunk_index in 0..5i32 {
        let hit = run_chunk_search(&cfg, &pattern, chunk_index);
        assert_eq!(hit, None, "the impossible pattern matched in chunk {chunk_index}");
        act = pipeline.tick(TickEvent::ResultRead { hit, now: chunk_index as u64 });
        match act {
            TickAction::Dispatch { .. } => {}
            other => panic!("expected a re-dispatch, got {other:?}"),
        }
        match pipeline.status() {
            FinderStatus::Running { blocks, start_time } => {
                assert_eq!(start_time, 0);
                assert!(blocks > last_blocks, "scanned count did not increase");
                assert_eq!(blocks, last_blocks + interior_cells(&cfg));
                last_blocks = blocks;
            }
            other => panic!("search must still be running, got {other:?}"),
        }
    }
}

/// The search finishes at the offset the matcher reports, converted to
/// world coordinates with the chunk's origin.
#[test]
fn finish_converts_offset_to_world_position() {
    let cfg = small_config();
    let mut pipeline = SearchPipeline::new(&cfg);
    pipeline.tick(TickEvent::PipelinesReady);
    // A parity constraint: first satisfied at in-chunk offset (1, 0, 0).
    let job = FinderJob(vec![Rotation::new(1, 2).0]);
    let pattern = job.0.clone();
    pipeline.tick(TickEvent::JobPublished { job, now: 5 });
    pipeline.tick(TickEvent::FrameAdvanced);
    let hit = run_chunk_search(&cfg, &pattern, 0);
    assert_eq!(hit, Some((1, 0, 0)));
    pipeline.tick(TickEvent::ResultRead { hit, now: 9 });
    assert_eq!(
        pipeline.status(),
        FinderStatus::Finished {
            searched_blocks: 128,
            pos: Position { x: 1, y: 0, z: 0 },
            time: 4,
        }
    );
}

/// A pattern absent from the first chunk advances the cursor one spiral
/// step and is found in the second chunk, its position converted with that
/// chunk's origin.
#[test]
fn search_advances_to_second_chunk() {
    let cfg = SearchConfig {
        chunk_size: 8,
        chunk_margin: 4,
        world_height: 8,
        grid_x: 2,
        grid_y: 2,
        grid_z: 2,
    };
    // Chunk 1 sits at spiral point (0, -1), scaled by 4: origin (0, -4).
    // Cut the terrain out of it at in-chunk offset (3, 2, 1) and demand
    // exactly those rotations.
    let (sx, sz) = (0i64, -4i64);
    let (cox, coy, coz) = (3usize, 2usize, 1usize);
    let mut pattern = vec![0u8; 8];
    for py in 0..2usize {
        for pz in 0..2usize {
            for px in 0..2usize {
                let t = get_block_rotation(
                    sx + (cox + px) as i64,
                    (coy + py) as i64,
                    sz + (coz + pz) as i64,
                );
                pattern[px + pz * 2 + py * 4] = Rotation::new(t, 4).0;
            }
        }
    }

    let mut pipeline = SearchPipeline::new(&cfg);
    pipeline.tick(TickEvent::PipelinesReady);
    pipeline.tick(TickEvent::JobPublished { job: FinderJob(pattern.clone()), now: 10 });
    let act = pipeline.tick(TickEvent::FrameAdvanced);
    assert_eq!(act, TickAction::Dispatch { origin_x: 0, origin_z: 0 });

    // Chunk 0 holds no match; the cursor advances to chunk 1.
    let miss = run_chunk_search(&cfg, &pattern, 0);
    assert_eq!(miss, None);
    let act = pipeline.tick(TickEvent::ResultRead { hit: miss, now: 11 });
    assert_eq!(act, TickAction::Dispatch { origin_x: 0, origin_z: -4 });
    assert_eq!(
        pipeline.status(),
        FinderStatus::Running { blocks: 128, start_time: 10 }
    );

    // Chunk 1 holds the cutout; the hit converts to world coordinates.
    let hit = run_chunk_search(&cfg, &pattern, 1);
    assert_eq!(hit, Some((3, 2, 1)));
    pipeline.tick(TickEvent::ResultRead { hit, now: 15 });
    assert_eq!(
        pipeline.status(),
        FinderStatus::Finished {
            searched_blocks: 256,
            pos: Position { x: 3, y: 2, z: -3 },
            time: 5,
        }
    );
}

/// Fatal events: a kernel compile failure and a device failure both halt
/// the machine without inventing a result.
#[test]
fn fatal_events_halt() {
    let cfg = small_config();
    let mut pipeline = SearchPipeline::new(&cfg);
    assert_eq!(
        pipeline.tick(TickEvent::PipelineCompileFailed),
        TickAction::Halt
    );
    assert_eq!(pipeline.status(), FinderStatus::WaitingForJob);

    let mut running = SearchPipeline::new(&cfg);
    running.tick(TickEvent::PipelinesReady);
    running.tick(TickEvent::JobPublished {
        job: FinderJob(vec![0u8]),
        now: 0,
    });
    running.tick(TickEvent::FrameAdvanced);
    assert_eq!(running.tick(TickEvent::DeviceFailed), TickAction::Halt);
    match running.status() {
        FinderStatus::Running { .. } => {}
        other => panic!("a halted search publishes no result, got {other:?}"),
    }
}

/// Events that do not fit the current state leave the machine unchanged.
#[test]
fn mismatched_events_are_ignored() {
    let cfg = small_config();
    let mut pipeline = SearchPipeline::new(&cfg);
    assert_eq!(
        pipeline.tick(TickEvent::ResultRead { hit: None, now: 3 }),
        TickAction::DoNothing
    );
    assert_eq!(pipeline.tick(TickEvent::FrameAdvanced), TickAction::DoNothing);
    assert_eq!(pipeline.status(), FinderStatus::WaitingForJob);
}
