//! Chunk generation: filling a dense terrain volume from the per-block hash.
//!
//! A chunk's cell at local `(x, y, z)` holds the rotation of the world block
//! at `(start_x + x, y, start_z + z)`, where `(start_x, start_z)` is the
//! chunk's world origin. Chunk origins follow the spiral order, scaled by
//! the chunk edge less the margin so that neighbors overlap by the margin.
use vstd::prelude::*;

use crate::config::SearchConfig;
use crate::config::lin_index_spec;
use crate::config::lin_x;
use crate::config::lin_y;
use crate::config::lin_z;
use crate::config::lemma_lin_index_bound;
use crate::config::lemma_lin_decompose;
use crate::spiral::spiral;
use crate::spiral::spiral_spec;
use crate::terrain::block_rotation_spec;
use crate::terrain::get_block_rotation;

verus! {

/// The terrain rotation a chunk generated at origin `(sx, sz)` must hold in
/// its cell `(x, y, z)`.
pub open spec fn chunk_value_spec(cfg: SearchConfig, sx: int, sz: int, x: int, y: int, z: int) -> u8 {
    block_rotation_spec((sx + x) as i64, y as i64, (sz + z) as i64)
}

/// The cell of a chunk at local `(x, y, z)`, through the shared
/// linearization.
pub open spec fn chunk_at(cfg: SearchConfig, chunk: Seq<u8>, x: int, y: int, z: int) -> u8 {
    chunk[lin_index_spec(cfg.chunk_size as int, cfg.chunk_size as int, x, y, z)]
}

/// A fully generated chunk: the right length, every cell the hash engine's
/// value for its world position.
pub open spec fn chunk_generated_spec(cfg: SearchConfig, chunk: Seq<u8>, sx: int, sz: int) -> bool {
    &&& chunk.len() == cfg.chunk_len_spec()
    &&& forall|x: int, y: int, z: int|
        0 <= x < cfg.chunk_size && 0 <= y < cfg.world_height && 0 <= z < cfg.chunk_size
            ==> #[trigger] chunk_at(cfg, chunk, x, y, z) == chunk_value_spec(cfg, sx, sz, x, y, z)
}

/// The cell value a generated chunk holds at a linear index, through the
/// index's coordinate decomposition.
pub open spec fn chunk_value_at_index(cfg: SearchConfig, sx: int, sz: int, i: int) -> u8 {
    let cs = cfg.chunk_size as int;
    chunk_value_spec(cfg, sx, sz, lin_x(cs, i), lin_y(cs, cs, i), lin_z(cs, cs, i))
}

/// The whole terrain volume of the chunk at origin `(sx, sz)`, cell by
/// cell, as the hash engine defines it. Any correct generation backend —
/// this crate's, or a compute kernel — must produce exactly this sequence.
pub open spec fn terrain_chunk_spec(cfg: SearchConfig, sx: int, sz: int) -> Seq<u8> {
    Seq::new(cfg.chunk_len_spec() as nat, |i: int| chunk_value_at_index(cfg, sx, sz, i))
}

/// The world origin of the chunk at spiral scan index `i`: the spiral point
/// scaled by the chunk edge less the margin.
pub open spec fn chunk_origin_spec(cfg: SearchConfig, i: int) -> (int, int) {
    (
        spiral_spec(i).0 * (cfg.chunk_size - cfg.chunk_margin),
        spiral_spec(i).1 * (cfg.chunk_size - cfg.chunk_margin),
    )
}

/// Computes the world origin of the chunk at spiral scan index `i`. The
/// origin's magnitude stays below `2^46`, so coordinates inside the chunk
/// fit comfortably in 64 bits.
pub fn chunk_origin(cfg: &SearchConfig, i: i32) -> (o: (i64, i64))
    requires
        cfg.wf(),
        0 <= i,
    ensures
        o.0 == chunk_origin_spec(*cfg, i as int).0,
        o.1 == chunk_origin_spec(*cfg, i as int).1,
        -0x4000_0000_0000 <= o.0 <= 0x4000_0000_0000,
        -0x4000_0000_0000 <= o.1 <= 0x4000_0000_0000,
{
    let p = spiral(i);
    let step = (cfg.chunk_size - cfg.chunk_margin) as i64;
    proof {
        assert(p.0 as int * step <= 0x4000_0000_0000 && p.0 as int * step >= -0x4000_0000_0000)
            by (nonlinear_arith)
            requires
                -23171 <= p.0 as int <= 23171 && 0 <= step <= 0x10_0000,
        ;
        assert(p.1 as int * step <= 0x4000_0000_0000 && p.1 as int * step >= -0x4000_0000_0000)
            by (nonlinear_arith)
            requires
                -23171 <= p.1 as int <= 23171 && 0 <= step <= 0x10_0000,
        ;
    }
    (p.0 as i64 * step, p.1 as i64 * step)
}

/// Generates the full chunk whose world origin is `(start_x, start_z)`:
/// every cell holds the hash engine's rotation for its world position,
/// matching the compute-backend generation cell-for-cell.
pub fn generate_grid(cfg: &SearchConfig, start_x: i64, start_z: i64) -> (chunk: Vec<u8>)
    requires
        cfg.wf(),
        -0x4000_0000_0000_0000 <= start_x <= 0x4000_0000_0000_0000,
        -0x4000_0000_0000_0000 <= start_z <= 0x4000_0000_0000_0000,
    ensures
        chunk_generated_spec(*cfg, chunk@, start_x as int, start_z as int),
        chunk@ == terrain_chunk_spec(*cfg, start_x as int, start_z as int),
{
    let len = cfg.chunk_len();
    let cs = cfg.chunk_size;
    let mut data: Vec<u8> = Vec::new();
    let mut i: usize = 0;
    proof {
        assert(cs * cs <= cs * cs * cfg.world_height) by (nonlinear_arith)
            requires
                0 < cs && 0 < cfg.world_height,
        ;
    }
    while i < len
        invariant
            cfg.wf(),
            len == cfg.chunk_len_spec(),
            cs == cfg.chunk_size,
            cs * cs <= len,
            -0x4000_0000_0000_0000 <= start_x <= 0x4000_0000_0000_0000,
            -0x4000_0000_0000_0000 <= start_z <= 0x4000_0000_0000_0000,
            i <= len,
            data.len() == i,
            forall|j: int|
                0 <= j < i ==> data[j] == chunk_value_at_index(
                    *cfg,
                    start_x as int,
                    start_z as int,
                    j,
                ),
        decreases len - i,
    {
        let x = i % cs;
        let z = (i / cs) % cs;
        proof {
            assert(cs * cs > 0) by (nonlinear_arith)
                requires
                    0 < cs,
            ;
        }
        let y = i / (cs * cs);
        proof {
            assert(y < cfg.world_height) by (nonlinear_arith)
                requires
                    i < cs * cs * cfg.world_height && y as int == i as int / (cs as int * cs as int)
                        && 0 < cs,
            ;
        }
        let v = get_block_rotation(start_x + x as i64, y as i64, start_z + z as i64);
        data.push(v);
        i = i + 1;
    }
    proof {
        let sx = start_x as int;
        let sz = start_z as int;
        let csi = cs as int;
        assert forall|x: int, y: int, z: int|
            0 <= x < cfg.chunk_size && 0 <= y < cfg.world_height && 0 <= z
                < cfg.chunk_size implies #[trigger] chunk_at(*cfg, data@, x, y, z)
            == chunk_value_spec(*cfg, sx, sz, x, y, z) by {
            lemma_lin_index_bound(csi, csi, cfg.world_height as int, x, y, z);
            lemma_lin_decompose(csi, csi, x, y, z);
        }
        assert(data@ =~= terrain_chunk_spec(*cfg, sx, sz));
    }
    data
}

} // verus!
