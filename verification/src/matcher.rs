//! The brute-force pattern matcher: tests a target pattern against a
//! generated chunk at every interior offset, in a fixed within-chunk scan
//! order, and reports the first offset where every constrained pattern cell
//! is satisfied.
//!
//! A pattern cell constrains the terrain only when its `max_rotation` nibble
//! is 2 or more; cells with `max_rotation` 0 or 1 are wildcards.
use vstd::prelude::*;

use crate::config::SearchConfig;
use crate::config::lin_index_spec;
use crate::config::lin_x;
use crate::config::lin_y;
use crate::config::lin_z;
use crate::config::lin_index;
use crate::config::lemma_lin_index_bound;
use crate::config::lemma_lin_decompose;
use crate::chunk::chunk_at;
use crate::rotation::Rotation;
use crate::rotation::check_rotation;
use crate::rotation::check_rotation_spec;

verus! {

/// The pattern's required rotation code at pattern cell `(x, y, z)`,
/// through the shared linearization.
pub open spec fn pattern_at(cfg: SearchConfig, pattern: Seq<u8>, x: int, y: int, z: int) -> u8 {
    pattern[lin_index_spec(cfg.grid_x as int, cfg.grid_z as int, x, y, z)]
}

/// Whether the pattern matches the chunk at offset `(ox, oy, oz)`: every
/// pattern cell accepts the terrain rotation of the chunk cell it lands on.
pub open spec fn matches_at_spec(
    cfg: SearchConfig,
    chunk: Seq<u8>,
    pattern: Seq<u8>,
    ox: int,
    oy: int,
    oz: int,
) -> bool {
    forall|px: int, py: int, pz: int|
        0 <= px < cfg.grid_x && 0 <= py < cfg.grid_y && 0 <= pz < cfg.grid_z
            ==> check_rotation_spec(
            Rotation(#[trigger] pattern_at(cfg, pattern, px, py, pz)),
            chunk_at(cfg, chunk, ox + px, oy + py, oz + pz),
        )
}

/// Whether `(ox, oy, oz)` is an interior offset the scan covers: `x` and
/// `z` below the chunk edge less the margin, `y` low enough for the
/// pattern's height to fit the world.
pub open spec fn offset_in_range(cfg: SearchConfig, ox: int, oy: int, oz: int) -> bool {
    &&& 0 <= ox < cfg.chunk_size - cfg.chunk_margin
    &&& 0 <= oy < cfg.world_height - cfg.grid_y
    &&& 0 <= oz < cfg.chunk_size - cfg.chunk_margin
}

/// The scan order over interior offsets: `x` innermost, then `z`, then `y`,
/// exactly the order cells are linearized in.
pub open spec fn offset_scan_index(cfg: SearchConfig, ox: int, oy: int, oz: int) -> int {
    lin_index_spec(
        cfg.chunk_size - cfg.chunk_margin as int,
        cfg.chunk_size - cfg.chunk_margin as int,
        ox,
        oy,
        oz,
    )
}

/// A pattern with one impossible cell matches nowhere: a constraining cell
/// (`max_rotation >= 2`) whose required orientation is at least its
/// `max_rotation` can be satisfied by no terrain rotation at all, since a
/// rotation reduced modulo `max_rotation` always falls below it.
pub proof fn lemma_impossible_cell_matches_nowhere(
    cfg: SearchConfig,
    chunk: Seq<u8>,
    pattern: Seq<u8>,
    px: int,
    py: int,
    pz: int,
)
    requires
        0 <= px < cfg.grid_x,
        0 <= py < cfg.grid_y,
        0 <= pz < cfg.grid_z,
        Rotation(pattern_at(cfg, pattern, px, py, pz)).max_rotation_spec() >= 2,
        Rotation(pattern_at(cfg, pattern, px, py, pz)).rotation_spec() >= Rotation(
            pattern_at(cfg, pattern, px, py, pz),
        ).max_rotation_spec(),
    ensures
        forall|ox: int, oy: int, oz: int|
            !matches_at_spec(cfg, chunk, pattern, ox, oy, oz),
{
    assert forall|ox: int, oy: int, oz: int| !matches_at_spec(cfg, chunk, pattern, ox, oy, oz) by {
        let d = Rotation(pattern_at(cfg, pattern, px, py, pz));
        let t = chunk_at(cfg, chunk, ox + px, oy + py, oz + pz);
        let m = d.max_rotation_spec() as int;
        assert((t as int % m) < m) by {
            vstd::arithmetic::div_mod::lemma_mod_bound(t as int, m);
        }
        assert(!check_rotation_spec(d, t));
    }
}

/// Tests the pattern against the chunk at one offset.
pub fn match_at(
    cfg: &SearchConfig,
    chunk: &Vec<u8>,
    pattern: &Vec<u8>,
    ox: usize,
    oy: usize,
    oz: usize,
) -> (b: bool)
    requires
        cfg.wf(),
        chunk@.len() == cfg.chunk_len_spec(),
        pattern@.len() == cfg.grid_len_spec(),
        offset_in_range(*cfg, ox as int, oy as int, oz as int),
    ensures
        b == matches_at_spec(*cfg, chunk@, pattern@, ox as int, oy as int, oz as int),
{
    let total = cfg.grid_len();
    let gx = cfg.grid_x;
    let gz = cfg.grid_z;
    let cs = cfg.chunk_size;
    let mut k: usize = 0;
    proof {
        assert(gx * gz > 0 && gx * gz <= gx * gz * cfg.grid_y) by (nonlinear_arith)
            requires
                0 < gx && 0 < gz && 0 < cfg.grid_y,
        ;
    }
    while k < total
        invariant
            cfg.wf(),
            total == cfg.grid_len_spec(),
            gx == cfg.grid_x,
            gz == cfg.grid_z,
            cs == cfg.chunk_size,
            gx * gz > 0,
            gx * gz <= total,
            chunk@.len() == cfg.chunk_len_spec(),
            pattern@.len() == cfg.grid_len_spec(),
            offset_in_range(*cfg, ox as int, oy as int, oz as int),
            k <= total,
            forall|px: int, py: int, pz: int|
                0 <= px < cfg.grid_x && 0 <= py < cfg.grid_y && 0 <= pz < cfg.grid_z
                    && lin_index_spec(gx as int, gz as int, px, py, pz) < k
                    ==> check_rotation_spec(
                    Rotation(#[trigger] pattern_at(*cfg, pattern@, px, py, pz)),
                    chunk_at(*cfg, chunk@, ox + px, oy + py, oz + pz),
                ),
        decreases total - k,
    {
        let px = k % gx;
        let pz = (k / gx) % gz;
        let py = k / (gx * gz);
        proof {
            assert(py < cfg.grid_y) by (nonlinear_arith)
                requires
                    k < gx * gz * cfg.grid_y && py as int == k as int / (gx as int * gz as int)
                        && 0 < gx && 0 < gz,
            ;
            lemma_lin_decompose(gx as int, gz as int, px as int, py as int, pz as int);
            lemma_lin_index_bound(
                gx as int,
                gz as int,
                cfg.grid_y as int,
                px as int,
                py as int,
                pz as int,
            );
            lemma_lin_index_bound(
                cs as int,
                cs as int,
                cfg.world_height as int,
                ox + px,
                oy + py,
                oz + pz,
            );
            assert(lin_index_spec(gx as int, gz as int, px as int, py as int, pz as int)
                == k as int) by {
                vstd::arithmetic::div_mod::lemma_fundamental_div_mod(k as int, gx as int);
                vstd::arithmetic::div_mod::lemma_fundamental_div_mod(
                    k as int / gx as int,
                    gz as int,
                );
                assert(k as int == px + gx * ((k as int / gx as int)));
                assert(k as int / gx as int == pz + gz * (k as int / gx as int / gz as int));
                vstd::arithmetic::div_mod::lemma_div_denominator(k as int, gx as int, gz as int);
                assert(k as int / gx as int / gz as int == py as int);
                assert(k as int == px + gx * (pz + gz * py));
                assert(px + gx * (pz + gz * py) == px + pz * gx + py * (gx * gz))
                    by (nonlinear_arith);
            }
        }
        let needed = Rotation(pattern[k]);
        let ci = lin_index(cs, cs, cfg.world_height, ox + px, oy + py, oz + pz);
        let terrain = chunk[ci];
        if !check_rotation(needed, terrain) {
            proof {
                assert(!matches_at_spec(*cfg, chunk@, pattern@, ox as int, oy as int, oz as int))
                    by {
                    assert(pattern_at(*cfg, pattern@, px as int, py as int, pz as int)
                        == pattern@[k as int]);
                }
            }
            return false;
        }
        proof {
            assert forall|qx: int, qy: int, qz: int|
                0 <= qx < cfg.grid_x && 0 <= qy < cfg.grid_y && 0 <= qz < cfg.grid_z
                    && lin_index_spec(gx as int, gz as int, qx, qy, qz) < k
                    + 1 implies check_rotation_spec(
                Rotation(#[trigger] pattern_at(*cfg, pattern@, qx, qy, qz)),
                chunk_at(*cfg, chunk@, ox + qx, oy + qy, oz + qz),
            ) by {
                if lin_index_spec(gx as int, gz as int, qx, qy, qz) == k as int {
                    lemma_lin_decompose(gx as int, gz as int, qx, qy, qz);
                    assert(qx == px && qy == py && qz == pz);
                }
            }
        }
        k = k + 1;
    }
    proof {
        assert forall|px: int, py: int, pz: int|
            0 <= px < cfg.grid_x && 0 <= py < cfg.grid_y && 0 <= pz
                < cfg.grid_z implies check_rotation_spec(
            Rotation(#[trigger] pattern_at(*cfg, pattern@, px, py, pz)),
            chunk_at(*cfg, chunk@, ox + px, oy + py, oz + pz),
        ) by {
            lemma_lin_index_bound(gx as int, gz as int, cfg.grid_y as int, px, py, pz);
        }
    }
    true
}

/// Scans every interior offset of the chunk in scan order and returns the
/// first offset where the pattern matches, or `None` when no offset
/// matches.
pub fn find_first_match(cfg: &SearchConfig, chunk: &Vec<u8>, pattern: &Vec<u8>) -> (r: Option<
    (u32, u32, u32),
>)
    requires
        cfg.wf(),
        chunk@.len() == cfg.chunk_len_spec(),
        pattern@.len() == cfg.grid_len_spec(),
    ensures
        match r {
            Some(hit) => {
                &&& offset_in_range(*cfg, hit.0 as int, hit.1 as int, hit.2 as int)
                &&& matches_at_spec(
                    *cfg,
                    chunk@,
                    pattern@,
                    hit.0 as int,
                    hit.1 as int,
                    hit.2 as int,
                )
                &&& forall|ox: int, oy: int, oz: int|
                    offset_in_range(*cfg, ox, oy, oz) && offset_scan_index(*cfg, ox, oy, oz)
                        < offset_scan_index(*cfg, hit.0 as int, hit.1 as int, hit.2 as int)
                        ==> !matches_at_spec(*cfg, chunk@, pattern@, ox, oy, oz)
            },
            None => forall|ox: int, oy: int, oz: int|
                offset_in_range(*cfg, ox, oy, oz) ==> !matches_at_spec(
                    *cfg,
                    chunk@,
                    pattern@,
                    ox,
                    oy,
                    oz,
                ),
        },
{
    let dox = cfg.chunk_size - cfg.chunk_margin;
    let doy = if cfg.world_height > cfg.grid_y {
        cfg.world_height - cfg.grid_y
    } else {
        0
    };
    proof {
        assert(dox * dox <= cfg.chunk_size * cfg.chunk_size) by (nonlinear_arith)
            requires
                0 <= dox <= cfg.chunk_size,
        ;
        assert(cfg.chunk_size * cfg.chunk_size * cfg.world_height >= cfg.chunk_size
            * cfg.chunk_size * doy) by (nonlinear_arith)
            requires
                0 <= doy <= cfg.world_height && 0 <= cfg.chunk_size,
        ;
        assert(cfg.chunk_size * cfg.chunk_size * doy >= dox * dox * doy) by (nonlinear_arith)
            requires
                0 <= dox * dox <= cfg.chunk_size * cfg.chunk_size && 0 <= doy,
        ;
        assert(dox * dox > 0) by (nonlinear_arith)
            requires
                0 < dox,
        ;
        assert(cfg.chunk_size * cfg.chunk_size <= cfg.chunk_size * cfg.chunk_size
            * cfg.world_height) by (nonlinear_arith)
            requires
                0 < cfg.chunk_size && 0 < cfg.world_height,
        ;
    }
    let total = dox * dox * doy;
    let mut t: usize = 0;
    while t < total
        invariant
            cfg.wf(),
            dox == cfg.chunk_size - cfg.chunk_margin,
            doy == (if cfg.world_height > cfg.grid_y {
                cfg.world_height - cfg.grid_y
            } else {
                0int
            }),
            dox * dox > 0,
            dox * dox <= cfg.chunk_size * cfg.chunk_size * cfg.world_height,
            total == dox * dox * doy,
            chunk@.len() == cfg.chunk_len_spec(),
            pattern@.len() == cfg.grid_len_spec(),
            t <= total,
            forall|ox: int, oy: int, oz: int|
                offset_in_range(*cfg, ox, oy, oz) && #[trigger] offset_scan_index(*cfg, ox, oy, oz)
                    < t ==> !matches_at_spec(*cfg, chunk@, pattern@, ox, oy, oz),
        decreases total - t,
    {
        let ox = t % dox;
        let oz = (t / dox) % dox;
        let oy = t / (dox * dox);
        proof {
            assert(oy < doy) by (nonlinear_arith)
                requires
                    t < dox * dox * doy && oy as int == t as int / (dox as int * dox as int) && 0
                        < dox,
            ;
            lemma_lin_decompose(dox as int, dox as int, ox as int, oy as int, oz as int);
            assert(offset_scan_index(*cfg, ox as int, oy as int, oz as int) == t as int) by {
                vstd::arithmetic::div_mod::lemma_fundamental_div_mod(t as int, dox as int);
                vstd::arithmetic::div_mod::lemma_fundamental_div_mod(
                    t as int / dox as int,
                    dox as int,
                );
                vstd::arithmetic::div_mod::lemma_div_denominator(t as int, dox as int, dox as int);
                assert(t as int == ox + dox * (oz + dox * oy));
                assert(ox + dox * (oz + dox * oy) == ox + oz * dox + oy * (dox * dox))
                    by (nonlinear_arith);
            }
        }
        if match_at(cfg, chunk, pattern, ox, oy, oz) {
            return Some((ox as u32, oy as u32, oz as u32));
        }
        proof {
            assert forall|qx: int, qy: int, qz: int|
                offset_in_range(*cfg, qx, qy, qz) && #[trigger] offset_scan_index(
                    *cfg,
                    qx,
                    qy,
                    qz,
                ) < t + 1 implies !matches_at_spec(*cfg, chunk@, pattern@, qx, qy, qz) by {
                if offset_scan_index(*cfg, qx, qy, qz) == t as int {
                    lemma_lin_decompose(dox as int, dox as int, qx, qy, qz);
                    assert(qx == ox && qy == oy && qz == oz);
                }
            }
        }
        t = t + 1;
    }
    proof {
        assert forall|ox: int, oy: int, oz: int|
            offset_in_range(*cfg, ox, oy, oz) implies !matches_at_spec(
            *cfg,
            chunk@,
            pattern@,
            ox,
            oy,
            oz,
        ) by {
            lemma_lin_index_bound(dox as int, dox as int, doy as int, ox, oy, oz);
            assert(offset_scan_index(*cfg, ox, oy, oz) < total);
        }
    }
    None
}

} // verus!
