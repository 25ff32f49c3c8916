//! The engine's dimensions and the shared cell linearization.
//!
//! A chunk is a dense volume of `chunk_size x world_height x chunk_size`
//! terrain rotation bytes; a target pattern is a dense volume of
//! `grid_x x grid_y x grid_z` required rotation codes. Both are addressed by
//! the fixed linearization `index = x + z * dx + y * dx * dz`, which every
//! producer and consumer of a volume must share cell-for-cell.
//!
//! The sizes are configurable; `standard()` yields the defaults.
use vstd::prelude::*;

verus! {

/// Default edge length of a chunk, in cells; a multiple of 4.
pub const CHUNK_SIZE: usize = 1240;

/// Default overlap between adjacent chunks, in cells: generated chunks share
/// a margin so neighbor-dependent consumers see no seams.
pub const CHUNK_MARGIN: usize = 40;

/// Default height of the terrain volume, in cells.
pub const WORLD_HEIGHT: usize = 320;

/// Default width of a target pattern.
pub const GRID_SIZE_X: usize = 32;

/// Default height of a target pattern.
pub const GRID_SIZE_Y: usize = 32;

/// Default depth of a target pattern.
pub const GRID_SIZE_Z: usize = 32;

/// The dimensions a search runs with: the chunk volume, the chunk overlap,
/// and the target pattern's volume.
#[derive(Clone, Copy, PartialEq, Eq, Structural)]
pub struct SearchConfig {
    /// Edge length of a chunk, in cells.
    pub chunk_size: usize,
    /// Overlap between adjacent chunks, in cells.
    pub chunk_margin: usize,
    /// Height of the terrain volume, in cells.
    pub world_height: usize,
    /// Width of a target pattern, in cells.
    pub grid_x: usize,
    /// Height of a target pattern, in cells.
    pub grid_y: usize,
    /// Depth of a target pattern, in cells.
    pub grid_z: usize,
}

impl SearchConfig {
    /// Well-formedness: the chunk edge is a positive multiple of 4, the
    /// margin is positive and smaller than the chunk but large enough for a
    /// pattern to fit beside it, the pattern fits the world's height, and
    /// every volume fits the machine's address space.
    pub open spec fn wf(self) -> bool {
        &&& self.chunk_size % 4 == 0
        &&& 0 < self.chunk_margin < self.chunk_size
        &&& 0 < self.world_height
        &&& 0 < self.grid_x <= self.chunk_margin
        &&& 0 < self.grid_z <= self.chunk_margin
        &&& 0 < self.grid_y <= self.world_height
        &&& self.chunk_size <= 0x10_0000
        &&& self.world_height <= 0x10_0000
        &&& self.chunk_size * self.chunk_size * self.world_height <= usize::MAX
        &&& self.grid_x * self.grid_z * self.grid_y <= usize::MAX
    }

    /// The number of cells in one chunk.
    pub open spec fn chunk_len_spec(self) -> int {
        self.chunk_size * self.chunk_size * self.world_height
    }

    /// The number of cells in one target pattern.
    pub open spec fn grid_len_spec(self) -> int {
        self.grid_x * self.grid_z * self.grid_y
    }

    /// The number of cells one chunk scan covers: the interior offsets in
    /// `x` and `z` (the chunk edge less the margin) across the full height.
    pub open spec fn interior_cells_spec(self) -> int {
        (self.chunk_size - self.chunk_margin) * (self.chunk_size - self.chunk_margin)
            * self.world_height
    }

    /// The default dimensions.
    pub fn standard() -> (c: SearchConfig)
        ensures
            c.wf(),
            c.chunk_size == CHUNK_SIZE,
            c.chunk_margin == CHUNK_MARGIN,
            c.world_height == WORLD_HEIGHT,
            c.grid_x == GRID_SIZE_X,
            c.grid_y == GRID_SIZE_Y,
            c.grid_z == GRID_SIZE_Z,
    {
        SearchConfig {
            chunk_size: CHUNK_SIZE,
            chunk_margin: CHUNK_MARGIN,
            world_height: WORLD_HEIGHT,
            grid_x: GRID_SIZE_X,
            grid_y: GRID_SIZE_Y,
            grid_z: GRID_SIZE_Z,
        }
    }

    /// The number of cells in one chunk, computed at run time.
    pub fn chunk_len(&self) -> (n: usize)
        requires
            self.wf(),
        ensures
            n == self.chunk_len_spec(),
    {
        proof {
            assert(self.chunk_size * self.chunk_size <= self.chunk_size * self.chunk_size
                * self.world_height) by (nonlinear_arith)
                requires
                    0 < self.chunk_size && 0 < self.world_height,
            ;
        }
        self.chunk_size * self.chunk_size * self.world_height
    }

    /// The number of cells in one target pattern, computed at run time.
    pub fn grid_len(&self) -> (n: usize)
        requires
            self.wf(),
        ensures
            n == self.grid_len_spec(),
    {
        proof {
            assert(self.grid_x * self.grid_z <= self.grid_x * self.grid_z * self.grid_y)
                by (nonlinear_arith)
                requires
                    0 < self.grid_x && 0 < self.grid_z && 0 < self.grid_y,
            ;
        }
        self.grid_x * self.grid_z * self.grid_y
    }
}

/// The shared linearization of a `dx x dy x dz` volume:
/// `index = x + z * dx + y * dx * dz`.
pub open spec fn lin_index_spec(dx: int, dz: int, x: int, y: int, z: int) -> int {
    x + z * dx + y * (dx * dz)
}

/// The `x` coordinate of the cell a linear index addresses.
pub open spec fn lin_x(dx: int, i: int) -> int {
    i % dx
}

/// The `y` coordinate of the cell a linear index addresses.
pub open spec fn lin_y(dx: int, dz: int, i: int) -> int {
    i / (dx * dz)
}

/// The `z` coordinate of the cell a linear index addresses.
pub open spec fn lin_z(dx: int, dz: int, i: int) -> int {
    (i / dx) % dz
}

/// A cell's linear index lies inside the volume.
pub proof fn lemma_lin_index_bound(dx: int, dz: int, dy: int, x: int, y: int, z: int)
    requires
        0 <= x < dx,
        0 <= z < dz,
        0 <= y < dy,
    ensures
        0 <= lin_index_spec(dx, dz, x, y, z) < dx * dz * dy,
{
    assert(0 <= x + z * dx + y * (dx * dz) < dx * dz * dy) by (nonlinear_arith)
        requires
            0 <= x < dx && 0 <= z < dz && 0 <= y < dy,
    ;
}

/// The linearization and the coordinate decomposition are inverse: reading
/// the coordinates back out of a cell's linear index recovers the cell.
pub proof fn lemma_lin_decompose(dx: int, dz: int, x: int, y: int, z: int)
    requires
        0 <= x < dx,
        0 <= z < dz,
        0 <= y,
    ensures
        lin_x(dx, lin_index_spec(dx, dz, x, y, z)) == x,
        lin_y(dx, dz, lin_index_spec(dx, dz, x, y, z)) == y,
        lin_z(dx, dz, lin_index_spec(dx, dz, x, y, z)) == z,
{
    let i = lin_index_spec(dx, dz, x, y, z);
    assert(i == (z + dz * y) * dx + x) by (nonlinear_arith)
        requires
            i == x + z * dx + y * (dx * dz),
    ;
    vstd::arithmetic::div_mod::lemma_fundamental_div_mod_converse_mod(i, dx, z + dz * y, x);
    vstd::arithmetic::div_mod::lemma_fundamental_div_mod_converse_div(i, dx, z + dz * y, x);
    assert(i % dx == x);
    assert(i / dx == z + dz * y);
    assert(z + dz * y == y * dz + z);
    vstd::arithmetic::div_mod::lemma_fundamental_div_mod_converse_mod(z + dz * y, dz, y, z);
    vstd::arithmetic::div_mod::lemma_fundamental_div_mod_converse_div(z + dz * y, dz, y, z);
    assert((i / dx) % dz == z);
    assert((i / dx) / dz == y);
    assert(0 <= i) by (nonlinear_arith)
        requires
            i == x + z * dx + y * (dx * dz) && 0 <= x && 0 <= z && 0 <= y && 0 < dx && 0 < dz,
    ;
    vstd::arithmetic::div_mod::lemma_div_denominator(i, dx, dz);
    assert(i / (dx * dz) == y);
}

/// Computes a cell's linear index inside a `dx x dy x dz` volume.
pub fn lin_index(dx: usize, dz: usize, dy: usize, x: usize, y: usize, z: usize) -> (i: usize)
    requires
        x < dx,
        z < dz,
        y < dy,
        dx * dz * dy <= usize::MAX,
    ensures
        i == lin_index_spec(dx as int, dz as int, x as int, y as int, z as int),
        i < dx * dz * dy,
{
    proof {
        lemma_lin_index_bound(dx as int, dz as int, dy as int, x as int, y as int, z as int);
        assert(z * dx + x < dx * dz) by (nonlinear_arith)
            requires
                0 <= x < dx && 0 <= z < dz,
        ;
        assert(dx * dz * (y + 1) <= dx * dz * dy) by (nonlinear_arith)
            requires
                0 <= y && y < dy && 0 <= dx && 0 <= dz,
        ;
        assert(y * (dx * dz) + dx * dz == dx * dz * (y + 1)) by (nonlinear_arith);
    }
    x + z * dx + y * (dx * dz)
}

} // verus!
