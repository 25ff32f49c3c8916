//! The per-block hash engine: a pure, deterministic map from a 3D integer
//! position to a rendering seed and a small rotation value in `0..=3`.
//!
//! All arithmetic wraps at 64 bits by design; the functions are total and their
//! results are bit-exact functions of the coordinates alone.
use vstd::prelude::*;

verus! {

/// The 64-bit mixing step over the coordinates' bit patterns:
/// `l = (x * 3129871) ^ (z * 116129781) ^ y`, then `l = l*l*42317861 + l*11`,
/// with every operation wrapping at 64 bits.
pub open spec fn seed_mix(xu: u64, yu: u64, zu: u64) -> u64 {
    let l = xu.wrapping_mul(3129871) ^ zu.wrapping_mul(116129781) ^ yu;
    l.wrapping_mul(l).wrapping_mul(42317861).wrapping_add(l.wrapping_mul(11))
}

/// The rendering seed of the block at `(x, y, z)`: `seed_mix` applied to the
/// coordinates' two's-complement bit patterns, read back as a signed value.
pub open spec fn rendering_seed_spec(x: i64, y: i64, z: i64) -> i64 {
    seed_mix(x as u64, y as u64, z as u64) as i64
}

/// The 48-bit linear-congruential scramble of a seed, truncated to 32 bits:
/// `s = (seed ^ 0x5DEECE66D) & (2^48 - 1)`, then
/// `((s * 0xBB20B4600A69 + 0x40942DE6BA) >> 16) & 0xFFFFFFFF`, reinterpreted
/// as a signed 32-bit value.
pub open spec fn mix_seed_spec(seed: i64) -> i32 {
    let s = ((seed as u64) ^ 0x5DEECE66D) & 0xFFFF_FFFF_FFFF;
    let v = (s.wrapping_mul(0xBB20B4600A69).wrapping_add(0x40942DE6BA) >> 16) & 0xFFFF_FFFF;
    v as i32
}

/// The rotation of the block at `(x, y, z)`: the absolute value of the
/// scrambled upper bits of its rendering seed, reduced modulo 4.
pub open spec fn block_rotation_spec(x: i64, y: i64, z: i64) -> u8 {
    (vstd::math::abs(mix_seed_spec(rendering_seed_spec(x, y, z) >> 16) as int) % 4) as u8
}

/// Computes the rendering seed of the block at `(x, y, z)`.
///
/// Pure and total; overflow is wraparound by design, not a fault.
pub fn get_rendering_seed(x: i64, y: i64, z: i64) -> (r: i64)
    ensures
        r == rendering_seed_spec(x, y, z),
{
    let xu = x as u64;
    let yu = y as u64;
    let zu = z as u64;
    let l = xu.wrapping_mul(3129871) ^ zu.wrapping_mul(116129781) ^ yu;
    let m = l.wrapping_mul(l).wrapping_mul(42317861).wrapping_add(l.wrapping_mul(11));
    m as i64
}

/// Scrambles a seed down to a signed 32-bit value, as `mix_seed_spec` states.
fn get_rotation_from_seed(seed: i64) -> (r: i32)
    ensures
        r == mix_seed_spec(seed),
{
    let s = ((seed as u64) ^ 0x5DEECE66D) & 0xFFFF_FFFF_FFFF;
    let v = (s.wrapping_mul(0xBB20B4600A69).wrapping_add(0x40942DE6BA) >> 16) & 0xFFFF_FFFF;
    v as i32
}

/// Computes the rotation of the block at `(x, y, z)`, always in `0..=3`.
pub fn get_block_rotation(x: i64, y: i64, z: i64) -> (r: u8)
    ensures
        r == block_rotation_spec(x, y, z),
        r < 4,
{
    let seed = get_rendering_seed(x, y, z);
    let v = get_rotation_from_seed(seed >> 16);
    let m = v as u32;
    let low = if v >= 0 {
        m & 3
    } else {
        0u32.wrapping_sub(m) & 3
    };
    proof {
        assert(v >= 0 ==> (v as u32) & 3 == (v as int % 4) as u32) by (bit_vector);
        assert(v < 0 ==> 0u32.wrapping_sub(v as u32) & 3 == ((0 - v as int) % 4) as u32)
            by (bit_vector);
        assert((v as u32) & 3 < 4) by (bit_vector);
        assert(0u32.wrapping_sub(v as u32) & 3 < 4) by (bit_vector);
    }
    low as u8
}

} // verus!
