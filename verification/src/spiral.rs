//! The spiral enumerator: a pure map from a scan index to the 2D integer
//! chunk offset it stands for, walking an outward square spiral around the
//! origin.
//!
//! Index 0 is the origin. For `n >= 1` the index falls on ring `r`, the set
//! of points at Chebyshev distance exactly `r` from the origin; each ring
//! holds `8 * r` points and is walked in a fixed order (top, right, bottom,
//! left). The map is injective, and the ring — hence the distance from the
//! origin — never decreases as the index grows, so nearer placements are
//! always enumerated before farther ones.
use vstd::prelude::*;

verus! {

/// The largest scan index the enumerator accepts.
pub const SPIRAL_MAX_INDEX: i32 = 0x7FFF_FFFF;

/// The index of the last point before ring `r`: rings `1..r` hold
/// `8 + 16 + ... + 8*(r-1) = 4*r*(r-1)` points in all.
pub open spec fn ring_start(r: int) -> int {
    4 * r * (r - 1)
}

/// Whether scan index `n` falls on ring `r`: the ring's `8 * r` indices are
/// `ring_start(r) + 1 ..= ring_start(r) + 8 * r`.
pub open spec fn in_ring(n: int, r: int) -> bool {
    &&& 1 <= r
    &&& ring_start(r) < n
    &&& n <= ring_start(r) + 8 * r
}

/// The ring that scan index `n >= 1` falls on.
pub open spec fn ring_of(n: int) -> int {
    choose|r: int| in_ring(n, r)
}

/// The position of index `n` along its ring: `0` for the ring's last point,
/// otherwise the offset from the ring's first point, starting at 1.
pub open spec fn ring_pos(r: int, n: int) -> int {
    (n - ring_start(r)) % (8 * r)
}

/// The point of ring `r` at ring position `ring_pos(r, n)`, walking the four
/// edges in the order top, right, bottom, left.
pub open spec fn ring_point(r: int, n: int) -> (int, int) {
    let a = ring_pos(r, n);
    let side = 2 * r;
    let f = a / side;
    if f == 0 {
        (a - r, -r)
    } else if f == 1 {
        (r, a % side - r)
    } else if f == 2 {
        (r - a % side, r)
    } else {
        (-r, r - a % side)
    }
}

/// The `n`-th point of the square spiral: the origin for `n == 0`, and the
/// point of ring `ring_of(n)` at `n`'s ring position for `n >= 1`.
pub open spec fn spiral_spec(n: int) -> (int, int) {
    if n <= 0 {
        (0, 0)
    } else {
        ring_point(ring_of(n), n)
    }
}

/// The Chebyshev distance of a point from the origin.
pub open spec fn chebyshev(p: (int, int)) -> int {
    vstd::math::max(vstd::math::abs(p.0) as int, vstd::math::abs(p.1) as int)
}

/// A scan index falls on at most one ring.
pub proof fn lemma_ring_unique(n: int, r1: int, r2: int)
    requires
        in_ring(n, r1),
        in_ring(n, r2),
    ensures
        r1 == r2,
{
    if r1 < r2 {
        lemma_ring_order(r1, r2);
    } else if r2 < r1 {
        lemma_ring_order(r2, r1);
    }
}

/// Rings are disjoint index ranges: a ring's last index is at most the
/// start of any later ring.
proof fn lemma_ring_order(ra: int, rb: int)
    requires
        1 <= ra < rb,
    ensures
        ring_start(ra) + 8 * ra <= ring_start(rb),
{
    assert(4 * ra * (ra - 1) + 8 * ra == 4 * (ra + 1) * ra) by (nonlinear_arith);
    assert(4 * (ra + 1) * ra <= 4 * rb * (rb - 1)) by (nonlinear_arith)
        requires
            1 <= ra && ra + 1 <= rb,
    ;
}

/// Every scan index from 1 up falls on some ring.
pub proof fn lemma_ring_exists(n: int)
    requires
        n >= 1,
    ensures
        in_ring(n, ring_of(n)),
    decreases n,
{
    if n == 1 {
        assert(in_ring(1, 1));
    } else {
        lemma_ring_exists(n - 1);
        let rp = ring_of(n - 1);
        if n - 1 < ring_start(rp) + 8 * rp {
            assert(in_ring(n, rp));
        } else {
            assert(4 * rp * (rp - 1) + 8 * rp == 4 * (rp + 1) * rp) by (nonlinear_arith);
            assert(ring_start(rp + 1) == ring_start(rp) + 8 * rp);
            assert(in_ring(n, rp + 1));
        }
    }
    assert(exists|r: int| in_ring(n, r));
}

/// `ring_of` returns the one ring a witness shows the index to fall on.
pub proof fn lemma_ring_of_val(n: int, r: int)
    requires
        in_ring(n, r),
    ensures
        ring_of(n) == r,
{
    assert(exists|q: int| in_ring(n, q));
    lemma_ring_unique(n, ring_of(n), r);
}

/// The facts behind `ring_point`: the ring position, the edge index `f`, and
/// the offset `m` along the edge, with the point each edge yields.
pub proof fn lemma_face_facts(r: int, n: int)
    requires
        in_ring(n, r),
    ensures
        0 <= ring_pos(r, n) < 8 * r,
        ring_pos(r, n) == (if n - ring_start(r) == 8 * r {
            0int
        } else {
            n - ring_start(r)
        }),
        ({
            let a = ring_pos(r, n);
            let f = a / (2 * r);
            let m = a % (2 * r);
            &&& 0 <= f <= 3
            &&& 0 <= m < 2 * r
            &&& a == 2 * r * f + m
            &&& (f == 0 ==> ring_point(r, n) == (m - r, -r))
            &&& (f == 1 ==> ring_point(r, n) == (r, m - r))
            &&& (f == 2 ==> ring_point(r, n) == (r - m, r))
            &&& (f == 3 ==> ring_point(r, n) == (-r, r - m))
        }),
{
    let d = n - ring_start(r);
    let side = 2 * r;
    assert(0 < d <= 8 * r);
    if d == 8 * r {
        vstd::arithmetic::div_mod::lemma_mod_self_0(8 * r);
        assert(ring_pos(r, n) == 0);
    } else {
        vstd::arithmetic::div_mod::lemma_small_mod(d as nat, (8 * r) as nat);
        assert(ring_pos(r, n) == d);
    }
    let a = ring_pos(r, n);
    let f = a / side;
    let m = a % side;
    vstd::arithmetic::div_mod::lemma_fundamental_div_mod(a, side);
    assert(0 <= m < side) by {
        vstd::arithmetic::div_mod::lemma_mod_bound(a, side);
    }
    assert(a == side * f + m);
    assert(0 <= f <= 3) by (nonlinear_arith)
        requires
            a == side * f + m && 0 <= m < side && 0 <= a < 4 * side && side >= 2,
    ;
    if f == 0 {
        assert(side * f == 0) by (nonlinear_arith)
            requires
                f == 0,
        ;
        assert(a == m);
    }
}

/// Every point of ring `r` lies at Chebyshev distance exactly `r`.
pub proof fn lemma_ring_point_chebyshev(r: int, n: int)
    requires
        in_ring(n, r),
    ensures
        chebyshev(ring_point(r, n)) == r,
{
    lemma_face_facts(r, n);
}

/// Distinct indices of one ring map to distinct points.
pub proof fn lemma_ring_point_injective(r: int, n1: int, n2: int)
    requires
        in_ring(n1, r),
        in_ring(n2, r),
        n1 != n2,
    ensures
        ring_point(r, n1) != ring_point(r, n2),
{
    lemma_face_facts(r, n1);
    lemma_face_facts(r, n2);
    let a1 = ring_pos(r, n1);
    let a2 = ring_pos(r, n2);
    assert(a1 != a2);
}

/// The spiral starts at the origin and never revisits a point: distinct
/// scan indices always map to distinct coordinates.
pub proof fn lemma_spiral_injective(n1: int, n2: int)
    requires
        0 <= n1,
        0 <= n2,
        n1 != n2,
    ensures
        spiral_spec(n1) != spiral_spec(n2),
{
    if n1 == 0 || n2 == 0 {
        let n = if n1 == 0 {
            n2
        } else {
            n1
        };
        lemma_ring_exists(n);
        lemma_ring_point_chebyshev(ring_of(n), n);
        assert(chebyshev((0int, 0int)) == 0);
    } else {
        lemma_ring_exists(n1);
        lemma_ring_exists(n2);
        let r1 = ring_of(n1);
        let r2 = ring_of(n2);
        if r1 == r2 {
            lemma_ring_point_injective(r1, n1, n2);
        } else {
            lemma_ring_point_chebyshev(r1, n1);
            lemma_ring_point_chebyshev(r2, n2);
        }
    }
}

/// Every scan index from 1 up lands at Chebyshev distance exactly its
/// ring's radius from the origin.
pub proof fn lemma_spiral_distance(n: int)
    requires
        n >= 1,
    ensures
        ring_of(n) >= 1,
        chebyshev(spiral_spec(n)) == ring_of(n),
{
    lemma_ring_exists(n);
    lemma_ring_point_chebyshev(ring_of(n), n);
}

/// The ring never decreases as the scan index grows: nearer points are
/// enumerated before farther ones.
pub proof fn lemma_ring_of_monotone(n1: int, n2: int)
    requires
        1 <= n1 <= n2,
    ensures
        ring_of(n1) <= ring_of(n2),
{
    lemma_ring_exists(n1);
    lemma_ring_exists(n2);
    let r1 = ring_of(n1);
    let r2 = ring_of(n2);
    if r2 < r1 {
        lemma_ring_order(r2, r1);
    }
}

/// Across a ring boundary the Chebyshev distance steps up by exactly one:
/// the last index of ring `r` is `ring_start(r) + 8 * r`, and the next index
/// falls on ring `r + 1`.
pub proof fn lemma_ring_boundary(r: int)
    requires
        1 <= r,
    ensures
        ring_of(ring_start(r) + 8 * r) == r,
        ring_of(ring_start(r) + 8 * r + 1) == r + 1,
{
    assert(4 * r * (r - 1) + 8 * r == 4 * (r + 1) * r) by (nonlinear_arith);
    assert(in_ring(ring_start(r) + 8 * r, r)) by {
        assert(ring_start(r) < ring_start(r) + 8 * r);
    }
    lemma_ring_of_val(ring_start(r) + 8 * r, r);
    assert(ring_start(r + 1) == ring_start(r) + 8 * r);
    assert(in_ring(ring_start(r) + 8 * r + 1, r + 1));
    lemma_ring_of_val(ring_start(r) + 8 * r + 1, r + 1);
}

/// Integer square root by bisection: returns the largest `s` with
/// `s * s <= v`.
fn isqrt_i64(v: i64) -> (s: i64)
    requires
        0 <= v <= 0x7FFF_FFFF,
    ensures
        0 <= s <= 46341,
        s * s <= v,
        v < (s + 1) * (s + 1),
{
    let mut lo: i64 = 0;
    let mut hi: i64 = 46342;
    proof {
        assert(46342int * 46342 > 0x7FFF_FFFF);
    }
    while lo + 1 < hi
        invariant
            0 <= lo < hi <= 46342,
            lo * lo <= v,
            v < hi * hi,
        decreases hi - lo,
    {
        let mid = lo + (hi - lo) / 2;
        assert(lo < mid < hi);
        assert(mid * mid <= 46342int * 46342) by (nonlinear_arith)
            requires
                0 < mid <= 46342,
        ;
        if mid * mid <= v {
            lo = mid;
        } else {
            hi = mid;
        }
    }
    lo
}

/// Maps scan index `n` to the `n`-th point of the outward square spiral.
/// `spiral(0)` is the origin `(0, 0)`; both coordinates always fit well
/// within `i32`, their magnitude never exceeding 23171.
pub fn spiral(n: i32) -> (p: (i32, i32))
    requires
        0 <= n,
    ensures
        p.0 == spiral_spec(n as int).0,
        p.1 == spiral_spec(n as int).1,
        vstd::math::abs(p.0 as int) <= 23171,
        vstd::math::abs(p.1 as int) <= 23171,
{
    if n == 0 {
        return (0, 0);
    }
    let ni: i64 = n as i64;
    let s = isqrt_i64(ni);
    let r = (s + 1) / 2;
    proof {
        if s == 0 {
            assert((s + 1) * (s + 1) == 1) by (nonlinear_arith)
                requires
                    s == 0,
            ;
            assert(false);
        }
        vstd::arithmetic::div_mod::lemma_fundamental_div_mod(s as int + 1, 2);
        vstd::arithmetic::div_mod::lemma_mod_bound(s as int + 1, 2);
        assert(s == 2 * r - 1 || s == 2 * r);
        assert(r >= 1);
        if s == 2 * r - 1 {
            assert(ring_start(r as int) < ni) by (nonlinear_arith)
                requires
                    s == 2 * r - 1 && s * s <= ni && r >= 1,
            ;
            assert(ni <= ring_start(r as int) + 8 * r) by (nonlinear_arith)
                requires
                    s == 2 * r - 1 && ni < (s + 1) * (s + 1) && r >= 1,
            ;
        } else {
            assert(ring_start(r as int) < ni) by (nonlinear_arith)
                requires
                    s == 2 * r && s * s <= ni && r >= 1,
            ;
            assert(ni <= ring_start(r as int) + 8 * r) by (nonlinear_arith)
                requires
                    s == 2 * r && ni < (s + 1) * (s + 1) && r >= 1,
            ;
        }
        assert(in_ring(ni as int, r as int));
        lemma_ring_of_val(ni as int, r as int);
        lemma_face_facts(r as int, ni as int);
        assert(r <= 23171) by (nonlinear_arith)
            requires
                4 * r * (r - 1) < ni && ni <= 0x7FFF_FFFF && r >= 1,
        ;
    }
    let start = 4 * r * (r - 1);
    let a = (ni - start) % (8 * r);
    let side = 2 * r;
    let f = a / side;
    let (x, y): (i64, i64) = if f == 0 {
        (a - r, -r)
    } else if f == 1 {
        (r, a % side - r)
    } else if f == 2 {
        (r - a % side, r)
    } else {
        (-r, r - a % side)
    };
    proof {
        assert(ring_point(r as int, ni as int) == (x as int, y as int));
        lemma_ring_point_chebyshev(r as int, ni as int);
    }
    (x as i32, y as i32)
}

} // verus!
