use std::collections::HashSet;

use structure_finder::spiral::spiral;

fn chebyshev(p: (i32, i32)) -> i32 {
    p.0.abs().max(p.1.abs())
}

/// The spiral starts at the origin.
#[test]
fn spiral_starts_at_origin() {
    assert_eq!(spiral(0), (0, 0));
}

/// The first ring, in walk order: top edge, right edge, bottom edge, left
/// edge.
#[test]
fn spiral_first_rings() {
    let expected = [
        (0, 0),
        (0, -1),
        (1, -1),
        (1, 0),
        (1, 1),
        (0, 1),
        (-1, 1),
        (-1, 0),
        (-1, -1),
        (-1, -2),
        (0, -2),
        (1, -2),
        (2, -2),
        (2, -1),
        (2, 0),
        (2, 1),
        (2, 2),
        (1, 2),
        (0, 2),
        (-1, 2),
        (-2, 2),
        (-2, 1),
        (-2, 0),
        (-2, -1),
        (-2, -2),
        (-2, -3),
    ];
    for (n, want) in expected.iter().enumerate() {
        assert_eq!(spiral(n as i32), *want, "wrong point at index {n}");
    }
}

/// No two of the first 10000 indices map to the same coordinate, and each
/// successive ring's Chebyshev distance is one greater than the previous
/// ring's.
#[test]
fn spiral_injective_and_rings_step_by_one() {
    let mut seen: HashSet<(i32, i32)> = HashSet::new();
    let mut current_ring: i32 = 0;
    for n in 0..10000i32 {
        let p = spiral(n);
        assert!(seen.insert(p), "index {n} revisits {p:?}");
        let d = chebyshev(p);
        assert!(
            d == current_ring || d == current_ring + 1,
            "distance jumped from {current_ring} to {d} at index {n}"
        );
        if d == current_ring + 1 {
            current_ring = d;
        }
        assert_eq!(d, current_ring, "distance fell back at index {n}");
    }
}

/// Within one ring the distance is constant: every ring `r` holds exactly
/// `8 * r` points.
#[test]
fn spiral_ring_sizes() {
    let mut counts = [0i32; 6];
    for n in 0..(4 * 6 * 5 + 1) {
        let d = chebyshev(spiral(n)) as usize;
        assert!(d < 6);
        counts[d] += 1;
    }
    assert_eq!(counts[0], 1);
    for r in 1..5usize {
        assert_eq!(counts[r], 8 * r as i32, "ring {r} has the wrong point count");
    }
}
