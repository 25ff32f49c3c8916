use structure_finder::rotation::{check_rotation, check_rotation2, Rotation};

/// Round trip of the packed code: for all `rotation < max_rotation <= 15`,
/// packing and reading back recovers both fields exactly.
#[test]
fn round_trip_recovers_both_fields() {
    for max_rotation in 1u8..=15 {
        for rotation in 0..max_rotation {
            let c = Rotation::new(rotation, max_rotation);
            assert_eq!(c.get_rotation(), rotation);
            assert_eq!(c.get_max_rotation(), max_rotation);
        }
    }
}

/// Construction normalizes a stray rotation through the invariant
/// `rotation < max(max_rotation, 1)`.
#[test]
fn construction_normalizes() {
    let c = Rotation::new(7, 3);
    assert_eq!(c.get_rotation(), 1);
    assert_eq!(c.get_max_rotation(), 3);
    let wild = Rotation::new(9, 0);
    assert_eq!(wild.get_rotation(), 0);
    assert_eq!(wild.get_max_rotation(), 0);
}

/// Rotating advances the orientation modulo `max(max_rotation, 1)` and
/// keeps the orientation count.
#[test]
fn rotate_wraps_modulo_max() {
    let c = Rotation::new(2, 4);
    let turned = c.rotate(3);
    assert_eq!(turned.get_rotation(), 1);
    assert_eq!(turned.get_max_rotation(), 4);
    let wild = Rotation::new(0, 0);
    let still = wild.rotate(200);
    assert_eq!(still.get_rotation(), 0);
    assert_eq!(still.get_max_rotation(), 0);
}

/// `rotate(r)` composed `k` times equals one `rotate` by
/// `r * k mod max(max_rotation, 1)`.
#[test]
fn rotate_composes() {
    for max_rotation in 1u8..=15 {
        for start in 0..max_rotation {
            for r in 0u8..=6 {
                for k in 0u32..=10 {
                    let mut c = Rotation::new(start, max_rotation);
                    for _ in 0..k {
                        c = c.rotate(r);
                    }
                    let single = ((r as u32 * k) % max_rotation.max(1) as u32) as u8;
                    let direct = Rotation::new(start, max_rotation).rotate(single);
                    assert_eq!(c.0, direct.0, "mismatch at max={max_rotation} start={start} r={r} k={k}");
                }
            }
        }
    }
}

/// The two rotation checks agree, and both read the constraint exactly: a
/// `max_rotation` of 0 or 1 is a wildcard, otherwise the terrain rotation
/// reduced modulo `max_rotation` must equal the required orientation.
#[test]
fn check_rotation_exact_and_consistent() {
    // Wildcards accept everything.
    for t in 0u8..8 {
        assert!(check_rotation(Rotation::new(0, 0), t));
        assert!(check_rotation(Rotation::new(0, 1), t));
    }
    // A real constraint: rotation 1 of 2 accepts odd rotations only.
    let odd = Rotation::new(1, 2);
    assert!(!check_rotation(odd, 0));
    assert!(check_rotation(odd, 1));
    assert!(!check_rotation(odd, 2));
    assert!(check_rotation(odd, 3));
    // Both forms agree on every packed byte and terrain rotation.
    for byte in 0u8..=255 {
        let c = Rotation(byte);
        for t in 0u8..8 {
            assert_eq!(
                check_rotation(c, t),
                check_rotation2(c, t),
                "checks disagree at byte {byte:#x}, terrain {t}"
            );
        }
    }
}
