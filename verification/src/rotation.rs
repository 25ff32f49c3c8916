//! The packed rotation code: one byte whose high nibble is `max_rotation`
//! (the number of valid orientations, 0 to 15) and whose low nibble is
//! `rotation` (the current orientation).
//!
//! Invariant: `rotation < max(max_rotation, 1)`; construction normalizes any
//! stray rotation through this invariant. A `max_rotation` of 0 or 1 acts as a
//! wildcard when the code is used as a matching constraint.
use vstd::prelude::*;

verus! {

/// A block's packed rotation code. Bits `aaaabbbb`: `a` is `max_rotation`,
/// `b` is `rotation`.
#[derive(Clone, Copy, Hash, PartialEq, Eq, Structural)]
pub struct Rotation(pub u8);

/// `max(m, 1)`: the modulus that rotations are reduced by; a `max_rotation`
/// of 0 counts as a single valid orientation.
pub open spec fn max1(m: u8) -> u8 {
    if m == 0 {
        1u8
    } else {
        m
    }
}

/// The packed byte that `Rotation::new` builds: the high nibble holds
/// `max_rotation`, the low nibble holds `rotation` reduced modulo
/// `max(max_rotation, 1)`.
pub open spec fn pack_spec(rotation: u8, max_rotation: u8) -> Rotation {
    Rotation((max_rotation * 16 + rotation % max1(max_rotation)) as u8)
}

impl Rotation {
    /// The low nibble: the current orientation.
    pub open spec fn rotation_spec(self) -> u8 {
        (self.0 % 16) as u8
    }

    /// The high nibble: the number of valid orientations.
    pub open spec fn max_rotation_spec(self) -> u8 {
        (self.0 / 16) as u8
    }

    /// The code's invariant: the orientation is below `max(max_rotation, 1)`.
    pub open spec fn wf(self) -> bool {
        self.rotation_spec() < max1(self.max_rotation_spec())
    }

    /// Packs an orientation and an orientation count into one byte,
    /// normalizing the orientation modulo `max(max_rotation, 1)`.
    pub fn new(rotation: u8, max_rotation: u8) -> (r: Rotation)
        requires
            max_rotation <= 15,
        ensures
            r == pack_spec(rotation, max_rotation),
            r.rotation_spec() == rotation % max1(max_rotation),
            r.max_rotation_spec() == max_rotation,
            r.wf(),
    {
        let m1 = if max_rotation == 0 {
            1u8
        } else {
            max_rotation
        };
        let low = rotation % m1;
        proof {
            assert(max_rotation <= 15 ==> max_rotation << 4 == max_rotation * 16) by (bit_vector);
        }
        let packed = (max_rotation << 4) + low;
        Rotation(packed)
    }

    /// Reads the current orientation out of the low nibble.
    pub fn get_rotation(self) -> (r: u8)
        ensures
            r == self.rotation_spec(),
    {
        let b = self.0;
        proof {
            assert(b & 0x0F == b % 16) by (bit_vector);
        }
        b & 0x0F
    }

    /// Reads the orientation count out of the high nibble.
    pub fn get_max_rotation(self) -> (r: u8)
        ensures
            r == self.max_rotation_spec(),
            r <= 15,
    {
        let b = self.0;
        proof {
            assert((b >> 4) & 0x0F == b / 16) by (bit_vector);
            assert(b / 16 <= 15);
        }
        (b >> 4) & 0x0F
    }

    /// The code after turning by `r` steps: the orientation advances by `r`
    /// modulo `max(max_rotation, 1)`; the orientation count is unchanged.
    pub open spec fn rotate_spec(self, r: u8) -> Rotation {
        Rotation(
            (self.max_rotation_spec() * 16 + (self.rotation_spec() + r) % max1(
                self.max_rotation_spec(),
            ) as int) as u8,
        )
    }

    /// Turns the block by `rotation` steps, keeping the orientation count.
    pub fn rotate(self, rotation: u8) -> (r: Rotation)
        requires
            self.wf(),
        ensures
            r == self.rotate_spec(rotation),
            r.max_rotation_spec() == self.max_rotation_spec(),
            r.rotation_spec() == (self.rotation_spec() + rotation) % max1(
                self.max_rotation_spec(),
            ) as int,
            r.wf(),
    {
        let cur = self.get_rotation();
        let max = self.get_max_rotation();
        let m1: u16 = if max == 0 {
            1u16
        } else {
            max as u16
        };
        let low = ((cur as u16 + rotation as u16) % m1) as u8;
        proof {
            assert(max <= 15 ==> max << 4 == max * 16) by (bit_vector);
        }
        let packed = (max << 4) + low;
        Rotation(packed)
    }
}

/// Checks a terrain rotation against a required code: a `max_rotation` of 0
/// or 1 is a wildcard that accepts anything; otherwise the terrain rotation,
/// reduced modulo `max_rotation`, must equal the required orientation.
pub open spec fn check_rotation_spec(desired_rotation: Rotation, rotation: u8) -> bool {
    ||| desired_rotation.max_rotation_spec() <= 1
    ||| rotation as int % desired_rotation.max_rotation_spec() as int
        == desired_rotation.rotation_spec() as int
}

/// Decides whether a terrain block's rotation satisfies a required code.
pub fn check_rotation(desired_rotation: Rotation, rotation: u8) -> (r: bool)
    ensures
        r == check_rotation_spec(desired_rotation, rotation),
{
    desired_rotation.get_max_rotation() <= 1 || rotation % desired_rotation.get_max_rotation()
        == desired_rotation.get_rotation()
}

/// Decides the same constraint as `check_rotation`, reading the nibbles out
/// of the packed byte directly.
pub fn check_rotation2(desired_rotation: Rotation, rotation: u8) -> (r: bool)
    ensures
        r == check_rotation_spec(desired_rotation, rotation),
{
    let b = desired_rotation.0;
    proof {
        assert((b >> 4) & 0x0F == b / 16) by (bit_vector);
        assert(b & 0x0F == b % 16) by (bit_vector);
    }
    (b >> 4) & 0x0F <= 1 || rotation % ((b >> 4) & 0x0F) == b & 0x0F
}

/// The code after `k` successive turns by `r` steps each.
pub open spec fn rotate_n_spec(c: Rotation, r: u8, k: nat) -> Rotation
    decreases k,
{
    if k == 0 {
        c
    } else {
        rotate_n_spec(c, r, (k - 1) as nat).rotate_spec(r)
    }
}

/// Round trip of the packed code: for any `rotation < max_rotation <= 15`,
/// packing and then reading back recovers both fields exactly.
pub proof fn lemma_pack_round_trip(rotation: u8, max_rotation: u8)
    requires
        rotation < max_rotation,
        max_rotation <= 15,
    ensures
        pack_spec(rotation, max_rotation).rotation_spec() == rotation,
        pack_spec(rotation, max_rotation).max_rotation_spec() == max_rotation,
{
    vstd::arithmetic::div_mod::lemma_small_mod(rotation as nat, max1(max_rotation) as nat);
    assert(rotation % max1(max_rotation) == rotation);
    assert((max_rotation * 16 + rotation) / 16 == max_rotation && (max_rotation * 16 + rotation)
        % 16 == rotation) by (nonlinear_arith)
        requires
            rotation < 16 && max_rotation <= 15,
    ;
}

/// Composition of turns: turning by `r` steps `k` times in a row equals one
/// turn by `r * k` modulo `max(max_rotation, 1)`.
pub proof fn lemma_rotate_compose(c: Rotation, r: u8, k: nat)
    requires
        c.wf(),
    ensures
        rotate_n_spec(c, r, k) == c.rotate_spec(((r * k) % max1(c.max_rotation_spec()) as int) as u8),
    decreases k,
{
    let m = max1(c.max_rotation_spec()) as int;
    let base = c.rotation_spec() as int;
    assert(1 <= m <= 15);
    assert(base < m);
    if k == 0 {
        vstd::arithmetic::div_mod::lemma_small_mod(0nat, m as nat);
        assert(r * k == 0) by (nonlinear_arith)
            requires
                k == 0,
        ;
        assert(((r * k) % m) as u8 == 0u8);
        assert(rotate_n_spec(c, r, k) == c);
        assert(c.rotate_spec(0u8) == c) by {
            vstd::arithmetic::div_mod::lemma_small_mod(base as nat, m as nat);
            assert((c.rotation_spec() + 0) % m == base);
            assert(c.0 == (c.max_rotation_spec() * 16 + c.rotation_spec()) as u8) by {
                assert(c.0 / 16 * 16 + c.0 % 16 == c.0) by (nonlinear_arith);
            }
        }
    } else {
        lemma_rotate_compose(c, r, (k - 1) as nat);
        let prev = rotate_n_spec(c, r, (k - 1) as nat);
        let rk1 = (r * ((k - 1) as int)) % m;
        assert(prev == c.rotate_spec(rk1 as u8));
        assert(prev.max_rotation_spec() == c.max_rotation_spec() && prev.rotation_spec() == (base
            + rk1) % m) by {
            lemma_rotate_spec_fields(c, rk1 as u8);
        }
        assert(rotate_n_spec(c, r, k) == prev.rotate_spec(r));
        let want = (r * k) % m;
        assert((prev.rotation_spec() + r) % m == (base + want) % m) by {
            assert((r + (base + rk1) % m) % m == (r + base + rk1) % m) by {
                vstd::arithmetic::div_mod::lemma_add_mod_noop_right(r as int, base + rk1, m);
            }
            assert((base + r + (r * (k - 1)) % m) % m == (base + r + r * (k - 1)) % m) by {
                vstd::arithmetic::div_mod::lemma_add_mod_noop_right(
                    base + r,
                    r * ((k - 1) as int),
                    m,
                );
            }
            assert(base + r + r * ((k - 1) as int) == base + r * k) by (nonlinear_arith);
            assert((base + (r * k) % m) % m == (base + r * k) % m) by {
                vstd::arithmetic::div_mod::lemma_add_mod_noop_right(base, r * k, m);
            }
        }
        assert(prev.rotate_spec(r) == c.rotate_spec(want as u8)) by {
            lemma_rotate_spec_fields(prev, r);
            lemma_rotate_spec_fields(c, want as u8);
            assert(prev.max_rotation_spec() == c.max_rotation_spec());
        }
    }
}

/// The fields of `rotate_spec`'s result: the orientation count is kept and
/// the orientation advances modulo `max(max_rotation, 1)`.
pub proof fn lemma_rotate_spec_fields(c: Rotation, r: u8)
    ensures
        c.rotate_spec(r).max_rotation_spec() == c.max_rotation_spec(),
        c.rotate_spec(r).rotation_spec() == (c.rotation_spec() + r) % max1(
            c.max_rotation_spec(),
        ) as int,
{
    let m = max1(c.max_rotation_spec()) as int;
    let low = (c.rotation_spec() + r) % m;
    assert(0 <= low < m);
    let hi = c.max_rotation_spec() as int;
    assert(hi <= 15) by (nonlinear_arith)
        requires
            hi == c.0 / 16 && c.0 <= 255,
    ;
    assert((hi * 16 + low) / 16 == hi && (hi * 16 + low) % 16 == low) by (nonlinear_arith)
        requires
            0 <= low < 16 && 0 <= hi <= 15,
    ;
}

} // verus!
