//! The brightness curve that a breathing LED follows.

use vstd::prelude::*;

verus! {

/// Number of entries in the brightness curve.
pub const TABLE_LEN: usize = 128;

/// Highest index into the brightness curve.
pub const MAX_INDEX: usize = 127;

/// Largest PWM duty that the brightness curve asks for.
pub const MAX_LEVEL: u16 = 500;

/// PWM duty for each step of a breath, from dark to full brightness.
pub const BREATHING_TABLE: [u16; 128] = [
    0, 0, 0, 0, 0, 0, 0, 0, 0, 0, 1, 1, 1, 3, 3, 3, 5, 5, 7, 7, 9, 9,
    11, 11, 13, 15, 15, 17, 19, 21, 21, 23, 25, 27, 29, 31, 33, 35, 37,
    41, 43, 45, 49, 50, 52, 56, 58, 62, 66, 68, 72, 76, 80, 84, 88, 92,
    96, 100, 103, 109, 113, 119, 123, 129, 133, 139, 145, 150, 156, 162,
    168, 174, 180, 186, 192, 200, 205, 211, 219, 227, 233, 241, 247, 254,
    262, 270, 278, 284, 292, 300, 307, 315, 323, 331, 339, 345, 352, 360,
    368, 376, 382, 390, 398, 403, 411, 417, 423, 429, 437, 443, 447, 452,
    458, 462, 468, 472, 476, 480, 484, 486, 490, 492, 494, 496, 498, 500,
    500, 500,
];

/// The curve as a mathematical sequence.
pub open spec fn curve() -> Seq<u16> {
    BREATHING_TABLE@
}

/// The first `n` entries of `s` are at most `bound` and never drop.
pub open spec fn prefix_rises_within(s: Seq<u16>, bound: u16, n: nat) -> bool
    decreases n,
{
    if n == 0 {
        true
    } else if n == 1 {
        s[0] <= bound
    } else {
        &&& s[n - 2] <= s[n - 1]
        &&& s[n - 1] <= bound
        &&& prefix_rises_within(s, bound, (n - 1) as nat)
    }
}

proof fn lemma_prefix_rises_within(s: Seq<u16>, bound: u16, n: nat)
    requires
        n <= s.len(),
        prefix_rises_within(s, bound, n),
    ensures
        forall|i: int| 0 <= i < n ==> #[trigger] s[i] <= bound,
        forall|i: int, j: int| 0 <= i <= j < n ==> s[i] <= s[j],
    decreases n,
{
    if n > 1 {
        lemma_prefix_rises_within(s, bound, (n - 1) as nat);
    }
}

/// Every entry of the curve is at most `MAX_LEVEL`, the curve never gets
/// darker from one index to the next, it starts dark and ends at full
/// brightness.
pub proof fn lemma_curve_shape()
    ensures
        curve().len() == TABLE_LEN,
        forall|i: int| 0 <= i < TABLE_LEN ==> #[trigger] curve()[i] <= MAX_LEVEL,
        forall|i: int, j: int| 0 <= i <= j < TABLE_LEN ==> curve()[i] <= curve()[j],
        curve()[0] == 0,
        curve()[MAX_INDEX as int] == MAX_LEVEL,
{
    // Unfolded eight entries at a time, each block resting on the one before.
    assert(prefix_rises_within(curve(), MAX_LEVEL, 8)) by {
        reveal_with_fuel(prefix_rises_within, 9);
    }
    assert(prefix_rises_within(curve(), MAX_LEVEL, 16)) by {
        reveal_with_fuel(prefix_rises_within, 9);
    }
    assert(prefix_rises_within(curve(), MAX_LEVEL, 24)) by {
        reveal_with_fuel(prefix_rises_within, 9);
    }
    assert(prefix_rises_within(curve(), MAX_LEVEL, 32)) by {
        reveal_with_fuel(prefix_rises_within, 9);
    }
    assert(prefix_rises_within(curve(), MAX_LEVEL, 40)) by {
        reveal_with_fuel(prefix_rises_within, 9);
    }
    assert(prefix_rises_within(curve(), MAX_LEVEL, 48)) by {
        reveal_with_fuel(prefix_rises_within, 9);
    }
    assert(prefix_rises_within(curve(), MAX_LEVEL, 56)) by {
        reveal_with_fuel(prefix_rises_within, 9);
    }
    assert(prefix_rises_within(curve(), MAX_LEVEL, 64)) by {
        reveal_with_fuel(prefix_rises_within, 9);
    }
    assert(prefix_rises_within(curve(), MAX_LEVEL, 72)) by {
        reveal_with_fuel(prefix_rises_within, 9);
    }
    assert(prefix_rises_within(curve(), MAX_LEVEL, 80)) by {
        reveal_with_fuel(prefix_rises_within, 9);
    }
    assert(prefix_rises_within(curve(), MAX_LEVEL, 88)) by {
        reveal_with_fuel(prefix_rises_within, 9);
    }
    assert(prefix_rises_within(curve(), MAX_LEVEL, 96)) by {
        reveal_with_fuel(prefix_rises_within, 9);
    }
    assert(prefix_rises_within(curve(), MAX_LEVEL, 104)) by {
        reveal_with_fuel(prefix_rises_within, 9);
    }
    assert(prefix_rises_within(curve(), MAX_LEVEL, 112)) by {
        reveal_with_fuel(prefix_rises_within, 9);
    }
    assert(prefix_rises_within(curve(), MAX_LEVEL, 120)) by {
        reveal_with_fuel(prefix_rises_within, 9);
    }
    assert(prefix_rises_within(curve(), MAX_LEVEL, 128)) by {
        reveal_with_fuel(prefix_rises_within, 9);
    }
    lemma_prefix_rises_within(curve(), MAX_LEVEL, 128);
}

/// The PWM duty at step `i` of a breath.
pub fn level(i: usize) -> (r: u16)
    requires
        i < TABLE_LEN,
    ensures
        r == curve()[i as int],
        r <= MAX_LEVEL,
{
    proof {
        lemma_curve_shape();
    }
    BREATHING_TABLE[i]
}

} // verus!
