//! Halton(2,3) jitter sequence for MetalFX temporal upscaling.
//!
//! Each frame takes the next sample of a 32-phase Halton(2,3) sequence,
//! centred on zero, matching Bevy's TAA convention: the samples are the
//! Halton points for indices 1..=32, and the leading 8 equal Bevy's own
//! 8-phase sequence. A longer sequence gives the temporal accumulator a
//! denser set of sub-pixel positions to integrate over.
//!
//! Samples are exact rationals; the renderer converts them to the floating
//! point offsets it hands to the camera.

use vstd::prelude::*;

verus! {

broadcast use {
    vstd::arithmetic::div_mod::lemma_div_decreases,
    vstd::arithmetic::div_mod::lemma_fundamental_div_mod,
};

/// Number of phases in the jitter sequence.
pub const JITTER_PHASES: u32 = 32;

/// Denominator of the radical inverse of `k` in `base`: `base` raised to the
/// number of digits of `k`.
pub open spec fn radical_denominator(base: nat, k: nat) -> nat
    decreases k,
{
    if k == 0 || base < 2 {
        1
    } else {
        base * radical_denominator(base, k / base)
    }
}

/// Numerator of the radical inverse of `k` in `base`: the digits of `k`
/// mirrored about the radix point.
pub open spec fn radical_numerator(base: nat, k: nat) -> nat
    decreases k,
{
    if k == 0 || base < 2 {
        0
    } else {
        (k % base) * radical_denominator(base, k / base) + radical_numerator(base, k / base)
    }
}

/// The radical inverse lies in `[0, 1)` for every positive index, and its
/// denominator stays below `base * k`.
pub proof fn lemma_radical_bounds(base: nat, k: nat)
    requires
        base >= 2,
    ensures
        radical_denominator(base, k) >= 1,
        radical_numerator(base, k) < radical_denominator(base, k),
        k >= 1 ==> radical_denominator(base, k) <= base * k,
    decreases k,
{
    if k > 0 {
        let q = k / base;
        lemma_radical_bounds(base, q);
        let d = radical_denominator(base, q);
        let n = radical_numerator(base, q);
        let digit = k % base;
        assert(digit <= base - 1);
        assert(digit * d <= (base - 1) * d) by (nonlinear_arith)
            requires
                digit <= base - 1,
        ;
        assert((base - 1) * d + d == base * d) by (nonlinear_arith);
        assert(radical_numerator(base, k) < radical_denominator(base, k));
        if q >= 1 {
            assert(k == base * q + k % base);
            assert(base * d <= base * (base * q)) by (nonlinear_arith)
                requires
                    d <= base * q,
            ;
            assert(base * (base * q) <= base * k) by (nonlinear_arith)
                requires
                    base * q <= k,
            ;
        } else {
            assert(d == 1);
            assert(base * 1 <= base * k) by (nonlinear_arith)
                requires
                    k >= 1,
            ;
        }
    }
}

/// The radical inverse of `k` in `base`, as `(numerator, denominator)`.
fn radical_inverse(base: u64, k: u64) -> (r: (u64, u64))
    requires
        2 <= base <= 16,
        k <= 1024,
    ensures
        r.0 == radical_numerator(base as nat, k as nat),
        r.1 == radical_denominator(base as nat, k as nat),
    decreases k,
{
    if k == 0 {
        (0, 1)
    } else {
        let (n, d) = radical_inverse(base, k / base);
        proof {
            lemma_radical_bounds(base as nat, (k / base) as nat);
            lemma_radical_bounds(base as nat, k as nat);
            assert(k == base * (k / base) + k % base);
            assert((k % base) * d <= 15 * 16384) by (nonlinear_arith)
                requires
                    k % base < base,
                    base <= 16,
                    d <= 16384,
            ;
            assert(base * d <= 16 * 16384) by (nonlinear_arith)
                requires
                    base <= 16,
                    d <= 16384,
            ;
        }
        ((k % base) * d + n, base * d)
    }
}

/// A jitter offset in input pixels, centred on zero: `x_numer / x_denom`
/// horizontally and `y_numer / y_denom` vertically.
#[derive(Debug, Clone, Copy, PartialEq, Eq, Structural)]
pub struct JitterOffset {
    pub x_numer: i64,
    pub x_denom: u64,
    pub y_numer: i64,
    pub y_denom: u64,
}

/// The centred sample of one base at Halton index `k`:
/// `radical_inverse(base, k) - 1/2` over a common denominator.
pub open spec fn centred_numerator(base: nat, k: nat) -> int {
    2 * radical_numerator(base, k) - radical_denominator(base, k)
}

/// The centred denominator of one base at Halton index `k`.
pub open spec fn centred_denominator(base: nat, k: nat) -> int {
    2 * (radical_denominator(base, k) as int)
}

/// The jitter sample of phase `phase`: the Halton(2,3) point for index
/// `phase + 1`, centred on zero.
pub open spec fn halton_offset(phase: nat) -> JitterOffset {
    JitterOffset {
        x_numer: centred_numerator(2, phase + 1) as i64,
        x_denom: centred_denominator(2, phase + 1) as u64,
        y_numer: centred_numerator(3, phase + 1) as i64,
        y_denom: centred_denominator(3, phase + 1) as u64,
    }
}

/// Every sample of the sequence lies within `[-1/2, 1/2]` in both axes.
pub proof fn law_samples_are_centred(phase: nat)
    requires
        phase < JITTER_PHASES,
    ensures
        -centred_denominator(2, phase + 1) <= 2 * centred_numerator(2, phase + 1)
            <= centred_denominator(2, phase + 1),
        -centred_denominator(3, phase + 1) <= 2 * centred_numerator(3, phase + 1)
            <= centred_denominator(3, phase + 1),
{
    lemma_radical_bounds(2, phase + 1);
    lemma_radical_bounds(3, phase + 1);
}

/// The Halton(2,3) sample for `phase`, centred on zero.
pub fn jitter_sample(phase: u32) -> (r: JitterOffset)
    requires
        phase < JITTER_PHASES,
    ensures
        r == halton_offset(phase as nat),
{
    let k = phase as u64 + 1;
    let (xn, xd) = radical_inverse(2, k);
    let (yn, yd) = radical_inverse(3, k);
    proof {
        lemma_radical_bounds(2, k as nat);
        lemma_radical_bounds(3, k as nat);
    }
    JitterOffset {
        x_numer: 2 * (xn as i64) - (xd as i64),
        x_denom: 2 * xd,
        y_numer: 2 * (yn as i64) - (yd as i64),
        y_denom: 2 * yd,
    }
}

/// The phase a frame counter selects.
pub open spec fn phase_of(frame_count: u32) -> nat {
    (frame_count % JITTER_PHASES) as nat
}

/// The frame counter after one more frame; it wraps at `u32::MAX`.
pub open spec fn next_frame_count(frame_count: u32) -> u32 {
    if frame_count == u32::MAX {
        0
    } else {
        (frame_count + 1) as u32
    }
}

/// One frame of the jitter system: the offset for `frame_count`'s phase and
/// the counter for the next frame.
pub fn update_jitter(frame_count: u32) -> (r: (JitterOffset, u32))
    ensures
        r.0 == halton_offset(phase_of(frame_count)),
        r.1 == next_frame_count(frame_count),
{
    let phase = frame_count % JITTER_PHASES;
    let sample = jitter_sample(phase);
    let next = if frame_count == u32::MAX {
        0
    } else {
        frame_count + 1
    };
    (sample, next)
}

/// The sequence cycles with period 32, and the wrapping frame counter never
/// breaks the cycle: the phase after any frame is the next phase mod 32.
pub proof fn law_phase_advances_cyclically(frame_count: u32)
    ensures
        phase_of(next_frame_count(frame_count)) == (phase_of(frame_count) + 1) % 32,
{
    if frame_count == u32::MAX {
        assert(frame_count % 32 == 31);
    }
}

} // verus!
