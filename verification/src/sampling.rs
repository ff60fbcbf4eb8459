//! Random samples strictly inside the unit interval.
//!
//! The randomness comes from rand's seedable `StdRng`, drawn 64 bits at a
//! time behind a trusted wrapper. Turning a draw into a binary64 value in
//! (-1, 1) is verified bit manipulation: the top bit of the draw gives the
//! sign, the low 52 bits give a magnitude `m * 2^-52` on the uniform grid of
//! spacing `2^-52` in [0, 1), built by normalizing `m` into exponent and
//! fraction fields. Both endpoints of the interval are excluded, and a
//! seeded generator makes the whole construction reproducible.

use vstd::prelude::*;
use vstd::std_specs::bits::{axiom_u64_leading_zeros, u64_leading_zeros};
use rand::Rng;
use crate::bits::{in_unit_bits, FRAC_MASK, SIGN_MASK};

verus! {

/// rand's seedable standard generator `rand::rngs::StdRng`, declared opaque
/// so that it can stand in signatures; the library reads it only through
/// [`sample_unit`].
#[verifier::external_type_specification]
#[verifier::external_body]
pub struct ExStdRng(rand::rngs::StdRng);

/// Relies on rand's `Rng::next_u64` for `StdRng`: the next 64 bits of the
/// generator's stream. Of a random draw nothing more can be promised; a
/// seeded generator replays the same stream, which the callers' tests
/// exercise.
#[verifier::external_body]
fn next_raw(rng: &mut rand::rngs::StdRng) -> u64 {
    rng.next_u64()
}

/// The binary64 pattern that the draw `raw` encodes: the sign from the top
/// bit of the draw; a zero fraction stays a signed zero; otherwise the 52
/// fraction bits `m` of the draw are normalized, giving the value
/// `m * 2^-52` — exponent field `1023 - k` for `k = leading_zeros(m) - 11`,
/// and the bits of `m` below its highest set bit as the fraction field.
pub open spec fn unit_bits_of(raw: u64) -> u64 {
    let sign = raw & SIGN_MASK;
    let m = raw & FRAC_MASK;
    if m == 0 {
        sign
    } else {
        let k = (u64_leading_zeros(m) - 11) as u64;
        let e = (1023 - k) as u64;
        sign | (e << 52) | ((m << k) & FRAC_MASK)
    }
}

/// The binary64 value encoded by the draw `raw`: sign from the top bit, and
/// magnitude `m * 2^-52` from the 52 low bits `m` (see [`unit_bits_of`]).
/// The result always lies strictly between minus one and one, and the same
/// draw always gives the same value.
pub fn unit_from_raw(raw: u64) -> (r: u64)
    ensures
        in_unit_bits(r),
        r == unit_bits_of(raw),
{
    let sign: u64 = raw & SIGN_MASK;
    let m: u64 = raw & FRAC_MASK;
    if m == 0 {
        proof {
            assert((sign & 0x7FFF_FFFF_FFFF_FFFF) < 0x3FF0_0000_0000_0000) by (bit_vector)
                requires
                    sign == raw & 0x8000_0000_0000_0000,
            ;
        }
        // A zero magnitude stays a (positive or negative) zero.
        return sign;
    }
    let lz: u32 = m.leading_zeros();
    proof {
        axiom_u64_leading_zeros(m);
        assert(m <= 0x000F_FFFF_FFFF_FFFF) by (bit_vector)
            requires
                m == raw & 0x000F_FFFF_FFFF_FFFF,
        ;
        let s = (63 - u64_leading_zeros(m)) as u64;
        assert(s <= 51) by (bit_vector)
            requires
                (m >> s) & 1u64 != 0u64,
                m <= 0x000F_FFFF_FFFF_FFFF,
        ;
    }
    // The highest set bit of `m` is bit `63 - lz`, at most bit 51, so the
    // normalized exponent field 1023 - k stays below the field of one.
    let k: u32 = lz - 11;
    let e: u64 = 1023 - (k as u64);
    let frac: u64 = (m << (k as u64)) & FRAC_MASK;
    let r: u64 = sign | (e << 52) | frac;
    proof {
        assert(frac & 0xFFF0_0000_0000_0000 == 0) by (bit_vector)
            requires
                frac == (m << (k as u64)) & 0x000F_FFFF_FFFF_FFFF,
        ;
        assert(((sign | (e << 52u64) | frac) & 0x7FFF_FFFF_FFFF_FFFF) < 0x3FF0_0000_0000_0000)
            by (bit_vector)
            requires
                sign == raw & 0x8000_0000_0000_0000,
                e <= 1022,
                frac & 0xFFF0_0000_0000_0000 == 0,
        ;
    }
    r
}

/// One random binary64 value strictly inside (-1, 1), drawn from the
/// generator's next 64 bits.
pub fn sample_unit(rng: &mut rand::rngs::StdRng) -> (r: u64)
    ensures
        in_unit_bits(r),
{
    let raw = next_raw(rng);
    unit_from_raw(raw)
}

} // verus!
