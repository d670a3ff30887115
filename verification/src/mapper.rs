//! Command mappers: pure transforms from a raw command magnitude or an
//! orientation angle to a bounded actuator duty.
//!
//! Angles are carried as fixed-point microradians, so the mapping and its
//! bounds are exact integer facts.  The raw mapper multiplies before it
//! divides, so precision is not truncated away on small inputs; both
//! mappers are proved to stay within `[0, max_duty]`, so no runtime clamp
//! is needed.

use vstd::prelude::*;
use vstd::arithmetic::mul::lemma_mul_inequality;
use vstd::arithmetic::div_mod::{lemma_div_is_ordered, lemma_div_multiples_vanish};

verus! {

/// One half-turn, in microradians: the upper bound of the angular range.
pub const PI_URAD: i32 = 3141593;

/// One full turn, in microradians: the width of the angular range.
pub const TWO_PI_URAD: i32 = 6283186;

/// Largest raw command magnitude a record can carry.
pub const RAW_MAX: u16 = 65535;

/// The raw mapper: `v / RAW_MAX * max_duty`, with the multiplication
/// carried out first so the quotient keeps its precision.
pub open spec fn spec_raw_to_duty(v: u16, max_duty: u16) -> int {
    (v * max_duty) / (RAW_MAX as int)
}

/// The angle mapper: `(theta + pi) / (2 pi) * max_duty`, with the
/// multiplication carried out first.
pub open spec fn spec_angle_to_duty(theta_urad: i32, max_duty: u16) -> int {
    ((theta_urad + PI_URAD) * max_duty) / (TWO_PI_URAD as int)
}

/// Maps a raw 16-bit command magnitude linearly onto `[0, max_duty]`.
/// The endpoints are exact: zero maps to zero and the largest magnitude
/// maps to `max_duty`.
pub fn raw_to_duty(v: u16, max_duty: u16) -> (duty: u16)
    ensures
        duty == spec_raw_to_duty(v, max_duty),
        duty <= max_duty,
        v == 0 ==> duty == 0,
        v == RAW_MAX ==> duty == max_duty,
{
    proof {
        lemma_mul_inequality(v as int, RAW_MAX as int, max_duty as int);
        lemma_div_is_ordered(v as int * max_duty as int, RAW_MAX as int * max_duty as int, RAW_MAX as int);
        lemma_div_multiples_vanish(max_duty as int, RAW_MAX as int);
    }
    let wide: u32 = (v as u32) * (max_duty as u32);
    (wide / (RAW_MAX as u32)) as u16
}

/// Maps an angle in `(-pi, pi]` microradians linearly onto `[0, max_duty]`.
/// The result is bounded without a clamp: the dividend never exceeds one
/// full turn times `max_duty`, and at `theta == pi` the result is exactly
/// `max_duty`.
pub fn angle_to_duty(theta_urad: i32, max_duty: u16) -> (duty: u16)
    requires
        -PI_URAD < theta_urad <= PI_URAD,
    ensures
        duty == spec_angle_to_duty(theta_urad, max_duty),
        duty <= max_duty,
        theta_urad == PI_URAD ==> duty == max_duty,
{
    proof {
        lemma_mul_inequality(theta_urad + PI_URAD, TWO_PI_URAD as int, max_duty as int);
        lemma_div_is_ordered((theta_urad + PI_URAD) * max_duty as int, TWO_PI_URAD as int * max_duty as int, TWO_PI_URAD as int);
        lemma_div_multiples_vanish(max_duty as int, TWO_PI_URAD as int);
    }
    let shifted: i64 = theta_urad as i64 + PI_URAD as i64;
    let scaled: i64 = shifted * (max_duty as i64);
    (scaled / (TWO_PI_URAD as i64)) as u16
}

/// Monotonicity law: the angle mapper is non-decreasing over the angular
/// range, for every duty ceiling.
pub proof fn lemma_angle_to_duty_monotonic(theta1: i32, theta2: i32, max_duty: u16)
    requires
        -PI_URAD < theta1 <= theta2 <= PI_URAD,
    ensures
        spec_angle_to_duty(theta1, max_duty) <= spec_angle_to_duty(theta2, max_duty),
{
    lemma_mul_inequality(theta1 + PI_URAD, theta2 + PI_URAD, max_duty as int);
    lemma_div_is_ordered((theta1 + PI_URAD) * max_duty as int, (theta2 + PI_URAD) * max_duty as int, TWO_PI_URAD as int);
}

} // verus!
