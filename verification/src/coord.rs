//! Coordinates and radii travel through the library as the IEEE-754 binary64
//! bit patterns of the numbers that the service reads; the range rules of the
//! service are decided exactly on those patterns.
//!
//! For a pattern `b`, the sign is the top bit and the magnitude is the pattern
//! without it; among patterns that are not NaN, a larger magnitude is a larger
//! absolute value, and every NaN has a magnitude above that of infinity.
use vstd::prelude::*;

verus! {

/// The sign bit of a binary64 pattern.
pub const SIGN_BIT: u64 = 0x8000_0000_0000_0000;
/// The pattern of positive infinity.
pub const INFINITY_BITS: u64 = 0x7ff0_0000_0000_0000;
/// The pattern of the latitude bound, ninety degrees.
pub const LAT_LIMIT_BITS: u64 = 0x4056_8000_0000_0000;
/// The pattern of the longitude bound, one hundred and eighty degrees.
pub const LON_LIMIT_BITS: u64 = 0x4066_8000_0000_0000;
/// The pattern of the largest accepted radius, fifty thousand metres.
pub const RADIUS_LIMIT_BITS: u64 = 0x40e8_6a00_0000_0000;
/// The pattern of the default radius, eighty metres.
pub const DEFAULT_RADIUS_BITS: u64 = 0x4054_0000_0000_0000;

/// The pattern without its sign bit.
pub open spec fn magnitude(b: u64) -> u64 {
    if b >= SIGN_BIT {
        (b - SIGN_BIT) as u64
    } else {
        b
    }
}

/// Whether the pattern is a NaN.
pub open spec fn is_nan(b: u64) -> bool {
    magnitude(b) > INFINITY_BITS
}

/// Whether the pattern is a finite number (`is_finite`).
pub open spec fn is_finite(b: u64) -> bool {
    magnitude(b) < INFINITY_BITS
}

/// Whether the number lies in `[-limit, limit]`, `limit` given by its pattern
/// (`(-limit..=limit).contains(&x)`; false for NaN).
pub open spec fn within(b: u64, limit: u64) -> bool {
    magnitude(b) <= limit
}

/// Whether a latitude and longitude lie in `[-90, 90]` and `[-180, 180]`.
pub open spec fn coords_ok(lat: u64, lon: u64) -> bool {
    within(lat, LAT_LIMIT_BITS) && within(lon, LON_LIMIT_BITS)
}

/// Whether a radius passes `!(r <= 0 || r > 50000)`: a positive number up to
/// fifty thousand, or a NaN (for which both comparisons are false).
pub open spec fn radius_ok(b: u64) -> bool {
    is_nan(b) || (b < SIGN_BIT && 0 < b && b <= RADIUS_LIMIT_BITS)
}

/// The magnitude of a pattern.
pub fn magnitude_of(b: u64) -> (m: u64)
    ensures
        m == magnitude(b),
{
    if b >= SIGN_BIT {
        b - SIGN_BIT
    } else {
        b
    }
}

/// Whether the pattern is a finite number.
pub fn finite(b: u64) -> (r: bool)
    ensures
        r == is_finite(b),
{
    magnitude_of(b) < INFINITY_BITS
}

/// Whether a latitude and longitude lie in their ranges.
pub fn coords_in_range(lat: u64, lon: u64) -> (r: bool)
    ensures
        r == coords_ok(lat, lon),
{
    magnitude_of(lat) <= LAT_LIMIT_BITS && magnitude_of(lon) <= LON_LIMIT_BITS
}

/// Whether a radius is accepted.
pub fn radius_in_range(b: u64) -> (r: bool)
    ensures
        r == radius_ok(b),
{
    magnitude_of(b) > INFINITY_BITS || (b < SIGN_BIT && 0 < b && b <= RADIUS_LIMIT_BITS)
}

} // verus!
