//! Fixed-point geometry: coordinates, fuzzy position equality, affine
//! transforms, and opaque paint descriptors.

use vstd::prelude::*;

verus! {

/// One unit in the fixed-point encoding (three decimal digits).
pub const FIXED_ONE: i64 = 1000;

/// Absolute tolerance for position comparisons. Two coordinates whose
/// difference is at most this value are considered the same position, so
/// that round-off noise from upstream computations does not open a new
/// chunk. Every position comparison in this crate goes through
/// [`fuzzy_eq`], which uses exactly this constant.
pub const POSITION_EPSILON: i64 = 1;

/// Fuzzy equality of two coordinates: their difference is within
/// [`POSITION_EPSILON`].
pub open spec fn spec_fuzzy_eq(a: int, b: int) -> bool {
    -(POSITION_EPSILON as int) <= a - b <= POSITION_EPSILON as int
}

/// Compares two coordinates up to [`POSITION_EPSILON`].
pub fn fuzzy_eq(a: i64, b: i64) -> (r: bool)
    ensures
        r == spec_fuzzy_eq(a as int, b as int),
{
    let d: i128 = a as i128 - b as i128;
    -(POSITION_EPSILON as i128) <= d && d <= POSITION_EPSILON as i128
}

/// An opaque paint descriptor. Fill and stroke resolution happens in the
/// upstream paint resolver; this library only selects and copies the
/// descriptors it is handed.
#[derive(Clone, Copy, Debug, PartialEq, Eq, Structural)]
pub struct Paint(pub u64);

/// A 2x3 affine transform matrix, in fixed-point coefficients. The
/// conversion carries it from the input element to the output element
/// untouched.
#[derive(Clone, Copy, Debug, PartialEq, Eq, Structural)]
pub struct Transform {
    pub a: i64,
    pub b: i64,
    pub c: i64,
    pub d: i64,
    pub e: i64,
    pub f: i64,
}

/// The identity transform.
pub open spec fn spec_identity_transform() -> Transform {
    Transform { a: FIXED_ONE, b: 0, c: 0, d: FIXED_ONE, e: 0, f: 0 }
}

impl Default for Transform {
    /// The identity transform.
    fn default() -> (r: Self)
        ensures
            r == spec_identity_transform(),
    {
        Transform { a: FIXED_ONE, b: 0, c: 0, d: FIXED_ONE, e: 0, f: 0 }
    }
}

} // verus!
