//! Placement values: affine transforms held as the bit patterns of their
//! single-precision components, so that copying and comparing them is exact.

use vstd::prelude::*;

verus! {

/// Bit pattern of 0.0 as a single-precision component.
pub const ZERO_BITS: u32 = 0x0000_0000;

/// Bit pattern of 1.0 as a single-precision component.
pub const ONE_BITS: u32 = 0x3F80_0000;

/// A three-component vector, each component the bit pattern of a
/// single-precision value.
#[derive(Clone, Copy, Debug, PartialEq, Eq, Structural)]
pub struct Vec3Bits {
    pub x: u32,
    pub y: u32,
    pub z: u32,
}

/// A quaternion, each component the bit pattern of a single-precision value.
#[derive(Clone, Copy, Debug, PartialEq, Eq, Structural)]
pub struct QuatBits {
    pub x: u32,
    pub y: u32,
    pub z: u32,
    pub w: u32,
}

/// An affine placement: translation vector, rotation quaternion and scale
/// vector.  Serves both for a local placement (relative to a parent frame)
/// and for a world placement (global coordinates).
#[derive(Clone, Copy, Debug, PartialEq, Eq, Structural)]
pub struct Placement {
    pub translation: Vec3Bits,
    pub rotation: QuatBits,
    pub scale: Vec3Bits,
}

impl Vec3Bits {
    /// The zero vector.
    pub open spec fn spec_zero() -> Vec3Bits {
        Vec3Bits { x: ZERO_BITS, y: ZERO_BITS, z: ZERO_BITS }
    }

    /// The all-ones vector, the identity scale.
    pub open spec fn spec_one() -> Vec3Bits {
        Vec3Bits { x: ONE_BITS, y: ONE_BITS, z: ONE_BITS }
    }

    /// The zero vector.
    pub fn zero() -> (r: Vec3Bits)
        ensures
            r == Vec3Bits::spec_zero(),
    {
        Vec3Bits { x: ZERO_BITS, y: ZERO_BITS, z: ZERO_BITS }
    }

    /// The all-ones vector, the identity scale.
    pub fn one() -> (r: Vec3Bits)
        ensures
            r == Vec3Bits::spec_one(),
    {
        Vec3Bits { x: ONE_BITS, y: ONE_BITS, z: ONE_BITS }
    }
}

impl QuatBits {
    /// The identity rotation.
    pub open spec fn spec_identity() -> QuatBits {
        QuatBits { x: ZERO_BITS, y: ZERO_BITS, z: ZERO_BITS, w: ONE_BITS }
    }

    /// The identity rotation.
    pub fn identity() -> (r: QuatBits)
        ensures
            r == QuatBits::spec_identity(),
    {
        QuatBits { x: ZERO_BITS, y: ZERO_BITS, z: ZERO_BITS, w: ONE_BITS }
    }
}

impl Placement {
    /// The identity placement: zero translation, identity rotation, unit scale.
    pub open spec fn spec_identity() -> Placement {
        Placement {
            translation: Vec3Bits::spec_zero(),
            rotation: QuatBits::spec_identity(),
            scale: Vec3Bits::spec_one(),
        }
    }

    /// The identity placement: zero translation, identity rotation, unit scale.
    pub fn identity() -> (r: Placement)
        ensures
            r == Placement::spec_identity(),
    {
        Placement {
            translation: Vec3Bits::zero(),
            rotation: QuatBits::identity(),
            scale: Vec3Bits::one(),
        }
    }
}

/// Whether `a` is the bit pattern of a single-precision NaN: exponent all
/// ones, mantissa not zero.
pub open spec fn is_nan_bits(a: u32) -> bool {
    ((a >> 23) & 0xFF) == 0xFF && (a & 0x7F_FFFF) != 0
}

/// Whether `a` is the bit pattern of a single-precision infinity: exponent
/// all ones, mantissa zero.
pub open spec fn is_inf_bits(a: u32) -> bool {
    ((a >> 23) & 0xFF) == 0xFF && (a & 0x7F_FFFF) == 0
}

/// Whether the single-precision sum of `a` and `b` has one fixed bit pattern:
/// neither operand is a NaN and they are not opposite infinities.  On the
/// remaining pairs the sum is a NaN whose sign and payload the language does
/// not fix, so nothing names its bits.
pub open spec fn sum_defined(a: u32, b: u32) -> bool {
    &&& !is_nan_bits(a)
    &&& !is_nan_bits(b)
    &&& !(is_inf_bits(a) && is_inf_bits(b) && (a >> 31) != (b >> 31))
}

/// `sum_defined` on each component pair of two vectors.
pub open spec fn vec3_sum_defined(a: Vec3Bits, b: Vec3Bits) -> bool {
    sum_defined(a.x, b.x) && sum_defined(a.y, b.y) && sum_defined(a.z, b.z)
}

/// The componentwise single-precision sum of two vectors held as bit
/// patterns.  It names one bit pattern per component, so it is applied only
/// to component pairs that satisfy `sum_defined`; it is given no other
/// interpretation here.
pub uninterp spec fn sum_bits(a: u32, b: u32) -> u32;

/// The vector whose components are the single-precision sums of the
/// corresponding components of `a` and `b`; meaningful under
/// `vec3_sum_defined`.
pub open spec fn spec_vec3_sum(a: Vec3Bits, b: Vec3Bits) -> Vec3Bits {
    Vec3Bits { x: sum_bits(a.x, b.x), y: sum_bits(a.y, b.y), z: sum_bits(a.z, b.z) }
}

/// Relies on glam's `Vec3` addition (the crate behind the host's vector
/// math): a componentwise IEEE-754 single-precision sum.  Where a component
/// pair satisfies `sum_defined`, IEEE-754 fixes the result's bit pattern, and
/// the result is a function of the operand bits alone; on the remaining
/// pairs the sum is some NaN, whose sign and payload are not fixed.
#[verifier::external_body]
pub(crate) fn vec3_sum(a: &Vec3Bits, b: &Vec3Bits) -> (r: Vec3Bits)
    ensures
        sum_defined(a.x, b.x) ==> r.x == sum_bits(a.x, b.x),
        sum_defined(a.y, b.y) ==> r.y == sum_bits(a.y, b.y),
        sum_defined(a.z, b.z) ==> r.z == sum_bits(a.z, b.z),
        !sum_defined(a.x, b.x) ==> is_nan_bits(r.x),
        !sum_defined(a.y, b.y) ==> is_nan_bits(r.y),
        !sum_defined(a.z, b.z) ==> is_nan_bits(r.z),
{
    let va: glam::Vec3 = bytemuck::cast([a.x, a.y, a.z]);
    let vb: glam::Vec3 = bytemuck::cast([b.x, b.y, b.z]);
    let [x, y, z]: [u32; 3] = bytemuck::cast(va + vb);
    Vec3Bits { x, y, z }
}

/// A marker for an entity whose placement is inherited translation-only: the
/// wrapped placement's translation is the entity's offset from its parent's
/// world-space position, while its rotation and scale are world-space
/// absolutes.
#[derive(Clone, Copy, Debug, PartialEq, Eq, Structural)]
pub struct IndependentTransform(pub Placement);

impl Default for IndependentTransform {
    /// The identity placement.
    fn default() -> (r: Self)
        ensures
            r == (IndependentTransform(Placement::spec_identity())),
    {
        IndependentTransform(Placement::identity())
    }
}

impl From<Placement> for IndependentTransform {
    fn from(placement: Placement) -> (r: Self) {
        IndependentTransform(placement)
    }
}

impl vstd::std_specs::convert::FromSpecImpl<Placement> for IndependentTransform {
    open spec fn obeys_from_spec() -> bool {
        true
    }

    open spec fn from_spec(placement: Placement) -> Self {
        IndependentTransform(placement)
    }
}

impl From<IndependentTransform> for Placement {
    fn from(independent: IndependentTransform) -> (r: Self) {
        independent.0
    }
}

impl vstd::std_specs::convert::FromSpecImpl<IndependentTransform> for Placement {
    open spec fn obeys_from_spec() -> bool {
        true
    }

    open spec fn from_spec(independent: IndependentTransform) -> Self {
        independent.0
    }
}

/// An independent placement paired with the world placement slot it will be
/// propagated into, the slot starting at identity.
#[derive(Clone, Copy, Debug, PartialEq, Eq, Structural)]
pub struct IndependentTransformBundle {
    pub independent: IndependentTransform,
    pub global: Placement,
}

impl IndependentTransformBundle {
    /// Pairs the given independent placement with an identity world slot.
    pub fn from_independent_transform(independent_transform: IndependentTransform) -> (r: Self)
        ensures
            r.independent == independent_transform,
            r.global == Placement::spec_identity(),
    {
        IndependentTransformBundle {
            independent: independent_transform,
            global: Placement::identity(),
        }
    }

    /// Both members at identity.
    pub fn identity() -> (r: Self)
        ensures
            r.independent == (IndependentTransform(Placement::spec_identity())),
            r.global == Placement::spec_identity(),
    {
        IndependentTransformBundle {
            independent: IndependentTransform(Placement::identity()),
            global: Placement::identity(),
        }
    }
}

impl From<Placement> for IndependentTransformBundle {
    fn from(placement: Placement) -> (r: Self) {
        IndependentTransformBundle::from_independent_transform(IndependentTransform(placement))
    }
}

impl vstd::std_specs::convert::FromSpecImpl<Placement> for IndependentTransformBundle {
    open spec fn obeys_from_spec() -> bool {
        true
    }

    open spec fn from_spec(placement: Placement) -> Self {
        IndependentTransformBundle {
            independent: IndependentTransform(placement),
            global: Placement::spec_identity(),
        }
    }
}

impl From<IndependentTransform> for IndependentTransformBundle {
    fn from(independent_transform: IndependentTransform) -> (r: Self) {
        IndependentTransformBundle::from_independent_transform(independent_transform)
    }
}

impl vstd::std_specs::convert::FromSpecImpl<IndependentTransform> for IndependentTransformBundle {
    open spec fn obeys_from_spec() -> bool {
        true
    }

    open spec fn from_spec(independent_transform: IndependentTransform) -> Self {
        IndependentTransformBundle {
            independent: independent_transform,
            global: Placement::spec_identity(),
        }
    }
}

/// The label under which the propagation pass is registered, for downstream
/// passes that order themselves after it.
#[derive(Clone, Debug, Hash, PartialEq, Eq, Structural)]
pub enum IndependentTransformSystem {
    PropagateTranslation,
}

} // verus!
