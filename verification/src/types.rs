//! Ranges, vectors and rigid transforms.

use crate::single::Single;
use vstd::prelude::*;

verus! {

/// Inclusive floating-point sampling range.
#[derive(Clone, Copy, Debug, PartialEq, Eq, Structural)]
pub struct FloatRange {
    /// Smallest permitted value.
    pub min: Single,
    /// Largest permitted value.
    pub max: Single,
}

impl FloatRange {
    /// Creates an inclusive range.
    pub open spec fn spec_new(min: Single, max: Single) -> FloatRange {
        FloatRange { min, max }
    }

    /// Creates an inclusive range.
    #[verifier::when_used_as_spec(spec_new)]
    pub fn new(min: Single, max: Single) -> (r: FloatRange)
        ensures
            r == FloatRange::spec_new(min, max),
    {
        FloatRange { min, max }
    }

    /// The range from `min / den` to `max / den`.
    pub open spec fn spec_decimal(min: i32, max: i32, den: u32) -> FloatRange {
        FloatRange { min: Single::spec_ratio(min, den), max: Single::spec_ratio(max, den) }
    }

    /// The range from `min / den` to `max / den`.
    #[verifier::when_used_as_spec(spec_decimal)]
    pub fn decimal(min: i32, max: i32, den: u32) -> (r: FloatRange)
        requires
            den > 0,
        ensures
            r == FloatRange::spec_decimal(min, max, den),
    {
        FloatRange { min: Single::ratio(min, den), max: Single::ratio(max, den) }
    }

    /// Both limits are finite and ordered.
    pub open spec fn spec_is_valid(self) -> bool {
        self.min.is_finite() && self.max.is_finite() && self.min.at_most(self.max)
    }

    /// Returns whether both limits are finite and ordered.
    #[verifier::when_used_as_spec(spec_is_valid)]
    pub fn is_valid(self) -> (r: bool)
        ensures
            r == self.spec_is_valid(),
    {
        self.min.is_finite() && self.max.is_finite() && self.min.at_most(self.max)
    }

    /// The inclusive overlap of two valid ranges, if one exists.
    pub open spec fn spec_intersection(self, other: FloatRange) -> Option<FloatRange> {
        let overlap = FloatRange { min: self.min.max(other.min), max: self.max.min(other.max) };
        if self.spec_is_valid() && other.spec_is_valid() && overlap.min.at_most(overlap.max) {
            Some(overlap)
        } else {
            None
        }
    }

    /// Returns the inclusive overlap of two valid ranges, if one exists.
    #[verifier::when_used_as_spec(spec_intersection)]
    pub fn intersection(self, other: FloatRange) -> (r: Option<FloatRange>)
        ensures
            r == self.spec_intersection(other),
    {
        if !self.is_valid() || !other.is_valid() {
            return None;
        }
        let overlap = FloatRange { min: self.min.max(other.min), max: self.max.min(other.max) };
        if overlap.min.at_most(overlap.max) {
            Some(overlap)
        } else {
            None
        }
    }

    /// A finite value inside the inclusive range.
    pub open spec fn spec_contains(self, value: Single) -> bool {
        value.is_finite() && self.min.at_most(value) && value.at_most(self.max)
    }

    /// Returns whether a finite value lies inside the inclusive range.
    #[verifier::when_used_as_spec(spec_contains)]
    pub fn contains(self, value: Single) -> (r: bool)
        ensures
            r == self.spec_contains(value),
    {
        value.is_finite() && self.min.at_most(value) && value.at_most(self.max)
    }

    /// The value a fraction of the way from the smallest to the largest.
    pub open spec fn spec_at(self, fraction: Single) -> Single {
        self.min.plus(self.max.minus(self.min).times(fraction))
    }

    /// The value a fraction of the way from the smallest to the largest.
    #[verifier::when_used_as_spec(spec_at)]
    pub fn at(self, fraction: Single) -> (r: Single)
        ensures
            r == self.spec_at(fraction),
    {
        self.min.plus(self.max.minus(self.min).times(fraction))
    }
}

/// The intersection of two ranges is valid and holds exactly the values that both
/// hold; where there is none, no value lies in both.
pub proof fn intersection_holds_common_values(a: FloatRange, b: FloatRange, value: Single)
    requires
        a.is_valid(),
        b.is_valid(),
    ensures
        match a.intersection(b) {
            Some(overlap) => overlap.is_valid() && (overlap.contains(value) <==> a.contains(value)
                && b.contains(value)),
            None => !(a.contains(value) && b.contains(value)),
        },
{
}

/// Inclusive integer sampling range.
#[derive(Clone, Copy, Debug, PartialEq, Eq, Structural)]
pub struct U32Range {
    /// Smallest permitted value.
    pub min: u32,
    /// Largest permitted value.
    pub max: u32,
}

impl U32Range {
    /// Creates an inclusive range.
    pub open spec fn spec_new(min: u32, max: u32) -> U32Range {
        U32Range { min, max }
    }

    /// Creates an inclusive range.
    #[verifier::when_used_as_spec(spec_new)]
    pub fn new(min: u32, max: u32) -> (r: U32Range)
        ensures
            r == U32Range::spec_new(min, max),
    {
        U32Range { min, max }
    }

    /// The limits are ordered.
    pub open spec fn spec_is_valid(self) -> bool {
        self.min <= self.max
    }

    /// Returns whether the limits are ordered.
    #[verifier::when_used_as_spec(spec_is_valid)]
    pub fn is_valid(self) -> (r: bool)
        ensures
            r == self.spec_is_valid(),
    {
        self.min <= self.max
    }
}

/// Two-dimensional value, normally expressed in pixels or normalized image space.
#[derive(Clone, Copy, Debug, PartialEq, Eq, Structural)]
pub struct Vec2 {
    /// Horizontal component.
    pub x: Single,
    /// Vertical component.
    pub y: Single,
}

impl Default for Vec2 {
    fn default() -> (r: Self)
        ensures
            r == (Vec2 { x: Single::zero(), y: Single::zero() }),
    {
        Vec2 { x: Single::zero(), y: Single::zero() }
    }
}

impl Vec2 {
    /// Creates a vector.
    pub open spec fn spec_new(x: Single, y: Single) -> Vec2 {
        Vec2 { x, y }
    }

    /// Creates a vector.
    #[verifier::when_used_as_spec(spec_new)]
    pub fn new(x: Single, y: Single) -> (r: Vec2)
        ensures
            r == Vec2::spec_new(x, y),
    {
        Vec2 { x, y }
    }

    /// Both components are finite.
    pub open spec fn spec_is_finite(self) -> bool {
        self.x.is_finite() && self.y.is_finite()
    }

    /// Returns whether both components are finite.
    #[verifier::when_used_as_spec(spec_is_finite)]
    pub fn is_finite(self) -> (r: bool)
        ensures
            r == self.spec_is_finite(),
    {
        self.x.is_finite() && self.y.is_finite()
    }
}

/// Three-dimensional value in the manifest's declared coordinate system.
#[derive(Clone, Copy, Debug, PartialEq, Eq, Structural)]
pub struct Vec3 {
    /// X component.
    pub x: Single,
    /// Y component.
    pub y: Single,
    /// Z component.
    pub z: Single,
}

impl Default for Vec3 {
    fn default() -> (r: Self)
        ensures
            r == Vec3::spec_origin(),
    {
        Vec3::origin()
    }
}

impl Vec3 {
    /// Creates a vector.
    pub open spec fn spec_new(x: Single, y: Single, z: Single) -> Vec3 {
        Vec3 { x, y, z }
    }

    /// Creates a vector.
    #[verifier::when_used_as_spec(spec_new)]
    pub fn new(x: Single, y: Single, z: Single) -> (r: Vec3)
        ensures
            r == Vec3::spec_new(x, y, z),
    {
        Vec3 { x, y, z }
    }

    /// The zero vector.
    pub open spec fn spec_origin() -> Vec3 {
        Vec3 { x: Single::zero(), y: Single::zero(), z: Single::zero() }
    }

    /// The zero vector.
    #[verifier::when_used_as_spec(spec_origin)]
    pub fn origin() -> (r: Vec3)
        ensures
            r == Vec3::spec_origin(),
    {
        Vec3 { x: Single::zero(), y: Single::zero(), z: Single::zero() }
    }

    /// All components are finite.
    pub open spec fn spec_is_finite(self) -> bool {
        self.x.is_finite() && self.y.is_finite() && self.z.is_finite()
    }

    /// Returns whether all components are finite.
    #[verifier::when_used_as_spec(spec_is_finite)]
    pub fn is_finite(self) -> (r: bool)
        ensures
            r == self.spec_is_finite(),
    {
        self.x.is_finite() && self.y.is_finite() && self.z.is_finite()
    }

    /// Sum of two vectors.
    pub open spec fn spec_plus(self, other: Vec3) -> Vec3 {
        Vec3::new(self.x.plus(other.x), self.y.plus(other.y), self.z.plus(other.z))
    }

    /// Sum of two vectors.
    #[verifier::when_used_as_spec(spec_plus)]
    pub fn plus(self, other: Vec3) -> (r: Vec3)
        ensures
            r == self.spec_plus(other),
    {
        Vec3::new(self.x.plus(other.x), self.y.plus(other.y), self.z.plus(other.z))
    }

    /// Difference of two vectors.
    pub open spec fn spec_minus(self, other: Vec3) -> Vec3 {
        Vec3::new(self.x.minus(other.x), self.y.minus(other.y), self.z.minus(other.z))
    }

    /// Difference of two vectors.
    #[verifier::when_used_as_spec(spec_minus)]
    pub fn minus(self, other: Vec3) -> (r: Vec3)
        ensures
            r == self.spec_minus(other),
    {
        Vec3::new(self.x.minus(other.x), self.y.minus(other.y), self.z.minus(other.z))
    }

    /// The vector with every component multiplied by `factor`.
    pub open spec fn spec_scaled(self, factor: Single) -> Vec3 {
        Vec3::new(self.x.times(factor), self.y.times(factor), self.z.times(factor))
    }

    /// The vector with every component multiplied by `factor`.
    #[verifier::when_used_as_spec(spec_scaled)]
    pub fn scaled(self, factor: Single) -> (r: Vec3)
        ensures
            r == self.spec_scaled(factor),
    {
        Vec3::new(self.x.times(factor), self.y.times(factor), self.z.times(factor))
    }

    /// Scalar product.
    pub open spec fn spec_dot(self, other: Vec3) -> Single {
        self.x.times(other.x).plus(self.y.times(other.y)).plus(self.z.times(other.z))
    }

    /// Scalar product.
    #[verifier::when_used_as_spec(spec_dot)]
    pub fn dot(self, other: Vec3) -> (r: Single)
        ensures
            r == self.spec_dot(other),
    {
        self.x.times(other.x).plus(self.y.times(other.y)).plus(self.z.times(other.z))
    }

    /// Vector product.
    pub open spec fn spec_cross(self, other: Vec3) -> Vec3 {
        Vec3::new(
            self.y.times(other.z).minus(self.z.times(other.y)),
            self.z.times(other.x).minus(self.x.times(other.z)),
            self.x.times(other.y).minus(self.y.times(other.x)),
        )
    }

    /// Vector product.
    #[verifier::when_used_as_spec(spec_cross)]
    pub fn cross(self, other: Vec3) -> (r: Vec3)
        ensures
            r == self.spec_cross(other),
    {
        Vec3::new(
            self.y.times(other.z).minus(self.z.times(other.y)),
            self.z.times(other.x).minus(self.x.times(other.z)),
            self.x.times(other.y).minus(self.y.times(other.x)),
        )
    }

    /// Euclidean length.
    pub open spec fn spec_length(self) -> Single {
        self.dot(self).root()
    }

    /// Euclidean length.
    #[verifier::when_used_as_spec(spec_length)]
    pub fn length(self) -> (r: Single)
        ensures
            r == self.spec_length(),
    {
        self.dot(self).root()
    }

    /// The vector divided by its length.
    pub open spec fn spec_normalized(self) -> Vec3 {
        self.scaled(Single::one().over(self.length()))
    }

    /// The vector divided by its length.
    #[verifier::when_used_as_spec(spec_normalized)]
    pub fn normalized(self) -> (r: Vec3)
        ensures
            r == self.spec_normalized(),
    {
        self.scaled(Single::one().over(self.length()))
    }
}

/// Rigid transform whose quaternion is stored in `(x, y, z, w)` order.
///
/// `translation` and `rotation_xyzw` describe a child-to-parent transform. For
/// example, `world_from_camera` maps camera-local points into world space.
#[derive(Clone, Copy, Debug, PartialEq, Eq)]
pub struct RigidTransform {
    /// Translation in parent coordinates.
    pub translation: Vec3,
    /// Unit quaternion in `(x, y, z, w)` order.
    pub rotation_xyzw: [Single; 4],
}

impl RigidTransform {
    /// The identity transform.
    pub open spec fn spec_identity() -> RigidTransform {
        RigidTransform {
            translation: Vec3::origin(),
            rotation_xyzw: [Single::zero(), Single::zero(), Single::zero(), Single::one()],
        }
    }

    /// The identity transform.
    #[verifier::when_used_as_spec(spec_identity)]
    pub fn identity() -> (r: RigidTransform)
        ensures
            r == Self::spec_identity(),
    {
        RigidTransform {
            translation: Vec3::origin(),
            rotation_xyzw: [Single::zero(), Single::zero(), Single::zero(), Single::one()],
        }
    }

    /// Squared length of the quaternion, summed from its first component on.
    pub open spec fn norm_squared(self) -> Single {
        let q = self.rotation_xyzw@;
        Single::zero().plus(q[0].times(q[0])).plus(q[1].times(q[1])).plus(q[2].times(q[2])).plus(
            q[3].times(q[3]),
        )
    }

    /// The components are finite and the quaternion is of unit length to within a thousandth.
    pub open spec fn spec_is_valid(self) -> bool {
        let q = self.rotation_xyzw@;
        &&& self.translation.is_finite()
        &&& q[0].is_finite() && q[1].is_finite() && q[2].is_finite() && q[3].is_finite()
        &&& self.norm_squared().minus(Single::one()).abs().at_most(Single::ratio(1, 1000))
    }

    /// Returns whether the components are finite and the quaternion is unit length.
    #[verifier::when_used_as_spec(spec_is_valid)]
    pub fn is_valid(self) -> (r: bool)
        ensures
            r == self.spec_is_valid(),
    {
        let q = self.rotation_xyzw;
        if !self.translation.is_finite() || !q[0].is_finite() || !q[1].is_finite()
            || !q[2].is_finite() || !q[3].is_finite() {
            return false;
        }
        let norm = Single::zero().plus(q[0].times(q[0])).plus(q[1].times(q[1])).plus(
            q[2].times(q[2]),
        ).plus(q[3].times(q[3]));
        norm.minus(Single::one()).abs().at_most(Single::ratio(1, 1000))
    }
}

} // verus!
