//! Vectors of three numbers, and rays.

use vstd::prelude::*;
use crate::scalar::Scalar;

verus! {

/// Three numbers: a point, a direction or a colour.
#[derive(Clone, Copy, Debug, PartialEq, Eq, Structural)]
pub struct Vec3f {
    pub x: Scalar,
    pub y: Scalar,
    pub z: Scalar,
}

/// The vector with the given components.
pub fn vec3f(x: Scalar, y: Scalar, z: Scalar) -> (v: Vec3f)
    ensures
        v == (Vec3f { x, y, z }),
{
    Vec3f::new(x, y, z)
}

impl Vec3f {
    /// Whether every component is a number from 0 to 1, both included.
    pub open spec fn is_fraction(self) -> bool {
        &&& self.x.is_fraction()
        &&& self.y.is_fraction()
        &&& self.z.is_fraction()
    }

    /// (0, 0, 0)
    pub open spec fn spec_zero() -> Vec3f {
        Vec3f { x: Scalar::zero(), y: Scalar::zero(), z: Scalar::zero() }
    }

    /// (1, 1, 1)
    pub open spec fn spec_one() -> Vec3f {
        Vec3f { x: Scalar::one(), y: Scalar::one(), z: Scalar::one() }
    }

    /// (0, 0, 0)
    #[verifier::when_used_as_spec(spec_zero)]
    pub fn zero() -> (v: Vec3f)
        ensures
            v == Vec3f::spec_zero(),
    {
        Vec3f { x: Scalar::zero(), y: Scalar::zero(), z: Scalar::zero() }
    }

    /// (1, 1, 1)
    #[verifier::when_used_as_spec(spec_one)]
    pub fn one() -> (v: Vec3f)
        ensures
            v == Vec3f::spec_one(),
    {
        Vec3f { x: Scalar::one(), y: Scalar::one(), z: Scalar::one() }
    }

    /// The vector with the given components.
    pub fn new(x: Scalar, y: Scalar, z: Scalar) -> (v: Vec3f)
        ensures
            v == (Vec3f { x, y, z }),
    {
        Vec3f { x, y, z }
    }

    /// Whether every component is a number from 0 to 1, both included.
    pub fn in_unit_range(self) -> (r: bool)
        ensures
            r == self.is_fraction(),
    {
        self.x.in_unit_range() && self.y.in_unit_range() && self.z.in_unit_range()
    }
}

/// A half-line: the points `origin + t * direction`. The direction need not
/// have length one.
#[derive(Clone, Copy, Debug, PartialEq, Eq, Structural)]
pub struct Ray {
    pub origin: Vec3f,
    pub direction: Vec3f,
}

impl Ray {
    /// The ray from `origin` along `direction`.
    pub fn new(origin: Vec3f, direction: Vec3f) -> (r: Ray)
        ensures
            r == (Ray { origin, direction }),
    {
        Ray { origin, direction }
    }
}

} // verus!
