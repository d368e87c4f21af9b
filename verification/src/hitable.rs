//! Spheres, and where a ray meets one.

use vstd::prelude::*;
use crate::scalar::Scalar;
use crate::math::Vec3f;
use crate::material::Material;

verus! {

/// A sphere. A negative radius turns the surface inside out: the normal then
/// points to the centre, which makes the inner wall of a hollow shell.
#[derive(Clone, Copy, Debug, PartialEq, Eq, Structural)]
pub struct Sphere {
    pub center: Vec3f,
    pub radius: Scalar,
    pub material: Material,
}

/// Where the line of a ray meets the surface of a sphere: the discriminant of
/// the quadratic in the ray's parameter, and its two roots. The roots mean
/// something only where the discriminant is positive.
#[derive(Clone, Copy, Debug, PartialEq, Eq, Structural)]
pub struct Crossing {
    pub discriminant: Scalar,
    /// The root with the square root subtracted.
    pub near: Scalar,
    /// The root with the square root added.
    pub far: Scalar,
}

impl Crossing {
    /// Whether `t` lies strictly between `t_min` and `t_max`.
    pub open spec fn between(t: Scalar, t_min: Scalar, t_max: Scalar) -> bool {
        t.spec_lt(t_max) && t.spec_gt(t_min)
    }

    /// Whether the line meets the sphere in two points.
    pub open spec fn pierces(self) -> bool {
        self.discriminant.spec_gt(Scalar::zero())
    }

    /// Whether the roots stand in their order: the far one is not below the
    /// near one.
    pub open spec fn ordered(self) -> bool {
        !self.far.spec_lt(self.near)
    }

    /// The parameter at which the ray hits the sphere: the near root where it
    /// lies strictly between `t_min` and `t_max`, else the far root where
    /// that one does, and nothing where neither does or the line does not
    /// pierce the sphere.
    pub open spec fn first_between(self, t_min: Scalar, t_max: Scalar) -> Option<Scalar> {
        if !self.pierces() {
            None
        } else if Crossing::between(self.near, t_min, t_max) {
            Some(self.near)
        } else if Crossing::between(self.far, t_min, t_max) {
            Some(self.far)
        } else {
            None
        }
    }
}

impl Sphere {
    /// Whether the sphere is one that a ray can be traced against: its
    /// radius is a number other than zero, and its material is valid.
    pub open spec fn valid(self) -> bool {
        &&& !self.radius.nan()
        &&& self.radius.value() != 0
        &&& self.material.valid()
    }

    /// Whether the sphere is one that a ray can be traced against: its
    /// radius is a number other than zero, and its material is valid.
    pub fn is_valid(&self) -> (r: bool)
        ensures
            r == self.valid(),
    {
        let zero = Scalar::zero();
        proof {
            Scalar::zero_is_below_one();
        }
        (self.radius.lt(zero) || self.radius.gt(zero)) && self.material.is_valid()
    }

    /// The parameter at which a ray hits the sphere within the open interval
    /// from `t_min` to `t_max`, given where its line crosses the surface.
    ///
    /// A line that touches the sphere or passes it (discriminant zero,
    /// negative or NaN) never hits. Otherwise the near root is taken if it
    /// lies in the interval, else the far root if that one does.
    pub fn hit(crossing: &Crossing, t_min: Scalar, t_max: Scalar) -> (r: Option<Scalar>)
        ensures
            r == crossing.first_between(t_min, t_max),
            r matches Some(t) ==> Crossing::between(t, t_min, t_max),
    {
        if crossing.discriminant.gt(Scalar::zero()) {
            let temp = crossing.near;
            if temp.lt(t_max) && temp.gt(t_min) {
                return Some(temp);
            }
            let temp = crossing.far;
            if temp.lt(t_max) && temp.gt(t_min) {
                return Some(temp);
            }
        }
        None
    }
}

} // verus!
