//! The three surface models, and what each makes of a ray.

use vstd::prelude::*;
use crate::scalar::Scalar;
use crate::math::{Ray, Vec3f};

verus! {

/// How a surface answers light.
#[derive(Clone, Copy, Debug, PartialEq, Eq, Structural)]
pub enum Material {
    /// A matte surface: scatters every ray, tinted by `albedo`.
    Lambertian { albedo: Vec3f },
    /// A mirror, blurred by `fuzz`: reflects, tinted by `albedo`, or absorbs.
    Metal { albedo: Vec3f, fuzz: Scalar },
    /// Clear glass: reflects or refracts, untinted.
    Dielectric { refraction_index: Scalar },
}

/// A ray leaving a surface, and the colour that what it gathers is multiplied by.
#[derive(Clone, Copy, Debug, PartialEq, Eq, Structural)]
pub struct ScatterRay {
    pub ray: Ray,
    pub attenuation: Vec3f,
}

/// The face of a surface that a ray meets.
#[derive(Clone, Copy, Debug, PartialEq, Eq, Structural)]
pub enum Side {
    /// The ray runs against the normal: it comes from outside.
    Front,
    /// The ray runs along the normal: it comes from inside.
    Back,
}

/// The refracted direction of a ray through glass, with what decides whether
/// the ray takes it.
#[derive(Clone, Copy, Debug, PartialEq, Eq, Structural)]
pub struct Refraction {
    /// Where the refracted ray goes.
    pub direction: Vec3f,
    /// The share of light that the surface reflects at this angle.
    pub reflectance: Scalar,
    /// A uniform draw from [0, 1).
    pub draw: Scalar,
}

/// What the arithmetic of one bounce came to, for the material that was hit.
#[derive(Clone, Copy, Debug, PartialEq, Eq, Structural)]
pub enum Bounce {
    /// Off a matte surface: the direction toward the random target.
    Diffuse { direction: Vec3f },
    /// Off metal: the blurred reflection, and its dot product with the normal.
    Mirror { direction: Vec3f, facing: Scalar },
    /// Off glass: the reflection, and the refraction where there is one.
    Glass { reflected: Vec3f, refraction: Option<Refraction> },
}

impl Side {
    /// The side that a ray meets, from the dot product of its direction with the normal.
    pub open spec fn of_spec(facing: Scalar) -> Side {
        if facing.spec_gt(Scalar::zero()) {
            Side::Back
        } else {
            Side::Front
        }
    }

    /// The side that a ray meets: the back where the dot product of its
    /// direction with the normal is positive, else the front.
    pub fn of(facing: Scalar) -> (s: Side)
        ensures
            s == Side::of_spec(facing),
    {
        if facing.gt(Scalar::zero()) {
            Side::Back
        } else {
            Side::Front
        }
    }
}

impl Refraction {
    /// Whether the ray is reflected all the same: the draw fell below the reflectance.
    pub open spec fn reflects(self) -> bool {
        self.draw.spec_lt(self.reflectance)
    }
}

impl Bounce {
    /// The direction in which glass sends the ray on: the refraction, unless
    /// there is none or the draw fell below the reflectance.
    pub open spec fn through_glass(reflected: Vec3f, refraction: Option<Refraction>) -> Vec3f {
        match refraction {
            Some(r) => if r.reflects() {
                reflected
            } else {
                r.direction
            },
            None => reflected,
        }
    }
}

impl Material {
    /// Whether the colours of the material are fractions, and its fuzz too.
    pub open spec fn valid(self) -> bool {
        match self {
            Material::Lambertian { albedo } => albedo.is_fraction(),
            Material::Metal { albedo, fuzz } => albedo.is_fraction() && fuzz.is_fraction(),
            Material::Dielectric { refraction_index } => true,
        }
    }

    /// Whether `bounce` is of the kind that the material asks for.
    pub open spec fn fits(self, bounce: Bounce) -> bool {
        match self {
            Material::Lambertian { .. } => bounce is Diffuse,
            Material::Metal { .. } => bounce is Mirror,
            Material::Dielectric { .. } => bounce is Glass,
        }
    }

    /// The colour that the material multiplies gathered light by.
    pub open spec fn attenuation(self) -> Vec3f {
        match self {
            Material::Lambertian { albedo } => albedo,
            Material::Metal { albedo, .. } => albedo,
            Material::Dielectric { .. } => Vec3f::one(),
        }
    }

    /// The direction in which the material sends the ray on, if it does.
    pub open spec fn outgoing(self, bounce: Bounce) -> Option<Vec3f> {
        match bounce {
            Bounce::Diffuse { direction } => Some(direction),
            Bounce::Mirror { direction, facing } => if facing.spec_gt(Scalar::zero()) {
                Some(direction)
            } else {
                None
            },
            Bounce::Glass { reflected, refraction } => Some(
                Bounce::through_glass(reflected, refraction),
            ),
        }
    }

    /// What `scatter` returns.
    pub open spec fn scatter_spec(self, hit_point: Vec3f, bounce: Bounce) -> Option<ScatterRay> {
        match self.outgoing(bounce) {
            Some(direction) => Some(
                ScatterRay {
                    ray: Ray { origin: hit_point, direction },
                    attenuation: self.attenuation(),
                },
            ),
            None => None,
        }
    }

    /// The blur of a metal: `fuzz` held to the range from 0 to 1.
    pub open spec fn fuzziness_spec(fuzz: Scalar) -> Scalar {
        if fuzz.spec_ge(Scalar::one()) {
            Scalar::one()
        } else if fuzz.spec_lt(Scalar::zero()) {
            Scalar::zero()
        } else {
            fuzz
        }
    }

    /// Whether the colours of the material are fractions, and its fuzz too.
    pub fn is_valid(&self) -> (r: bool)
        ensures
            r == self.valid(),
    {
        match *self {
            Material::Lambertian { albedo } => albedo.in_unit_range(),
            Material::Metal { albedo, fuzz } => albedo.in_unit_range() && fuzz.in_unit_range(),
            Material::Dielectric { .. } => true,
        }
    }

    /// The blur that a metal's reflection is spread by: 1 where `fuzz` is 1
    /// or more, 0 where it is negative, else `fuzz` itself (a NaN stays one).
    pub fn fuzziness(fuzz: Scalar) -> (r: Scalar)
        ensures
            r == Material::fuzziness_spec(fuzz),
            !fuzz.nan() ==> r.is_fraction(),
    {
        proof {
            Scalar::zero_is_below_one();
        }
        if fuzz.ge(Scalar::one()) {
            Scalar::one()
        } else if fuzz.lt(Scalar::zero()) {
            Scalar::zero()
        } else {
            fuzz
        }
    }

    /// The refracted direction, where the ray can pass into the other
    /// medium: where the discriminant of Snell's law is positive. Where it
    /// is not, the surface reflects all.
    pub fn refract(refracted: Vec3f, discriminant: Scalar) -> (r: Option<Vec3f>)
        ensures
            discriminant.spec_gt(Scalar::zero()) ==> r == Some(refracted),
            !discriminant.spec_gt(Scalar::zero()) ==> r is None,
    {
        if discriminant.gt(Scalar::zero()) {
            return Some(refracted);
        }
        None
    }

    /// The ray that leaves the surface at `hit_point`, with the material's
    /// attenuation, or nothing where the material absorbs the ray.
    ///
    /// A matte surface always scatters, along the direction given. Metal
    /// scatters along the blurred reflection where that points away from the
    /// surface (`facing` is positive), and absorbs otherwise. Glass always
    /// scatters, untinted: along the refraction where there is one and the
    /// draw is not below the reflectance, else along the reflection.
    pub fn scatter(&self, hit_point: Vec3f, bounce: &Bounce) -> (r: Option<ScatterRay>)
        requires
            self.fits(*bounce),
        ensures
            r == self.scatter_spec(hit_point, *bounce),
            self.valid() && r is Some ==> r->0.attenuation.is_fraction(),
            self is Lambertian || self is Dielectric ==> r is Some,
    {
        proof {
            Scalar::zero_is_below_one();
        }
        match (*self, *bounce) {
            (Material::Lambertian { albedo }, Bounce::Diffuse { direction }) => {
                Material::scatter_lambertian(hit_point, direction, albedo)
            },
            (Material::Metal { albedo, fuzz }, Bounce::Mirror { direction, facing }) => {
                Material::scatter_metal(hit_point, direction, facing, albedo)
            },
            (Material::Dielectric { refraction_index }, Bounce::Glass { reflected, refraction }) => {
                Material::scatter_dielectric(hit_point, reflected, refraction)
            },
            _ => None,
        }
    }

    /// A matte surface scatters every ray.
    pub fn scatter_lambertian(hit_point: Vec3f, direction: Vec3f, albedo: Vec3f) -> (r: Option<
        ScatterRay,
    >)
        ensures
            r == Some(ScatterRay { ray: Ray { origin: hit_point, direction }, attenuation: albedo }),
    {
        Some(ScatterRay { ray: Ray::new(hit_point, direction), attenuation: albedo })
    }

    /// Metal scatters a ray whose blurred reflection leaves the surface, and
    /// absorbs one whose reflection would enter it.
    pub fn scatter_metal(hit_point: Vec3f, direction: Vec3f, facing: Scalar, albedo: Vec3f) -> (r:
        Option<ScatterRay>)
        ensures
            facing.spec_gt(Scalar::zero()) ==> r == Some(
                ScatterRay { ray: Ray { origin: hit_point, direction }, attenuation: albedo },
            ),
            !facing.spec_gt(Scalar::zero()) ==> r is None,
    {
        let scattered = Ray::new(hit_point, direction);
        if facing.gt(Scalar::zero()) {
            return Some(ScatterRay { ray: scattered, attenuation: albedo });
        }
        None
    }

    /// Glass scatters every ray, untinted: refracted where refraction is
    /// possible and the draw is not below the reflectance, reflected otherwise.
    pub fn scatter_dielectric(hit_point: Vec3f, reflected: Vec3f, refraction: Option<Refraction>) -> (r:
        Option<ScatterRay>)
        ensures
            r == Some(
                ScatterRay {
                    ray: Ray {
                        origin: hit_point,
                        direction: Bounce::through_glass(reflected, refraction),
                    },
                    attenuation: Vec3f::one(),
                },
            ),
    {
        match refraction {
            Some(refracted) => {
                let scattered;
                if refracted.draw.lt(refracted.reflectance) {
                    scattered = Ray::new(hit_point, reflected);
                } else {
                    scattered = Ray::new(hit_point, refracted.direction);
                }
                Some(ScatterRay { ray: scattered, attenuation: Vec3f::one() })
            },
            None => {
                let scattered = Ray::new(hit_point, reflected);
                Some(ScatterRay { ray: scattered, attenuation: Vec3f::one() })
            },
        }
    }
}

} // verus!
