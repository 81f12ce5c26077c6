//! Materials and how they send a ray on.

use crate::math::{is_approx_zero, spec_is_approx_zero};
use crate::scalar::Scalar;
use crate::vector::Vec3;
use crate::{HitInfo, Ray};
use vstd::prelude::*;

verus! {

/// A matte surface.
#[derive(Clone, Copy)]
pub struct Lambertian {
    pub albedo: Vec3,
}

impl Lambertian {
    /// The attenuation is the albedo. The ray leaves the hit along
    /// `scattered`, or along the normal where `scattered` is as good as zero.
    pub open spec fn spec_scatter(&self, hit_info: &HitInfo, scattered: Vec3) -> (Vec3, Ray) {
        (
            self.albedo,
            Ray {
                origin: hit_info.position,
                direction: if spec_is_approx_zero(scattered) {
                    hit_info.normal
                } else {
                    scattered
                },
            },
        )
    }

    /// The matte material that keeps `albedo` of the light at a bounce.
    pub fn new(albedo: Vec3) -> (material: Self)
        ensures
            material == (Lambertian { albedo }),
    {
        Self { albedo: albedo }
    }

    /// Sends a ray on from `hit_info`. `scattered` is the direction drawn for
    /// it: the sum of a random unit vector and a random direction of the
    /// normal's hemisphere.
    #[verifier::when_used_as_spec(spec_scatter)]
    pub fn scatter(&self, hit_info: &HitInfo, scattered: Vec3) -> (out: (Vec3, Ray))
        ensures
            out == self.spec_scatter(hit_info, scattered),
    {
        if is_approx_zero(scattered) {
            (self.albedo, Ray::new(hit_info.position, hit_info.normal))
        } else {
            (self.albedo, Ray::new(hit_info.position, scattered))
        }
    }
}

/// A reflecting surface, the rougher the larger `fuzz` is.
#[derive(Clone, Copy)]
pub struct Metal {
    pub albedo: Vec3,
    pub fuzz: Scalar,
}

impl Metal {
    /// The attenuation is the albedo, and the ray leaves the hit along `reflected`.
    pub open spec fn spec_scatter(&self, hit_info: &HitInfo, reflected: Vec3) -> (Vec3, Ray) {
        (self.albedo, Ray { origin: hit_info.position, direction: reflected })
    }

    /// The metal that keeps `albedo` of the light at a bounce and blurs its
    /// reflection by `fuzz`.
    pub fn new(albedo: Vec3, fuzz: Scalar) -> (material: Self)
        ensures
            material == (Metal { albedo, fuzz }),
    {
        Self { albedo: albedo, fuzz: fuzz }
    }

    /// Sends a ray on from `hit_info`. `reflected` is the direction computed
    /// for it: the mirror image of the incoming direction about the normal,
    /// moved by `fuzz` times a random unit vector.
    #[verifier::when_used_as_spec(spec_scatter)]
    pub fn scatter(&self, hit_info: &HitInfo, reflected: Vec3) -> (out: (Vec3, Ray))
        ensures
            out == self.spec_scatter(hit_info, reflected),
    {
        (self.albedo, Ray::new(hit_info.position, reflected))
    }
}

/// A material: one of the ways a surface sends a ray on.
#[derive(Clone, Copy)]
pub enum Material {
    Lambertian(Lambertian),
    Metal(Metal),
}

impl Material {
    /// The fraction of light, per channel, that the material keeps at a bounce.
    pub open spec fn albedo(&self) -> Vec3 {
        match self {
            Material::Lambertian(m) => m.albedo,
            Material::Metal(m) => m.albedo,
        }
    }

    /// The attenuation and the scattered ray, as the variant gives them.
    pub open spec fn spec_scatter(&self, hit_info: &HitInfo, direction: Vec3) -> (Vec3, Ray) {
        match self {
            Material::Lambertian(m) => m.spec_scatter(hit_info, direction),
            Material::Metal(m) => m.spec_scatter(hit_info, direction),
        }
    }

    /// Sends a ray on from `hit_info` as the variant does. `direction` is what
    /// the variant's arithmetic gave: see [`Lambertian::scatter`] and
    /// [`Metal::scatter`].
    #[verifier::when_used_as_spec(spec_scatter)]
    pub fn scatter(&self, hit_info: &HitInfo, direction: Vec3) -> (out: (Vec3, Ray))
        ensures
            out == self.spec_scatter(hit_info, direction),
    {
        match self {
            Material::Lambertian(m) => m.scatter(hit_info, direction),
            Material::Metal(m) => m.scatter(hit_info, direction),
        }
    }
}

/// Whether no channel of `color` is above one.
pub open spec fn at_most_one(color: Vec3) -> bool {
    color.x.spec_le(Scalar::spec_one()) && color.y.spec_le(Scalar::spec_one()) && color.z.spec_le(
        Scalar::spec_one(),
    )
}

/// Scattering never adds light: the attenuation is the albedo, so where no
/// channel of the albedo is above one, no channel of the attenuation is.
pub proof fn lemma_attenuation_is_albedo(material: Material, hit_info: HitInfo, direction: Vec3)
    ensures
        material.spec_scatter(&hit_info, direction).0 == material.albedo(),
        at_most_one(material.albedo()) ==> at_most_one(
            material.spec_scatter(&hit_info, direction).0,
        ),
{
}

/// The scattered ray starts at the hit.
pub proof fn lemma_scatter_starts_at_hit(material: Material, hit_info: HitInfo, direction: Vec3)
    ensures
        material.spec_scatter(&hit_info, direction).1.origin == hit_info.position,
{
}

} // verus!
