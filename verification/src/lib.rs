//! The core of a small path tracer: a registry that owns scene objects and
//! materials by handle, the geometric primitives, and the decisions of ray
//! intersection, scattering and recursive shading.
//!
//! The library decides; it does not compute. Numbers are held by their bit
//! pattern (see [`scalar`]), and whoever does the arithmetic hands its
//! results in. What a render has come to, the library writes to the image of
//! the terminal renderer (see [`cpu::canvas`]).

pub mod cpu;
pub mod math;
pub mod rid;
pub mod scalar;
pub mod vector;

use scalar::Scalar;
use vector::Vec3;
use vstd::prelude::*;

verus! {

/// A viewpoint: where the eye is, and how far in front of it the image plane lies.
pub struct Camera {
    pub position: Vec3,
    pub focal_length: Scalar,
}

impl Camera {
    /// A camera at `position` whose image plane lies `focal_length` ahead.
    pub fn new(position: Vec3, focal_length: Scalar) -> (camera: Self)
        ensures
            camera == (Camera { position, focal_length }),
    {
        Self { position: position, focal_length: focal_length }
    }
}

/// A half-line: the points `origin + t * direction`.
#[derive(Clone, Copy)]
pub struct Ray {
    pub origin: Vec3,
    pub direction: Vec3,
}

impl Ray {
    /// The ray from `origin` along `direction`, which need not have unit length.
    pub fn new(origin: Vec3, direction: Vec3) -> (ray: Self)
        ensures
            ray == (Ray { origin, direction }),
    {
        Self { origin: origin, direction: direction }
    }
}

/// A point at which a ray meets a surface, before the surface's side is decided.
#[derive(Clone, Copy)]
pub struct Crossing {
    /// The ray parameter of the point.
    pub distance: Scalar,
    /// The point itself.
    pub position: Vec3,
    /// The surface's own normal at the point.
    pub normal: Vec3,
    /// The dot product of that normal with the ray's direction.
    pub facing: Scalar,
}

/// Where a ray hit a surface. The normal always opposes the ray.
#[derive(Clone, Copy)]
pub struct HitInfo {
    pub distance: Scalar,
    pub position: Vec3,
    pub normal: Vec3,
    pub front_face: bool,
}

impl HitInfo {
    /// The hit at a crossing: on the front face, with the surface's normal, if
    /// the normal opposes the ray; else on the back face, with the normal flipped.
    pub open spec fn spec_oriented(crossing: Crossing) -> HitInfo {
        if crossing.facing.spec_lt(Scalar::spec_zero()) {
            HitInfo {
                distance: crossing.distance,
                position: crossing.position,
                normal: crossing.normal,
                front_face: true,
            }
        } else {
            HitInfo {
                distance: crossing.distance,
                position: crossing.position,
                normal: crossing.normal.spec_neg(),
                front_face: false,
            }
        }
    }

    /// The hit made of its four parts, as they are.
    pub fn new(distance: Scalar, position: Vec3, normal: Vec3, front_face: bool) -> (hit: HitInfo)
        ensures
            hit == (HitInfo { distance, position, normal, front_face }),
    {
        Self { distance: distance, position: position, normal: normal, front_face: front_face }
    }

    /// A hit on the side that `out_normal` points to.
    pub fn front_face(distance: Scalar, position: Vec3, out_normal: Vec3) -> (hit: HitInfo)
        ensures
            hit == (HitInfo { distance, position, normal: out_normal, front_face: true }),
    {
        Self::new(distance, position, out_normal, true)
    }

    /// A hit on the side that `out_normal` points away from: its normal is `-out_normal`.
    pub fn back_face(distance: Scalar, position: Vec3, out_normal: Vec3) -> (hit: HitInfo)
        ensures
            hit == (HitInfo {
                distance,
                position,
                normal: out_normal.spec_neg(),
                front_face: false,
            }),
    {
        Self::new(distance, position, out_normal.neg(), false)
    }

    /// Decides the side of a crossing and orients the normal against the ray.
    #[verifier::when_used_as_spec(spec_oriented)]
    pub fn oriented(crossing: Crossing) -> (hit: HitInfo)
        ensures
            hit == HitInfo::spec_oriented(crossing),
    {
        if crossing.facing.lt(Scalar::zero()) {
            Self::front_face(crossing.distance, crossing.position, crossing.normal)
        } else {
            Self::back_face(crossing.distance, crossing.position, crossing.normal)
        }
    }
}

/// The normal of a hit never points along the ray: its dot product with the
/// ray's direction, which is that of the surface's normal or its opposite, is
/// not above zero.
pub proof fn lemma_oriented_opposes(crossing: Crossing)
    ensures
        HitInfo::spec_oriented(crossing).distance == crossing.distance,
        HitInfo::spec_oriented(crossing).position == crossing.position,
        HitInfo::spec_oriented(crossing).front_face ==> !Scalar::spec_zero().spec_lt(
            crossing.facing,
        ),
        !HitInfo::spec_oriented(crossing).front_face ==> !Scalar::spec_zero().spec_lt(
            crossing.facing.spec_neg(),
        ),
{
}

} // verus!
