//! Scene objects and how a ray is decided to hit them.

use crate::math::Interval;
use crate::scalar::Scalar;
use crate::vector::Vec3;
use crate::{Crossing, HitInfo};
use vstd::prelude::*;

verus! {

/// A sphere, by its centre and radius.
#[derive(Clone, Copy)]
pub struct Sphere {
    pub position: Vec3,
    pub radius: Scalar,
}

impl Sphere {
    /// What a ray hits of a sphere, decided from the solved quadratic.
    ///
    /// `discriminant` is that of the quadratic in the ray parameter; `near`
    /// and `far` are the crossings at its smaller and its larger root. A
    /// negative discriminant is a miss. Else the near crossing counts if it
    /// lies strictly inside `interval`, else the far one if that does.
    pub open spec fn spec_hit(
        discriminant: Scalar,
        near: &Crossing,
        far: &Crossing,
        interval: &Interval,
    ) -> Option<HitInfo> {
        if discriminant.spec_lt(Scalar::spec_zero()) {
            None
        } else if interval.spec_surrounds(near.distance) {
            Some(HitInfo::spec_oriented(*near))
        } else if interval.spec_surrounds(far.distance) {
            Some(HitInfo::spec_oriented(*far))
        } else {
            None
        }
    }

    /// The sphere around `position` with the given radius.
    pub fn new(position: Vec3, radius: Scalar) -> (sphere: Self)
        ensures
            sphere == (Sphere { position, radius }),
    {
        Self { position, radius: radius }
    }

    /// Decides what a ray hits of a sphere, from the discriminant of their
    /// quadratic and the crossings at its two roots.
    #[verifier::when_used_as_spec(spec_hit)]
    pub fn hit(discriminant: Scalar, near: &Crossing, far: &Crossing, interval: &Interval) -> (hit:
        Option<HitInfo>)
        ensures
            hit == Sphere::spec_hit(discriminant, near, far, interval),
    {
        if discriminant.lt(Scalar::zero()) {
            return None;
        }
        if interval.surrounds(near.distance) {
            Some(HitInfo::oriented(*near))
        } else if interval.surrounds(far.distance) {
            Some(HitInfo::oriented(*far))
        } else {
            None
        }
    }
}

/// An infinite plane, by one of its points and a normal of any length but zero.
#[derive(Clone, Copy)]
pub struct Plane {
    pub position: Vec3,
    pub normal: Vec3,
}

impl Plane {
    /// What a ray hits of this plane.
    ///
    /// `facing` is the dot product of the plane's normal with the ray's
    /// direction, `distance` the ray parameter at which the ray meets the
    /// plane and `position` the point there. A ray with `facing == 0` runs
    /// along the plane and misses; so does one that meets the plane outside
    /// `interval` or on its boundary.
    pub open spec fn spec_hit(
        &self,
        facing: Scalar,
        distance: Scalar,
        position: Vec3,
        interval: &Interval,
    ) -> Option<HitInfo> {
        if facing.spec_equals(Scalar::spec_zero()) {
            None
        } else if !interval.spec_surrounds(distance) {
            None
        } else {
            Some(
                HitInfo::spec_oriented(
                    Crossing { distance, position, normal: self.normal, facing },
                ),
            )
        }
    }

    /// The plane through `position` with the given normal.
    pub fn new(position: Vec3, normal: Vec3) -> (plane: Self)
        ensures
            plane == (Plane { position, normal }),
    {
        Self { position: position, normal: normal }
    }

    /// Decides what a ray hits of this plane, from the dot product of the
    /// plane's normal with the ray's direction and the point where the two meet.
    #[verifier::when_used_as_spec(spec_hit)]
    pub fn hit(&self, facing: Scalar, distance: Scalar, position: Vec3, interval: &Interval) -> (hit:
        Option<HitInfo>)
        ensures
            hit == self.spec_hit(facing, distance, position, interval),
    {
        if facing.equals(Scalar::zero()) {
            return None;
        }
        if !interval.surrounds(distance) {
            return None;
        }
        Some(HitInfo::oriented(Crossing { distance, position, normal: self.normal, facing }))
    }
}

/// A ray whose quadratic has a negative discriminant misses the sphere,
/// whatever the crossings and the interval are.
pub proof fn lemma_negative_discriminant_misses(
    discriminant: Scalar,
    near: Crossing,
    far: Crossing,
    interval: Interval,
)
    requires
        discriminant.spec_lt(Scalar::spec_zero()),
    ensures
        Sphere::spec_hit(discriminant, &near, &far, &interval).is_none(),
{
}

/// Of a sphere's two crossings the near one is taken whenever it lies
/// strictly inside the interval; its normal is kept on the front face and
/// flipped on the back face.
pub proof fn lemma_sphere_takes_near(
    discriminant: Scalar,
    near: Crossing,
    far: Crossing,
    interval: Interval,
)
    requires
        !discriminant.spec_lt(Scalar::spec_zero()),
        interval.spec_surrounds(near.distance),
    ensures
        Sphere::spec_hit(discriminant, &near, &far, &interval) matches Some(hit) && {
            &&& hit.distance == near.distance
            &&& hit.position == near.position
            &&& hit.front_face == near.facing.spec_lt(Scalar::spec_zero())
            &&& hit.normal == if hit.front_face {
                near.normal
            } else {
                near.normal.spec_neg()
            }
        },
{
}

/// Where a sphere's near crossing does not lie strictly inside the interval
/// and the far one does, the far one is taken.
pub proof fn lemma_sphere_takes_far(
    discriminant: Scalar,
    near: Crossing,
    far: Crossing,
    interval: Interval,
)
    requires
        !discriminant.spec_lt(Scalar::spec_zero()),
        !interval.spec_surrounds(near.distance),
        interval.spec_surrounds(far.distance),
    ensures
        Sphere::spec_hit(discriminant, &near, &far, &interval) == Some(HitInfo::spec_oriented(far)),
{
}

/// A ray that runs against a plane's normal hits the front face and gets the
/// plane's own normal; a ray that runs the other way through the same point
/// hits the back face and gets the opposite normal.
pub proof fn lemma_plane_sides(
    plane: Plane,
    facing: Scalar,
    distance: Scalar,
    reversed_distance: Scalar,
    position: Vec3,
    interval: Interval,
)
    requires
        facing.spec_lt(Scalar::spec_zero()),
        interval.spec_surrounds(distance),
        interval.spec_surrounds(reversed_distance),
    ensures
        plane.spec_hit(facing, distance, position, &interval) == Some(
            HitInfo { distance, position, normal: plane.normal, front_face: true },
        ),
        plane.spec_hit(facing.spec_neg(), reversed_distance, position, &interval) == Some(
            HitInfo {
                distance: reversed_distance,
                position,
                normal: plane.normal.spec_neg(),
                front_face: false,
            },
        ),
{
}

/// A scene object: one of the shapes a ray can hit.
#[derive(Clone, Copy)]
pub enum Object {
    Sphere(Sphere),
    Plane(Plane),
}

} // verus!
