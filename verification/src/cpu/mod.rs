//! The rendering device: the scene it owns and the decisions of shading.

pub mod canvas;
pub mod mat;
pub mod obj;

use crate::math::Interval;
use crate::rid::{Rid, RidOwner};
use crate::scalar::Scalar;
use crate::vector::Vec3;
use crate::{Crossing, HitInfo};
use mat::{Lambertian, Material, Metal};
use obj::{Object, Plane, Sphere};
use std::collections::HashMap;
use vstd::prelude::*;

verus! {

/// The pattern of `0.001`: a hit nearer than this is the ray's own surface.
pub const NEAREST_HIT_BITS: u64 = 0x3f50_624d_d2f1_a9fc;

/// The pattern of `0.5`: each channel of the default material's albedo.
pub const DEFAULT_ALBEDO_BITS: u64 = 0x3fe0_0000_0000_0000;

/// The pattern of the cosine of a 25th of a turn: a ray whose direction
/// has a larger cosine than this with the sun's looks into the sun.
pub const SUN_DISK_BITS: u64 = 0x3fee_fea2_1d10_1ee0;

/// What becomes of a ray at one step of shading.
#[derive(Clone, Copy, Debug, PartialEq, Eq, Structural)]
pub enum Bounce {
    /// The bounce budget is spent: the ray brings no light.
    Absorbed,
    /// The ray hits a surface: it goes on from the hit at `index` of the
    /// hits handed in, scattered by `material`.
    Scattered { index: usize, material: Rid },
    /// The ray hits nothing: it brings the light of the sky.
    Escaped,
}

/// The distances at which a hit counts for shading: from `0.001` on.
pub open spec fn spec_hit_interval() -> Interval {
    Interval { start: Scalar { bits: NEAREST_HIT_BITS }, end: Scalar::spec_infinity() }
}

/// Whether `hits[i]` is the hit that shading takes: it counts, no hit that
/// counts is nearer, and every hit before it that counts is farther.
pub open spec fn is_nearest_hit(hits: Seq<(Rid, HitInfo)>, i: int) -> bool {
    &&& 0 <= i < hits.len()
    &&& spec_hit_interval().spec_contains(hits[i].1.distance)
    &&& forall|j: int|
        0 <= j < hits.len() && spec_hit_interval().spec_contains(#[trigger] hits[j].1.distance)
            ==> !hits[j].1.distance.spec_lt(hits[i].1.distance)
    &&& forall|j: int|
        0 <= j < i && spec_hit_interval().spec_contains(#[trigger] hits[j].1.distance)
            ==> hits[i].1.distance.spec_lt(hits[j].1.distance)
}

/// Whether no hit of `hits` counts for shading.
pub open spec fn no_hit_counts(hits: Seq<(Rid, HitInfo)>) -> bool {
    forall|j: int|
        0 <= j < hits.len() ==> !spec_hit_interval().spec_contains(#[trigger] hits[j].1.distance)
}

/// The distances at which a hit counts for shading: from `0.001` on, so
/// that a ray does not hit the surface it starts on.
#[verifier::when_used_as_spec(spec_hit_interval)]
pub fn hit_interval() -> (interval: Interval)
    ensures
        interval == spec_hit_interval(),
{
    Interval::new(Scalar::from_bits(NEAREST_HIT_BITS), Scalar::infinity())
}

/// A ray does not hit the surface it starts on: a crossing at `0.001` or
/// nearer lies outside what the hit interval surrounds, so neither a sphere
/// nor a plane is hit there.
pub proof fn lemma_no_hit_at_the_start(
    plane: Plane,
    discriminant: Scalar,
    near: Crossing,
    far: Crossing,
)
    requires
        near.distance.spec_le(Scalar { bits: NEAREST_HIT_BITS }),
        far.distance.spec_le(Scalar { bits: NEAREST_HIT_BITS }),
    ensures
        !spec_hit_interval().spec_surrounds(near.distance),
        Sphere::spec_hit(discriminant, &near, &far, &spec_hit_interval()).is_none(),
        plane.spec_hit(near.facing, near.distance, near.position, &spec_hit_interval()).is_none(),
{
}

/// Picks the hit that shading takes, if any hit counts: the nearest, and of
/// several equally near the first.
pub fn nearest_hit(hits: &Vec<(Rid, HitInfo)>) -> (found: Option<usize>)
    ensures
        match found {
            Some(i) => is_nearest_hit(hits@, i as int),
            None => no_hit_counts(hits@),
        },
{
    let interval = hit_interval();
    let mut found: Option<usize> = None;
    let mut k: usize = 0;
    while k < hits.len()
        invariant
            k <= hits.len(),
            interval == spec_hit_interval(),
            match found {
                Some(i) => i < k && is_nearest_hit(hits@.take(k as int), i as int),
                None => no_hit_counts(hits@.take(k as int)),
            },
        decreases hits.len() - k,
    {
        let distance = hits[k].1.distance;
        let ghost before = hits@.take(k as int);
        let ghost after = hits@.take(k + 1);
        assert(forall|j: int| 0 <= j < k ==> before[j] == after[j]);
        assert(after[k as int] == hits@[k as int]);
        if interval.contains(distance) {
            match found {
                Some(i) => {
                    if distance.lt(hits[i].1.distance) {
                        found = Some(k);
                    }
                },
                None => {
                    found = Some(k);
                },
            }
        }
        k = k + 1;
    }
    assert(hits@.take(k as int) =~= hits@);
    found
}

/// What a device holds, as shading sees it.
pub struct Scene {
    /// The live objects.
    pub objects: Map<Rid, Object>,
    /// The live materials.
    pub materials: Map<Rid, Material>,
    /// The material that was last set for each object. Entries outlive their
    /// object and their material.
    pub associations: Map<Rid, Rid>,
    /// The material that stands in where an object's own is missing.
    pub default_material: Rid,
    /// How many object handles were issued so far.
    pub objects_issued: nat,
    /// How many material handles were issued so far.
    pub materials_issued: nat,
    /// How many times light may bounce before it is absorbed.
    pub max_light_bounce: i64,
    /// How many rays are averaged for one pixel.
    pub pixel_sample_count: i64,
}

impl Scene {
    /// Live handles are issued handles, the default material's handle is an
    /// issued one, and every live object has a material set.
    pub open spec fn wf(self) -> bool {
        &&& forall|o: Rid| #[trigger]
            self.objects.contains_key(o) ==> o.index() < self.objects_issued
        &&& forall|m: Rid| #[trigger]
            self.materials.contains_key(m) ==> m.index() < self.materials_issued
        &&& self.default_material.index() < self.materials_issued
        &&& forall|o: Rid| #[trigger]
            self.objects.contains_key(o) ==> self.associations.contains_key(o)
    }

    /// The material that shading uses for `obj_rid`: the one set for it if
    /// that is live, else the default material.
    pub open spec fn material_for(self, obj_rid: Rid) -> Rid {
        if self.associations.contains_key(obj_rid) && self.materials.contains_key(
            self.associations[obj_rid],
        ) {
            self.associations[obj_rid]
        } else {
            self.default_material
        }
    }

    /// Whether `outcome` is what becomes of a ray that has bounced
    /// `bounce_count` times and whose hits on the objects are `hits`.
    ///
    /// Past the bounce budget the ray is absorbed, whatever it hits. Else it
    /// scatters at the nearest hit that counts, by the material of the object
    /// hit; with no such hit it escapes.
    pub open spec fn decides(self, bounce_count: i64, hits: Seq<(Rid, HitInfo)>, outcome: Bounce) -> bool {
        if bounce_count > self.max_light_bounce {
            outcome == Bounce::Absorbed
        } else {
            match outcome {
                Bounce::Absorbed => false,
                Bounce::Scattered { index, material } => {
                    &&& is_nearest_hit(hits, index as int)
                    &&& material == self.material_for(hits[index as int].0)
                },
                Bounce::Escaped => no_hit_counts(hits),
            }
        }
    }
}

/// At most one hit is the one that shading takes.
pub proof fn lemma_nearest_hit_unique(hits: Seq<(Rid, HitInfo)>, i: int, j: int)
    requires
        is_nearest_hit(hits, i),
        is_nearest_hit(hits, j),
    ensures
        i == j,
{
    if i < j {
        assert(hits[j].1.distance.spec_lt(hits[i].1.distance));
    } else if j < i {
        assert(hits[i].1.distance.spec_lt(hits[j].1.distance));
    }
}

/// The hit that shading takes is no farther than any hit that counts.
pub proof fn lemma_nearest_hit_is_nearest(hits: Seq<(Rid, HitInfo)>, i: int, j: int)
    requires
        is_nearest_hit(hits, i),
        0 <= j < hits.len(),
        spec_hit_interval().spec_contains(hits[j].1.distance),
    ensures
        hits[i].1.distance.spec_le(hits[j].1.distance),
{
}

/// What becomes of a ray is decided by the scene, the bounce count and the
/// hits: two outcomes that are both right are the same.
pub proof fn lemma_decides_one_outcome(
    scene: Scene,
    bounce_count: i64,
    hits: Seq<(Rid, HitInfo)>,
    one: Bounce,
    other: Bounce,
)
    requires
        scene.decides(bounce_count, hits, one),
        scene.decides(bounce_count, hits, other),
    ensures
        one == other,
{
    if bounce_count <= scene.max_light_bounce {
        match (one, other) {
            (
                Bounce::Scattered { index: i, material: _ },
                Bounce::Scattered { index: j, material: _ },
            ) => {
                lemma_nearest_hit_unique(hits, i as int, j as int);
            },
            (Bounce::Scattered { index: i, material: _ }, Bounce::Escaped) => {
                assert(spec_hit_interval().spec_contains(hits[i as int].1.distance));
            },
            (Bounce::Escaped, Bounce::Scattered { index: j, material: _ }) => {
                assert(spec_hit_interval().spec_contains(hits[j as int].1.distance));
            },
            _ => {},
        }
    }
}

/// Of two objects that a ray hits where it counts, the one hit nearer is the
/// one that shading takes; of two hit equally near, the first.
pub proof fn lemma_nearer_of_two(
    scene: Scene,
    bounce_count: i64,
    first: (Rid, HitInfo),
    second: (Rid, HitInfo),
    outcome: Bounce,
)
    requires
        bounce_count <= scene.max_light_bounce,
        spec_hit_interval().spec_contains(first.1.distance),
        spec_hit_interval().spec_contains(second.1.distance),
        scene.decides(bounce_count, seq![first, second], outcome),
    ensures
        outcome matches Bounce::Scattered { index, material } && {
            &&& index == if second.1.distance.spec_lt(first.1.distance) {
                1usize
            } else {
                0usize
            }
            &&& material == scene.material_for(seq![first, second][index as int].0)
            &&& seq![first, second][index as int].1.distance.spec_le(first.1.distance)
            &&& seq![first, second][index as int].1.distance.spec_le(second.1.distance)
        },
{
    let hits = seq![first, second];
    assert(hits[0] == first && hits[1] == second);
    match outcome {
        Bounce::Scattered { index, material } => {
            assert(is_nearest_hit(hits, index as int));
            if index == 0 {
                assert(!hits[1].1.distance.spec_lt(hits[0].1.distance));
            } else {
                assert(hits[1].1.distance.spec_lt(hits[0].1.distance));
            }
        },
        Bounce::Escaped => {
            assert(spec_hit_interval().spec_contains(hits[0].1.distance));
        },
        Bounce::Absorbed => {},
    }
}

/// With a bounce budget of zero, a ray from the eye that hits an object is
/// scattered once and what it scatters into is absorbed, whatever that hits:
/// no light comes back along it.
pub proof fn lemma_zero_budget(
    scene: Scene,
    hits: Seq<(Rid, HitInfo)>,
    hits_after: Seq<(Rid, HitInfo)>,
    first: Bounce,
    second: Bounce,
)
    requires
        scene.max_light_bounce == 0,
        !no_hit_counts(hits),
        scene.decides(0, hits, first),
        scene.decides(1, hits_after, second),
    ensures
        first is Scattered,
        second == Bounce::Absorbed,
{
}

/// Whether `outcomes` is what becomes, step by step, of the light path of a
/// ray from the eye: the ray of step `k` has bounced `k` times, hits
/// `hits_along[k]`, and every step but the last scatters it on.
pub open spec fn is_light_path(
    scene: Scene,
    hits_along: Seq<Seq<(Rid, HitInfo)>>,
    outcomes: Seq<Bounce>,
) -> bool {
    &&& outcomes.len() == hits_along.len()
    &&& outcomes.len() <= i64::MAX
    &&& forall|k: int|
        0 <= k < outcomes.len() ==> scene.decides(k as i64, hits_along[k], #[trigger] outcomes[k])
    &&& forall|k: int| 0 <= k < outcomes.len() - 1 ==> #[trigger] outcomes[k] is Scattered
}

/// Every light path ends: with a budget of `max_light_bounce` bounces it is
/// scattered at most once more than that, and a path that has scattered so
/// often ends absorbed. With a negative budget the ray from the eye is
/// absorbed at once.
pub proof fn lemma_light_paths_end(
    scene: Scene,
    hits_along: Seq<Seq<(Rid, HitInfo)>>,
    outcomes: Seq<Bounce>,
)
    requires
        is_light_path(scene, hits_along, outcomes),
    ensures
        scene.max_light_bounce >= 0 ==> outcomes.len() <= scene.max_light_bounce + 2,
        scene.max_light_bounce < 0 ==> outcomes.len() <= 1,
        outcomes.len() > 0 && outcomes.len() > scene.max_light_bounce + 1 ==> outcomes.last()
            == Bounce::Absorbed,
        outcomes.len() > 0 && outcomes.len() <= scene.max_light_bounce + 1 ==> outcomes.last()
            != Bounce::Absorbed,
{
    let limit: int = if scene.max_light_bounce >= 0 {
        scene.max_light_bounce + 1
    } else {
        0
    };
    if outcomes.len() > limit + 1 {
        assert(outcomes[limit] is Scattered);
        assert(scene.decides(limit as i64, hits_along[limit], outcomes[limit]));
    }
    if outcomes.len() > 0 {
        let last = outcomes.len() - 1;
        assert(scene.decides(last as i64, hits_along[last], outcomes[last]));
    }
}

/// Within the bounce budget, a ray that hits nothing that counts escapes to
/// the sky. This holds of a ray from the eye whenever the budget is not
/// negative.
pub proof fn lemma_miss_escapes(
    scene: Scene,
    bounce_count: i64,
    hits: Seq<(Rid, HitInfo)>,
    outcome: Bounce,
)
    requires
        bounce_count <= scene.max_light_bounce,
        no_hit_counts(hits),
        scene.decides(bounce_count, hits, outcome),
    ensures
        outcome == Bounce::Escaped,
{
    match outcome {
        Bounce::Scattered { index, material } => {
            assert(spec_hit_interval().spec_contains(hits[index as int].1.distance));
        },
        _ => {},
    }
}

/// A material that is set for an object is the one that shading uses while
/// it is live. Where none is set, and once the one set is removed, shading
/// uses the default material.
pub proof fn lemma_material_fallback(scene: Scene, obj_rid: Rid, mat_rid: Rid)
    ensures
        (Scene {
            associations: scene.associations.insert(obj_rid, mat_rid),
            ..scene
        }).material_for(obj_rid) == if scene.materials.contains_key(mat_rid) {
            mat_rid
        } else {
            scene.default_material
        },
        !scene.associations.contains_key(obj_rid) ==> scene.material_for(obj_rid)
            == scene.default_material,
        (Scene {
            associations: scene.associations.insert(obj_rid, mat_rid),
            materials: scene.materials.remove(mat_rid),
            ..scene
        }).material_for(obj_rid) == scene.default_material,
{
}

/// An object that is created is shaded with the default material until
/// another is set for it.
pub proof fn lemma_new_object_has_default(scene: Scene, rid: Rid, object: Object)
    requires
        scene.wf(),
        scene.materials.contains_key(scene.default_material),
    ensures
        (Scene {
            objects: scene.objects.insert(rid, object),
            associations: scene.associations.insert(rid, scene.default_material),
            ..scene
        }).material_for(rid) == scene.default_material,
{
}

/// Whether a ray that escapes looks into the sun. `alignment` is the cosine
/// of the angle between the ray and the direction of the sun.
pub open spec fn spec_in_sun_disk(alignment: Scalar) -> bool {
    (Scalar { bits: SUN_DISK_BITS }).spec_lt(alignment)
}

/// Decides the light of a ray that escapes: that of the sun's disk if the
/// ray looks into the sun, else that of the sky.
#[verifier::when_used_as_spec(spec_in_sun_disk)]
pub fn in_sun_disk(alignment: Scalar) -> (sun: bool)
    ensures
        sun == spec_in_sun_disk(alignment),
{
    alignment.gt(Scalar::from_bits(SUN_DISK_BITS))
}

/// Each channel of `color` restricted to `[0, 1]`; a NaN stays as it is.
pub open spec fn spec_clamp_color(color: Vec3) -> Vec3 {
    Vec3 {
        x: color.x.spec_clamp(Scalar::spec_zero(), Scalar::spec_one()),
        y: color.y.spec_clamp(Scalar::spec_zero(), Scalar::spec_one()),
        z: color.z.spec_clamp(Scalar::spec_zero(), Scalar::spec_one()),
    }
}

/// Whether each channel of `color` is a number from zero to one.
pub open spec fn in_unit_range(color: Vec3) -> bool {
    &&& Scalar::spec_zero().spec_le(color.x) && color.x.spec_le(Scalar::spec_one())
    &&& Scalar::spec_zero().spec_le(color.y) && color.y.spec_le(Scalar::spec_one())
    &&& Scalar::spec_zero().spec_le(color.z) && color.z.spec_le(Scalar::spec_one())
}

/// A colour without a NaN is brought into range, channel by channel, and a
/// colour in range is left as it is: so black stays black, white stays
/// white, and clamping twice is clamping once.
pub proof fn lemma_clamp_color(color: Vec3)
    ensures
        !color.x.spec_is_nan() && !color.y.spec_is_nan() && !color.z.spec_is_nan()
            ==> in_unit_range(spec_clamp_color(color)),
        in_unit_range(color) ==> spec_clamp_color(color) == color,
        spec_clamp_color(spec_clamp_color(color)) == spec_clamp_color(color),
        spec_clamp_color(Vec3::spec_zero()) == Vec3::spec_zero(),
{
}

/// Clamping keeps the order of each channel: the brighter of two roots is
/// not the darker after clamping.
pub proof fn lemma_clamp_color_monotonic(darker: Vec3, brighter: Vec3)
    requires
        darker.x.spec_le(brighter.x),
        darker.y.spec_le(brighter.y),
        darker.z.spec_le(brighter.z),
    ensures
        spec_clamp_color(darker).x.spec_le(spec_clamp_color(brighter).x),
        spec_clamp_color(darker).y.spec_le(spec_clamp_color(brighter).y),
        spec_clamp_color(darker).z.spec_le(spec_clamp_color(brighter).z),
{
}

/// The last step of gamma correction: after the square root of each channel
/// has been taken, each is restricted to `[0, 1]`.
#[verifier::when_used_as_spec(spec_clamp_color)]
pub fn clamp_color(color: Vec3) -> (clamped: Vec3)
    ensures
        clamped == spec_clamp_color(color),
{
    let zero = Scalar::zero();
    let one = Scalar::one();
    Vec3::new(color.x.clamp(zero, one), color.y.clamp(zero, one), color.z.clamp(zero, one))
}

/// The scene and the settings of a render: objects and materials, owned by
/// handle, which material each object has, and the two tunable numbers.
pub struct CpuRenderingDevice {
    objects: RidOwner<Object>,
    materials: RidOwner<Material>,
    default_material: Rid,
    object_materials: HashMap<u64, Rid>,
    /// How many times light may bounce before it is absorbed.
    pub max_light_bounce: i64,
    /// How many rays are averaged for one pixel.
    pub pixel_sample_count: i64,
}

/// The material that a new device starts with: a matte mid grey.
pub open spec fn initial_material() -> Material {
    Material::Lambertian(
        Lambertian {
            albedo: Vec3 {
                x: Scalar { bits: DEFAULT_ALBEDO_BITS },
                y: Scalar { bits: DEFAULT_ALBEDO_BITS },
                z: Scalar { bits: DEFAULT_ALBEDO_BITS },
            },
        },
    )
}

impl View for CpuRenderingDevice {
    type V = Scene;

    closed spec fn view(&self) -> Scene {
        Scene {
            objects: self.objects@,
            materials: self.materials@,
            associations: Map::new(
                |o: Rid| self.object_materials@.contains_key(o.index()),
                |o: Rid| self.object_materials@[o.index()],
            ),
            default_material: self.default_material,
            objects_issued: self.objects.issued(),
            materials_issued: self.materials.issued(),
            max_light_bounce: self.max_light_bounce,
            pixel_sample_count: self.pixel_sample_count,
        }
    }
}

impl CpuRenderingDevice {
    /// An empty scene with one material, the default one.
    pub fn new(max_light_bounce: i64, pixel_sample_count: i64) -> (device: Self)
        ensures
            device@.wf(),
            device@ == (Scene {
                objects: Map::empty(),
                materials: Map::empty().insert(device@.default_material, initial_material()),
                associations: Map::empty(),
                default_material: device@.default_material,
                objects_issued: 0,
                materials_issued: 1,
                max_light_bounce,
                pixel_sample_count,
            }),
    {
        let mut materials: RidOwner<Material> = RidOwner::new();
        let half = Scalar::from_bits(DEFAULT_ALBEDO_BITS);
        let default_material = materials.add(
            Material::Lambertian(Lambertian::new(Vec3::new(half, half, half))),
        );
        let device = Self {
            objects: RidOwner::new(),
            materials: materials,
            object_materials: HashMap::new(),
            default_material: default_material,
            max_light_bounce: max_light_bounce,
            pixel_sample_count: pixel_sample_count,
        };
        assert(device@.associations =~= Map::<Rid, Rid>::empty());
        device
    }

    /// Adds a sphere to the scene, with the default material.
    pub fn create_sphere(&mut self, position: Vec3, radius: Scalar) -> (rid: Rid)
        requires
            old(self)@.objects_issued < u64::MAX,
        ensures
            rid.index() == old(self)@.objects_issued,
            old(self)@.wf() ==> final(self)@.wf() && !old(self)@.objects.contains_key(rid),
            final(self)@ == (Scene {
                objects: old(self)@.objects.insert(rid, Object::Sphere(Sphere { position, radius })),
                associations: old(self)@.associations.insert(rid, old(self)@.default_material),
                objects_issued: old(self)@.objects_issued + 1,
                ..old(self)@
            }),
    {
        let rid = self.objects.add(Object::Sphere(Sphere::new(position, radius)));
        self.object_set_material(rid, self.default_material);
        rid
    }

    /// Adds a plane to the scene, with the default material.
    pub fn create_plane(&mut self, position: Vec3, normal: Vec3) -> (rid: Rid)
        requires
            old(self)@.objects_issued < u64::MAX,
        ensures
            rid.index() == old(self)@.objects_issued,
            old(self)@.wf() ==> final(self)@.wf() && !old(self)@.objects.contains_key(rid),
            final(self)@ == (Scene {
                objects: old(self)@.objects.insert(rid, Object::Plane(Plane { position, normal })),
                associations: old(self)@.associations.insert(rid, old(self)@.default_material),
                objects_issued: old(self)@.objects_issued + 1,
                ..old(self)@
            }),
    {
        let rid = self.objects.add(Object::Plane(Plane::new(position, normal)));
        self.object_set_material(rid, self.default_material);
        rid
    }

    /// Adds a matte material with the given albedo.
    pub fn create_lambertial_material(&mut self, albedo: Vec3) -> (rid: Rid)
        requires
            old(self)@.materials_issued < u64::MAX,
        ensures
            rid.index() == old(self)@.materials_issued,
            old(self)@.wf() ==> final(self)@.wf() && !old(self)@.materials.contains_key(rid),
            old(self)@.wf() ==> rid != old(self)@.default_material,
            final(self)@ == (Scene {
                materials: old(self)@.materials.insert(
                    rid,
                    Material::Lambertian(Lambertian { albedo }),
                ),
                materials_issued: old(self)@.materials_issued + 1,
                ..old(self)@
            }),
    {
        self.materials.add(Material::Lambertian(Lambertian::new(albedo)))
    }

    /// Adds a reflecting material with the given albedo and roughness.
    pub fn create_metal_material(&mut self, albedo: Vec3, fuzz: Scalar) -> (rid: Rid)
        requires
            old(self)@.materials_issued < u64::MAX,
        ensures
            rid.index() == old(self)@.materials_issued,
            old(self)@.wf() ==> final(self)@.wf() && !old(self)@.materials.contains_key(rid),
            old(self)@.wf() ==> rid != old(self)@.default_material,
            final(self)@ == (Scene {
                materials: old(self)@.materials.insert(rid, Material::Metal(Metal { albedo, fuzz })),
                materials_issued: old(self)@.materials_issued + 1,
                ..old(self)@
            }),
    {
        self.materials.add(Material::Metal(Metal::new(albedo, fuzz)))
    }

    /// Sets the material of an object, whether or not either handle is live.
    /// The last material set is the one that holds.
    pub fn object_set_material(&mut self, obj_rid: Rid, mat_rid: Rid)
        ensures
            final(self)@ == (Scene {
                associations: old(self)@.associations.insert(obj_rid, mat_rid),
                ..old(self)@
            }),
            old(self)@.wf() ==> final(self)@.wf(),
    {
        broadcast use vstd::std_specs::hash::group_hash_axioms;
        self.object_materials.insert(obj_rid.key(), mat_rid);
        assert(self@.associations =~= old(self)@.associations.insert(obj_rid, mat_rid)) by {
            assert forall|o: Rid| o.index() == obj_rid.index() implies o == obj_rid by {
                Rid::lemma_index_injective(o, obj_rid);
            }
        }
    }

    /// Takes an object out of the scene. The material set for it stays on
    /// record. Does nothing if `rid` names no live object.
    pub fn remove_object(&mut self, rid: Rid)
        ensures
            final(self)@ == (Scene { objects: old(self)@.objects.remove(rid), ..old(self)@ }),
            old(self)@.wf() ==> final(self)@.wf(),
    {
        self.objects.remove(rid);
    }

    /// Takes a material out of the scene. Objects that had it are shaded with
    /// the default material from now on. Does nothing if `rid` names no live
    /// material.
    pub fn remove_material(&mut self, rid: Rid)
        ensures
            final(self)@ == (Scene { materials: old(self)@.materials.remove(rid), ..old(self)@ }),
            old(self)@.wf() ==> final(self)@.wf(),
    {
        self.materials.remove(rid);
    }

    /// The registry of the objects.
    pub fn objects(&self) -> (objects: &RidOwner<Object>)
        ensures
            objects@ == self@.objects,
            objects.issued() == self@.objects_issued,
    {
        &self.objects
    }

    /// The registry of the materials.
    pub fn materials(&self) -> (materials: &RidOwner<Material>)
        ensures
            materials@ == self@.materials,
            materials.issued() == self@.materials_issued,
    {
        &self.materials
    }

    /// The handle of the default material.
    pub fn default_material(&self) -> (rid: Rid)
        ensures
            rid == self@.default_material,
    {
        self.default_material
    }

    /// The material that shading uses for `obj_rid`: the one set for it if
    /// that is live, else the default material.
    pub fn material_for(&self, obj_rid: Rid) -> (mat_rid: Rid)
        ensures
            mat_rid == self@.material_for(obj_rid),
    {
        broadcast use vstd::std_specs::hash::group_hash_axioms;

        match self.object_materials.get(&obj_rid.key()) {
            Some(mat_rid) => {
                if self.materials.get(*mat_rid).is_some() {
                    *mat_rid
                } else {
                    self.default_material
                }
            },
            None => self.default_material,
        }
    }

    /// Decides what becomes of a ray that has bounced `bounce_count` times.
    ///
    /// `hits` holds what the ray hits: for each object hit, its handle and
    /// the hit, in the order in which the registry gives the objects.
    pub fn ray_color(&self, bounce_count: i64, hits: &Vec<(Rid, HitInfo)>) -> (outcome: Bounce)
        ensures
            self@.decides(bounce_count, hits@, outcome),
    {
        if bounce_count > self.max_light_bounce {
            return Bounce::Absorbed;
        }
        match nearest_hit(hits) {
            Some(index) => {
                let material = self.material_for(hits[index].0);
                Bounce::Scattered { index, material }
            },
            None => Bounce::Escaped,
        }
    }
}

} // verus!
