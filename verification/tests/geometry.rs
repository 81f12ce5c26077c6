use path_tracer::cpu::mat::{Lambertian, Material, Metal};
use path_tracer::cpu::obj::{Plane, Sphere};
use path_tracer::math::{is_approx_zero, random_on_hemisphere, Interval};
use path_tracer::scalar::Scalar;
use path_tracer::vector::Vec3;
use path_tracer::{Camera, Crossing, HitInfo, Ray};

type V = [f64; 3];

fn s(x: f64) -> Scalar {
    Scalar::from_bits(x.to_bits())
}

fn f(x: Scalar) -> f64 {
    f64::from_bits(x.to_bits())
}

fn pack(v: V) -> Vec3 {
    Vec3::new(s(v[0]), s(v[1]), s(v[2]))
}

fn unpack(v: Vec3) -> V {
    [f(v.x), f(v.y), f(v.z)]
}

fn bits(v: Vec3) -> [u64; 3] {
    [v.x.to_bits(), v.y.to_bits(), v.z.to_bits()]
}

fn dot(a: V, b: V) -> f64 {
    a[0] * b[0] + a[1] * b[1] + a[2] * b[2]
}

fn sub(a: V, b: V) -> V {
    [a[0] - b[0], a[1] - b[1], a[2] - b[2]]
}

fn at(origin: V, direction: V, t: f64) -> V {
    [origin[0] + t * direction[0], origin[1] + t * direction[1], origin[2] + t * direction[2]]
}

fn ray(origin: V, direction: V) -> Ray {
    Ray::new(pack(origin), pack(direction))
}

fn interval(start: f64, end: f64) -> Interval {
    Interval::new(s(start), s(end))
}

fn open_ended() -> Interval {
    interval(0.001, f64::INFINITY)
}

fn sphere_crossing(sphere: &Sphere, ray: &Ray, root: f64) -> Crossing {
    let direction = unpack(ray.direction);
    let position = at(unpack(ray.origin), direction, root);
    let offset = sub(position, unpack(sphere.position));
    let radius = f(sphere.radius);
    let normal = [offset[0] / radius, offset[1] / radius, offset[2] / radius];
    Crossing { distance: s(root), position: pack(position), normal: pack(normal), facing: s(dot(normal, direction)) }
}

fn hit_sphere(sphere: &Sphere, ray: &Ray, interval: &Interval) -> Option<HitInfo> {
    let direction = unpack(ray.direction);
    let radius = f(sphere.radius);
    let oc = sub(unpack(sphere.position), unpack(ray.origin));
    let a = dot(direction, direction);
    let h = dot(direction, oc);
    let c = dot(oc, oc) - radius * radius;
    let delta = h * h - a * c;
    let root = delta.sqrt();
    let near = sphere_crossing(sphere, ray, (h - root) / a);
    let far = sphere_crossing(sphere, ray, (h + root) / a);
    Sphere::hit(s(delta), &near, &far, interval)
}

fn hit_plane(plane: &Plane, ray: &Ray, interval: &Interval) -> Option<HitInfo> {
    let normal = unpack(plane.normal);
    let direction = unpack(ray.direction);
    let oc = sub(unpack(ray.origin), unpack(plane.position));
    let a = dot(normal, direction);
    let t = -dot(normal, oc) / a;
    plane.hit(s(a), s(t), pack(at(unpack(ray.origin), direction, t)), interval)
}

fn some_hit() -> HitInfo {
    HitInfo::new(s(1.5), pack([1.0, 2.0, 3.0]), pack([0.0, 0.0, 1.0]), true)
}

#[test]
fn records_keep_what_they_are_made_of() {
    let camera = Camera::new(pack([1.0, 2.0, 3.0]), s(1.25));
    assert_eq!(unpack(camera.position), [1.0, 2.0, 3.0]);
    assert_eq!(f(camera.focal_length), 1.25);

    let r = ray([0.0, 1.0, 2.0], [3.0, 4.0, 5.0]);
    assert_eq!(unpack(r.origin), [0.0, 1.0, 2.0]);
    assert_eq!(unpack(r.direction), [3.0, 4.0, 5.0]);

    let sphere = Sphere::new(pack([0.0, 0.0, -2.0]), s(0.5));
    assert_eq!(unpack(sphere.position), [0.0, 0.0, -2.0]);
    assert_eq!(f(sphere.radius), 0.5);

    let plane = Plane::new(pack([0.0, -0.5, 0.0]), pack([0.0, 1.0, 0.0]));
    assert_eq!(unpack(plane.position), [0.0, -0.5, 0.0]);
    assert_eq!(unpack(plane.normal), [0.0, 1.0, 0.0]);

    let metal = Metal::new(pack([0.8, 0.4, 0.4]), s(0.2));
    assert_eq!(unpack(metal.albedo), [0.8, 0.4, 0.4]);
    assert_eq!(f(metal.fuzz), 0.2);

    let v = Vec3::zero();
    assert_eq!(bits(v), [0, 0, 0]);
    assert_eq!(bits(pack([1.0, -2.0, 0.0]).neg()), bits(pack([-1.0, 2.0, -0.0])));
}

#[test]
fn hit_info_front_face_keeps_the_normal() {
    let hit = HitInfo::front_face(s(2.0), pack([1.0, 2.0, 3.0]), pack([0.0, 1.0, 0.0]));
    assert_eq!(f(hit.distance), 2.0);
    assert_eq!(unpack(hit.position), [1.0, 2.0, 3.0]);
    assert_eq!(bits(hit.normal), bits(pack([0.0, 1.0, 0.0])));
    assert!(hit.front_face);
}

#[test]
fn hit_info_back_face_flips_the_normal() {
    let hit = HitInfo::back_face(s(2.0), pack([1.0, 2.0, 3.0]), pack([0.0, 1.0, -0.5]));
    assert_eq!(f(hit.distance), 2.0);
    assert_eq!(unpack(hit.position), [1.0, 2.0, 3.0]);
    assert_eq!(bits(hit.normal), bits(pack([-0.0, -1.0, 0.5])));
    assert!(!hit.front_face);
}

#[test]
fn a_crossing_is_oriented_against_the_ray() {
    let crossing = |facing: f64| Crossing {
        distance: s(1.0),
        position: pack([0.0, 0.0, 0.0]),
        normal: pack([0.0, 0.0, 1.0]),
        facing: s(facing),
    };
    let front = HitInfo::oriented(crossing(-0.25));
    assert!(front.front_face);
    assert_eq!(unpack(front.normal), [0.0, 0.0, 1.0]);
    for facing in [0.25, 0.0, -0.0, f64::NAN] {
        let back = HitInfo::oriented(crossing(facing));
        assert!(!back.front_face, "facing {facing:?}");
        assert_eq!(unpack(back.normal), [0.0, 0.0, -1.0]);
    }
}

#[test]
fn interval_contains_includes_its_ends() {
    let range = interval(0.001, 10.0);
    assert!(range.contains(s(0.001)));
    assert!(range.contains(s(10.0)));
    assert!(range.contains(s(5.0)));
    assert!(!range.contains(s(0.000999)));
    assert!(!range.contains(s(10.000001)));
    assert!(!range.contains(s(-5.0)));
    assert!(!range.contains(s(f64::NAN)));
    assert!(open_ended().contains(s(f64::INFINITY)));
    assert!(interval(0.0, 1.0).contains(s(-0.0)));
}

#[test]
fn interval_surrounds_excludes_its_ends() {
    let range = interval(0.001, 10.0);
    assert!(!range.surrounds(s(0.001)));
    assert!(!range.surrounds(s(10.0)));
    assert!(range.surrounds(s(5.0)));
    assert!(range.surrounds(s(0.0010000001)));
    assert!(!range.surrounds(s(-5.0)));
    assert!(!range.surrounds(s(f64::NAN)));
    assert!(!open_ended().surrounds(s(f64::INFINITY)));
    assert!(open_ended().surrounds(s(f64::MAX)));
    assert!(!interval(0.0, 1.0).surrounds(s(-0.0)));
    assert!(!interval(1.0, 0.0).surrounds(s(0.5)));
    assert!(!interval(f64::NAN, 1.0).surrounds(s(0.5)));
}

#[test]
fn is_approx_zero_asks_every_component_to_be_below_the_threshold() {
    assert!(is_approx_zero(pack([0.0, 0.0, 0.0])));
    assert!(is_approx_zero(pack([9.9e-9, -9.9e-9, -0.0])));
    assert!(!is_approx_zero(pack([1e-8, 0.0, 0.0])));
    assert!(!is_approx_zero(pack([0.0, -1e-8, 0.0])));
    assert!(!is_approx_zero(pack([0.0, 0.0, 2e-8])));
    assert!(!is_approx_zero(pack([1.0, 1.0, 1.0])));
    assert!(!is_approx_zero(pack([f64::NAN, 0.0, 0.0])));
    assert!(!is_approx_zero(pack([0.0, f64::INFINITY, 0.0])));
}

#[test]
fn random_on_hemisphere_keeps_a_vector_of_the_hemisphere() {
    let vec = [0.6, 0.0, 0.8];
    assert_eq!(bits(random_on_hemisphere(pack(vec), s(0.8))), bits(pack(vec)));
    assert_eq!(bits(random_on_hemisphere(pack(vec), s(1e-300))), bits(pack(vec)));
}

#[test]
fn random_on_hemisphere_flips_a_vector_of_the_other_hemisphere() {
    let vec = [0.6, 0.0, 0.8];
    let flipped = pack([-0.6, -0.0, -0.8]);
    for toward_normal in [-0.8, 0.0, -0.0, f64::NAN] {
        assert_eq!(bits(random_on_hemisphere(pack(vec), s(toward_normal))), bits(flipped));
    }
}

#[test]
fn a_sphere_ahead_is_hit_at_its_offset_less_its_radius() {
    let cases: [(f64, f64); 6] = [(2.0, 0.5), (3.0, 1.0), (10.0, 0.25), (1.5, 1.0), (100.0, 64.0), (0.75, 0.5)];
    let axes: [V; 6] = [
        [1.0, 0.0, 0.0],
        [-1.0, 0.0, 0.0],
        [0.0, 1.0, 0.0],
        [0.0, -1.0, 0.0],
        [0.0, 0.0, 1.0],
        [0.0, 0.0, -1.0],
    ];
    let origin = [4.0, -2.0, 8.0];
    for (offset, radius) in cases {
        for axis in axes {
            let centre = at(origin, axis, offset);
            let sphere = Sphere::new(pack(centre), s(radius));
            let hit = hit_sphere(&sphere, &ray(origin, axis), &open_ended()).unwrap();
            assert_eq!(f(hit.distance), offset - radius, "offset {offset}, radius {radius}, axis {axis:?}");
            assert!(hit.front_face);
            assert_eq!(unpack(hit.position), at(origin, axis, offset - radius));
            assert_eq!(unpack(hit.normal), [-axis[0], -axis[1], -axis[2]]);
        }
    }
}

#[test]
fn a_sphere_ahead_is_hit_near_its_offset_less_its_radius() {
    let direction = [1.0, 0.0, 0.0];
    for (offset, radius) in [(1.7, 0.3), (12.345, 6.789), (0.2, 0.05), (1e3, 1e-2)] {
        let sphere = Sphere::new(pack([offset, 0.0, 0.0]), s(radius));
        let hit = hit_sphere(&sphere, &ray([0.0, 0.0, 0.0], direction), &open_ended()).unwrap();
        let expected: f64 = offset - radius;
        assert!((f(hit.distance) - expected).abs() <= 1e-9 * expected.abs().max(1.0));
        assert!(hit.front_face);
    }
}

#[test]
fn a_ray_with_a_long_direction_counts_distance_in_its_own_length() {
    let sphere = Sphere::new(pack([0.0, 0.0, -8.0]), s(2.0));
    let hit = hit_sphere(&sphere, &ray([0.0, 0.0, 0.0], [0.0, 0.0, -2.0]), &open_ended()).unwrap();
    assert_eq!(f(hit.distance), 3.0);
    assert_eq!(unpack(hit.position), [0.0, 0.0, -6.0]);
    assert_eq!(unpack(hit.normal), [0.0, 0.0, 1.0]);
    assert!(hit.front_face);
}

#[test]
fn a_ray_from_inside_a_sphere_hits_the_back_face() {
    let sphere = Sphere::new(pack([0.0, 0.0, 0.0]), s(2.0));
    let hit = hit_sphere(&sphere, &ray([0.0, 0.0, 0.0], [0.0, 1.0, 0.0]), &open_ended()).unwrap();
    assert_eq!(f(hit.distance), 2.0);
    assert!(!hit.front_face);
    assert_eq!(unpack(hit.position), [0.0, 2.0, 0.0]);
    assert_eq!(unpack(hit.normal), [0.0, -1.0, 0.0]);
}

#[test]
fn a_tangent_ray_hits_once() {
    let sphere = Sphere::new(pack([0.0, 0.5, -2.0]), s(0.5));
    let hit = hit_sphere(&sphere, &ray([0.0, 0.0, 0.0], [0.0, 0.0, -1.0]), &open_ended()).unwrap();
    assert_eq!(f(hit.distance), 2.0);
    assert_eq!(unpack(hit.position), [0.0, 0.0, -2.0]);
}

#[test]
fn a_ray_that_passes_a_sphere_misses_it() {
    let sphere = Sphere::new(pack([0.0, 0.0, -2.0]), s(0.5));
    assert!(hit_sphere(&sphere, &ray([0.0, 0.0, 0.0], [0.0, 1.0, -1.0]), &open_ended()).is_none());
    assert!(hit_sphere(&sphere, &ray([0.0, 0.51, 0.0], [0.0, 0.0, -1.0]), &open_ended()).is_none());
}

#[test]
fn a_negative_discriminant_is_a_miss_whatever_the_crossings() {
    let crossing = Crossing {
        distance: s(1.0),
        position: pack([0.0, 0.0, -1.0]),
        normal: pack([0.0, 0.0, 1.0]),
        facing: s(-1.0),
    };
    assert!(Sphere::hit(s(-1e-300), &crossing, &crossing, &open_ended()).is_none());
    assert!(Sphere::hit(s(f64::NEG_INFINITY), &crossing, &crossing, &open_ended()).is_none());
    assert!(Sphere::hit(s(0.0), &crossing, &crossing, &open_ended()).is_some());
    assert!(Sphere::hit(s(-0.0), &crossing, &crossing, &open_ended()).is_some());
}

#[test]
fn a_sphere_behind_the_ray_is_missed() {
    let sphere = Sphere::new(pack([0.0, 0.0, 2.0]), s(0.5));
    assert!(hit_sphere(&sphere, &ray([0.0, 0.0, 0.0], [0.0, 0.0, -1.0]), &open_ended()).is_none());
}

#[test]
fn a_root_on_the_end_of_the_interval_does_not_count() {
    let sphere = Sphere::new(pack([0.0, 0.0, -2.0]), s(0.5));
    let r = ray([0.0, 0.0, 0.0], [0.0, 0.0, -1.0]);
    assert!(hit_sphere(&sphere, &r, &interval(0.001, 1.5)).is_none());
    assert!(hit_sphere(&sphere, &r, &interval(0.001, 1.4)).is_none());
    let far = hit_sphere(&sphere, &r, &interval(1.5, f64::INFINITY)).unwrap();
    assert_eq!(f(far.distance), 2.5);
    assert!(!far.front_face);
    assert_eq!(unpack(far.normal), [0.0, 0.0, 1.0]);
    assert!(hit_sphere(&sphere, &r, &interval(1.5, 2.5)).is_none());
    let near = hit_sphere(&sphere, &r, &interval(1.4, 1.6)).unwrap();
    assert_eq!(f(near.distance), 1.5);
}

#[test]
fn a_ray_that_starts_on_a_sphere_does_not_hit_it_there() {
    let sphere = Sphere::new(pack([0.0, 0.0, -2.0]), s(0.5));
    let leaving = ray([0.0, 0.0, -1.5], [0.0, 0.0, 1.0]);
    assert!(hit_sphere(&sphere, &leaving, &open_ended()).is_none());
    let entering = ray([0.0, 0.0, -1.5], [0.0, 0.0, -1.0]);
    let hit = hit_sphere(&sphere, &entering, &open_ended()).unwrap();
    assert_eq!(f(hit.distance), 1.0);
    assert!(!hit.front_face);
}

#[test]
fn a_plane_is_hit_on_the_front_against_its_normal() {
    let plane = Plane::new(pack([0.0, -0.5, 0.0]), pack([0.0, 1.0, 0.0]));
    let hit = hit_plane(&plane, &ray([3.0, 1.0, -4.0], [0.0, -1.0, 0.0]), &open_ended()).unwrap();
    assert!(hit.front_face);
    assert_eq!(f(hit.distance), 1.5);
    assert_eq!(unpack(hit.position), [3.0, -0.5, -4.0]);
    assert_eq!(bits(hit.normal), bits(pack([0.0, 1.0, 0.0])));
}

#[test]
fn a_plane_is_hit_on_the_back_along_its_normal() {
    let plane = Plane::new(pack([0.0, -0.5, 0.0]), pack([0.0, 1.0, 0.0]));
    let hit = hit_plane(&plane, &ray([3.0, -2.0, -4.0], [0.0, 1.0, 0.0]), &open_ended()).unwrap();
    assert!(!hit.front_face);
    assert_eq!(f(hit.distance), 1.5);
    assert_eq!(unpack(hit.position), [3.0, -0.5, -4.0]);
    assert_eq!(bits(hit.normal), bits(pack([-0.0, -1.0, -0.0])));
}

#[test]
fn a_ray_along_a_plane_misses_it() {
    let plane = Plane::new(pack([0.0, -0.5, 0.0]), pack([0.0, 1.0, 0.0]));
    assert!(hit_plane(&plane, &ray([0.0, 1.0, 0.0], [1.0, 0.0, 0.0]), &open_ended()).is_none());
    assert!(hit_plane(&plane, &ray([0.0, 1.0, 0.0], [1.0, -0.0, 1.0]), &open_ended()).is_none());
    assert!(plane.hit(s(0.0), s(1.0), pack([0.0, 0.0, 0.0]), &open_ended()).is_none());
    assert!(plane.hit(s(-0.0), s(1.0), pack([0.0, 0.0, 0.0]), &open_ended()).is_none());
    assert!(plane.hit(s(1e-300), s(1.0), pack([0.0, 0.0, 0.0]), &open_ended()).is_some());
}

#[test]
fn a_plane_behind_the_ray_or_at_its_start_is_missed() {
    let plane = Plane::new(pack([0.0, -0.5, 0.0]), pack([0.0, 1.0, 0.0]));
    assert!(hit_plane(&plane, &ray([0.0, 1.0, 0.0], [0.0, 1.0, 0.0]), &open_ended()).is_none());
    assert!(hit_plane(&plane, &ray([0.0, -0.5, 0.0], [0.0, -1.0, 0.0]), &open_ended()).is_none());
    assert!(hit_plane(&plane, &ray([0.0, -0.4995, 0.0], [0.0, -1.0, 0.0]), &open_ended()).is_none());
    assert!(hit_plane(&plane, &ray([0.0, 1.0, 0.0], [0.0, -1.0, 0.0]), &interval(0.001, 1.5)).is_none());
}

#[test]
fn a_plane_keeps_a_normal_of_any_length() {
    let plane = Plane::new(pack([0.0, 0.0, -3.0]), pack([0.0, 0.0, 4.0]));
    let hit = hit_plane(&plane, &ray([1.0, 1.0, 0.0], [0.0, 0.0, -2.0]), &open_ended()).unwrap();
    assert!(hit.front_face);
    assert_eq!(f(hit.distance), 1.5);
    assert_eq!(unpack(hit.position), [1.0, 1.0, -3.0]);
    assert_eq!(unpack(hit.normal), [0.0, 0.0, 4.0]);
}

#[test]
fn lambertian_scatters_along_the_drawn_direction() {
    let material = Lambertian::new(pack([0.2, 0.8, 0.2]));
    let hit = some_hit();
    let (attenuation, out) = material.scatter(&hit, pack([0.5, -0.25, 1.0]));
    assert_eq!(unpack(attenuation), [0.2, 0.8, 0.2]);
    assert_eq!(unpack(out.origin), [1.0, 2.0, 3.0]);
    assert_eq!(unpack(out.direction), [0.5, -0.25, 1.0]);
}

#[test]
fn lambertian_scatters_along_the_normal_when_the_draws_cancel() {
    let material = Lambertian::new(pack([0.2, 0.8, 0.2]));
    let hit = some_hit();
    for scattered in [[0.0, 0.0, 0.0], [9e-9, -9e-9, 1e-12], [-0.0, 0.0, -0.0]] {
        let (attenuation, out) = material.scatter(&hit, pack(scattered));
        assert_eq!(unpack(attenuation), [0.2, 0.8, 0.2]);
        assert_eq!(unpack(out.origin), [1.0, 2.0, 3.0]);
        assert_eq!(unpack(out.direction), [0.0, 0.0, 1.0]);
    }
    let (_, out) = material.scatter(&hit, pack([1e-8, 0.0, 0.0]));
    assert_eq!(unpack(out.direction), [1e-8, 0.0, 0.0]);
}

#[test]
fn metal_scatters_along_the_reflected_direction() {
    let material = Metal::new(pack([0.8, 0.4, 0.4]), s(0.2));
    let hit = some_hit();
    let (attenuation, out) = material.scatter(&hit, pack([0.0, 0.0, 0.0]));
    assert_eq!(unpack(attenuation), [0.8, 0.4, 0.4]);
    assert_eq!(unpack(out.origin), [1.0, 2.0, 3.0]);
    assert_eq!(unpack(out.direction), [0.0, 0.0, 0.0]);
    let (_, out) = material.scatter(&hit, pack([0.1, 0.2, 0.7]));
    assert_eq!(unpack(out.direction), [0.1, 0.2, 0.7]);
}

#[test]
fn a_material_scatters_as_its_variant_does() {
    let hit = some_hit();
    let matte = Material::Lambertian(Lambertian::new(pack([1.0, 0.5, 0.25])));
    let (attenuation, out) = matte.scatter(&hit, pack([0.0, 0.0, 0.0]));
    assert_eq!(unpack(attenuation), [1.0, 0.5, 0.25]);
    assert_eq!(unpack(out.direction), [0.0, 0.0, 1.0]);
    let mirror = Material::Metal(Metal::new(pack([0.9, 0.9, 0.9]), s(0.0)));
    let (attenuation, out) = mirror.scatter(&hit, pack([0.0, 0.0, 0.0]));
    assert_eq!(unpack(attenuation), [0.9, 0.9, 0.9]);
    assert_eq!(unpack(out.direction), [0.0, 0.0, 0.0]);
}

#[test]
fn attenuation_is_never_above_an_albedo_that_is_not_above_one() {
    let hit = some_hit();
    let one = Scalar::one();
    for albedo in [[0.0, 0.5, 1.0], [1.0, 1.0, 1.0], [0.3, 0.2, 0.1]] {
        for material in [
            Material::Lambertian(Lambertian::new(pack(albedo))),
            Material::Metal(Metal::new(pack(albedo), s(0.3))),
        ] {
            for direction in [[0.0, 0.0, 0.0], [1.0, -1.0, 0.5]] {
                let (attenuation, _) = material.scatter(&hit, pack(direction));
                assert!(attenuation.x.le(one) && attenuation.y.le(one) && attenuation.z.le(one));
                assert_eq!(unpack(attenuation), albedo);
            }
        }
    }
}
