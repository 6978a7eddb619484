//! Camera construction and ray generation.

use raytracer::camera::Camera;
use raytracer::fixed::SCALE;
use raytracer::rng::Rng;
use raytracer::vector::Vector3;

fn simple_camera(aperture: i64) -> Camera {
    Camera::new(
        Vector3::new(0, 0, 0),
        Vector3::new(0, 0, -SCALE),
        Vector3::new(0, SCALE, 0),
        90 * SCALE,
        2 * SCALE,
        aperture,
        SCALE,
    )
}

#[test]
fn basis_is_the_expected_frame() {
    let cam = simple_camera(0);
    assert_eq!(cam.origin, Vector3::new(0, 0, 0));
    // looking down the negative third axis: right is +x, up is +y
    assert_eq!(cam.u, Vector3::new(SCALE, 0, 0));
    assert_eq!(cam.v, Vector3::new(0, SCALE, 0));
}

#[test]
fn field_of_view_sets_the_plane_size() {
    // a ninety-degree vertical field of view at focus distance one has
    // half-height tan(45 deg) = 1, so the full vertical extent is 2
    let cam = simple_camera(0);
    let height = cam.vertical.magnitude();
    assert!((2 * SCALE - 1500..=2 * SCALE + 1500).contains(&height));
    let width = cam.horizontal.magnitude();
    assert!((4 * SCALE - 3000..=4 * SCALE + 3000).contains(&width));
}

#[test]
fn closed_aperture_rays_start_at_the_eye() {
    let cam = simple_camera(0);
    let mut rng = Rng::from_seed(3);
    let ray = cam.get_ray(SCALE / 2, SCALE / 2, &mut rng);
    assert_eq!(ray.origin, Vector3::new(0, 0, 0));
    // the center ray points essentially straight ahead
    assert!(ray.direction.z() < 0);
    assert!(ray.direction.x().abs() < 2000);
    assert!(ray.direction.y().abs() < 2000);
}

#[test]
fn closed_aperture_rays_are_independent_of_the_draw() {
    let cam = simple_camera(0);
    let mut a = Rng::from_seed(1);
    let mut b = Rng::from_seed(999);
    let first = cam.get_ray(SCALE / 4, SCALE / 3, &mut a);
    let second = cam.get_ray(SCALE / 4, SCALE / 3, &mut b);
    assert_eq!(first, second);
}

#[test]
fn open_aperture_jitters_the_origin() {
    let cam = simple_camera(SCALE);
    let mut rng = Rng::from_seed(12);
    let mut moved = false;
    for _ in 0..16 {
        let ray = cam.get_ray(SCALE / 2, SCALE / 2, &mut rng);
        if ray.origin != Vector3::new(0, 0, 0) {
            moved = true;
        }
    }
    assert!(moved);
}
