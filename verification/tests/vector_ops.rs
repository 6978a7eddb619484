//! Vector arithmetic, reflection and refraction on concrete values.

use raytracer::fixed::SCALE;
use raytracer::vector::Vector3;

#[test]
fn componentwise_arithmetic() {
    let a = Vector3::new(SCALE, 2 * SCALE, -SCALE);
    let b = Vector3::new(3 * SCALE, -SCALE, SCALE);
    assert_eq!(a.plus(&b), Vector3::new(4 * SCALE, SCALE, 0));
    assert_eq!(a.minus(&b), Vector3::new(-2 * SCALE, 3 * SCALE, -2 * SCALE));
    assert_eq!(a.times(&b), Vector3::new(3 * SCALE, -2 * SCALE, -SCALE));
    assert_eq!(a.scaled(2 * SCALE), Vector3::new(2 * SCALE, 4 * SCALE, -2 * SCALE));
    assert_eq!(a.divided(2 * SCALE), Vector3::new(SCALE / 2, SCALE, -SCALE / 2));
    assert_eq!(a.neg(), Vector3::new(-SCALE, -2 * SCALE, SCALE));
}

#[test]
fn accessors_share_storage() {
    let a = Vector3::new(1, 2, 3);
    assert_eq!(a.x(), 1);
    assert_eq!(a.y(), 2);
    assert_eq!(a.z(), 3);
    assert_eq!(a.r(), 1);
    assert_eq!(a.g(), 2);
    assert_eq!(a.b(), 3);
}

#[test]
fn dot_cross_magnitude() {
    let a = Vector3::new(SCALE, 0, 0);
    let b = Vector3::new(0, SCALE, 0);
    assert_eq!(Vector3::dot(&a, &b), 0);
    assert_eq!(Vector3::dot(&a, &a), SCALE);
    assert_eq!(a.cross(&b), Vector3::new(0, 0, SCALE));
    assert_eq!(b.cross(&a), Vector3::new(0, 0, -SCALE));
    let c = Vector3::new(3 * SCALE, 4 * SCALE, 0);
    assert_eq!(c.magnitude_squared(), 25 * SCALE);
    assert_eq!(c.magnitude(), 5 * SCALE);
    assert_eq!(
        Vector3::unit_vector(&c),
        Vector3::new(3 * SCALE / 5, 4 * SCALE / 5, 0)
    );
}

#[test]
fn reflect_flips_the_normal_component() {
    let v = Vector3::new(12345, -777, 4242);
    let n = Vector3::new(0, SCALE, 0);
    assert_eq!(Vector3::reflect(&v, &n), Vector3::new(12345, 777, 4242));
}

#[test]
fn reflect_twice_restores_the_vector() {
    let v = Vector3::new(12345, -777, 4242);
    for n in [
        Vector3::new(SCALE, 0, 0),
        Vector3::new(-SCALE, 0, 0),
        Vector3::new(0, SCALE, 0),
        Vector3::new(0, -SCALE, 0),
        Vector3::new(0, 0, SCALE),
        Vector3::new(0, 0, -SCALE),
    ] {
        let once = Vector3::reflect(&v, &n);
        assert_eq!(Vector3::reflect(&once, &n), v);
    }
}

#[test]
fn refract_head_on_passes_straight_through() {
    let v = Vector3::new(0, 0, -SCALE);
    let n = Vector3::new(0, 0, SCALE);
    // refraction ratio two thirds (into glass of index 1.5)
    let ratio = 43690;
    assert_eq!(
        Vector3::refract(&v, &n, ratio),
        Some(Vector3::new(0, 0, -SCALE))
    );
    assert_eq!(
        Vector3::refract_book(&v, &n, ratio),
        Some(Vector3::new(0, 0, -SCALE))
    );
}

#[test]
fn refract_reports_total_internal_reflection() {
    // leaving glass at forty-five degrees: no real solution
    let v = Vector3::new(SCALE, 0, SCALE);
    let n = Vector3::new(0, 0, -SCALE);
    let ratio = 98304;
    assert_eq!(Vector3::refract(&v, &n, ratio), None);
}
