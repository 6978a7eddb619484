//! The camera: maps image-plane coordinates and lens randomness to rays.
//!
//! Construction derives an orthonormal basis from look-from, look-at and
//! an up hint, converts the vertical field of view to a half-height with
//! a fixed-point tangent (truncated sine and cosine series), and places
//! the image plane at the focus distance so defocus blur is correct.

use vstd::prelude::*;

use crate::fixed::Fixed;
use crate::fixed::SCALE;
use crate::fixed::add_v;
use crate::fixed::div_v;
use crate::fixed::fadd;
use crate::fixed::fdiv;
use crate::fixed::fmul;
use crate::fixed::fsub;
use crate::fixed::mul_v;
use crate::fixed::sub_v;
use crate::ray::Ray;
use crate::rng::Rng;
use crate::vector::SAMPLE_TRIES;
use crate::vector::Vector3;
use crate::vector::add_vec;
use crate::vector::cross_vec;
use crate::vector::magnitude_v;
use crate::vector::sample_disk_spec;
use crate::vector::scale_vec;
use crate::vector::sub_vec;
use crate::vector::unit_vec;

verus! {

/// Half a turn in degrees, as a scalar.
pub const DEG_HALF_TURN: i64 = 180 * 65536;

/// Pi as a scalar, rounded to the nearest raw unit.
pub const PI_FIXED: i64 = 205887;

/// Two as a scalar.
pub const TWO_FIXED: i64 = 2 * 65536;

/// `3!`, `5!` and `7!` as scalars, for the sine series.
pub const FACT3: i64 = 6 * 65536;

pub const FACT5: i64 = 120 * 65536;

pub const FACT7: i64 = 5040 * 65536;

/// `2!`, `4!` and `6!` as scalars, for the cosine series.
pub const FACT2: i64 = 2 * 65536;

pub const FACT4: i64 = 24 * 65536;

pub const FACT6: i64 = 720 * 65536;

/// Truncated sine series: `x - x^3/3! + x^5/5! - x^7/7!`.
pub open spec fn sin_v(x: int) -> int {
    let x2 = mul_v(x, x);
    let x3 = mul_v(x2, x);
    let x5 = mul_v(x3, x2);
    let x7 = mul_v(x5, x2);
    sub_v(
        add_v(sub_v(x, div_v(x3, FACT3 as int)), div_v(x5, FACT5 as int)),
        div_v(x7, FACT7 as int),
    )
}

/// Truncated cosine series: `1 - x^2/2! + x^4/4! - x^6/6!`.
pub open spec fn cos_v(x: int) -> int {
    let x2 = mul_v(x, x);
    let x4 = mul_v(x2, x2);
    let x6 = mul_v(x4, x2);
    sub_v(
        add_v(sub_v(SCALE as int, div_v(x2, FACT2 as int)), div_v(x4, FACT4 as int)),
        div_v(x6, FACT6 as int),
    )
}

/// Tangent from the two series; saturates where the cosine series is not
/// positive (a field of view near or past half a turn).
pub open spec fn tan_v(x: int) -> int {
    let c = cos_v(x);
    if c <= 0 {
        i64::MAX as int
    } else {
        div_v(sin_v(x), c)
    }
}

/// A camera: lens aperture, the image-plane frame, the eye point, and
/// the horizontal and vertical basis vectors, all fixed at construction.
#[derive(Clone, Copy, Debug, PartialEq, Eq, Structural)]
pub struct Camera {
    /// Lens diameter, for depth-of-field sampling.
    pub aperture: Fixed,
    /// Lower-left corner of the image plane, at the focus distance.
    pub lower_left_corner: Vector3,
    /// Full horizontal extent of the image plane.
    pub horizontal: Vector3,
    /// Full vertical extent of the image plane.
    pub vertical: Vector3,
    /// The eye point.
    pub origin: Vector3,
    /// Unit basis vector pointing right across the image.
    pub u: Vector3,
    /// Basis vector pointing up the image.
    pub v: Vector3,
}

/// What building a camera demands: the view direction and the cross of
/// the up hint with it must both be normalizable.
pub open spec fn camera_pre(look_from: Vector3, look_at: Vector3, v_up: Vector3) -> bool {
    magnitude_v(sub_vec(look_from, look_at)) != 0 && magnitude_v(
        cross_vec(v_up, unit_vec(sub_vec(look_from, look_at))),
    ) != 0
}

/// The camera built from the given view, field of view (degrees),
/// aspect ratio, aperture and focus distance.
pub open spec fn camera_new_spec(
    look_from: Vector3,
    look_at: Vector3,
    v_up: Vector3,
    vfov_deg: int,
    aspect_ratio: int,
    aperture: Fixed,
    focus_dist: int,
) -> Camera
    recommends
        camera_pre(look_from, look_at, v_up),
{
    let w = unit_vec(sub_vec(look_from, look_at));
    let u = unit_vec(cross_vec(v_up, w));
    let v = cross_vec(w, u);
    let theta_radians = div_v(mul_v(vfov_deg, PI_FIXED as int), DEG_HALF_TURN as int);
    let half_height = tan_v(div_v(theta_radians, TWO_FIXED as int));
    let half_width = mul_v(aspect_ratio, half_height);
    let horizontal = scale_vec(u, mul_v(half_width, focus_dist));
    let vertical = scale_vec(v, mul_v(half_height, focus_dist));
    Camera {
        aperture,
        lower_left_corner: sub_vec(
            sub_vec(sub_vec(look_from, horizontal), vertical),
            scale_vec(w, focus_dist),
        ),
        horizontal: scale_vec(horizontal, TWO_FIXED as int),
        vertical: scale_vec(vertical, TWO_FIXED as int),
        origin: look_from,
        u,
        v,
    }
}

/// The ray the camera casts for image coordinates `(row, column)` from
/// generator state `s`, with the state after the lens draw: the origin
/// is jittered on the lens disk, and the direction aims at the matching
/// point of the image plane.
pub open spec fn get_ray_spec(cam: Camera, row: int, column: int, s: u64) -> (Ray, u64) {
    let (d, s1) = sample_disk_spec(s, SAMPLE_TRIES as nat);
    let lens_disk = scale_vec(d, div_v(cam.aperture as int, TWO_FIXED as int));
    let offset = add_vec(
        scale_vec(cam.u, lens_disk.e0 as int),
        scale_vec(cam.v, lens_disk.e1 as int),
    );
    let ray_origin = add_vec(cam.origin, offset);
    let direction = sub_vec(
        add_vec(
            cam.lower_left_corner,
            add_vec(scale_vec(cam.horizontal, row), scale_vec(cam.vertical, column)),
        ),
        ray_origin,
    );
    (Ray { origin: ray_origin, direction }, s1)
}

/// Truncated sine series of a scalar.
fn sin_f(x: Fixed) -> (r: Fixed)
    ensures
        r as int == sin_v(x as int),
{
    let x2 = fmul(x, x);
    let x3 = fmul(x2, x);
    let x5 = fmul(x3, x2);
    let x7 = fmul(x5, x2);
    fsub(fadd(fsub(x, fdiv(x3, FACT3)), fdiv(x5, FACT5)), fdiv(x7, FACT7))
}

/// Truncated cosine series of a scalar.
fn cos_f(x: Fixed) -> (r: Fixed)
    ensures
        r as int == cos_v(x as int),
{
    let x2 = fmul(x, x);
    let x4 = fmul(x2, x2);
    let x6 = fmul(x4, x2);
    fsub(fadd(fsub(SCALE, fdiv(x2, FACT2)), fdiv(x4, FACT4)), fdiv(x6, FACT6))
}

/// Tangent of a scalar, saturating where the cosine series is not
/// positive.
fn tan_f(x: Fixed) -> (r: Fixed)
    ensures
        r as int == tan_v(x as int),
{
    let c = cos_f(x);
    if c <= 0 {
        i64::MAX
    } else {
        fdiv(sin_f(x), c)
    }
}

impl Camera {
    /// Builds a camera. The field of view is given in degrees; the image
    /// plane sits at `focus_dist`, so objects there are sharp.
    pub fn new(
        look_from: Vector3,
        look_at: Vector3,
        v_up: Vector3,
        vfov_deg: Fixed,
        aspect_ratio: Fixed,
        aperture: Fixed,
        focus_dist: Fixed,
    ) -> (r: Camera)
        requires
            camera_pre(look_from, look_at, v_up),
        ensures
            r == camera_new_spec(
                look_from,
                look_at,
                v_up,
                vfov_deg as int,
                aspect_ratio as int,
                aperture,
                focus_dist as int,
            ),
    {
        let w = Vector3::unit_vector(&look_from.minus(&look_at));
        let u = Vector3::unit_vector(&v_up.cross(&w));
        let v = w.cross(&u);
        let theta_radians = fdiv(fmul(vfov_deg, PI_FIXED), DEG_HALF_TURN);
        let half_height = tan_f(fdiv(theta_radians, TWO_FIXED));
        let half_width = fmul(aspect_ratio, half_height);
        let horizontal = u.scaled(fmul(half_width, focus_dist));
        let vertical = v.scaled(fmul(half_height, focus_dist));
        Camera {
            aperture,
            lower_left_corner: look_from.minus(&horizontal).minus(&vertical).minus(
                &w.scaled(focus_dist),
            ),
            horizontal: horizontal.scaled(TWO_FIXED),
            vertical: vertical.scaled(TWO_FIXED),
            origin: look_from,
            u,
            v,
        }
    }

    /// Casts the ray for image coordinates `(row, column)`, jittering
    /// the origin on the lens disk for depth of field.
    pub fn get_ray(&self, row: Fixed, column: Fixed, rng: &mut Rng) -> (r: Ray)
        ensures
            r == get_ray_spec(*self, row as int, column as int, old(rng).state).0,
            final(rng).state == get_ray_spec(*self, row as int, column as int, old(rng).state).1,
    {
        let disk = Vector3::random_in_disk(rng);
        let lens_disk = disk.scaled(fdiv(self.aperture, TWO_FIXED));
        let offset = self.u.scaled(lens_disk.x()).plus(&self.v.scaled(lens_disk.y()));
        let ray_origin = self.origin.plus(&offset);
        let direction = self.lower_left_corner.plus(
            &self.horizontal.scaled(row).plus(&self.vertical.scaled(column)),
        ).minus(&ray_origin);
        Ray::new(ray_origin, direction)
    }
}

} // verus!
