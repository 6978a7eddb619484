//! The demonstration scene: a ground sphere, a 22-by-22 grid of small
//! randomly placed and randomly shaded spheres, and three large spheres,
//! one of each material.
//!
//! The construction is an exact function of the generator state: the
//! contract names every fixed sphere and mirrors the whole randomized
//! grid walk, cell by cell.

use vstd::prelude::*;

use vstd::arithmetic::div_mod::lemma_fundamental_div_mod_converse;

use crate::fixed::SCALE;
use crate::fixed::add_v;
use crate::fixed::fadd;
use crate::fixed::fmul;
use crate::fixed::mul_v;
use crate::hitable::HitableList;
use crate::hitable::Sphere;
use crate::hitable::list_ok;
use crate::hitable::sphere_ok;
use crate::material::DialetricMaterial;
use crate::material::LambertarianMaterial;
use crate::material::Material;
use crate::material::MetalMaterial;
use crate::material::material_ok;
use crate::rng::Rng;
use crate::rng::next_state;
use crate::rng::unit_of;
use crate::vector::Vector3;
use crate::vector::magnitude_v;
use crate::vector::sub_vec;
use crate::vector::v3;

verus! {

/// The matte ground: radius one thousand, centered far below the origin.
pub open spec fn ground_sphere() -> Sphere {
    Sphere {
        center: v3(0, -65536000, 0),
        radius: 65536000,
        material: Material::Lambertarian(
            LambertarianMaterial { albedo: v3(32768, 32768, 32768) },
        ),
    }
}

/// The large glass sphere at the middle of the scene.
pub open spec fn big_glass_sphere() -> Sphere {
    Sphere {
        center: v3(0, 65536, 0),
        radius: 65536,
        material: Material::Dialetric(DialetricMaterial { refractive_index: 98304 }),
    }
}

/// The large matte sphere on the left.
pub open spec fn big_matte_sphere() -> Sphere {
    Sphere {
        center: v3(-262144, 65536, 0),
        radius: 65536,
        material: Material::Lambertarian(LambertarianMaterial { albedo: v3(26214, 13107, 6554) }),
    }
}

/// The large mirror-metal sphere on the right.
pub open spec fn big_metal_sphere() -> Sphere {
    Sphere {
        center: v3(262144, 65536, 0),
        radius: 65536,
        material: Material::Metal(MetalMaterial { albedo: v3(45875, 39322, 32768), fuzziness: 0 }),
    }
}

/// Shape of every small grid sphere: radius a fifth, resting on the
/// ground plane, with a sound material.
pub open spec fn grid_sphere_shape(s: Sphere) -> bool {
    s.radius == 13107 && s.center.e1 == 13107 && material_ok(s.material)
}

/// What one grid cell at `(a, b)` contributes from generator state `s`:
/// first a material draw, then a jittered center; a center too close to
/// the metal sphere's column yields nothing, and otherwise the draw picks
/// a matte (below four fifths), metal (below nineteen twentieths) or
/// glass sphere, with further draws shading the first two.
pub open spec fn grid_cell_spec(a: int, b: int, s: u64) -> (Option<Sphere>, u64) {
    let s1 = next_state(s);
    let material_draw = unit_of(s1);
    let s2 = next_state(s1);
    let s3 = next_state(s2);
    let center = v3(
        add_v(a * (SCALE as int), mul_v(58982, unit_of(s2))),
        13107,
        add_v(b * (SCALE as int), mul_v(58982, unit_of(s3))),
    );
    if magnitude_v(sub_vec(center, v3(262144, 13107, 0))) > 58982 {
        if material_draw < 52429 {
            let s4 = next_state(s3);
            let s5 = next_state(s4);
            let s6 = next_state(s5);
            let s7 = next_state(s6);
            let s8 = next_state(s7);
            let s9 = next_state(s8);
            let albedo = v3(
                mul_v(unit_of(s4), unit_of(s5)),
                mul_v(unit_of(s6), unit_of(s7)),
                mul_v(unit_of(s8), unit_of(s9)),
            );
            (
                Some(
                    Sphere {
                        center,
                        radius: 13107,
                        material: Material::Lambertarian(LambertarianMaterial { albedo }),
                    },
                ),
                s9,
            )
        } else if material_draw < 62259 {
            let s4 = next_state(s3);
            let s5 = next_state(s4);
            let s6 = next_state(s5);
            let s7 = next_state(s6);
            let albedo = v3(
                mul_v(32768, add_v(SCALE as int, unit_of(s4))),
                mul_v(32768, add_v(SCALE as int, unit_of(s5))),
                mul_v(32768, add_v(SCALE as int, unit_of(s6))),
            );
            let fuzziness = mul_v(32768, unit_of(s7));
            (
                Some(
                    Sphere {
                        center,
                        radius: 13107,
                        material: Material::Metal(
                            MetalMaterial { albedo, fuzziness: fuzziness as i64 },
                        ),
                    },
                ),
                s7,
            )
        } else {
            (
                Some(
                    Sphere {
                        center,
                        radius: 13107,
                        material: Material::Dialetric(DialetricMaterial { refractive_index: 98304 }),
                    },
                ),
                s3,
            )
        }
    } else {
        (None, s3)
    }
}

/// The small spheres the first `k` grid cells contribute from state `s`
/// (cells walked row by row: cell `k` is `a = k / 22 - 11`,
/// `b = k % 22 - 11`), with the state after them.
pub open spec fn scene_cells(k: nat, s: u64) -> (Seq<Sphere>, u64)
    decreases k,
{
    if k == 0 {
        (Seq::empty(), s)
    } else {
        let (prefix, sp) = scene_cells((k - 1) as nat, s);
        let a = (k - 1) as int / 22 - 11;
        let b = (k - 1) as int % 22 - 11;
        let (cell, sc) = grid_cell_spec(a, b, sp);
        match cell {
            Some(sphere) => (prefix.push(sphere), sc),
            None => (prefix, sc),
        }
    }
}

/// Every sphere the grid cells contribute has the grid sphere shape.
pub proof fn lemma_scene_cells_shape(k: nat, s: u64)
    ensures
        forall|i: int|
            0 <= i < scene_cells(k, s).0.len() ==> grid_sphere_shape(
                #[trigger] scene_cells(k, s).0[i],
            ),
    decreases k,
{
    if k > 0 {
        lemma_scene_cells_shape((k - 1) as nat, s);
        let (prefix, sp) = scene_cells((k - 1) as nat, s);
        let a = (k - 1) as int / 22 - 11;
        let b = (k - 1) as int % 22 - 11;
        let (cell, sc) = grid_cell_spec(a, b, sp);
        match cell {
            Some(sphere) => {
                assert(grid_sphere_shape(sphere));
                assert(scene_cells(k, s).0 == prefix.push(sphere));
                assert forall|i: int| 0 <= i < scene_cells(k, s).0.len() implies grid_sphere_shape(
                    #[trigger] scene_cells(k, s).0[i],
                ) by {
                    if i < prefix.len() {
                        assert(scene_cells(k, s).0[i] == prefix[i]);
                    } else {
                        assert(scene_cells(k, s).0[i] == sphere);
                    }
                }
            },
            None => {
                assert(scene_cells(k, s).0 == prefix);
            },
        }
    }
}

/// Builds the demonstration scene. The result is an exact function of
/// the generator state: the ground sphere first, then whatever the 484
/// grid cells contribute, then the three large spheres.
#[verifier::loop_isolation(false)]
#[verifier::rlimit(100)]
pub fn random_scene(rng: &mut Rng) -> (r: HitableList)
    ensures
        r.hitables@ == seq![ground_sphere()] + scene_cells(484, old(rng).state).0 + seq![
            big_glass_sphere(),
            big_matte_sphere(),
            big_metal_sphere(),
        ],
        final(rng).state == scene_cells(484, old(rng).state).1,
        list_ok(r.hitables@),
{
    let ghost s0 = rng.state;
    let mut list: Vec<Sphere> = Vec::new();
    list.push(
        Sphere::new(
            Vector3::new(0, -65536000, 0),
            65536000,
            Material::Lambertarian(LambertarianMaterial::new(Vector3::new(32768, 32768, 32768))),
        ),
    );
    let mut a: i64 = -11;
    while a < 11
        invariant
            -11 <= a <= 11,
            list@ == seq![ground_sphere()] + scene_cells(((a + 11) * 22) as nat, s0).0,
            rng.state == scene_cells(((a + 11) * 22) as nat, s0).1,
        decreases 11 - a,
    {
        let mut b: i64 = -11;
        while b < 11
            invariant
                -11 <= b <= 11,
                list@ == seq![ground_sphere()] + scene_cells(((a + 11) * 22 + (b + 11)) as nat, s0).0,
                rng.state == scene_cells(((a + 11) * 22 + (b + 11)) as nat, s0).1,
            decreases 11 - b,
        {
            let ghost k = ((a + 11) * 22 + (b + 11)) as nat;
            proof {
                lemma_fundamental_div_mod_converse(k as int, 22, a + 11, b + 11);
            }
            let material_draw = rng.next_unit();
            let jitter_x = rng.next_unit();
            let jitter_z = rng.next_unit();
            let center = Vector3::new(
                fadd(a * SCALE, fmul(58982, jitter_x)),
                13107,
                fadd(b * SCALE, fmul(58982, jitter_z)),
            );
            if center.minus(&Vector3::new(262144, 13107, 0)).magnitude() > 58982 {
                let material: Material;
                if material_draw < 52429 {
                    let u1 = rng.next_unit();
                    let u2 = rng.next_unit();
                    let u3 = rng.next_unit();
                    let u4 = rng.next_unit();
                    let u5 = rng.next_unit();
                    let u6 = rng.next_unit();
                    let albedo = Vector3::new(fmul(u1, u2), fmul(u3, u4), fmul(u5, u6));
                    material = Material::Lambertarian(LambertarianMaterial::new(albedo));
                } else if material_draw < 62259 {
                    let u1 = rng.next_unit();
                    let u2 = rng.next_unit();
                    let u3 = rng.next_unit();
                    let u4 = rng.next_unit();
                    let albedo = Vector3::new(
                        fmul(32768, fadd(SCALE, u1)),
                        fmul(32768, fadd(SCALE, u2)),
                        fmul(32768, fadd(SCALE, u3)),
                    );
                    material = Material::Metal(MetalMaterial::new(albedo, fmul(32768, u4)));
                } else {
                    material = Material::Dialetric(DialetricMaterial::new(98304));
                }
                let sphere = Sphere::new(center, 13107, material);
                list.push(sphere);
            }
            proof {
                assert(list@ =~= seq![ground_sphere()] + scene_cells((k + 1) as nat, s0).0);
            }
            b = b + 1;
        }
        a = a + 1;
    }
    list.push(
        Sphere::new(
            Vector3::new(0, 65536, 0),
            65536,
            Material::Dialetric(DialetricMaterial::new(98304)),
        ),
    );
    list.push(
        Sphere::new(
            Vector3::new(-262144, 65536, 0),
            65536,
            Material::Lambertarian(LambertarianMaterial::new(Vector3::new(26214, 13107, 6554))),
        ),
    );
    list.push(
        Sphere::new(
            Vector3::new(262144, 65536, 0),
            65536,
            Material::Metal(MetalMaterial::new(Vector3::new(45875, 39322, 32768), 0)),
        ),
    );
    proof {
        lemma_scene_cells_shape(484, s0);
        assert(list@ =~= seq![ground_sphere()] + scene_cells(484, s0).0 + seq![
            big_glass_sphere(),
            big_matte_sphere(),
            big_metal_sphere(),
        ]);
        assert forall|i: int| 0 <= i < list@.len() implies sphere_ok(#[trigger] list@[i]) by {
            if 1 <= i < list@.len() - 3 {
                assert(list@[i] == scene_cells(484, s0).0[i - 1]);
            }
        }
    }
    HitableList::new(list)
}

} // verus!
