//! A recursive Monte-Carlo ray tracer over fixed-point arithmetic.
//!
//! Scene geometry (spheres), the three material models (matte, metal,
//! glass), the camera, and the recursive color estimator are all verified:
//! every function carries a contract that pins its result down exactly,
//! over a fixed-point scalar model (`fixed::Fixed`).

pub mod camera;
pub mod fixed;
pub mod hitable;
pub mod material;
pub mod ray;
pub mod render;
pub mod rng;
pub mod scene;
pub mod vector;

pub use camera::Camera;
pub use fixed::Fixed;
pub use fixed::SCALE;
pub use hitable::HitRecord;
pub use hitable::HitableList;
pub use hitable::Sphere;
pub use material::DialetricMaterial;
pub use material::LambertarianMaterial;
pub use material::Material;
pub use material::MaterialScatter;
pub use material::MetalMaterial;
pub use ray::Ray;
pub use render::estimate_color;
pub use rng::Rng;
pub use scene::random_scene;
pub use vector::Vector3;
