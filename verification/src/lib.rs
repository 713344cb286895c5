//! The core of a ray tracer: homogeneous algebra, shapes and their
//! intersections, patterns, Phong lighting, the world and the camera.

pub mod camera;
pub mod canvas;
pub mod color;
pub mod demo;
pub mod intersection;
pub mod light;
pub mod material;
pub mod matrix;
pub mod pattern;
pub mod plane;
pub mod projectile;
pub mod ray;
pub mod scalar;
pub mod shape;
pub mod sphere;
pub mod text;
pub mod transformation;
pub mod tuple;
pub mod world;
