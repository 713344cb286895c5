//! Shapes: what every shape offers, and what all of them share.
//!
//! A shape has an identity, a transformation and a material, and knows in
//! its own space where a ray meets it and which way its surface faces.
//! Rays are taken into that space by the inverse of the transformation,
//! normals are brought back by the transpose of the inverse.

use vstd::prelude::*;
use crate::intersection::Intersection;
use crate::material::Material;
use crate::matrix::{MatrixModel, Transformation};
use crate::plane::Plane;
use crate::ray::Ray;
use crate::sphere::Sphere;
use crate::tuple::{
    spec_vector, spec_vector_normalize, vector, vector_normalize, Tuple,
};

verus! {

/// A normal of object space in world space: sent through the transpose of
/// the inverse, its fourth component dropped, and brought to length one.
pub open spec fn spec_normal_to_world(inverse_transpose: MatrixModel, local_normal: Tuple)
    -> Tuple {
    let world_normal = inverse_transpose.multiply_tuple(local_normal);
    spec_vector_normalize(spec_vector(world_normal.0, world_normal.1, world_normal.2))
}

/// A point of the world in the space of a shape.
pub fn point_to_object(transform: &Transformation, p: &Tuple) -> (local_point: Tuple)
    requires
        transform.wf(),
    ensures
        local_point == transform.inverse@.multiply_tuple(*p),
{
    transform.inverse.multiply_tuple(p)
}

/// A normal of the space of a shape in the world.
pub fn normal_to_world(transform: &Transformation, local_normal: &Tuple) -> (normal: Tuple)
    requires
        transform.wf(),
    ensures
        normal == spec_normal_to_world(transform.inverse_transpose@, *local_normal),
{
    let world_normal = transform.inverse_transpose.multiply_tuple(local_normal);
    let tmp = vector(world_normal.0, world_normal.1, world_normal.2);
    vector_normalize(&tmp)
}

/// The shapes of a scene.
#[derive(Debug, PartialEq)]
pub enum Shape {
    Sphere(Sphere),
    Plane(Plane),
}

impl Shape {
    pub open spec fn spec_id(&self) -> usize {
        match self {
            Shape::Sphere(s) => s.id,
            Shape::Plane(p) => p.id,
        }
    }

    pub open spec fn spec_transform(&self) -> &Transformation {
        match self {
            Shape::Sphere(s) => &s.transform,
            Shape::Plane(p) => &p.transform,
        }
    }

    pub open spec fn spec_material(&self) -> &Material {
        match self {
            Shape::Sphere(s) => &s.material,
            Shape::Plane(p) => &p.material,
        }
    }

    /// Transformation and material are well formed.
    pub open spec fn wf(&self) -> bool {
        self.spec_transform().wf() && self.spec_material().wf()
    }

    pub open spec fn spec_local_intersect(&self, local_ray: Ray) -> Seq<Intersection> {
        match self {
            Shape::Sphere(s) => s.spec_local_intersect(local_ray),
            Shape::Plane(p) => p.spec_local_intersect(local_ray),
        }
    }

    pub open spec fn spec_local_normal_at(&self, local_point: Tuple) -> Tuple {
        match self {
            Shape::Sphere(s) => s.spec_local_normal_at(local_point),
            Shape::Plane(p) => p.spec_local_normal_at(local_point),
        }
    }

    /// The normal of the surface at a point of the world.
    pub open spec fn spec_normal_at(&self, p: Tuple) -> Tuple {
        spec_normal_to_world(
            self.spec_transform().inverse_transpose@,
            self.spec_local_normal_at(self.spec_transform().inverse@.multiply_tuple(p)),
        )
    }

    /// Where a ray of the world meets the shape.
    pub open spec fn spec_intersect(&self, ray: Ray) -> Seq<Intersection> {
        self.spec_local_intersect(ray.spec_transform(self.spec_transform().inverse@))
    }

    pub fn id(&self) -> (id: usize)
        ensures
            id == self.spec_id(),
    {
        match self {
            Shape::Sphere(s) => s.id,
            Shape::Plane(p) => p.id,
        }
    }

    pub fn transform(&self) -> (t: &Transformation)
        ensures
            t == self.spec_transform(),
    {
        match self {
            Shape::Sphere(s) => &s.transform,
            Shape::Plane(p) => &p.transform,
        }
    }

    pub fn material(&self) -> (m: &Material)
        ensures
            m == self.spec_material(),
    {
        match self {
            Shape::Sphere(s) => &s.material,
            Shape::Plane(p) => &p.material,
        }
    }

    /// Where a ray of the shape's own space meets the shape.
    pub fn local_intersect(&self, local_ray: &Ray) -> (xs: Vec<Intersection>)
        ensures
            xs@ == self.spec_local_intersect(*local_ray),
    {
        match self {
            Shape::Sphere(s) => s.local_intersect(local_ray),
            Shape::Plane(p) => p.local_intersect(local_ray),
        }
    }

    /// The normal at a point of the shape's own space.
    pub fn local_normal_at(&self, local_point: &Tuple) -> (n: Tuple)
        ensures
            n == self.spec_local_normal_at(*local_point),
    {
        match self {
            Shape::Sphere(s) => s.local_normal_at(local_point),
            Shape::Plane(p) => p.local_normal_at(local_point),
        }
    }

    /// The normal of the surface at a point of the world, of length one.
    pub fn normal_at(&self, p: &Tuple) -> (n: Tuple)
        requires
            self.spec_transform().wf(),
        ensures
            n == self.spec_normal_at(*p),
    {
        let local_point = point_to_object(self.transform(), p);
        let local_normal = self.local_normal_at(&local_point);
        normal_to_world(self.transform(), &local_normal)
    }

    /// Where a ray of the world meets the shape: the intersections carry
    /// the identity of the shape and come in the order of the shape.
    pub fn intersect(&self, ray: &Ray) -> (xs: Vec<Intersection>)
        requires
            self.spec_transform().wf(),
        ensures
            xs@ == self.spec_intersect(*ray),
            forall|i: int| 0 <= i < xs@.len() ==> (#[trigger] xs@[i]).object_id == self.spec_id(),
    {
        let local_ray = ray.transform(&self.transform().inverse);
        self.local_intersect(&local_ray)
    }
}

} // verus!
