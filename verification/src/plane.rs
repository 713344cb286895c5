//! The plane through the x and z axes of its own space.

use vstd::prelude::*;
use crate::intersection::Intersection;
use crate::material::Material;
use crate::matrix::{Matrix, Transformation};
use crate::ray::Ray;
use crate::scalar::Scalar;
use crate::shape::{normal_to_world, point_to_object, spec_normal_to_world};
use crate::tuple::{spec_vector, vector, Tuple};

verus! {

#[derive(Debug, PartialEq)]
pub struct Plane {
    pub id: usize,
    pub transform: Transformation,
    pub material: Material,
}

/// The vector that points up.
pub open spec fn spec_up() -> Tuple {
    spec_vector(Scalar::spec_zero(), Scalar::spec_one(), Scalar::spec_zero())
}

impl Plane {
    /// Transformation and material are well formed.
    pub open spec fn wf(&self) -> bool {
        self.transform.wf() && self.material.wf()
    }

    /// Where a ray of the plane's own space meets it: nowhere where the ray
    /// rises or falls by less than the tolerance, and otherwise once, at
    /// `-origin.y / direction.y`.
    pub open spec fn spec_local_intersect(&self, local_ray: Ray) -> Seq<Intersection> {
        if local_ray.direction.1.spec_abs().spec_lt(Scalar::spec_epsilon()) {
            Seq::empty()
        } else {
            seq![
                Intersection {
                    object_id: self.id,
                    distance: local_ray.origin.1.spec_neg().spec_div(local_ray.direction.1),
                },
            ]
        }
    }

    /// The normal is the same everywhere: up.
    pub open spec fn spec_local_normal_at(&self, local_point: Tuple) -> Tuple {
        spec_up()
    }

    pub open spec fn spec_normal_at(&self, p: Tuple) -> Tuple {
        spec_normal_to_world(
            self.transform.inverse_transpose@,
            self.spec_local_normal_at(self.transform.inverse@.multiply_tuple(p)),
        )
    }

    pub open spec fn spec_intersect(&self, ray: Ray) -> Seq<Intersection> {
        self.spec_local_intersect(ray.spec_transform(self.transform.inverse@))
    }

    /// The plane with the given identity, untransformed and of the default
    /// material.
    pub fn new(id: usize) -> (p: Plane)
        ensures
            p.id == id,
            p.transform.is_identity(),
            p.material.color == crate::color::Color::spec_white(),
            p.material.ambient == Material::spec_ambient(),
            p.material.diffuse == Scalar::spec_ratio(9, 10),
            p.material.specular == Scalar::spec_ratio(9, 10),
            p.material.shininess == Material::spec_shininess(),
            p.material.pattern.is_none(),
            p.wf(),
    {
        Plane { id, transform: Transformation::default(), material: Material::default() }
    }

    /// The plane with another transformation, which must have an inverse.
    pub fn set_transform(self, transform: Matrix) -> (p: Plane)
        requires
            transform.wf(),
            transform.size == 4,
            transform@.invertible(),
        ensures
            p.id == self.id,
            p.material == self.material,
            p.transform.made_from(transform@),
            p.transform.wf(),
    {
        Plane { id: self.id, transform: Transformation::make(transform), material: self.material }
    }

    /// The plane with another transformation, or the plane as it was where
    /// the matrix has no inverse.
    pub fn try_set_transform(self, transform: Matrix) -> (r: Result<Plane, Plane>)
        requires
            transform.wf(),
            transform.size == 4,
        ensures
            r.is_ok() == transform@.invertible(),
            r matches Ok(p) ==> p.id == self.id && p.material == self.material
                && p.transform.made_from(transform@) && p.transform.wf(),
            r matches Err(p) ==> p == self,
    {
        if transform.is_invertible() {
            Ok(self.set_transform(transform))
        } else {
            Err(self)
        }
    }

    pub fn set_material(self, material: Material) -> (p: Plane)
        ensures
            p.id == self.id,
            p.transform == self.transform,
            p.material == material,
    {
        Plane { id: self.id, transform: self.transform, material }
    }

    pub fn id(&self) -> (id: usize)
        ensures
            id == self.id,
    {
        self.id
    }

    pub fn transform(&self) -> (t: &Transformation)
        ensures
            t == &self.transform,
    {
        &self.transform
    }

    pub fn material(&self) -> (m: &Material)
        ensures
            m == &self.material,
    {
        &self.material
    }

    /// Where a ray of the plane's own space meets it.
    pub fn local_intersect(&self, local_ray: &Ray) -> (xs: Vec<Intersection>)
        ensures
            xs@ == self.spec_local_intersect(*local_ray),
            xs@.len() <= 1,
            forall|i: int| 0 <= i < xs@.len() ==> (#[trigger] xs@[i]).object_id == self.id,
    {
        if local_ray.direction.1.abs().lt(Scalar::epsilon()) {
            let xs: Vec<Intersection> = Vec::new();
            assert(xs@ =~= Seq::empty());
            xs
        } else {
            let distance = local_ray.origin.1.neg().div(local_ray.direction.1);
            let xs = vec![Intersection::new(self.id, distance)];
            assert(xs@ =~= seq![Intersection { object_id: self.id, distance }]);
            xs
        }
    }

    pub fn local_normal_at(&self, local_point: &Tuple) -> (n: Tuple)
        ensures
            n == self.spec_local_normal_at(*local_point),
    {
        vector(Scalar::zero(), Scalar::one(), Scalar::zero())
    }

    /// The normal of the surface at a point of the world, of length one.
    pub fn normal_at(&self, p: &Tuple) -> (n: Tuple)
        requires
            self.transform.wf(),
        ensures
            n == self.spec_normal_at(*p),
    {
        let local_point = point_to_object(&self.transform, p);
        let local_normal = self.local_normal_at(&local_point);
        normal_to_world(&self.transform, &local_normal)
    }

    /// Where a ray of the world meets the plane.
    pub fn intersect(&self, ray: &Ray) -> (xs: Vec<Intersection>)
        requires
            self.transform.wf(),
        ensures
            xs@ == self.spec_intersect(*ray),
            forall|i: int| 0 <= i < xs@.len() ==> (#[trigger] xs@[i]).object_id == self.id,
    {
        let local_ray = ray.transform(&self.transform.inverse);
        self.local_intersect(&local_ray)
    }
}

} // verus!
