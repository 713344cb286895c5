//! The sphere around the origin of its own space.

use vstd::prelude::*;
use crate::intersection::{spec_ascending, Intersection};
use crate::material::Material;
use crate::matrix::{Matrix, Transformation};
use crate::ray::Ray;
use crate::scalar::{lemma_order_total, Scalar};
use crate::shape::{normal_to_world, point_to_object, spec_normal_to_world};
use crate::tuple::{
    point_zero, spec_point_zero, spec_subtract_tuple, spec_vector_dot_product, subtract_tuple,
    vector_dot_product, Tuple,
};

verus! {

#[derive(Debug, PartialEq)]
pub struct Sphere {
    pub id: usize,
    pub center: Tuple,
    pub radius: Scalar,
    pub transform: Transformation,
    pub material: Material,
}

/// The discriminant `b*b - 4*a*c` of the equation `a*t*t + b*t + c = 0`.
pub open spec fn spec_discriminant(a: Scalar, b: Scalar, c: Scalar) -> Scalar {
    b.spec_mul(b).spec_sub(Scalar::spec_four().spec_mul(a).spec_mul(c))
}

/// The root `(-b - sqrt(d)) / (2*a)`.
pub open spec fn spec_lower_root(a: Scalar, b: Scalar, discriminant: Scalar) -> Scalar {
    b.spec_neg().spec_sub(discriminant.spec_sqrt()).spec_div(Scalar::spec_two().spec_mul(a))
}

/// The root `(-b + sqrt(d)) / (2*a)`.
pub open spec fn spec_upper_root(a: Scalar, b: Scalar, discriminant: Scalar) -> Scalar {
    b.spec_neg().spec_add(discriminant.spec_sqrt()).spec_div(Scalar::spec_two().spec_mul(a))
}

/// The distance between the two roots.
pub open spec fn spec_gap(t1: Scalar, t2: Scalar) -> Scalar {
    t1.spec_sub(t2).spec_abs()
}

/// What the two roots of the equation say of a shape: nothing where the
/// discriminant is negative, one intersection where the roots are closer
/// than the tolerance, and otherwise two, the smaller root first.
pub open spec fn spec_roots_to_intersections(
    id: usize,
    discriminant: Scalar,
    t1: Scalar,
    t2: Scalar,
) -> Seq<Intersection> {
    spec_classify_roots(id, discriminant, spec_gap(t1, t2), t1, t2)
}

/// What discriminant, roots and the gap between the roots say of a shape:
/// nothing where the discriminant is negative, one intersection where the
/// gap is below the tolerance, and otherwise two, the smaller root first.
pub open spec fn spec_classify_roots(
    id: usize,
    discriminant: Scalar,
    gap: Scalar,
    t1: Scalar,
    t2: Scalar,
) -> Seq<Intersection> {
    if discriminant.spec_lt(Scalar::spec_zero()) {
        Seq::empty()
    } else if gap.spec_lt(Scalar::spec_epsilon()) {
        seq![Intersection { object_id: id, distance: t1 }]
    } else if t1.spec_lt(t2) {
        seq![
            Intersection { object_id: id, distance: t1 },
            Intersection { object_id: id, distance: t2 },
        ]
    } else {
        seq![
            Intersection { object_id: id, distance: t2 },
            Intersection { object_id: id, distance: t1 },
        ]
    }
}

impl Sphere {
    /// Transformation and material are well formed.
    pub open spec fn wf(&self) -> bool {
        self.transform.wf() && self.material.wf()
    }

    /// The vector from the centre to the origin of the ray.
    pub open spec fn spec_sphere_to_ray(&self, local_ray: Ray) -> Tuple {
        spec_subtract_tuple(local_ray.origin, self.center)
    }

    pub open spec fn spec_a(&self, local_ray: Ray) -> Scalar {
        spec_vector_dot_product(local_ray.direction, local_ray.direction)
    }

    pub open spec fn spec_b(&self, local_ray: Ray) -> Scalar {
        Scalar::spec_two().spec_mul(
            spec_vector_dot_product(local_ray.direction, self.spec_sphere_to_ray(local_ray)),
        )
    }

    pub open spec fn spec_c(&self, local_ray: Ray) -> Scalar {
        spec_vector_dot_product(
            self.spec_sphere_to_ray(local_ray),
            self.spec_sphere_to_ray(local_ray),
        ).spec_sub(self.radius)
    }

    /// Where a ray of the sphere's own space meets it: the roots of the
    /// equation that the ray and the sphere give.
    pub open spec fn spec_local_intersect(&self, local_ray: Ray) -> Seq<Intersection> {
        let a = self.spec_a(local_ray);
        let b = self.spec_b(local_ray);
        let discriminant = spec_discriminant(a, b, self.spec_c(local_ray));
        spec_roots_to_intersections(
            self.id,
            discriminant,
            spec_lower_root(a, b, discriminant),
            spec_upper_root(a, b, discriminant),
        )
    }

    /// The normal at a point of the sphere's own space: the point less the
    /// origin.
    pub open spec fn spec_local_normal_at(&self, local_point: Tuple) -> Tuple {
        spec_subtract_tuple(local_point, spec_point_zero())
    }

    pub open spec fn spec_normal_at(&self, p: Tuple) -> Tuple {
        spec_normal_to_world(
            self.transform.inverse_transpose@,
            self.spec_local_normal_at(self.transform.inverse@.multiply_tuple(p)),
        )
    }

    pub open spec fn spec_intersect(&self, ray: Ray) -> Seq<Intersection> {
        self.spec_local_intersect(ray.spec_transform(self.transform.inverse@))
    }

    /// The unit sphere with the given identity, untransformed and of the
    /// default material.
    pub fn new(id: usize) -> (s: Sphere)
        ensures
            s.id == id,
            s.center == spec_point_zero(),
            s.radius == Scalar::spec_one(),
            s.transform.is_identity(),
            s.material.color == crate::color::Color::spec_white(),
            s.material.ambient == Material::spec_ambient(),
            s.material.diffuse == Scalar::spec_ratio(9, 10),
            s.material.specular == Scalar::spec_ratio(9, 10),
            s.material.shininess == Material::spec_shininess(),
            s.material.pattern.is_none(),
            s.wf(),
    {
        Sphere {
            id,
            center: point_zero(),
            radius: Scalar::one(),
            transform: Transformation::default(),
            material: Material::default(),
        }
    }

    /// The sphere with another transformation, which must have an inverse.
    pub fn set_transform(self, transform: Matrix) -> (s: Sphere)
        requires
            transform.wf(),
            transform.size == 4,
            transform@.invertible(),
        ensures
            s.id == self.id,
            s.center == self.center,
            s.radius == self.radius,
            s.material == self.material,
            s.transform.made_from(transform@),
            s.transform.wf(),
    {
        Sphere {
            id: self.id,
            center: self.center,
            radius: self.radius,
            transform: Transformation::make(transform),
            material: self.material,
        }
    }

    /// The sphere with another transformation, or the sphere as it was
    /// where the matrix has no inverse.
    pub fn try_set_transform(self, transform: Matrix) -> (r: Result<Sphere, Sphere>)
        requires
            transform.wf(),
            transform.size == 4,
        ensures
            r.is_ok() == transform@.invertible(),
            r matches Ok(s) ==> s.id == self.id && s.center == self.center && s.radius
                == self.radius && s.material == self.material && s.transform.made_from(
                transform@,
            ) && s.transform.wf(),
            r matches Err(s) ==> s == self,
    {
        if transform.is_invertible() {
            Ok(self.set_transform(transform))
        } else {
            Err(self)
        }
    }

    pub fn set_material(self, material: Material) -> (s: Sphere)
        ensures
            s.id == self.id,
            s.center == self.center,
            s.radius == self.radius,
            s.transform == self.transform,
            s.material == material,
    {
        Sphere {
            id: self.id,
            center: self.center,
            radius: self.radius,
            transform: self.transform,
            material,
        }
    }

    pub fn set_radius(self, radius: Scalar) -> (s: Sphere)
        ensures
            s.id == self.id,
            s.center == self.center,
            s.radius == radius,
            s.transform == self.transform,
            s.material == self.material,
    {
        Sphere {
            id: self.id,
            center: self.center,
            radius,
            transform: self.transform,
            material: self.material,
        }
    }

    pub fn id(&self) -> (id: usize)
        ensures
            id == self.id,
    {
        self.id
    }

    pub fn transform(&self) -> (t: &Transformation)
        ensures
            t == &self.transform,
    {
        &self.transform
    }

    pub fn material(&self) -> (m: &Material)
        ensures
            m == &self.material,
    {
        &self.material
    }

    /// What the two roots say of the sphere with the given identity.
    pub fn roots_to_intersections(id: usize, discriminant: Scalar, t1: Scalar, t2: Scalar) -> (xs:
        Vec<Intersection>)
        ensures
            xs@ == spec_roots_to_intersections(id, discriminant, t1, t2),
            xs@.len() <= 2,
            forall|i: int| 0 <= i < xs@.len() ==> (#[trigger] xs@[i]).object_id == id,
            t1.comparable(t2) ==> spec_ascending(xs@),
    {
        Sphere::classify_roots(id, discriminant, t1.sub(t2).abs(), t1, t2)
    }

    /// What discriminant, roots and the gap between the roots say of the
    /// sphere with the given identity.
    pub fn classify_roots(id: usize, discriminant: Scalar, gap: Scalar, t1: Scalar, t2: Scalar)
        -> (xs: Vec<Intersection>)
        ensures
            xs@ == spec_classify_roots(id, discriminant, gap, t1, t2),
            xs@.len() <= 2,
            forall|i: int| 0 <= i < xs@.len() ==> (#[trigger] xs@[i]).object_id == id,
            t1.comparable(t2) ==> spec_ascending(xs@),
    {
        proof {
            if t1.comparable(t2) {
                lemma_order_total(t1, t2);
            }
        }
        if discriminant.lt(Scalar::zero()) {
            let xs: Vec<Intersection> = Vec::new();
            assert(xs@ =~= Seq::empty());
            xs
        } else if gap.lt(Scalar::epsilon()) {
            let xs = vec![Intersection::new(id, t1)];
            assert(xs@ =~= seq![Intersection { object_id: id, distance: t1 }]);
            xs
        } else if t1.lt(t2) {
            let xs = vec![Intersection::new(id, t1), Intersection::new(id, t2)];
            assert(xs@ =~= seq![
                Intersection { object_id: id, distance: t1 },
                Intersection { object_id: id, distance: t2 },
            ]);
            xs
        } else {
            let xs = vec![Intersection::new(id, t2), Intersection::new(id, t1)];
            assert(xs@ =~= seq![
                Intersection { object_id: id, distance: t2 },
                Intersection { object_id: id, distance: t1 },
            ]);
            xs
        }
    }

    /// Where a ray of the sphere's own space meets it.
    pub fn local_intersect(&self, local_ray: &Ray) -> (xs: Vec<Intersection>)
        ensures
            xs@ == self.spec_local_intersect(*local_ray),
            xs@.len() <= 2,
            forall|i: int| 0 <= i < xs@.len() ==> (#[trigger] xs@[i]).object_id == self.id,
    {
        let sphere_to_ray = subtract_tuple(&local_ray.origin, &self.center);
        let a = vector_dot_product(&local_ray.direction, &local_ray.direction);
        let b = Scalar::two().mul(vector_dot_product(&local_ray.direction, &sphere_to_ray));
        let c = vector_dot_product(&sphere_to_ray, &sphere_to_ray).sub(self.radius);
        let discriminant = b.mul(b).sub(Scalar::four().mul(a).mul(c));
        let sqrt_discriminant = discriminant.sqrt();
        let two_a = Scalar::two().mul(a);
        let t1 = b.neg().sub(sqrt_discriminant).div(two_a);
        let t2 = b.neg().add(sqrt_discriminant).div(two_a);
        Sphere::roots_to_intersections(self.id, discriminant, t1, t2)
    }

    pub fn local_normal_at(&self, local_point: &Tuple) -> (n: Tuple)
        ensures
            n == self.spec_local_normal_at(*local_point),
    {
        subtract_tuple(local_point, &point_zero())
    }

    /// The normal of the surface at a point of the world, of length one.
    pub fn normal_at(&self, p: &Tuple) -> (n: Tuple)
        requires
            self.transform.wf(),
        ensures
            n == self.spec_normal_at(*p),
    {
        let local_point = point_to_object(&self.transform, p);
        let local_normal = self.local_normal_at(&local_point);
        normal_to_world(&self.transform, &local_normal)
    }

    /// Where a ray of the world meets the sphere, the nearer intersection
    /// first.
    pub fn intersect(&self, ray: &Ray) -> (xs: Vec<Intersection>)
        requires
            self.transform.wf(),
        ensures
            xs@ == self.spec_intersect(*ray),
            forall|i: int| 0 <= i < xs@.len() ==> (#[trigger] xs@[i]).object_id == self.id,
    {
        let local_ray = ray.transform(&self.transform.inverse);
        self.local_intersect(&local_ray)
    }
}

} // verus!
