//! The world: shapes and lights, and what a ray sees of them.

use vstd::prelude::*;
use crate::color::Color;
use crate::intersection::{
    lemma_sort, sort_by_distance, spec_all_positive, spec_ascending, spec_at_distance,
    spec_positive, spec_sort, Intersection, PreparedComputations,
};
use crate::light::Light;
use crate::material::Material;
use crate::matrix::{Matrix, MatrixModel};
use crate::ray::Ray;
use crate::scalar::{lemma_order_transitive, Scalar};
use crate::shape::Shape;
use crate::sphere::Sphere;
use crate::tuple::{
    point, spec_point, spec_point_zero, spec_subtract_tuple, spec_vector_magnitude, spec_vector_normalize,
    subtract_tuple, vector_magnitude, vector_normalize, Tuple,
};

verus! {

/// The shapes of a scene, in the order in which they were added, and its
/// lights.
pub struct World {
    pub lights: Vec<Light>,
    pub objects: Vec<Shape>,
}

impl World {
    /// Every shape is well formed.
    pub open spec fn wf(&self) -> bool {
        forall|i: int| 0 <= i < self.objects@.len() ==> (#[trigger] self.objects@[i]).wf()
    }

    /// Whether a shape of the world has the identity.
    pub open spec fn spec_has_object(&self, id: usize) -> bool {
        exists|i: int| 0 <= i < self.objects@.len() && (#[trigger] self.objects@[i]).spec_id() == id
    }

    /// Whether the shape at `i` is the first that has the identity.
    pub open spec fn spec_is_first(&self, id: usize, i: int) -> bool {
        &&& 0 <= i < self.objects@.len()
        &&& self.objects@[i].spec_id() == id
        &&& forall|j: int| 0 <= j < i ==> (#[trigger] self.objects@[j]).spec_id() != id
    }

    /// The first shape that has the identity.
    pub open spec fn spec_object(&self, id: usize) -> Shape {
        self.objects@[choose|i: int| self.spec_is_first(id, i)]
    }

    /// The intersections of the ray with the first `n` shapes, shape after
    /// shape.
    pub open spec fn spec_gather(&self, ray: Ray, n: int) -> Seq<Intersection>
        decreases n,
    {
        if n <= 0 {
            Seq::empty()
        } else {
            self.spec_gather(ray, n - 1) + self.objects@[n - 1].spec_intersect(ray)
        }
    }

    /// The intersections of the ray with all shapes that lie ahead of its
    /// origin, nearest first; those at one distance in the order of their
    /// shapes.
    pub open spec fn spec_intersect_with_ray(&self, ray: Ray) -> Seq<Intersection> {
        spec_sort(spec_positive(self.spec_gather(ray, self.objects@.len() as int)))
    }

    /// The ray from a point towards a light.
    pub open spec fn spec_shadow_ray(point: Tuple, light: Light) -> Ray {
        Ray {
            origin: point,
            direction: spec_vector_normalize(spec_subtract_tuple(light.position, point)),
        }
    }

    /// The distance from a point to a light.
    pub open spec fn spec_light_distance(point: Tuple, light: Light) -> Scalar {
        spec_vector_magnitude(spec_subtract_tuple(light.position, point))
    }

    /// Whether a shape stands between the point and the light: the ray from
    /// the point towards the light meets a shape ahead of the point and
    /// nearer than the light.
    pub open spec fn spec_is_shadowed(&self, point: Tuple, light: Light) -> bool {
        let xs = self.spec_intersect_with_ray(World::spec_shadow_ray(point, light));
        exists|k: int|
            0 <= k < xs.len() && (#[trigger] xs[k]).distance.spec_lt(
                World::spec_light_distance(point, light),
            )
    }

    /// What one light adds to the colour of a prepared intersection.
    pub open spec fn spec_light_share(&self, comps: PreparedComputations, light: Light) -> Color {
        let shape = self.spec_object(comps.object_id);
        light.spec_lighting(
            shape.spec_material(),
            shape.spec_transform().inverse@,
            comps.over_point,
            comps.eyev,
            comps.normalv,
            self.spec_is_shadowed(comps.over_point, light),
        )
    }

    /// The shares of the first `n` lights, added to black from the left.
    pub open spec fn spec_shade(&self, comps: PreparedComputations, n: int) -> Color
        decreases n,
    {
        if n <= 0 {
            Color::spec_black()
        } else {
            self.spec_shade(comps, n - 1).spec_add(
                self.spec_light_share(comps, self.lights@[n - 1]),
            )
        }
    }

    /// The colour of a prepared intersection: the sum of what every light
    /// adds, black where there is no light.
    pub open spec fn spec_shade_hit(&self, comps: PreparedComputations) -> Color {
        self.spec_shade(comps, self.lights@.len() as int)
    }

    /// The colour that a ray sees: black where it meets nothing ahead, else
    /// the colour of the nearest intersection.
    pub open spec fn spec_color_at(&self, ray: Ray) -> Color {
        let xs = self.spec_intersect_with_ray(ray);
        if xs.len() == 0 {
            Color::spec_black()
        } else {
            self.spec_shade_hit(Intersection::spec_prepare_computations(xs[0], ray, self))
        }
    }

    pub fn empty() -> (w: World)
        ensures
            w.lights@.len() == 0,
            w.objects@.len() == 0,
            w.wf(),
    {
        World { lights: Vec::new(), objects: Vec::new() }
    }

    /// The world with one more shape, behind the others.
    pub fn add_object(self, object: Shape) -> (w: World)
        ensures
            w.objects@ == self.objects@.push(object),
            w.lights@ == self.lights@,
            self.wf() && object.wf() ==> w.wf(),
    {
        let mut objects = self.objects;
        objects.push(object);
        World { lights: self.lights, objects }
    }

    /// The world with the one light in place of its lights.
    pub fn set_light(self, light: Light) -> (w: World)
        ensures
            w.lights@ == seq![light],
            w.objects@ == self.objects@,
            self.wf() ==> w.wf(),
    {
        let lights = vec![light];
        assert(lights@ =~= seq![light]);
        World { lights, objects: self.objects }
    }

    /// The world with other lights.
    pub fn set_lights(self, lights: Vec<Light>) -> (w: World)
        ensures
            w.lights@ == lights@,
            w.objects@ == self.objects@,
            self.wf() ==> w.wf(),
    {
        World { lights, objects: self.objects }
    }

    /// The light of the default world: white, at `(-10, 10, -10)`.
    pub open spec fn spec_default_light() -> Light {
        let ten = Scalar::spec_from_int(10);
        Light {
            position: spec_point(ten.spec_neg(), ten, ten.spec_neg()),
            intensity: Color::spec_white(),
        }
    }

    /// The scaling of the inner sphere of the default world: by one half.
    pub open spec fn spec_default_scaling() -> MatrixModel {
        MatrixModel::scaling(Scalar::spec_half(), Scalar::spec_half(), Scalar::spec_half())
    }

    /// The default world: one white light at `(-10, 10, -10)` and two
    /// spheres around the origin, the first with identity 1 and a greenish
    /// material, the second with identity 2, scaled by one half. There is
    /// none should the scaling have no inverse.
    pub fn default() -> (r: Option<World>)
        ensures
            r.is_some() == World::spec_default_scaling().invertible(),
            r matches Some(w) ==> {
                &&& w.wf()
                &&& w.lights@ == seq![World::spec_default_light()]
                &&& w.objects@.len() == 2
                &&& w.objects@[0] matches Shape::Sphere(outer) && outer.id == 1 && outer.center
                    == spec_point_zero() && outer.radius == Scalar::spec_one()
                    && outer.transform.is_identity() && outer.material.spec_is_plain(
                    Color::spec_make(
                        Scalar::spec_ratio(8, 10),
                        Scalar::spec_one(),
                        Scalar::spec_ratio(6, 10),
                    ),
                    Scalar::spec_ratio(7, 10),
                    Scalar::spec_ratio(2, 10),
                )
                &&& w.objects@[1] matches Shape::Sphere(inner) && inner.id == 2 && inner.center
                    == spec_point_zero() && inner.radius == Scalar::spec_half()
                    && inner.transform.made_from(World::spec_default_scaling())
                    && inner.material.spec_is_plain(
                    Color::spec_white(),
                    Scalar::spec_ratio(9, 10),
                    Scalar::spec_ratio(9, 10),
                )
            },
    {
        let ten = Scalar::from_int(10);
        let light = Light::point_light(point(ten.neg(), ten, ten.neg()), Color::white());
        let outer = Sphere::new(1).set_radius(Scalar::one()).set_material(
            Material::new(
                Color::make(Scalar::ratio(8, 10), Scalar::one(), Scalar::ratio(6, 10)),
                Scalar::ratio(7, 10),
                Scalar::ratio(2, 10),
            ),
        );
        let scaling = Matrix::scaling(Scalar::half(), Scalar::half(), Scalar::half());
        match Sphere::new(2).set_radius(Scalar::half()).try_set_transform(scaling) {
            Ok(inner) => {
                let lights = vec![light];
                let objects = vec![Shape::Sphere(outer), Shape::Sphere(inner)];
                assert(lights@ =~= seq![World::spec_default_light()]);
                Some(World { lights, objects })
            },
            Err(_) => None,
        }
    }

    /// The first shape with the given identity.
    pub fn object(&self, id: usize) -> (shape: &Shape)
        requires
            self.spec_has_object(id),
        ensures
            *shape == self.spec_object(id),
            shape.spec_id() == id,
            self.objects@.contains(*shape),
    {
        let count = self.objects.len();
        let mut index: usize = 0;
        while self.objects[index].id() != id
            invariant
                count == self.objects@.len(),
                0 <= index < self.objects@.len(),
                forall|j: int| 0 <= j < index ==> (#[trigger] self.objects@[j]).spec_id() != id,
                self.spec_has_object(id),
            decreases self.objects@.len() - index,
        {
            proof {
                let i = choose|i: int|
                    0 <= i < self.objects@.len() && (#[trigger] self.objects@[i]).spec_id() == id;
                assert(i > index);
            }
            index += 1;
        }
        proof {
            assert(self.spec_is_first(id, index as int));
            let chosen = choose|i: int| self.spec_is_first(id, i);
            assert(self.spec_is_first(id, chosen));
            assert(chosen == index);
        }
        &self.objects[index]
    }

    /// The intersections of the ray with all shapes that lie ahead of its
    /// origin, nearest first; those at one distance in the order of their
    /// shapes.
    pub fn intersect_with_ray(&self, ray: &Ray) -> (xs: Vec<Intersection>)
        requires
            self.wf(),
        ensures
            xs@ == self.spec_intersect_with_ray(*ray),
            spec_ascending(xs@),
            spec_all_positive(xs@),
            xs@.to_multiset() == spec_positive(
                self.spec_gather(*ray, self.objects@.len() as int),
            ).to_multiset(),
            forall|d: Scalar| #[trigger]
                spec_at_distance(xs@, d) == spec_at_distance(
                    spec_positive(self.spec_gather(*ray, self.objects@.len() as int)),
                    d,
                ),
            forall|k: int| 0 <= k < xs@.len() ==> self.spec_has_object((#[trigger] xs@[k]).object_id),
    {
        let mut collected: Vec<Intersection> = Vec::new();
        let mut index: usize = 0;
        let ghost positive = |x: Intersection| x.distance.spec_is_positive();
        proof {
            reveal(Seq::filter);
            assert(self.spec_gather(*ray, 0).filter(positive) =~= Seq::empty());
        }
        while index < self.objects.len()
            invariant
                self.wf(),
                index <= self.objects@.len(),
                positive == |x: Intersection| x.distance.spec_is_positive(),
                collected@ == self.spec_gather(*ray, index as int).filter(positive),
                spec_all_positive(collected@),
                forall|k: int|
                    0 <= k < collected@.len() ==> self.spec_has_object(
                        (#[trigger] collected@[k]).object_id,
                    ),
            decreases self.objects@.len() - index,
        {
            let found = self.objects[index].intersect(ray);
            let ghost before = collected@;
            let mut inner: usize = 0;
            proof {
                reveal(Seq::filter);
                assert(found@.take(0).filter(positive) =~= Seq::empty());
                assert(before + found@.take(0).filter(positive) =~= before);
            }
            while inner < found.len()
                invariant
                    inner <= found@.len(),
                    index < self.objects@.len(),
                    positive == |x: Intersection| x.distance.spec_is_positive(),
                    collected@ == before + found@.take(inner as int).filter(positive),
                    spec_all_positive(collected@),
                    forall|i: int|
                        0 <= i < found@.len() ==> (#[trigger] found@[i]).object_id
                            == self.objects@[index as int].spec_id(),
                    forall|k: int|
                        0 <= k < collected@.len() ==> self.spec_has_object(
                            (#[trigger] collected@[k]).object_id,
                        ),
                decreases found@.len() - inner,
            {
                let x = found[inner];
                proof {
                    reveal(Seq::filter);
                    let next = found@.take(inner + 1);
                    assert(next.drop_last() =~= found@.take(inner as int));
                    assert(next.last() == x);
                    if positive(x) {
                        assert(before + found@.take(inner as int).filter(positive).push(x) =~= (
                        before + found@.take(inner as int).filter(positive)).push(x));
                    }
                }
                if x.distance.is_positive() {
                    collected.push(x);
                }
                inner += 1;
            }
            proof {
                assert(found@.take(inner as int) =~= found@);
                Seq::filter_distributes_over_add(
                    self.spec_gather(*ray, index as int),
                    found@,
                    positive,
                );
            }
            index += 1;
        }
        proof {
            lemma_sort(collected@);
            let sorted = spec_sort(collected@);
            assert forall|k: int| 0 <= k < sorted.len() implies (#[trigger] sorted[k])
                .distance.spec_is_positive() && self.spec_has_object(sorted[k].object_id) by {
                assert(collected@.contains(sorted[k]));
            }
        }
        sort_by_distance(collected)
    }

    /// The colour of a prepared intersection: the sum of what every light
    /// adds.
    pub fn shade_hit(&self, comps: &PreparedComputations) -> (c: Color)
        requires
            self.wf(),
            self.lights@.len() > 0 ==> self.spec_has_object(comps.object_id),
        ensures
            c == self.spec_shade_hit(*comps),
            self.lights@.len() == 0 ==> c == Color::spec_black(),
    {
        if self.lights.len() == 0 {
            Color::black()
        } else {
            let shape = self.object(comps.object_id);
            let mut total = Color::black();
            let mut index: usize = 0;
            while index < self.lights.len()
                invariant
                    self.wf(),
                    index <= self.lights@.len(),
                    *shape == self.spec_object(comps.object_id),
                    shape.wf(),
                    total == self.spec_shade(*comps, index as int),
                decreases self.lights@.len() - index,
            {
                let light = &self.lights[index];
                let share = light.lighting(
                    shape.material(),
                    shape.transform(),
                    &comps.over_point,
                    &comps.eyev,
                    &comps.normalv,
                    self.is_shadowed(&comps.over_point, light),
                );
                total = total.add(&share);
                index += 1;
            }
            total
        }
    }

    /// The colour that a ray sees.
    pub fn color_at(&self, ray: &Ray) -> (c: Color)
        requires
            self.wf(),
        ensures
            c == self.spec_color_at(*ray),
            self.spec_intersect_with_ray(*ray).len() == 0 ==> c == Color::spec_black(),
    {
        let intersections = self.intersect_with_ray(ray);
        if intersections.len() == 0 {
            Color::black()
        } else {
            let comps = Intersection::prepare_computations(&intersections[0], ray, self);
            self.shade_hit(&comps)
        }
    }

    /// Whether a shape stands between the point and the light.
    pub fn is_shadowed(&self, point: &Tuple, light: &Light) -> (shadowed: bool)
        requires
            self.wf(),
        ensures
            shadowed == self.spec_is_shadowed(*point, *light),
    {
        let v = subtract_tuple(&light.position, point);
        let distance = vector_magnitude(&v);
        let direction = vector_normalize(&v);
        let r = Ray::new(*point, direction);
        let intersections = self.intersect_with_ray(&r);
        let ghost xs = intersections@;
        let hit = Intersection::hit(intersections);
        match hit {
            Some((_, d)) => {
                let shadowed = d.lt(distance);
                proof {
                    let i = choose|i: int|
                        crate::intersection::spec_is_hit(xs, i) && hit.unwrap() == (
                            (#[trigger] xs[i]).object_id,
                            xs[i].distance,
                        );
                    assert(crate::intersection::spec_is_hit(xs, i));
                    assert(xs[i].distance == d);
                    assert(r == World::spec_shadow_ray(*point, *light));
                    assert(distance == World::spec_light_distance(*point, *light));
                    if !shadowed {
                        assert forall|k: int| 0 <= k < xs.len() implies !(#[trigger] xs[k])
                            .distance.spec_lt(distance) by {
                            if xs[k].distance.spec_lt(distance) {
                                lemma_order_transitive(d, xs[k].distance, distance);
                            }
                        }
                    } else {
                        assert(xs[i].distance.spec_lt(distance));
                    }
                }
                shadowed
            },
            None => {
                proof {
                    assert forall|k: int| 0 <= k < xs.len() implies !(#[trigger] xs[k])
                        .distance.spec_lt(distance) by {
                        assert(xs[k].distance.spec_is_positive());
                    }
                }
                false
            },
        }
    }
}

} // verus!
