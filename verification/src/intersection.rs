//! Intersections of a ray with shapes, the hit among them, and what shading
//! needs to know of one.

use vstd::prelude::*;
use crate::ray::Ray;
use crate::scalar::{lemma_order_total, lemma_order_transitive, Scalar};
use crate::tuple::{
    add_tuple, negate_tuple, scale_tuple, spec_add_tuple, spec_negate_tuple, spec_scale_tuple,
    spec_vector_dot_product, vector_dot_product, Tuple,
};
use crate::world::World;

verus! {

/// A shape, by its identity, and the distance along the ray at which the
/// ray meets it. The distance is negative behind the origin of the ray.
#[derive(Debug, PartialEq, Clone, Copy)]
pub struct Intersection {
    pub object_id: usize,
    pub distance: Scalar,
}

/// What shading needs to know of an intersection.
#[derive(Debug, Clone, Copy)]
pub struct PreparedComputations {
    pub object_id: usize,
    pub intersection_distance: Scalar,
    /// The point of the world at which the ray meets the shape.
    pub point: Tuple,
    /// The point, lifted off the surface along the normal.
    pub over_point: Tuple,
    /// The normal of the surface, on the side of the eye.
    pub normalv: Tuple,
    /// The direction towards the eye.
    pub eyev: Tuple,
    /// Whether the ray started inside the shape.
    pub inside: bool,
}

/// Whether every distance is a number.
pub open spec fn spec_all_numbers(xs: Seq<Intersection>) -> bool {
    forall|i: int| 0 <= i < xs.len() ==> !(#[trigger] xs[i]).distance.spec_is_nan()
}

/// Whether every distance is greater than zero.
pub open spec fn spec_all_positive(xs: Seq<Intersection>) -> bool {
    forall|i: int| 0 <= i < xs.len() ==> (#[trigger] xs[i]).distance.spec_is_positive()
}

/// Whether the distances ascend.
pub open spec fn spec_ascending(xs: Seq<Intersection>) -> bool {
    forall|i: int, j: int|
        0 <= i <= j < xs.len() ==> (#[trigger] xs[i]).distance.spec_le((#[trigger] xs[j]).distance)
}

/// The intersection at `i` is the hit: its distance is positive, no
/// positive distance is smaller, and of those with the same distance it is
/// the last.
pub open spec fn spec_is_hit(xs: Seq<Intersection>, i: int) -> bool {
    &&& 0 <= i < xs.len()
    &&& xs[i].distance.spec_is_positive()
    &&& forall|j: int|
        0 <= j < xs.len() && (#[trigger] xs[j]).distance.spec_is_positive()
            ==> xs[i].distance.spec_le(xs[j].distance)
    &&& forall|j: int|
        i < j < xs.len() && (#[trigger] xs[j]).distance.spec_is_positive()
            ==> xs[i].distance.spec_lt(xs[j].distance)
}

/// `x` put into `t` behind every intersection that is not farther than it.
pub open spec fn spec_insert(t: Seq<Intersection>, x: Intersection) -> Seq<Intersection>
    decreases t.len(),
{
    if t.len() > 0 && t.last().distance.spec_gt(x.distance) {
        spec_insert(t.drop_last(), x).push(t.last())
    } else {
        t.push(x)
    }
}

/// The intersections in ascending order of distance; those of one distance
/// stay in the order in which they came.
pub open spec fn spec_sort(xs: Seq<Intersection>) -> Seq<Intersection>
    decreases xs.len(),
{
    if xs.len() == 0 {
        xs
    } else {
        spec_insert(spec_sort(xs.drop_last()), xs.last())
    }
}

/// The intersections at the distance `d`, in their order.
pub open spec fn spec_at_distance(xs: Seq<Intersection>, d: Scalar) -> Seq<Intersection> {
    xs.filter(|x: Intersection| x.distance.spec_same(d))
}

/// The intersections with a positive distance, in their order.
pub open spec fn spec_positive(xs: Seq<Intersection>) -> Seq<Intersection> {
    xs.filter(|x: Intersection| x.distance.spec_is_positive())
}

/// Whether a normal points away from the eye, by the cosine of the angle
/// between them.
pub open spec fn spec_points_away(normal_dot_eye: Scalar) -> bool {
    normal_dot_eye.spec_lt(Scalar::spec_zero())
}

/// The normal, or its opposite where it points away from the eye.
pub open spec fn spec_turn_normal(normal: Tuple, normal_dot_eye: Scalar) -> Tuple {
    if spec_points_away(normal_dot_eye) {
        spec_negate_tuple(normal)
    } else {
        normal
    }
}

/// Whether a normal points away from the eye.
pub open spec fn spec_faces_away(normal: Tuple, eyev: Tuple) -> bool {
    spec_points_away(spec_vector_dot_product(normal, eyev))
}

/// The normal on the side of the eye: the normal itself, or its opposite
/// where it points away from the eye.
pub open spec fn spec_orient_normal(normal: Tuple, eyev: Tuple) -> Tuple {
    spec_turn_normal(normal, spec_vector_dot_product(normal, eyev))
}

/// Whether the eye is inside the shape, and the normal on the side of the
/// eye, by the cosine of the angle between normal and eye.
pub fn turn_normal(normal: &Tuple, normal_dot_eye: Scalar) -> (r: (bool, Tuple))
    ensures
        r.0 == spec_points_away(normal_dot_eye),
        r.1 == spec_turn_normal(*normal, normal_dot_eye),
{
    if normal_dot_eye.lt(Scalar::zero()) {
        (true, negate_tuple(normal))
    } else {
        (false, *normal)
    }
}

/// Whether the eye is inside the shape, and the normal on the side of the
/// eye.
pub fn orient_normal(normal: &Tuple, eyev: &Tuple) -> (r: (bool, Tuple))
    ensures
        r.0 == spec_faces_away(*normal, *eyev),
        r.1 == spec_orient_normal(*normal, *eyev),
{
    turn_normal(normal, vector_dot_product(normal, eyev))
}

impl Intersection {
    /// What shading needs to know of an intersection of the ray with a
    /// shape of the world: the point, the direction to the eye, the normal
    /// on the side of the eye, whether the eye is inside the shape, and the
    /// point lifted off the surface by the tolerance.
    pub open spec fn spec_prepare_computations(
        intersection: Intersection,
        ray: Ray,
        world: &World,
    ) -> PreparedComputations {
        let point = ray.spec_position_at(intersection.distance);
        let eyev = spec_negate_tuple(ray.direction);
        let normal = world.spec_object(intersection.object_id).spec_normal_at(point);
        let normalv = spec_orient_normal(normal, eyev);
        PreparedComputations {
            object_id: intersection.object_id,
            intersection_distance: intersection.distance,
            point,
            over_point: spec_add_tuple(point, spec_scale_tuple(normalv, Scalar::spec_epsilon())),
            normalv,
            eyev,
            inside: spec_faces_away(normal, eyev),
        }
    }

    /// Prepares the shading of an intersection with a shape of the world.
    pub fn prepare_computations(intersection: &Intersection, ray: &Ray, world: &World) -> (comps:
        PreparedComputations)
        requires
            world.wf(),
            world.spec_has_object(intersection.object_id),
        ensures
            comps == Intersection::spec_prepare_computations(*intersection, *ray, world),
            comps.object_id == intersection.object_id,
    {
        let (object_id, intersection_distance) = intersection.tupled();
        let point = ray.position_at(intersection_distance);
        let shape = world.object(object_id);
        let eyev = negate_tuple(&ray.direction);
        let normal = shape.normal_at(&point);
        let (inside, normalv) = orient_normal(&normal, &eyev);
        let over_point = add_tuple(&point, &scale_tuple(&normalv, Scalar::epsilon()));
        PreparedComputations {
            object_id,
            intersection_distance,
            point,
            over_point,
            normalv,
            eyev,
            inside,
        }
    }

    pub fn new(object_id: usize, distance: Scalar) -> (i: Intersection)
        ensures
            i == (Intersection { object_id, distance }),
    {
        Intersection { object_id, distance }
    }

    pub fn tupled(&self) -> (t: (usize, Scalar))
        ensures
            t == (self.object_id, self.distance),
    {
        (self.object_id, self.distance)
    }

    /// The visible intersection: among those with a positive distance the
    /// nearest, and of several nearest ones the last. There is none where no
    /// distance is positive.
    pub fn hit(intersections: Vec<Intersection>) -> (h: Option<(usize, Scalar)>)
        ensures
            h.is_none() <==> forall|j: int|
                0 <= j < intersections@.len() ==> !(#[trigger] intersections@[j])
                    .distance.spec_is_positive(),
            h.is_some() ==> exists|i: int|
                spec_is_hit(intersections@, i) && h.unwrap() == (
                    (#[trigger] intersections@[i]).object_id,
                    intersections@[i].distance,
                ),
    {
        let mut best: Option<(usize, Scalar)> = None;
        let ghost mut at: int = -1;
        let mut index: usize = 0;
        while index < intersections.len()
            invariant
                index <= intersections@.len(),
                best.is_none() <==> at == -1,
                best.is_none() ==> forall|j: int|
                    0 <= j < index ==> !(#[trigger] intersections@[j]).distance.spec_is_positive(),
                best.is_some() ==> {
                    &&& spec_is_hit(intersections@.take(index as int), at)
                    &&& best.unwrap() == (intersections@[at].object_id, intersections@[at].distance)
                },
            decreases intersections@.len() - index,
        {
            let candidate = intersections[index];
            let ghost before = intersections@.take(index as int);
            let ghost after = intersections@.take(index + 1);
            proof {
                assert forall|j: int| 0 <= j < index implies #[trigger] after[j] == before[j] by {}
                assert(after[index as int] == candidate);
            }
            if candidate.distance.is_positive() {
                let nearer = match best {
                    None => true,
                    Some((_, d)) => candidate.distance.le(d),
                };
                if nearer {
                    proof {
                        assert forall|j: int|
                            0 <= j < after.len() && (#[trigger] after[j])
                                .distance.spec_is_positive() implies candidate.distance.spec_le(
                            after[j].distance,
                        ) by {
                            if j < index {
                                lemma_order_transitive(
                                    candidate.distance,
                                    before[at].distance,
                                    before[j].distance,
                                );
                            }
                        }
                    }
                    best = Some((candidate.object_id, candidate.distance));
                    proof {
                        at = index as int;
                    }
                } else {
                    proof {
                        lemma_order_total(candidate.distance, before[at].distance);
                    }
                }
            }
            index += 1;
        }
        proof {
            assert(intersections@.take(index as int) =~= intersections@);
        }
        best
    }
}

/// Where `x` goes: behind the last intersection that is not farther.
pub proof fn lemma_insert_position(t: Seq<Intersection>, x: Intersection, p: int)
    requires
        0 <= p <= t.len(),
        forall|j: int| p <= j < t.len() ==> (#[trigger] t[j]).distance.spec_gt(x.distance),
        p > 0 ==> !t[p - 1].distance.spec_gt(x.distance),
    ensures
        spec_insert(t, x) == t.insert(p, x),
    decreases t.len() - p,
{
    if p == t.len() {
        assert(t.push(x) =~= t.insert(p, x));
    } else {
        let front = t.drop_last();
        assert forall|j: int| p <= j < front.len() implies (#[trigger] front[j]).distance.spec_gt(
            x.distance,
        ) by {
            assert(front[j] == t[j]);
        }
        lemma_insert_position(front, x, p);
        assert(front.insert(p, x).push(t.last()) =~= t.insert(p, x));
    }
}

/// Inserting into ascending distances keeps them ascending and adds just
/// the one intersection.
pub proof fn lemma_insert_ascending(t: Seq<Intersection>, x: Intersection)
    requires
        spec_ascending(t),
        spec_all_numbers(t),
        !x.distance.spec_is_nan(),
    ensures
        spec_ascending(spec_insert(t, x)),
        spec_all_numbers(spec_insert(t, x)),
        spec_insert(t, x).len() == t.len() + 1,
        spec_insert(t, x).to_multiset() == t.to_multiset().insert(x),
        forall|k: int|
            0 <= k < spec_insert(t, x).len() ==> (#[trigger] spec_insert(t, x)[k]) == x
                || t.contains(spec_insert(t, x)[k]),
    decreases t.len(),
{
    broadcast use vstd::seq_lib::group_to_multiset_ensures;

    let r = spec_insert(t, x);
    if t.len() > 0 && t.last().distance.spec_gt(x.distance) {
        let front = t.drop_last();
        let last = t.last();
        assert forall|i: int| 0 <= i < front.len() implies front[i] == t[i] by {}
        lemma_insert_ascending(front, x);
        let inner = spec_insert(front, x);
        assert(r == inner.push(last));
        assert forall|k: int| 0 <= k < r.len() implies (#[trigger] r[k]) == x || t.contains(
            r[k],
        ) by {
            if k < inner.len() {
                assert(r[k] == inner[k]);
                if inner[k] != x {
                    assert(front.contains(inner[k]));
                    let j = choose|j: int| 0 <= j < front.len() && front[j] == inner[k];
                    assert(t[j] == inner[k]);
                }
            } else {
                assert(r[k] == t[t.len() - 1]);
            }
        }
        assert forall|i: int, j: int| 0 <= i <= j < r.len() implies (#[trigger] r[i])
            .distance.spec_le((#[trigger] r[j]).distance) by {
            if j < inner.len() {
                assert(r[i] == inner[i] && r[j] == inner[j]);
            } else if i < inner.len() {
                assert(r[i] == inner[i]);
                if inner[i] == x {
                } else {
                    assert(front.contains(inner[i]));
                    let k = choose|k: int| 0 <= k < front.len() && front[k] == inner[i];
                    assert(t[k] == inner[i]);
                    assert(t[k].distance.spec_le(t[t.len() - 1].distance));
                }
            } else {
                assert(r[i] == last);
            }
        }
        assert(t =~= front.push(last));
        assert(r.to_multiset() =~= t.to_multiset().insert(x));
    } else {
        assert forall|i: int, j: int| 0 <= i <= j < r.len() implies (#[trigger] r[i])
            .distance.spec_le((#[trigger] r[j]).distance) by {
            if j < t.len() {
                assert(r[i] == t[i] && r[j] == t[j]);
            } else if i < t.len() {
                assert(r[i] == t[i]);
                assert(t[i].distance.spec_le(t[t.len() - 1].distance));
                lemma_order_total(t[t.len() - 1].distance, x.distance);
                lemma_order_transitive(t[i].distance, t[t.len() - 1].distance, x.distance);
            } else {
                lemma_order_total(x.distance, x.distance);
            }
        }
        assert forall|k: int| 0 <= k < r.len() implies (#[trigger] r[k]) == x || t.contains(
            r[k],
        ) by {
            if k < t.len() {
                assert(r[k] == t[k]);
            }
        }
    }
}

/// Inserting an intersection leaves the intersections at every other
/// distance as they were and puts it behind those at its own distance.
pub proof fn lemma_insert_stable(t: Seq<Intersection>, x: Intersection, d: Scalar)
    ensures
        spec_at_distance(spec_insert(t, x), d) == (if x.distance.spec_same(d) {
            spec_at_distance(t, d).push(x)
        } else {
            spec_at_distance(t, d)
        }),
    decreases t.len(),
{
    reveal(Seq::filter);
    let same = |y: Intersection| y.distance.spec_same(d);
    if t.len() > 0 && t.last().distance.spec_gt(x.distance) {
        let front = t.drop_last();
        lemma_insert_stable(front, x, d);
        let inner = spec_insert(front, x);
        assert(inner.push(t.last()).drop_last() =~= inner);
        assert(t.drop_last() =~= front);
    } else {
        assert(t.push(x).drop_last() =~= t);
    }
}

/// Sorting is stable: the intersections at any one distance come out in
/// the order in which they went in.
pub proof fn lemma_sort_stable(xs: Seq<Intersection>, d: Scalar)
    ensures
        spec_at_distance(spec_sort(xs), d) == spec_at_distance(xs, d),
    decreases xs.len(),
{
    reveal(Seq::filter);
    if xs.len() > 0 {
        lemma_sort_stable(xs.drop_last(), d);
        lemma_insert_stable(spec_sort(xs.drop_last()), xs.last(), d);
    }
}

/// Sorting intersections whose distances are numbers puts the distances in
/// ascending order and neither adds nor loses an intersection.
pub proof fn lemma_sort(xs: Seq<Intersection>)
    requires
        spec_all_numbers(xs),
    ensures
        spec_ascending(spec_sort(xs)),
        spec_all_numbers(spec_sort(xs)),
        spec_sort(xs).len() == xs.len(),
        spec_sort(xs).to_multiset() == xs.to_multiset(),
        forall|k: int| 0 <= k < xs.len() ==> xs.contains(#[trigger] spec_sort(xs)[k]),
    decreases xs.len(),
{
    broadcast use vstd::seq_lib::group_to_multiset_ensures;

    if xs.len() > 0 {
        let front = xs.drop_last();
        assert forall|i: int| 0 <= i < front.len() implies front[i] == xs[i] by {}
        lemma_sort(front);
        lemma_insert_ascending(spec_sort(front), xs.last());
        assert(xs =~= front.push(xs.last()));
        let r = spec_sort(xs);
        assert forall|k: int| 0 <= k < xs.len() implies xs.contains(#[trigger] r[k]) by {
            if r[k] == xs.last() {
                assert(xs[xs.len() - 1] == r[k]);
            } else {
                assert(spec_sort(front).contains(r[k]));
                let j = choose|j: int|
                    0 <= j < spec_sort(front).len() && spec_sort(front)[j] == r[k];
                assert(front.contains(spec_sort(front)[j]));
                let i = choose|i: int| 0 <= i < front.len() && front[i] == r[k];
                assert(xs[i] == r[k]);
            }
        }
    }
}

/// Puts one intersection into a list behind every intersection that is not
/// farther than it.
pub fn insert_by_distance(sorted: &mut Vec<Intersection>, x: Intersection)
    ensures
        final(sorted)@ == spec_insert(old(sorted)@, x),
{
    let mut p: usize = sorted.len();
    while p > 0 && sorted[p - 1].distance.gt(x.distance)
        invariant
            p <= sorted@.len(),
            sorted@ == old(sorted)@,
            forall|j: int| p <= j < sorted@.len() ==> (#[trigger] sorted@[j]).distance.spec_gt(
                x.distance,
            ),
        decreases p,
    {
        p -= 1;
    }
    proof {
        lemma_insert_position(sorted@, x, p as int);
    }
    sorted.insert(p, x);
}

/// The intersections in ascending order of distance; those of one distance
/// stay in the order in which they came.
pub fn sort_by_distance(intersections: Vec<Intersection>) -> (sorted: Vec<Intersection>)
    ensures
        sorted@ == spec_sort(intersections@),
        forall|d: Scalar|
            #[trigger] spec_at_distance(sorted@, d) == spec_at_distance(intersections@, d),
        spec_all_numbers(intersections@) ==> spec_ascending(sorted@) && sorted@.to_multiset()
            == intersections@.to_multiset(),
{
    let mut sorted: Vec<Intersection> = Vec::with_capacity(intersections.len());
    let mut index: usize = 0;
    while index < intersections.len()
        invariant
            index <= intersections@.len(),
            sorted@ == spec_sort(intersections@.take(index as int)),
        decreases intersections@.len() - index,
    {
        proof {
            let next = intersections@.take(index + 1);
            assert(next.drop_last() =~= intersections@.take(index as int));
            assert(next.last() == intersections@[index as int]);
        }
        insert_by_distance(&mut sorted, intersections[index]);
        index += 1;
    }
    proof {
        assert(intersections@.take(index as int) =~= intersections@);
        assert forall|d: Scalar| #[trigger]
            spec_at_distance(sorted@, d) == spec_at_distance(intersections@, d) by {
            lemma_sort_stable(intersections@, d);
        }
        if spec_all_numbers(intersections@) {
            lemma_sort(intersections@);
        }
    }
    sorted
}

} // verus!
