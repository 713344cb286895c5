use ray_tracer::intersection::{
    insert_by_distance, orient_normal, sort_by_distance, turn_normal, Intersection,
};
use ray_tracer::matrix::Matrix;
use ray_tracer::ray::Ray;
use ray_tracer::scalar::Scalar;
use ray_tracer::shape::Shape;
use ray_tracer::sphere::Sphere;
use ray_tracer::tuple::{point as lib_point, vector as lib_vector, Tuple};
use ray_tracer::world::World;

fn s(x: f64) -> Scalar {
    Scalar::from_bits(x.to_bits())
}

fn f(x: Scalar) -> f64 {
    f64::from_bits(x.to_bits())
}

fn point(x: f64, y: f64, z: f64) -> Tuple {
    lib_point(s(x), s(y), s(z))
}

fn vector(x: f64, y: f64, z: f64) -> Tuple {
    lib_vector(s(x), s(y), s(z))
}

#[test]
fn hit_when_all_positive() {
    let hits = vec![
        Intersection::new(1, s(1.0)),
        Intersection::new(1, s(2.0)),
        Intersection::new(2, s(3.0)),
    ];
    let tuple = Intersection::hit(hits).unwrap();
    assert_eq!(tuple, (1, s(1.0)))
}

#[test]
fn hit_when_all_some_negative_positive() {
    let hits = vec![
        Intersection::new(1, s(-1.0)),
        Intersection::new(1, s(2.0)),
        Intersection::new(2, s(3.0)),
    ];
    let tuple = Intersection::hit(hits).unwrap();
    assert_eq!(tuple, (1, s(2.0)))
}

#[test]
fn hit_when_all_negative() {
    let hits = vec![
        Intersection::new(1, s(-1.0)),
        Intersection::new(1, s(-2.0)),
        Intersection::new(2, s(-3.0)),
    ];
    let tuple = Intersection::hit(hits);
    assert_eq!(tuple.is_none(), true)
}

#[test]
fn hit_always_lowest_non_negative() {
    let hits = vec![
        Intersection::new(1, s(5.0)),
        Intersection::new(1, s(7.0)),
        Intersection::new(1, s(-3.0)),
        Intersection::new(1, s(2.0)),
    ];
    let tuple = Intersection::hit(hits).unwrap();
    assert_eq!(tuple, (1, s(2.0)))
}

#[test]
fn prepare_computation_for_intersection_outside() {
    let ray = Ray::new(point(0.0, 0.0, -5.0), vector(0.0, 0.0, 1.0));
    let shape = Sphere::new(1);
    let intersection = Intersection::new(1, s(4.0));
    let w = World::empty().add_object(Shape::Sphere(shape));
    let comps = Intersection::prepare_computations(&intersection, &ray, &w);
    assert_eq!(comps.object_id, intersection.object_id);
    assert_eq!(comps.point, point(0.0, 0.0, -1.0));
    assert_eq!(comps.eyev, vector(0.0, 0.0, -1.0));
    assert_eq!(comps.normalv, vector(0.0, 0.0, -1.0));
    assert_eq!(comps.inside, false);
}

#[test]
fn prepare_computation_for_intersection_inside() {
    let ray = Ray::new(point(0.0, 0.0, 0.0), vector(0.0, 0.0, 1.0));
    let shape = Sphere::new(1);
    let intersection = Intersection::new(1, s(1.0));
    let w = World::empty().add_object(Shape::Sphere(shape));
    let comps = Intersection::prepare_computations(&intersection, &ray, &w);
    assert_eq!(comps.object_id, intersection.object_id);
    assert_eq!(comps.point, point(0.0, 0.0, 1.0));
    assert_eq!(comps.eyev, vector(0.0, 0.0, -1.0));
    assert_eq!(comps.normalv, vector(0.0, 0.0, -1.0));
    assert_eq!(comps.inside, true);
}

#[test]
fn the_hit_offset_the_point_to_avoid_self_shadowing() {
    let ray = Ray::new(point(0.0, 0.0, -5.0), vector(0.0, 0.0, 1.0));
    let shape = Sphere::new(1).set_transform(Matrix::translation(s(0.0), s(0.0), s(1.0)));
    let intersection = Intersection::new(1, s(5.0));
    let w = World::empty().add_object(Shape::Sphere(shape));
    let comps = Intersection::prepare_computations(&intersection, &ray, &w);
    assert_eq!(f(comps.over_point.2) < -(f64::EPSILON / 2.0), true);
    assert_eq!(f(comps.point.2) > f(comps.over_point.2), true);
}

#[test]
fn the_point_is_lifted_by_a_millionth() {
    let ray = Ray::new(point(0.0, 0.0, -5.0), vector(0.0, 0.0, 1.0));
    let w = World::empty().add_object(Shape::Sphere(Sphere::new(1)));
    let comps = Intersection::prepare_computations(&Intersection::new(1, s(4.0)), &ray, &w);
    assert_eq!(comps.intersection_distance, s(4.0));
    assert_eq!(comps.over_point, point(0.0, 0.0, -1.0 + -1.0 * 0.000001));
}

#[test]
fn hit_of_no_intersections() {
    assert_eq!(Intersection::hit(Vec::new()), None);
    assert_eq!(Intersection::hit(vec![Intersection::new(1, s(0.0))]), None);
    assert_eq!(Intersection::hit(vec![Intersection::new(1, s(f64::NAN))]), None);
}

#[test]
fn hit_takes_the_last_of_equally_near_intersections() {
    let hits = vec![
        Intersection::new(1, s(3.0)),
        Intersection::new(2, s(2.0)),
        Intersection::new(3, s(2.0)),
        Intersection::new(4, s(9.0)),
    ];
    assert_eq!(Intersection::hit(hits), Some((3, s(2.0))));
}

#[test]
fn an_intersection_as_a_pair() {
    assert_eq!(Intersection::new(4, s(2.5)).tupled(), (4, s(2.5)));
}

#[test]
fn the_normal_is_turned_towards_the_eye() {
    let eye = vector(0.0, 0.0, -1.0);
    assert_eq!(
        orient_normal(&vector(0.0, 0.0, 1.0), &eye),
        (true, vector(0.0, 0.0, -1.0))
    );
    assert_eq!(
        orient_normal(&vector(0.0, 0.0, -1.0), &eye),
        (false, vector(0.0, 0.0, -1.0))
    );
    assert_eq!(
        orient_normal(&vector(1.0, 0.0, 0.0), &eye),
        (false, vector(1.0, 0.0, 0.0))
    );
}

#[test]
fn sorting_is_ascending_and_stable() {
    let xs = vec![
        Intersection::new(1, s(5.0)),
        Intersection::new(2, s(1.0)),
        Intersection::new(3, s(5.0)),
        Intersection::new(4, s(0.5)),
        Intersection::new(5, s(1.0)),
        Intersection::new(6, s(-2.0)),
    ];
    let sorted = sort_by_distance(xs);
    let ids: Vec<usize> = sorted.iter().map(|x| x.object_id).collect();
    assert_eq!(ids, vec![6, 4, 2, 5, 1, 3]);
    let distances: Vec<f64> = sorted.iter().map(|x| f(x.distance)).collect();
    assert_eq!(distances, vec![-2.0, 0.5, 1.0, 1.0, 5.0, 5.0]);
}

#[test]
fn inserting_goes_behind_equal_distances() {
    let mut xs = vec![
        Intersection::new(1, s(1.0)),
        Intersection::new(2, s(2.0)),
        Intersection::new(3, s(3.0)),
    ];
    insert_by_distance(&mut xs, Intersection::new(9, s(2.0)));
    let ids: Vec<usize> = xs.iter().map(|x| x.object_id).collect();
    assert_eq!(ids, vec![1, 2, 9, 3]);
    insert_by_distance(&mut xs, Intersection::new(8, s(0.0)));
    let ids: Vec<usize> = xs.iter().map(|x| x.object_id).collect();
    assert_eq!(ids, vec![8, 1, 2, 9, 3]);
}

#[test]
fn the_cosine_decides_whether_the_normal_is_turned() {
    let normal = vector(0.0, 1.0, 0.0);
    assert_eq!(turn_normal(&normal, s(-0.25)), (true, vector(0.0, -1.0, 0.0)));
    assert_eq!(turn_normal(&normal, s(0.25)), (false, normal));
    assert_eq!(turn_normal(&normal, s(0.0)), (false, normal));
    assert_eq!(turn_normal(&normal, s(-0.0)), (false, normal));
    assert_eq!(turn_normal(&normal, s(f64::NAN)).0, false);
}
