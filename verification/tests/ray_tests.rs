use ray_tracer::matrix::Matrix;
use ray_tracer::ray::Ray;
use ray_tracer::scalar::Scalar;
use ray_tracer::tuple::{point as lib_point, vector as lib_vector, Tuple};

fn s(x: f64) -> Scalar {
    Scalar::from_bits(x.to_bits())
}

fn point(x: f64, y: f64, z: f64) -> Tuple {
    lib_point(s(x), s(y), s(z))
}

fn vector(x: f64, y: f64, z: f64) -> Tuple {
    lib_vector(s(x), s(y), s(z))
}

#[test]
fn creating_querying_ray() {
    let origin = point(1.0, 2.0, 3.0);
    let direction = vector(4.0, 5.0, 6.0);
    let ray = Ray::new(origin, direction);
    assert_eq!(ray.origin, origin);
    assert_eq!(ray.direction, direction);
}

#[test]
fn computing_point_from_distance() {
    let origin = point(2.0, 3.0, 4.0);
    let direction = vector(1.0, 0.0, 0.0);
    let ray = Ray::new(origin, direction);
    assert_eq!(ray.position_at(s(0.0)), origin);
    assert_eq!(ray.position_at(s(1.0)), point(3.0, 3.0, 4.0));
    assert_eq!(ray.position_at(s(-1.0)), point(1.0, 3.0, 4.0));
    assert_eq!(ray.position_at(s(2.5)), point(4.5, 3.0, 4.0));
}

#[test]
fn translating_ray() {
    let r = Ray::new(point(1.0, 2.0, 3.0), vector(0.0, 1.0, 0.0));
    let m = Matrix::translation(s(3.0), s(4.0), s(5.0));
    let r2 = r.transform(&m);
    assert_eq!(r2.origin, point(4.0, 6.0, 8.0));
    assert_eq!(r2.direction, vector(0.0, 1.0, 0.0));
}

#[test]
fn scaling_ray() {
    let r = Ray::new(point(1.0, 2.0, 3.0), vector(0.0, 1.0, 0.0));
    let m = Matrix::scaling(s(2.0), s(3.0), s(4.0));
    let r2 = r.transform(&m);
    assert_eq!(r2.origin, point(2.0, 6.0, 12.0));
    assert_eq!(r2.direction, vector(0.0, 3.0, 0.0));
}
