use ray_tracer::matrix::Matrix;
use ray_tracer::scalar::Scalar;
use ray_tracer::transformation::view_transform;
use ray_tracer::tuple::{point as lib_point, vector as lib_vector, Tuple};

fn s(x: f64) -> Scalar {
    Scalar::from_bits(x.to_bits())
}

fn point(x: f64, y: f64, z: f64) -> Tuple {
    lib_point(s(x), s(y), s(z))
}

fn vector(x: f64, y: f64, z: f64) -> Tuple {
    lib_vector(s(x), s(y), s(z))
}

#[test]
fn transformation_for_default_orientation() {
    let from = point(0.0, 0.0, 0.0);
    let to = point(0.0, 0.0, -1.0);
    let up = vector(0.0, 1.0, 0.0);
    let t = view_transform(&from, &to, &up);
    assert_eq!(t, Matrix::identity());
}

#[test]
fn transformation_looking_in_positive_z() {
    let from = point(0.0, 0.0, 0.0);
    let to = point(0.0, 0.0, 1.0);
    let up = vector(0.0, 1.0, 0.0);
    let t = view_transform(&from, &to, &up);
    assert_eq!(t, Matrix::scaling(s(-1.0), s(1.0), s(-1.0)));
}

#[test]
fn transformation_moves_the_world() {
    let from = point(0.0, 0.0, 8.0);
    let to = point(0.0, 0.0, 0.0);
    let up = vector(0.0, 1.0, 0.0);
    let t = view_transform(&from, &to, &up);
    assert_eq!(t, Matrix::translation(s(0.0), s(0.0), s(-8.0)));
}

#[test]
fn arbitrary_transformation() {
    let from = point(1.0, 3.0, 2.0);
    let to = point(4.0, -2.0, 8.0);
    let up = vector(1.0, 1.0, 0.0);
    let t = view_transform(&from, &to, &up);
    let expected = Matrix::make_matrix_4(
        s(-0.5070925528371099),
        s(0.5070925528371099),
        s(0.6761234037828132),
        s(-2.366431913239846),
        s(0.7677159338596801),
        s(0.6060915267313263),
        s(0.12121830534626524),
        s(-2.8284271247461894),
        s(-0.35856858280031806),
        s(0.5976143046671968),
        s(-0.7171371656006361),
        s(0.0),
        s(0.0),
        s(0.0),
        s(0.0),
        s(1.0),
    );
    assert_eq!(t, expected);
}
