use ray_tracer::color::Color;
use ray_tracer::matrix::{Matrix, Transformation};
use ray_tracer::pattern::{remainder_by_two, Checker, Gradient, Pattern, Ring, Stripe};
use ray_tracer::scalar::Scalar;
use ray_tracer::sphere::Sphere;
use ray_tracer::tuple::{point as lib_point, Tuple};

fn s(x: f64) -> Scalar {
    Scalar::from_bits(x.to_bits())
}

fn point(x: f64, y: f64, z: f64) -> Tuple {
    lib_point(s(x), s(y), s(z))
}

fn color(r: f64, g: f64, b: f64) -> Color {
    Color::make(s(r), s(g), s(b))
}

fn scaling(x: f64, y: f64, z: f64) -> Matrix {
    Matrix::scaling(s(x), s(y), s(z))
}

fn white() -> Color {
    Color::white()
}

fn black() -> Color {
    Color::black()
}

#[test]
fn a_stripe_pattern_is_constant_in_y() {
    let pattern = Stripe::new(white(), black());
    assert_eq!(pattern.stripe_at(&point(0., 0., 0.)), white());
    assert_eq!(pattern.stripe_at(&point(0., 1., 0.)), white());
    assert_eq!(pattern.stripe_at(&point(0., 2., 0.)), white());
}

#[test]
fn a_stripe_pattern_is_constant_in_z() {
    let pattern = Stripe::new(white(), black());
    assert_eq!(pattern.stripe_at(&point(0., 0., 0.)), white());
    assert_eq!(pattern.stripe_at(&point(0., 0., 1.)), white());
    assert_eq!(pattern.stripe_at(&point(0., 0., 2.)), white());
}

#[test]
fn a_stripe_pattern_alternates_in_x() {
    let pattern = Stripe::new(white(), black());
    assert_eq!(pattern.stripe_at(&point(0., 0., 0.)), white());
    assert_eq!(pattern.stripe_at(&point(0.9, 0., 0.)), white());
    assert_eq!(pattern.stripe_at(&point(1., 0., 0.)), black());
    assert_eq!(pattern.stripe_at(&point(-1., 0., 0.)), black());
    assert_eq!(pattern.stripe_at(&point(-1.1, 0., 0.)), white());
}

#[test]
fn a_stripe_pattern_on_transformed_object() {
    let sphere = Sphere::new(1).set_transform(scaling(2., 2., 2.));
    let pattern = Pattern::new_stripe(white(), black(), Matrix::identity());
    let c = pattern.pattern_at_object(sphere.transform(), &point(1.5, 0., 0.));
    assert_eq!(c, white());
}

#[test]
fn a_stripe_pattern_with_transformation() {
    let sphere = Sphere::new(1);
    let pattern = Pattern::new_stripe(white(), black(), scaling(2., 2., 2.));
    let c = pattern.pattern_at_object(sphere.transform(), &point(1.5, 0., 0.));
    assert_eq!(c, white());
}

#[test]
fn a_stripe_pattern_with_transformation_on_transformed_object() {
    let sphere = Sphere::new(1).set_transform(scaling(2., 2., 2.));
    let pattern =
        Pattern::new_stripe(white(), black(), Matrix::translation(s(0.5), s(0.), s(0.)));
    let c = pattern.pattern_at_object(sphere.transform(), &point(2.5, 0., 0.));
    assert_eq!(c, white());
}

#[test]
fn a_gradient_pattern_linearly_interpolates_between_two_colors() {
    let g = Gradient::new(white(), black());
    let r1 = g.gradient_at(&point(0., 0., 0.));
    assert_eq!(r1, white());
    let r2 = g.gradient_at(&point(0.25, 0., 0.));
    assert_eq!(r2, color(0.75, 0.75, 0.75));
    let r3 = g.gradient_at(&point(0.5, 0., 0.));
    assert_eq!(r3, color(0.5, 0.5, 0.5));
    let r4 = g.gradient_at(&point(0.75, 0., 0.));
    assert_eq!(r4, color(0.25, 0.25, 0.25));
}

#[test]
fn a_ring_pattern_should_extend_in_both_x_and_z() {
    let g = Ring::new(white(), black());
    let r1 = g.ring_at(&point(0., 0., 0.));
    assert_eq!(r1, white());
    let r2 = g.ring_at(&point(1., 0., 0.));
    assert_eq!(r2, black());
    let r3 = g.ring_at(&point(0., 0., 1.));
    assert_eq!(r3, black());
    let r4 = g.ring_at(&point(0.708, 0., 0.708));
    assert_eq!(r4, black());
}

#[test]
fn a_checker_pattern_should_repeat_in_x() {
    let g = Checker::new(white(), black());
    let r1 = g.checker_at(&point(0., 0., 0.));
    assert_eq!(r1, white());
    let r2 = g.checker_at(&point(0.99, 0., 0.));
    assert_eq!(r2, white());
    let r3 = g.checker_at(&point(1.01, 0., 0.));
    assert_eq!(r3, black());
}

#[test]
fn a_checker_pattern_should_repeat_in_y() {
    let g = Checker::new(white(), black());
    let r1 = g.checker_at(&point(0., 0., 0.));
    assert_eq!(r1, white());
    let r2 = g.checker_at(&point(0., 0.99, 0.));
    assert_eq!(r2, white());
    let r3 = g.checker_at(&point(0., 1.01, 0.));
    assert_eq!(r3, black());
}

#[test]
fn a_checker_pattern_should_repeat_in_z() {
    let g = Checker::new(white(), black());
    let r1 = g.checker_at(&point(0., 0., 0.));
    assert_eq!(r1, white());
    let r2 = g.checker_at(&point(0., 0., 0.99));
    assert_eq!(r2, white());
    let r3 = g.checker_at(&point(0., 0., 1.01));
    assert_eq!(r3, black());
}

#[test]
fn stripes_left_of_zero() {
    let pattern = Stripe::new(white(), black());
    assert_eq!(pattern.stripe_at(&point(-0.1, 0., 0.)), black());
    assert_eq!(pattern.stripe_at(&point(-0.9, 0., 0.)), black());
    assert_eq!(pattern.stripe_at(&point(-1.5, 0., 0.)), white());
    assert_eq!(pattern.stripe_at(&point(-2.0, 0., 0.)), white());
    assert_eq!(pattern.stripe_at(&point(-2.5, 0., 0.)), black());
    assert_eq!(pattern.stripe_at(&point(-3.0, 0., 0.)), black());
    assert_eq!(pattern.stripe_at(&point(-4.0, 0., 0.)), white());
    assert_eq!(pattern.stripe_at(&point(2.5, 0., 0.)), white());
    assert_eq!(pattern.stripe_at(&point(3.0, 0., 0.)), black());
}

#[test]
fn every_kind_of_pattern_is_reached_through_its_transformation() {
    let object = Transformation::make(scaling(2., 2., 2.));
    let p = point(3.0, 0.0, 0.0);
    let stripe = Pattern::new_stripe(white(), black(), scaling(0.5, 1., 1.));
    assert_eq!(stripe.pattern_at_object(&object, &p), black());
    let gradient = Pattern::new_gradient(white(), black(), scaling(3., 1., 1.));
    assert_eq!(gradient.pattern_at_object(&object, &p), color(0.5, 0.5, 0.5));
    let ring = Pattern::new_ring(white(), black(), Matrix::identity());
    assert_eq!(ring.pattern_at_object(&object, &p), black());
    let checker = Pattern::new_checker(white(), black(), scaling(0.25, 1., 1.));
    assert_eq!(checker.pattern_at_object(&object, &p), white());
    assert_eq!(
        Pattern::convert_to_pattern_point(&Transformation::make(scaling(0.5, 1., 1.)), &object, &p),
        point(3.0, 0.0, 0.0)
    );
}

#[test]
fn the_gradient_keeps_the_difference_of_its_colours() {
    let g = Gradient::new(color(0.25, 0.5, 1.0), color(1.0, 0.5, 0.0));
    assert_eq!(g.a, color(0.25, 0.5, 1.0));
    assert_eq!(g.distance, color(0.75, 0.0, -1.0));
    assert_eq!(g.gradient_at(&point(2.5, 7.0, 7.0)), color(0.625, 0.5, 0.5));
}

#[test]
fn stripes_follow_the_floor_of_x_on_both_sides_of_zero() {
    let pattern = Stripe::new(white(), black());
    for k in -6..6 {
        let expected = if k % 2 == 0 { white() } else { black() };
        let left = k as f64;
        assert_eq!(pattern.stripe_at(&point(left, 0., 0.)), expected);
        assert_eq!(pattern.stripe_at(&point(left + 0.5, 3., -2.)), expected);
        assert_eq!(pattern.stripe_at(&point(left + 0.999, 0., 0.)), expected);
    }
    assert_eq!(pattern.stripe_at(&point(-0.0, 0., 0.)), white());
    assert_eq!(pattern.stripe_at(&point(f64::NAN, 0., 0.)), black());
}

#[test]
fn the_remainder_decides_the_colour() {
    let stripe = Stripe::new(white(), black());
    assert_eq!(stripe.stripe_for(s(0.0)), white());
    assert_eq!(stripe.stripe_for(s(-0.0)), white());
    assert_eq!(stripe.stripe_for(s(1.0)), black());
    assert_eq!(stripe.stripe_for(s(-1.0)), black());
    assert_eq!(stripe.stripe_for(s(f64::NAN)), black());
    let ring = Ring::new(white(), black());
    assert_eq!(ring.ring_for(s(0.0)), white());
    assert_eq!(ring.ring_for(s(1.0)), black());
    let checker = Checker::new(white(), black());
    assert_eq!(checker.checker_for(s(0.0)), white());
    assert_eq!(checker.checker_for(s(-1.0)), black());
    assert_eq!(remainder_by_two(s(4.0)), s(0.0));
    assert_eq!(remainder_by_two(s(-2.0)), s(0.0));
    assert_eq!(remainder_by_two(s(3.0)), s(1.0));
    assert_eq!(remainder_by_two(s(-3.0)), s(-1.0));
    assert_eq!(remainder_by_two(s(2.5)), s(0.5));
}
