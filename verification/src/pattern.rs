//! Procedural colourings, each with a transformation of its own.

use vstd::prelude::*;
use crate::color::Color;
use crate::matrix::{Matrix, MatrixModel, Transformation};
use crate::scalar::Scalar;
use crate::tuple::Tuple;

verus! {

/// A colouring and the transformation that places it on a shape.
#[derive(Debug, PartialEq)]
#[allow(inconsistent_fields)]
pub enum Pattern {
    StripePattern { inner: Stripe, transform: Transformation },
    GradientPattern { inner: Gradient, transform: Transformation },
    RingPattern { inner: Ring, transform: Transformation },
    CheckerPattern { inner: Checker, transform: Transformation },
}

/// The remainder of a number by two, by which the patterns alternate: zero
/// for an even whole number.
pub open spec fn spec_remainder_by_two(x: Scalar) -> Scalar {
    x.spec_rem(Scalar::spec_two())
}

/// The first colour where the remainder is zero, the second elsewhere.
pub open spec fn spec_alternate(a: Color, b: Color, remainder: Scalar) -> Color {
    if remainder.spec_same(Scalar::spec_zero()) {
        a
    } else {
        b
    }
}

/// The remainder of a number by two.
pub fn remainder_by_two(x: Scalar) -> (r: Scalar)
    ensures
        r == spec_remainder_by_two(x),
{
    x.rem(Scalar::two())
}

impl Pattern {
    /// The transformation of the pattern, whatever its kind.
    pub open spec fn spec_transform(&self) -> &Transformation {
        match self {
            Pattern::StripePattern { inner, transform } => transform,
            Pattern::GradientPattern { inner, transform } => transform,
            Pattern::RingPattern { inner, transform } => transform,
            Pattern::CheckerPattern { inner, transform } => transform,
        }
    }

    /// The transformation of the pattern is well formed.
    pub open spec fn wf(&self) -> bool {
        self.spec_transform().wf()
    }

    /// A point of the world, taken into the space of the object and from
    /// there into the space of the pattern.
    pub open spec fn spec_convert_to_pattern_point(
        pattern_inverse: MatrixModel,
        object_inverse: MatrixModel,
        point: Tuple,
    ) -> Tuple {
        pattern_inverse.multiply_tuple(object_inverse.multiply_tuple(point))
    }

    /// The colour of the pattern at a point of its own space.
    pub open spec fn spec_color_at(&self, pattern_point: Tuple) -> Color {
        match self {
            Pattern::StripePattern { inner, transform } => inner.spec_stripe_at(pattern_point),
            Pattern::GradientPattern { inner, transform } => inner.spec_gradient_at(pattern_point),
            Pattern::RingPattern { inner, transform } => inner.spec_ring_at(pattern_point),
            Pattern::CheckerPattern { inner, transform } => inner.spec_checker_at(pattern_point),
        }
    }

    /// The colour of the pattern at a point of the world, on an object with
    /// the given inverse transformation.
    pub open spec fn spec_pattern_at_object(&self, object_inverse: MatrixModel, point: Tuple)
        -> Color {
        self.spec_color_at(
            Pattern::spec_convert_to_pattern_point(
                self.spec_transform().inverse@,
                object_inverse,
                point,
            ),
        )
    }

    pub fn convert_to_pattern_point(
        pattern_transformation: &Transformation,
        object_transformation: &Transformation,
        point: &Tuple,
    ) -> (p: Tuple)
        requires
            pattern_transformation.wf(),
            object_transformation.wf(),
        ensures
            p == Pattern::spec_convert_to_pattern_point(
                pattern_transformation.inverse@,
                object_transformation.inverse@,
                *point,
            ),
    {
        let object_point = object_transformation.inverse.multiply_tuple(point);
        pattern_transformation.inverse.multiply_tuple(&object_point)
    }

    pub fn pattern_at_object(&self, object_transformation: &Transformation, point: &Tuple) -> (c:
        Color)
        requires
            self.wf(),
            object_transformation.wf(),
        ensures
            c == self.spec_pattern_at_object(object_transformation.inverse@, *point),
    {
        match self {
            Pattern::StripePattern { inner, transform } => {
                let pattern_point = Pattern::convert_to_pattern_point(
                    transform,
                    object_transformation,
                    point,
                );
                inner.stripe_at(&pattern_point)
            },
            Pattern::GradientPattern { inner, transform } => {
                let pattern_point = Pattern::convert_to_pattern_point(
                    transform,
                    object_transformation,
                    point,
                );
                inner.gradient_at(&pattern_point)
            },
            Pattern::RingPattern { inner, transform } => {
                let pattern_point = Pattern::convert_to_pattern_point(
                    transform,
                    object_transformation,
                    point,
                );
                inner.ring_at(&pattern_point)
            },
            Pattern::CheckerPattern { inner, transform } => {
                let pattern_point = Pattern::convert_to_pattern_point(
                    transform,
                    object_transformation,
                    point,
                );
                inner.checker_at(&pattern_point)
            },
        }
    }

    pub fn new_stripe(a: Color, b: Color, transform: Matrix) -> (p: Pattern)
        requires
            transform.wf(),
            transform.size == 4,
            transform@.invertible(),
        ensures
            p matches Pattern::StripePattern { inner, transform: t } && inner == (Stripe { a, b })
                && t.made_from(transform@),
            p.wf(),
    {
        Pattern::StripePattern {
            inner: Stripe::new(a, b),
            transform: Transformation::make(transform),
        }
    }

    pub fn new_gradient(a: Color, b: Color, transform: Matrix) -> (p: Pattern)
        requires
            transform.wf(),
            transform.size == 4,
            transform@.invertible(),
        ensures
            p matches Pattern::GradientPattern { inner, transform: t } && inner == (Gradient {
                a,
                distance: b.spec_subtract(a),
            }) && t.made_from(transform@),
            p.wf(),
    {
        Pattern::GradientPattern {
            inner: Gradient::new(a, b),
            transform: Transformation::make(transform),
        }
    }

    pub fn new_ring(a: Color, b: Color, transform: Matrix) -> (p: Pattern)
        requires
            transform.wf(),
            transform.size == 4,
            transform@.invertible(),
        ensures
            p matches Pattern::RingPattern { inner, transform: t } && inner == (Ring { a, b })
                && t.made_from(transform@),
            p.wf(),
    {
        Pattern::RingPattern { inner: Ring::new(a, b), transform: Transformation::make(transform) }
    }

    pub fn new_checker(a: Color, b: Color, transform: Matrix) -> (p: Pattern)
        requires
            transform.wf(),
            transform.size == 4,
            transform@.invertible(),
        ensures
            p matches Pattern::CheckerPattern { inner, transform: t } && inner == (Checker { a, b })
                && t.made_from(transform@),
            p.wf(),
    {
        Pattern::CheckerPattern {
            inner: Checker::new(a, b),
            transform: Transformation::make(transform),
        }
    }
}

/// Cubes of side one, alternating in all three directions.
#[derive(Debug, PartialEq)]
pub struct Checker {
    pub a: Color,
    pub b: Color,
}

impl Checker {
    /// The sum of the floors of the three coordinates.
    pub open spec fn spec_threshold(point: Tuple) -> Scalar {
        point.0.spec_floor().spec_add(point.1.spec_floor()).spec_add(point.2.spec_floor())
    }

    /// The first colour where the floors of the three coordinates add up to
    /// an even number, the second elsewhere.
    pub open spec fn spec_checker_at(&self, point: Tuple) -> Color {
        spec_alternate(self.a, self.b, spec_remainder_by_two(Checker::spec_threshold(point)))
    }

    pub fn new(a: Color, b: Color) -> (c: Checker)
        ensures
            c == (Checker { a, b }),
    {
        Checker { a, b }
    }

    pub fn checker_at(&self, point: &Tuple) -> (c: Color)
        ensures
            c == self.spec_checker_at(*point),
    {
        let x = point.0.floor();
        let y = point.1.floor();
        let z = point.2.floor();
        let threshold = x.add(y).add(z);
        self.checker_for(remainder_by_two(threshold))
    }

    /// The colour of a cube, by the remainder by two of the sum of the
    /// floors of its coordinates: the first colour for zero, else the
    /// second.
    pub fn checker_for(&self, remainder_of_sum: Scalar) -> (c: Color)
        ensures
            c == spec_alternate(self.a, self.b, remainder_of_sum),
    {
        if remainder_of_sum.same(Scalar::zero()) {
            self.a
        } else {
            self.b
        }
    }
}

/// Rings of width one around the y axis.
#[derive(Debug, PartialEq)]
pub struct Ring {
    pub a: Color,
    pub b: Color,
}

impl Ring {
    /// The first colour where the floor of the distance from the y axis is
    /// even, the second elsewhere.
    pub open spec fn spec_ring_at(&self, point: Tuple) -> Color {
        let threshold = point.0.spec_mul(point.0).spec_add(point.2.spec_mul(point.2)).spec_sqrt();
        spec_alternate(self.a, self.b, spec_remainder_by_two(threshold.spec_floor()))
    }

    pub fn new(a: Color, b: Color) -> (r: Ring)
        ensures
            r == (Ring { a, b }),
    {
        Ring { a, b }
    }

    pub fn ring_at(&self, point: &Tuple) -> (c: Color)
        ensures
            c == self.spec_ring_at(*point),
    {
        let x = point.0;
        let z = point.2;
        let threshold = x.mul(x).add(z.mul(z)).sqrt();
        self.ring_for(remainder_by_two(threshold.floor()))
    }

    /// The colour of a ring, by the remainder by two of the floor of its
    /// distance from the y axis: the first colour for zero, else the
    /// second.
    pub fn ring_for(&self, remainder_of_floor: Scalar) -> (c: Color)
        ensures
            c == spec_alternate(self.a, self.b, remainder_of_floor),
    {
        if remainder_of_floor.same(Scalar::zero()) {
            self.a
        } else {
            self.b
        }
    }
}

/// A blend from one colour to another along x, starting over at every
/// integer.
#[derive(Debug, PartialEq)]
pub struct Gradient {
    pub a: Color,
    /// The second colour less the first.
    pub distance: Color,
}

impl Gradient {
    /// The first colour plus the fractional part of x times the distance
    /// between the colours.
    pub open spec fn spec_gradient_at(&self, point: Tuple) -> Color {
        self.a.spec_add(self.distance.spec_multiply_value(point.0.spec_fract()))
    }

    pub fn new(a: Color, b: Color) -> (g: Gradient)
        ensures
            g == (Gradient { a, distance: b.spec_subtract(a) }),
    {
        let distance = b.subtract(&a);
        Gradient { a, distance }
    }

    pub fn gradient_at(&self, point: &Tuple) -> (c: Color)
        ensures
            c == self.spec_gradient_at(*point),
    {
        let fraction = point.0.fract();
        let portion = self.distance.multiply_value(fraction);
        self.a.add(&portion)
    }
}

/// Stripes of width one along x.
#[derive(Debug, PartialEq)]
pub struct Stripe {
    pub a: Color,
    pub b: Color,
}

impl Stripe {
    /// The first colour where the floor of x is even, the second where it
    /// is odd, left of zero as right of it.
    pub open spec fn spec_stripe_at(&self, point: Tuple) -> Color {
        spec_alternate(self.a, self.b, spec_remainder_by_two(point.0.spec_floor()))
    }

    pub fn new(a: Color, b: Color) -> (s: Stripe)
        ensures
            s == (Stripe { a, b }),
    {
        Stripe { a, b }
    }

    pub fn stripe_at(&self, point: &Tuple) -> (c: Color)
        ensures
            c == self.spec_stripe_at(*point),
    {
        self.stripe_for(remainder_by_two(point.0.floor()))
    }

    /// The colour of a stripe, by the remainder by two of the floor of x:
    /// the first colour for zero, else the second.
    pub fn stripe_for(&self, remainder_of_floor: Scalar) -> (c: Color)
        ensures
            c == spec_alternate(self.a, self.b, remainder_of_floor),
    {
        if remainder_of_floor.same(Scalar::zero()) {
            self.a
        } else {
            self.b
        }
    }
}

} // verus!
