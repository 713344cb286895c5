//! Rays: an origin and a direction.

use vstd::prelude::*;
use crate::matrix::{Matrix, MatrixModel};
use crate::scalar::Scalar;
use crate::tuple::{add_tuple, scale_tuple, spec_add_tuple, spec_scale_tuple, Tuple};

verus! {

#[derive(Debug, Clone, Copy)]
pub struct Ray {
    pub origin: Tuple,
    pub direction: Tuple,
}

impl Ray {
    /// `origin + direction * t`.
    pub open spec fn spec_position_at(self, t: Scalar) -> Tuple {
        spec_add_tuple(self.origin, spec_scale_tuple(self.direction, t))
    }

    /// The ray with origin and direction sent through the matrix.
    pub open spec fn spec_transform(self, matrix: MatrixModel) -> Ray {
        Ray {
            origin: matrix.multiply_tuple(self.origin),
            direction: matrix.multiply_tuple(self.direction),
        }
    }

    pub fn new(origin: Tuple, direction: Tuple) -> (r: Ray)
        ensures
            r.origin == origin,
            r.direction == direction,
    {
        Ray { origin, direction }
    }

    /// The point at parameter `t` along the ray.
    pub fn position_at(&self, t: Scalar) -> (p: Tuple)
        ensures
            p == self.spec_position_at(t),
    {
        let scaled = scale_tuple(&self.direction, t);
        add_tuple(&self.origin, &scaled)
    }

    /// The ray in the space that the matrix leads to.
    pub fn transform(&self, matrix: &Matrix) -> (r: Ray)
        requires
            matrix.wf(),
            matrix.size >= 4,
        ensures
            r == self.spec_transform(matrix@),
    {
        Ray {
            origin: matrix.multiply_tuple(&self.origin),
            direction: matrix.multiply_tuple(&self.direction),
        }
    }
}

} // verus!
