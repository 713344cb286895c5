//! The transformation that places the eye.

use vstd::prelude::*;
use crate::matrix::{Matrix, MatrixModel};
use crate::scalar::Scalar;
use crate::tuple::{
    spec_subtract_tuple, spec_vector_cross_product, spec_vector_normalize, subtract_tuple,
    vector_cross_product, vector_normalize, Tuple,
};

verus! {

/// The direction in which the eye looks.
pub open spec fn spec_forward(from: Tuple, to: Tuple) -> Tuple {
    spec_vector_normalize(spec_subtract_tuple(to, from))
}

/// The direction to the left of the eye.
pub open spec fn spec_left(from: Tuple, to: Tuple, up: Tuple) -> Tuple {
    spec_vector_cross_product(spec_forward(from, to), spec_vector_normalize(up))
}

/// The direction that is up for the eye, at right angles to forward and
/// left.
pub open spec fn spec_true_up(from: Tuple, to: Tuple, up: Tuple) -> Tuple {
    spec_vector_cross_product(spec_left(from, to, up), spec_forward(from, to))
}

/// The rows of the orientation: left, true up and the opposite of forward.
pub open spec fn spec_orientation(from: Tuple, to: Tuple, up: Tuple) -> MatrixModel {
    let o = Scalar::spec_zero();
    let i = Scalar::spec_one();
    let left = spec_left(from, to, up);
    let true_up = spec_true_up(from, to, up);
    let forward = spec_forward(from, to);
    MatrixModel {
        size: 4,
        cells: seq![
            left.0,
            left.1,
            left.2,
            o,
            true_up.0,
            true_up.1,
            true_up.2,
            o,
            forward.0.spec_neg(),
            forward.1.spec_neg(),
            forward.2.spec_neg(),
            o,
            o,
            o,
            o,
            i,
        ],
    }
}

/// The orientation of the eye after the translation that takes the eye to
/// the origin.
pub open spec fn spec_view_transform(from: Tuple, to: Tuple, up: Tuple) -> MatrixModel {
    spec_orientation(from, to, up).multiply(
        MatrixModel::translation(from.0.spec_neg(), from.1.spec_neg(), from.2.spec_neg()),
    )
}

/// The matrix that takes the world into the space of an eye at `from` that
/// looks at `to`, with `up` saying which way is up.
pub fn view_transform(from: &Tuple, to: &Tuple, up: &Tuple) -> (m: Matrix)
    ensures
        m@ == spec_view_transform(*from, *to, *up),
        m.wf(),
        m.size == 4,
{
    let forward = vector_normalize(&subtract_tuple(to, from));
    let upn = vector_normalize(up);
    let left = vector_cross_product(&forward, &upn);
    let true_up = vector_cross_product(&left, &forward);
    let o = Scalar::zero();
    let orientation = Matrix::make_matrix_4(
        left.0,
        left.1,
        left.2,
        o,
        true_up.0,
        true_up.1,
        true_up.2,
        o,
        forward.0.neg(),
        forward.1.neg(),
        forward.2.neg(),
        o,
        o,
        o,
        o,
        Scalar::one(),
    );
    let translation = Matrix::translation(from.0.neg(), from.1.neg(), from.2.neg());
    orientation.multiply(&translation)
}

} // verus!
