//! Homogeneous tuples: points have a fourth component of one, vectors of
//! zero.

use vstd::prelude::*;
use crate::scalar::Scalar;

verus! {

/// The components `(x, y, z, w)`.
pub type Tuple = (Scalar, Scalar, Scalar, Scalar);

/// Whether two components differ by less than the machine epsilon.
pub open spec fn spec_close(a: Scalar, b: Scalar) -> bool {
    a.spec_sub(b).spec_abs().spec_lt(Scalar::spec_machine_epsilon())
}

pub open spec fn spec_tuples_are_equal(t1: Tuple, t2: Tuple) -> bool {
    spec_close(t1.0, t2.0) && spec_close(t1.1, t2.1) && spec_close(t1.2, t2.2) && spec_close(
        t1.3,
        t2.3,
    )
}

pub open spec fn spec_tuple_is_vector(t: Tuple) -> bool {
    t.3.spec_same(Scalar::spec_zero())
}

pub open spec fn spec_tuple_is_point(t: Tuple) -> bool {
    spec_close(t.3, Scalar::spec_one())
}

pub open spec fn spec_add_tuple(t1: Tuple, t2: Tuple) -> Tuple {
    (t1.0.spec_add(t2.0), t1.1.spec_add(t2.1), t1.2.spec_add(t2.2), t1.3.spec_add(t2.3))
}

pub open spec fn spec_subtract_tuple(t1: Tuple, t2: Tuple) -> Tuple {
    (t1.0.spec_sub(t2.0), t1.1.spec_sub(t2.1), t1.2.spec_sub(t2.2), t1.3.spec_sub(t2.3))
}

pub open spec fn spec_negate_tuple(t: Tuple) -> Tuple {
    (t.0.spec_neg(), t.1.spec_neg(), t.2.spec_neg(), t.3.spec_neg())
}

pub open spec fn spec_scale_tuple(v: Tuple, scale: Scalar) -> Tuple {
    (v.0.spec_mul(scale), v.1.spec_mul(scale), v.2.spec_mul(scale), v.3.spec_mul(scale))
}

pub open spec fn spec_scale_tuple_division(v: Tuple, scale: Scalar) -> Tuple {
    (v.0.spec_div(scale), v.1.spec_div(scale), v.2.spec_div(scale), v.3.spec_div(scale))
}

pub open spec fn spec_point(x: Scalar, y: Scalar, z: Scalar) -> Tuple {
    (x, y, z, Scalar::spec_one())
}

pub open spec fn spec_point_zero() -> Tuple {
    (Scalar::spec_zero(), Scalar::spec_zero(), Scalar::spec_zero(), Scalar::spec_one())
}

pub open spec fn spec_vector(x: Scalar, y: Scalar, z: Scalar) -> Tuple {
    (x, y, z, Scalar::spec_zero())
}

/// The length of the spatial part: the root of `x*x + y*y + z*z`, summed
/// from the left.
pub open spec fn spec_vector_magnitude(v: Tuple) -> Scalar {
    v.0.spec_mul(v.0).spec_add(v.1.spec_mul(v.1)).spec_add(v.2.spec_mul(v.2)).spec_sqrt()
}

/// The spatial part divided by its length, as a vector.
pub open spec fn spec_vector_normalize(v: Tuple) -> Tuple {
    let mag = spec_vector_magnitude(v);
    (v.0.spec_div(mag), v.1.spec_div(mag), v.2.spec_div(mag), Scalar::spec_zero())
}

/// `x1*x2 + (y1*y2 + z1*z2)`, each sum fused with its product.
pub open spec fn spec_vector_dot_product(t1: Tuple, t2: Tuple) -> Scalar {
    t1.0.spec_mul_add(t2.0, t1.1.spec_mul_add(t2.1, t1.2.spec_mul(t2.2)))
}

pub open spec fn spec_vector_cross_product(a: Tuple, b: Tuple) -> Tuple {
    spec_vector(
        a.1.spec_mul(b.2).spec_sub(a.2.spec_mul(b.1)),
        a.2.spec_mul(b.0).spec_sub(a.0.spec_mul(b.2)),
        a.0.spec_mul(b.1).spec_sub(a.1.spec_mul(b.0)),
    )
}

/// `v - normal * (2 * (v . normal))`.
pub open spec fn spec_vector_reflect(v: Tuple, normal: Tuple) -> Tuple {
    let dot = spec_vector_dot_product(v, normal);
    spec_subtract_tuple(v, spec_scale_tuple(normal, Scalar::spec_two().spec_mul(dot)))
}

fn close(a: Scalar, b: Scalar) -> (r: bool)
    ensures
        r == spec_close(a, b),
{
    a.sub(b).abs().lt(Scalar::machine_epsilon())
}

/// Whether the two tuples agree in every component to less than the machine
/// epsilon.
pub fn tuples_are_equal(t1: &Tuple, t2: &Tuple) -> (r: bool)
    ensures
        r == spec_tuples_are_equal(*t1, *t2),
{
    close(t1.0, t2.0) && close(t1.1, t2.1) && close(t1.2, t2.2) && close(t1.3, t2.3)
}

/// Whether the fourth component is zero.
pub fn tuple_is_vector(t: &Tuple) -> (r: bool)
    ensures
        r == spec_tuple_is_vector(*t),
{
    t.3.same(Scalar::zero())
}

/// Whether the fourth component is one, to less than the machine epsilon.
pub fn tuple_is_point(t: &Tuple) -> (r: bool)
    ensures
        r == spec_tuple_is_point(*t),
{
    close(t.3, Scalar::one())
}

pub fn add_tuple(t1: &Tuple, t2: &Tuple) -> (r: Tuple)
    ensures
        r == spec_add_tuple(*t1, *t2),
{
    (t1.0.add(t2.0), t1.1.add(t2.1), t1.2.add(t2.2), t1.3.add(t2.3))
}

pub fn subtract_tuple(t1: &Tuple, t2: &Tuple) -> (r: Tuple)
    ensures
        r == spec_subtract_tuple(*t1, *t2),
{
    (t1.0.sub(t2.0), t1.1.sub(t2.1), t1.2.sub(t2.2), t1.3.sub(t2.3))
}

pub fn negate_tuple(t1: &Tuple) -> (r: Tuple)
    ensures
        r == spec_negate_tuple(*t1),
{
    (t1.0.neg(), t1.1.neg(), t1.2.neg(), t1.3.neg())
}

pub fn scale_tuple(v: &Tuple, scale: Scalar) -> (r: Tuple)
    ensures
        r == spec_scale_tuple(*v, scale),
{
    (v.0.mul(scale), v.1.mul(scale), v.2.mul(scale), v.3.mul(scale))
}

pub fn scale_tuple_division(v: &Tuple, scale: Scalar) -> (r: Tuple)
    ensures
        r == spec_scale_tuple_division(*v, scale),
{
    (v.0.div(scale), v.1.div(scale), v.2.div(scale), v.3.div(scale))
}

pub fn point(x: Scalar, y: Scalar, z: Scalar) -> (r: Tuple)
    ensures
        r == spec_point(x, y, z),
        !spec_tuple_is_vector(r),
{
    proof {
        lemma_point_and_vector(x, y, z);
    }
    (x, y, z, Scalar::one())
}

pub fn point_zero() -> (r: Tuple)
    ensures
        r == spec_point_zero(),
{
    (Scalar::zero(), Scalar::zero(), Scalar::zero(), Scalar::one())
}

pub fn vector(x: Scalar, y: Scalar, z: Scalar) -> (r: Tuple)
    ensures
        r == spec_vector(x, y, z),
        spec_tuple_is_vector(r),
{
    proof {
        lemma_point_and_vector(x, y, z);
    }
    (x, y, z, Scalar::zero())
}

pub fn vector_magnitude(v: &Tuple) -> (r: Scalar)
    ensures
        r == spec_vector_magnitude(*v),
{
    v.0.mul(v.0).add(v.1.mul(v.1)).add(v.2.mul(v.2)).sqrt()
}

/// Divides the spatial part by its length. The length is not tested: a
/// vector of length zero gives components that are no numbers.
pub fn vector_normalize(v: &Tuple) -> (r: Tuple)
    ensures
        r == spec_vector_normalize(*v),
        spec_tuple_is_vector(r),
{
    let mag = vector_magnitude(v);
    proof {
        lemma_zero_is_zero();
    }
    (v.0.div(mag), v.1.div(mag), v.2.div(mag), Scalar::zero())
}

pub fn vector_dot_product(t1: &Tuple, t2: &Tuple) -> (r: Scalar)
    ensures
        r == spec_vector_dot_product(*t1, *t2),
{
    t1.0.mul_add(t2.0, t1.1.mul_add(t2.1, t1.2.mul(t2.2)))
}

pub fn vector_cross_product(a: &Tuple, b: &Tuple) -> (r: Tuple)
    ensures
        r == spec_vector_cross_product(*a, *b),
        spec_tuple_is_vector(r),
{
    proof {
        lemma_zero_is_zero();
    }
    vector(
        a.1.mul(b.2).sub(a.2.mul(b.1)),
        a.2.mul(b.0).sub(a.0.mul(b.2)),
        a.0.mul(b.1).sub(a.1.mul(b.0)),
    )
}

pub fn vector_reflect(v: &Tuple, normal: &Tuple) -> (r: Tuple)
    ensures
        r == spec_vector_reflect(*v, *normal),
{
    let dot = vector_dot_product(v, normal);
    let other = scale_tuple(normal, Scalar::two().mul(dot));
    subtract_tuple(v, &other)
}

/// The encoding of zero is a number, and it is zero.
pub proof fn lemma_zero_is_zero()
    ensures
        Scalar::spec_zero().spec_same(Scalar::spec_zero()),
        !Scalar::spec_zero().spec_is_nan(),
        Scalar::spec_zero().rank() == 0,
{
    assert(0u64 & crate::scalar::MAGNITUDE_MASK == 0) by (bit_vector);
    assert(0u64 & crate::scalar::SIGN_MASK == 0) by (bit_vector);
}

/// What `point` builds is a point and what `vector` builds is a vector,
/// whatever the coordinates.
pub proof fn lemma_point_and_vector(x: Scalar, y: Scalar, z: Scalar)
    ensures
        spec_tuple_is_vector(spec_vector(x, y, z)),
        !spec_tuple_is_vector(spec_point(x, y, z)),
{
    assert(0u64 & crate::scalar::MAGNITUDE_MASK == 0) by (bit_vector);
    assert(0u64 & crate::scalar::SIGN_MASK == 0) by (bit_vector);
    assert(0x3FF0_0000_0000_0000u64 & crate::scalar::MAGNITUDE_MASK == 0x3FF0_0000_0000_0000u64)
        by (bit_vector);
    assert(0x3FF0_0000_0000_0000u64 & crate::scalar::SIGN_MASK == 0) by (bit_vector);
}

} // verus!
