//! Laws that tie the vector operations to their components.

use vstd::prelude::*;
use vstd::std_specs::ops::{DivSpec, MulSpec};
use std::ops::{Add, Div, Mul, Neg, Sub};
use crate::vector::{
    divided, is_difference, is_negation, is_product, is_quotient, is_sum, negated, scaled,
    subtracted, summed, Vector3D,
};

verus! {

/// A vector built from `x`, `y` and `z` holds `x` at position 0, `y` at
/// position 1 and `z` at position 2.
pub proof fn index_of_new<T>(x: T, y: T, z: T)
    ensures
        (Vector3D { x, y, z }).component(0) == x,
        (Vector3D { x, y, z }).component(1) == y,
        (Vector3D { x, y, z }).component(2) == z,
{
}

/// Writing `c` at position `i` changes what is read at `i` to `c` and
/// leaves the other two positions as they were.
pub proof fn read_after_write<T>(v: Vector3D<T>, i: int, j: int, c: T)
    requires
        0 <= i < 3,
        0 <= j < 3,
    ensures
        v.with_component(i, c).component(j) == if i == j {
            c
        } else {
            v.component(j)
        },
{
}

/// Each position of a scaled vector holds that position of the vector times
/// the scalar.
pub proof fn scale_at_each_position<T: Copy + Mul<Output = T>>(
    v: Vector3D<T>,
    s: T,
    r: Vector3D<T>,
    i: int,
)
    requires
        0 <= i < 3,
    ensures
        scaled(v, s, r) ==> is_product(v.component(i), s, r.component(i)),
        T::obeys_mul_spec() ==> v.mul_spec(s).component(i) == v.component(i).mul_spec(s),
{
}

/// Each position of a divided vector holds that position of the vector
/// divided by the scalar.
pub proof fn divide_at_each_position<T: Copy + Div<Output = T>>(
    v: Vector3D<T>,
    s: T,
    r: Vector3D<T>,
    i: int,
)
    requires
        0 <= i < 3,
    ensures
        divided(v, s, r) ==> is_quotient(v.component(i), s, r.component(i)),
        T::obeys_div_spec() ==> v.div_spec(s).component(i) == v.component(i).div_spec(s),
{
}

/// Negating a vector twice gives it back, over a component type whose
/// negation undoes itself.
pub proof fn double_negation<T: Neg<Output = T>>(v: Vector3D<T>, n: Vector3D<T>, r: Vector3D<T>)
    requires
        forall|a: T, b: T, c: T|
            #[trigger] is_negation(a, b) && #[trigger] is_negation(b, c) ==> c == a,
        negated(v, n),
        negated(n, r),
    ensures
        r == v,
{
}

/// Adding `w` to `v` and then subtracting `w` gives `v` back, over a
/// component type in which subtracting what was added restores the value.
pub proof fn add_then_subtract<T: Add<Output = T> + Sub<Output = T>>(
    v: Vector3D<T>,
    w: Vector3D<T>,
    s: Vector3D<T>,
    r: Vector3D<T>,
)
    requires
        forall|a: T, b: T, c: T, d: T|
            #[trigger] is_sum(a, b, c) && #[trigger] is_difference(c, b, d) ==> d == a,
        summed(v, w, s),
        subtracted(s, w, r),
    ensures
        r == v,
{
}

} // verus!
