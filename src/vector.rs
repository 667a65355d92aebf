use vstd::prelude::*;
use vstd::std_specs::ops::{AddSpec, DivSpec, MulSpec, NegSpec, SubSpec};
use std::ops::{Add, Div, Index, IndexMut, Mul, Neg, Sub};

verus! {

/// A vector of three components, `x`, `y` and `z`.
///
/// Any three values of the component type make a vector: there is no
/// invariant. Each operation applies the component type's own operation to
/// each component, so a vector of IEEE-754 numbers carries infinities and
/// NaNs through as its components do.
#[derive(Clone, Copy, Debug, PartialEq, Eq, Structural)]
pub struct Vector3D<T> {
    pub x: T,
    pub y: T,
    pub z: T,
}

impl<T> Vector3D<T> {
    /// The component at position `i`: `x` at 0, `y` at 1, `z` at 2.
    pub open spec fn component(self, i: int) -> T
        recommends
            0 <= i < 3,
    {
        if i == 0 {
            self.x
        } else if i == 1 {
            self.y
        } else {
            self.z
        }
    }

    /// This vector with the component at position `i` replaced by `c`.
    pub open spec fn with_component(self, i: int, c: T) -> Vector3D<T>
        recommends
            0 <= i < 3,
    {
        if i == 0 {
            Vector3D { x: c, ..self }
        } else if i == 1 {
            Vector3D { y: c, ..self }
        } else {
            Vector3D { z: c, ..self }
        }
    }
}

/// `r` is a value that `a * b` may return.
pub open spec fn is_product<T: Mul<Output = T>>(a: T, b: T, r: T) -> bool {
    call_ensures(T::mul, (a, b), r)
}

/// `r` is a value that `a / b` may return.
pub open spec fn is_quotient<T: Div<Output = T>>(a: T, b: T, r: T) -> bool {
    call_ensures(T::div, (a, b), r)
}

/// `r` is a value that `a + b` may return.
pub open spec fn is_sum<T: Add<Output = T>>(a: T, b: T, r: T) -> bool {
    call_ensures(T::add, (a, b), r)
}

/// `r` is a value that `a - b` may return.
pub open spec fn is_difference<T: Sub<Output = T>>(a: T, b: T, r: T) -> bool {
    call_ensures(T::sub, (a, b), r)
}

/// `r` is a value that `-a` may return.
pub open spec fn is_negation<T: Neg<Output = T>>(a: T, r: T) -> bool {
    call_ensures(T::neg, (a,), r)
}

/// Each component of `r` is the matching component of `v` times `s`.
pub open spec fn scaled<T: Mul<Output = T>>(v: Vector3D<T>, s: T, r: Vector3D<T>) -> bool {
    &&& is_product(v.x, s, r.x)
    &&& is_product(v.y, s, r.y)
    &&& is_product(v.z, s, r.z)
}

/// Each component of `r` is the matching component of `v` divided by `s`.
pub open spec fn divided<T: Div<Output = T>>(v: Vector3D<T>, s: T, r: Vector3D<T>) -> bool {
    &&& is_quotient(v.x, s, r.x)
    &&& is_quotient(v.y, s, r.y)
    &&& is_quotient(v.z, s, r.z)
}

/// Each component of `r` is the sum of the matching components of `v` and `w`.
pub open spec fn summed<T: Add<Output = T>>(v: Vector3D<T>, w: Vector3D<T>, r: Vector3D<T>) -> bool {
    &&& is_sum(v.x, w.x, r.x)
    &&& is_sum(v.y, w.y, r.y)
    &&& is_sum(v.z, w.z, r.z)
}

/// Each component of `r` is the matching component of `v` minus that of `w`.
pub open spec fn subtracted<T: Sub<Output = T>>(
    v: Vector3D<T>,
    w: Vector3D<T>,
    r: Vector3D<T>,
) -> bool {
    &&& is_difference(v.x, w.x, r.x)
    &&& is_difference(v.y, w.y, r.y)
    &&& is_difference(v.z, w.z, r.z)
}

/// Each component of `r` is the negation of the matching component of `v`.
pub open spec fn negated<T: Neg<Output = T>>(v: Vector3D<T>, r: Vector3D<T>) -> bool {
    &&& is_negation(v.x, r.x)
    &&& is_negation(v.y, r.y)
    &&& is_negation(v.z, r.z)
}

impl<T: Copy> Vector3D<T> {
    /// Builds the vector with components `x`, `y` and `z`; the same value as
    /// the literal `Vector3D { x, y, z }`.
    pub fn new(x: T, y: T, z: T) -> (r: Vector3D<T>)
        ensures
            r == (Vector3D { x, y, z }),
    {
        Vector3D { x, y, z }
    }
}

impl<T> vstd::std_specs::core::IndexSpecImpl<u32> for Vector3D<T> {
    open spec fn index_req(&self, i: &u32) -> bool {
        *i < 3
    }
}

impl<T> Index<u32> for Vector3D<T> {
    type Output = T;

    /// The component at position `i`: `x` at 0, `y` at 1, `z` at 2. Any other
    /// position is a programming error, ruled out by the precondition.
    fn index(&self, i: u32) -> (r: &T)
        ensures
            *r == self.component(i as int),
    {
        match i {
            0 => &self.x,
            1 => &self.y,
            2 => &self.z,
            // Excluded by the precondition; a caller outside verified code
            // that passes another position stops here.
            _ => None.expect("component position out of bounds"),
        }
    }
}

impl<T> IndexMut<u32> for Vector3D<T> {
    /// A mutable borrow of the component at position `i`; what is written
    /// through it lands in that component and no other.
    fn index_mut(&mut self, i: u32) -> (r: &mut T)
        requires
            i < 3,
        ensures
            *r == old(self).component(i as int),
            *final(self) == old(self).with_component(i as int, *final(r)),
    {
        match i {
            0 => &mut self.x,
            1 => &mut self.y,
            2 => &mut self.z,
            // Excluded by the precondition; a caller outside verified code
            // that passes another position stops here.
            _ => None.expect("component position out of bounds"),
        }
    }
}

impl<T: Copy + Mul<Output = T>> vstd::std_specs::ops::MulSpecImpl<T> for Vector3D<T> {
    open spec fn obeys_mul_spec() -> bool {
        T::obeys_mul_spec()
    }

    open spec fn mul_req(self, s: T) -> bool {
        &&& self.x.mul_req(s)
        &&& self.y.mul_req(s)
        &&& self.z.mul_req(s)
    }

    open spec fn mul_spec(self, s: T) -> Vector3D<T> {
        Vector3D { x: self.x.mul_spec(s), y: self.y.mul_spec(s), z: self.z.mul_spec(s) }
    }
}

impl<T: Copy + Mul<Output = T>> Mul<T> for Vector3D<T> {
    type Output = Vector3D<T>;

    /// Scales each component by `s`.
    fn mul(self, s: T) -> (r: Vector3D<T>)
        ensures
            scaled(self, s, r),
    {
        Vector3D { x: self.x * s, y: self.y * s, z: self.z * s }
    }
}

impl<T: Copy + Div<Output = T>> vstd::std_specs::ops::DivSpecImpl<T> for Vector3D<T> {
    open spec fn obeys_div_spec() -> bool {
        T::obeys_div_spec()
    }

    open spec fn div_req(self, s: T) -> bool {
        &&& self.x.div_req(s)
        &&& self.y.div_req(s)
        &&& self.z.div_req(s)
    }

    open spec fn div_spec(self, s: T) -> Vector3D<T> {
        Vector3D { x: self.x.div_spec(s), y: self.y.div_spec(s), z: self.z.div_spec(s) }
    }
}

impl<T: Copy + Div<Output = T>> Div<T> for Vector3D<T> {
    type Output = Vector3D<T>;

    /// Divides each component by `s`.
    fn div(self, s: T) -> (r: Vector3D<T>)
        ensures
            divided(self, s, r),
    {
        Vector3D { x: self.x / s, y: self.y / s, z: self.z / s }
    }
}

impl<T: Copy + Neg<Output = T>> vstd::std_specs::ops::NegSpecImpl for Vector3D<T> {
    open spec fn obeys_neg_spec() -> bool {
        T::obeys_neg_spec()
    }

    open spec fn neg_req(self) -> bool {
        &&& self.x.neg_req()
        &&& self.y.neg_req()
        &&& self.z.neg_req()
    }

    open spec fn neg_spec(self) -> Vector3D<T> {
        Vector3D { x: self.x.neg_spec(), y: self.y.neg_spec(), z: self.z.neg_spec() }
    }
}

impl<T: Copy + Neg<Output = T>> Neg for Vector3D<T> {
    type Output = Vector3D<T>;

    /// Negates each component.
    fn neg(self) -> (r: Vector3D<T>)
        ensures
            negated(self, r),
    {
        Vector3D { x: self.x.neg(), y: self.y.neg(), z: self.z.neg() }
    }
}

impl<T: Copy + Add<Output = T>> vstd::std_specs::ops::AddSpecImpl for Vector3D<T> {
    open spec fn obeys_add_spec() -> bool {
        T::obeys_add_spec()
    }

    open spec fn add_req(self, o: Vector3D<T>) -> bool {
        &&& self.x.add_req(o.x)
        &&& self.y.add_req(o.y)
        &&& self.z.add_req(o.z)
    }

    open spec fn add_spec(self, o: Vector3D<T>) -> Vector3D<T> {
        Vector3D { x: self.x.add_spec(o.x), y: self.y.add_spec(o.y), z: self.z.add_spec(o.z) }
    }
}

impl<T: Copy + Add<Output = T>> Add for Vector3D<T> {
    type Output = Vector3D<T>;

    /// Adds the two vectors component by component.
    fn add(self, o: Vector3D<T>) -> (r: Vector3D<T>)
        ensures
            summed(self, o, r),
    {
        Vector3D { x: self.x + o.x, y: self.y + o.y, z: self.z + o.z }
    }
}

impl<T: Copy + Sub<Output = T>> vstd::std_specs::ops::SubSpecImpl for Vector3D<T> {
    open spec fn obeys_sub_spec() -> bool {
        T::obeys_sub_spec()
    }

    open spec fn sub_req(self, o: Vector3D<T>) -> bool {
        &&& self.x.sub_req(o.x)
        &&& self.y.sub_req(o.y)
        &&& self.z.sub_req(o.z)
    }

    open spec fn sub_spec(self, o: Vector3D<T>) -> Vector3D<T> {
        Vector3D { x: self.x.sub_spec(o.x), y: self.y.sub_spec(o.y), z: self.z.sub_spec(o.z) }
    }
}

impl<T: Copy + Sub<Output = T>> Sub for Vector3D<T> {
    type Output = Vector3D<T>;

    /// Subtracts `o` from this vector component by component.
    fn sub(self, o: Vector3D<T>) -> (r: Vector3D<T>)
        ensures
            subtracted(self, o, r),
    {
        Vector3D { x: self.x - o.x, y: self.y - o.y, z: self.z - o.z }
    }
}

impl<T: Copy + Mul<Output = T>> Vector3D<T> {
    /// Scales each component by `s`, in place.
    pub fn mul_assign(&mut self, s: T)
        requires
            old(self).mul_req(s),
        ensures
            scaled(*old(self), s, *final(self)),
            T::obeys_mul_spec() ==> *final(self) == old(self).mul_spec(s),
    {
        self.x = self.x * s;
        self.y = self.y * s;
        self.z = self.z * s;
    }
}

impl<T: Copy + Div<Output = T>> Vector3D<T> {
    /// Divides each component by `s`, in place.
    pub fn div_assign(&mut self, s: T)
        requires
            old(self).div_req(s),
        ensures
            divided(*old(self), s, *final(self)),
            T::obeys_div_spec() ==> *final(self) == old(self).div_spec(s),
    {
        self.x = self.x / s;
        self.y = self.y / s;
        self.z = self.z / s;
    }
}

impl<T: Copy + Add<Output = T>> Vector3D<T> {
    /// Adds `o` to this vector component by component, in place.
    pub fn add_assign(&mut self, o: Vector3D<T>)
        requires
            old(self).add_req(o),
        ensures
            summed(*old(self), o, *final(self)),
            T::obeys_add_spec() ==> *final(self) == old(self).add_spec(o),
    {
        self.x = self.x + o.x;
        self.y = self.y + o.y;
        self.z = self.z + o.z;
    }
}

impl<T: Copy + Sub<Output = T>> Vector3D<T> {
    /// Subtracts `o` from this vector component by component, in place.
    pub fn sub_assign(&mut self, o: Vector3D<T>)
        requires
            old(self).sub_req(o),
        ensures
            subtracted(*old(self), o, *final(self)),
            T::obeys_sub_spec() ==> *final(self) == old(self).sub_spec(o),
    {
        self.x = self.x - o.x;
        self.y = self.y - o.y;
        self.z = self.z - o.z;
    }
}

/// `r` is a value that `x * x + y * y` may give for the components of `v`.
pub open spec fn is_planar_square_sum<T: Mul<Output = T> + Add<Output = T>>(
    v: Vector3D<T>,
    r: T,
) -> bool {
    exists|a: T, b: T|
        #![trigger is_product(v.x, v.x, a), is_product(v.y, v.y, b)]
        is_product(v.x, v.x, a) && is_product(v.y, v.y, b) && is_sum(a, b, r)
}

/// `r` is a value that `x * x + y * y + z * z`, summed left to right, may give
/// for the components of `v`.
pub open spec fn is_square_sum<T: Mul<Output = T> + Add<Output = T>>(
    v: Vector3D<T>,
    r: T,
) -> bool {
    exists|ab: T, c: T|
        #![trigger is_planar_square_sum(v, ab), is_product(v.z, v.z, c)]
        is_planar_square_sum(v, ab) && is_product(v.z, v.z, c) && is_sum(ab, c, r)
}

/// Every step of `x * x + y * y + z * z` is defined for the components of `v`.
pub open spec fn square_sum_req<T: Mul<Output = T> + Add<Output = T>>(v: Vector3D<T>) -> bool {
    &&& v.x.mul_req(v.x)
    &&& v.y.mul_req(v.y)
    &&& v.z.mul_req(v.z)
    &&& forall|a: T, b: T|
        is_product(v.x, v.x, a) && is_product(v.y, v.y, b) ==> #[trigger] a.add_req(b)
    &&& forall|ab: T, c: T|
        is_planar_square_sum(v, ab) && is_product(v.z, v.z, c) ==> #[trigger] ab.add_req(c)
}

impl<T: Copy + Mul<Output = T> + Add<Output = T>> Vector3D<T> {
    /// The squared Euclidean length `x * x + y * y + z * z`, summed left to
    /// right; its square root is the vector's magnitude.
    pub fn squared_length(&self) -> (r: T)
        requires
            square_sum_req(*self),
        ensures
            is_square_sum(*self, r),
    {
        let xx = self.x * self.x;
        let yy = self.y * self.y;
        let zz = self.z * self.z;
        assert(is_product(self.x, self.x, xx) && is_product(self.y, self.y, yy));
        let xy = xx + yy;
        assert(is_planar_square_sum(*self, xy));
        assert(is_product(self.z, self.z, zz));
        xy + zz
    }
}

/// Adds `(2, 3, 4)` to itself and compares the sum with `(4, 6, 8)`.
pub fn add_test() -> (r: bool)
    ensures
        r,
{
    let v = Vector3D::new(2i32, 3i32, 4i32);
    v + Vector3D::new(2i32, 3i32, 4i32) == (Vector3D { x: 4i32, y: 6i32, z: 8i32 })
}

} // verus!
