use std::ops::{Add, Mul, Neg, Sub};
use rand::distributions::{Distribution, Standard};
use vstd::prelude::*;
use vstd::std_specs::ops::{AddSpec, MulSpec, NegSpec, SubSpec};

verus! {

/// Relies on rand::random: one draw of `T`'s standard distribution from the
/// thread-local generator. Nothing is promised of the value.
pub assume_specification<T>[ rand::random::<T> ]() -> (r: T)
    where
        Standard: Distribution<T>,
;

/// What a vector's components must offer: copying and the ring operations.
pub trait Scalar: Copy + Add<Output = Self> + Sub<Output = Self> + Mul<Output = Self> + Neg<
    Output = Self,
> {

}

impl<S: Copy + Add<Output = S> + Sub<Output = S> + Mul<Output = S> + Neg<Output = S>> Scalar for S {

}

/// The scalar's `+`, `-`, `*` and unary `-` return what their specifications say.
pub open spec fn lawful<S: Scalar>() -> bool {
    &&& <S as AddSpec>::obeys_add_spec()
    &&& <S as SubSpec>::obeys_sub_spec()
    &&& <S as MulSpec>::obeys_mul_spec()
    &&& <S as NegSpec>::obeys_neg_spec()
}

/// A triple of scalars, used as a point, a direction or a linear RGB color.
#[derive(Clone, Copy, Debug)]
pub struct Vec3<S>(pub S, pub S, pub S);

/// `a * b + c * d + e * f`, in the scalar's own arithmetic.
pub open spec fn sum3<S: Scalar>(a: S, b: S, c: S, d: S, e: S, f: S) -> S {
    a.mul_spec(b).add_spec(c.mul_spec(d)).add_spec(e.mul_spec(f))
}

/// Every operation in `sum3(a, b, c, d, e, f)` is defined.
pub open spec fn sum3_ok<S: Scalar>(a: S, b: S, c: S, d: S, e: S, f: S) -> bool {
    &&& a.mul_req(b)
    &&& c.mul_req(d)
    &&& e.mul_req(f)
    &&& a.mul_spec(b).add_req(c.mul_spec(d))
    &&& a.mul_spec(b).add_spec(c.mul_spec(d)).add_req(e.mul_spec(f))
}

/// `a * b - c * d`, in the scalar's own arithmetic.
pub open spec fn det2<S: Scalar>(a: S, b: S, c: S, d: S) -> S {
    a.mul_spec(b).sub_spec(c.mul_spec(d))
}

pub open spec fn det2_ok<S: Scalar>(a: S, b: S, c: S, d: S) -> bool {
    &&& a.mul_req(b)
    &&& c.mul_req(d)
    &&& a.mul_spec(b).sub_req(c.mul_spec(d))
}

impl<S: Scalar> Vec3<S> {
    pub open spec fn dot_spec(self, o: Self) -> S {
        sum3(self.0, o.0, self.1, o.1, self.2, o.2)
    }

    pub open spec fn dot_ok(self, o: Self) -> bool {
        sum3_ok(self.0, o.0, self.1, o.1, self.2, o.2)
    }

    pub open spec fn cross_spec(self, o: Self) -> Self {
        Vec3(
            det2(self.1, o.2, self.2, o.1),
            det2(self.2, o.0, self.0, o.2),
            det2(self.0, o.1, self.1, o.0),
        )
    }

    pub open spec fn cross_ok(self, o: Self) -> bool {
        &&& det2_ok(self.1, o.2, self.2, o.1)
        &&& det2_ok(self.2, o.0, self.0, o.2)
        &&& det2_ok(self.0, o.1, self.1, o.0)
    }

    /// Every component multiplied by `t`.
    pub open spec fn scale_spec(self, t: S) -> Self {
        Vec3(self.0.mul_spec(t), self.1.mul_spec(t), self.2.mul_spec(t))
    }

    pub open spec fn scale_ok(self, t: S) -> bool {
        self.0.mul_req(t) && self.1.mul_req(t) && self.2.mul_req(t)
    }

    pub open spec fn plus(self, o: Self) -> Self {
        Vec3(self.0.add_spec(o.0), self.1.add_spec(o.1), self.2.add_spec(o.2))
    }

    pub open spec fn plus_ok(self, o: Self) -> bool {
        self.0.add_req(o.0) && self.1.add_req(o.1) && self.2.add_req(o.2)
    }

    pub open spec fn minus(self, o: Self) -> Self {
        Vec3(self.0.sub_spec(o.0), self.1.sub_spec(o.1), self.2.sub_spec(o.2))
    }

    pub open spec fn minus_ok(self, o: Self) -> bool {
        self.0.sub_req(o.0) && self.1.sub_req(o.1) && self.2.sub_req(o.2)
    }

    /// The mirror image of `self` in the plane with normal `n`: `self - n * (2 (self . n))`.
    pub open spec fn reflect_spec(self, n: Self) -> Self {
        let d = self.dot_spec(n);
        self.minus(n.scale_spec(d.add_spec(d)))
    }

    pub open spec fn reflect_ok(self, n: Self) -> bool {
        let d = self.dot_spec(n);
        &&& self.dot_ok(n)
        &&& d.add_req(d)
        &&& n.scale_ok(d.add_spec(d))
        &&& self.minus_ok(n.scale_spec(d.add_spec(d)))
    }

    /// Three independent draws of the scalar's standard distribution (for a
    /// floating-point scalar: uniform in `[0, 1)`).
    pub fn random() -> (r: Self)
        where
            Standard: Distribution<S>,
    {
        Vec3(rand::random(), rand::random(), rand::random())
    }

    pub fn new(x: S, y: S, z: S) -> (r: Self)
        ensures
            r.0 == x && r.1 == y && r.2 == z,
    {
        Vec3(x, y, z)
    }

    /// All three components equal to `x`.
    pub fn splat(x: S) -> (r: Self)
        ensures
            r.0 == x && r.1 == x && r.2 == x,
    {
        Vec3(x, x, x)
    }

    pub fn dot(self, o: Self) -> (r: S)
        requires
            lawful::<S>(),
            self.dot_ok(o),
        ensures
            r == self.dot_spec(o),
    {
        self.0 * o.0 + self.1 * o.1 + self.2 * o.2
    }

    /// The squared Euclidean length: the vector's dot product with itself.
    pub fn length_squared(self) -> (r: S)
        requires
            lawful::<S>(),
            self.dot_ok(self),
        ensures
            r == self.dot_spec(self),
    {
        self.0 * self.0 + self.1 * self.1 + self.2 * self.2
    }

    pub fn cross(self, o: Self) -> (r: Self)
        requires
            lawful::<S>(),
            self.cross_ok(o),
        ensures
            r == self.cross_spec(o),
    {
        Vec3(self.1 * o.2 - self.2 * o.1, self.2 * o.0 - self.0 * o.2, self.0 * o.1 - self.1 * o.0)
    }

    /// Every component multiplied by `t`.
    pub fn scale(self, t: S) -> (r: Self)
        requires
            lawful::<S>(),
            self.scale_ok(t),
        ensures
            r == self.scale_spec(t),
    {
        Vec3(self.0 * t, self.1 * t, self.2 * t)
    }

    /// The mirror image of `self` about the plane with normal `n`.
    pub fn reflect(self, n: Self) -> (r: Self)
        requires
            lawful::<S>(),
            self.reflect_ok(n),
        ensures
            r == self.reflect_spec(n),
    {
        let d = self.dot(n);
        let s = n.scale(d + d);
        Vec3(self.0 - s.0, self.1 - s.1, self.2 - s.2)
    }
}

impl<S: Scalar> Add for Vec3<S> {
    type Output = Self;

    fn add(self, o: Self) -> (r: Self) {
        Vec3(self.0 + o.0, self.1 + o.1, self.2 + o.2)
    }
}

impl<S: Scalar> vstd::std_specs::ops::AddSpecImpl for Vec3<S> {
    open spec fn obeys_add_spec() -> bool {
        lawful::<S>()
    }

    open spec fn add_req(self, o: Self) -> bool {
        lawful::<S>() && self.plus_ok(o)
    }

    open spec fn add_spec(self, o: Self) -> Self {
        self.plus(o)
    }
}

impl<S: Scalar> Sub for Vec3<S> {
    type Output = Self;

    fn sub(self, o: Self) -> (r: Self) {
        Vec3(self.0 - o.0, self.1 - o.1, self.2 - o.2)
    }
}

impl<S: Scalar> vstd::std_specs::ops::SubSpecImpl for Vec3<S> {
    open spec fn obeys_sub_spec() -> bool {
        lawful::<S>()
    }

    open spec fn sub_req(self, o: Self) -> bool {
        lawful::<S>() && self.minus_ok(o)
    }

    open spec fn sub_spec(self, o: Self) -> Self {
        self.minus(o)
    }
}

/// Componentwise product, as used to filter a color by an attenuation.
impl<S: Scalar> Mul for Vec3<S> {
    type Output = Self;

    fn mul(self, o: Self) -> (r: Self) {
        Vec3(self.0 * o.0, self.1 * o.1, self.2 * o.2)
    }
}

impl<S: Scalar> vstd::std_specs::ops::MulSpecImpl for Vec3<S> {
    open spec fn obeys_mul_spec() -> bool {
        lawful::<S>()
    }

    open spec fn mul_req(self, o: Self) -> bool {
        lawful::<S>() && self.0.mul_req(o.0) && self.1.mul_req(o.1) && self.2.mul_req(o.2)
    }

    open spec fn mul_spec(self, o: Self) -> Self {
        Vec3(self.0.mul_spec(o.0), self.1.mul_spec(o.1), self.2.mul_spec(o.2))
    }
}

impl<S: Scalar> Neg for Vec3<S> {
    type Output = Self;

    fn neg(self) -> (r: Self) {
        Vec3(self.0.neg(), self.1.neg(), self.2.neg())
    }
}

impl<S: Scalar> vstd::std_specs::ops::NegSpecImpl for Vec3<S> {
    open spec fn obeys_neg_spec() -> bool {
        lawful::<S>()
    }

    open spec fn neg_req(self) -> bool {
        lawful::<S>() && self.0.neg_req() && self.1.neg_req() && self.2.neg_req()
    }

    open spec fn neg_spec(self) -> Self {
        Vec3(self.0.neg_spec(), self.1.neg_spec(), self.2.neg_spec())
    }
}

} // verus!
