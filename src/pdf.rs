use crate::onb::Onb;
use crate::vec3::Vec3;
use vstd::prelude::*;

verus! {

/// Directions drawn uniformly over the whole sphere.
#[derive(Clone, Copy, Debug)]
pub struct SpherePdf;

/// Directions drawn with density `cos(theta) / pi` about the `w` axis of a basis.
#[derive(Clone, Copy, Debug)]
pub struct CosinePdf<S>(pub Onb<S>);

/// Directions from `origin` toward points of `object` (a known light).
#[derive(Clone, Copy, Debug)]
pub struct ObjectPdf<T, S> {
    object: T,
    origin: Vec3<S>,
}

impl<T, S> ObjectPdf<T, S> {
    pub closed spec fn object_spec(&self) -> &T {
        &self.object
    }

    pub closed spec fn origin_spec(&self) -> Vec3<S> {
        self.origin
    }

    pub fn new(object: T, origin: Vec3<S>) -> (r: Self)
        ensures
            *r.object_spec() == object,
            r.origin_spec() == origin,
    {
        ObjectPdf { object, origin }
    }

    pub fn object(&self) -> (r: &T)
        ensures
            r == self.object_spec(),
    {
        &self.object
    }

    pub fn origin(&self) -> (r: &Vec3<S>)
        ensures
            *r == self.origin_spec(),
    {
        &self.origin
    }
}

/// An even mixture of two densities: each draw comes from one of them, chosen
/// by a fair coin, and the density is the average of the two.
#[derive(Clone, Copy, Debug)]
pub struct MixturePdf<A, B>(A, B);

impl<A, B> MixturePdf<A, B> {
    pub closed spec fn first_spec(&self) -> &A {
        &self.0
    }

    pub closed spec fn second_spec(&self) -> &B {
        &self.1
    }

    pub fn new(a: A, b: B) -> (r: Self)
        ensures
            *r.first_spec() == a,
            *r.second_spec() == b,
    {
        MixturePdf(a, b)
    }

    pub fn first(&self) -> (r: &A)
        ensures
            r == self.first_spec(),
    {
        &self.0
    }

    pub fn second(&self) -> (r: &B)
        ensures
            r == self.second_spec(),
    {
        &self.1
    }

    /// Tosses the fair coin that picks which density the next direction comes
    /// from: `true` for the first.
    pub fn draws_first(&self) -> bool {
        rand::random::<bool>()
    }
}

} // verus!
