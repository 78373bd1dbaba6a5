use crate::vec3::{lawful, Scalar, Vec3};
use vstd::prelude::*;

verus! {

/// An orthonormal basis `(u, v, w)`, with `w` along a chosen direction.
#[derive(Clone, Copy, Debug)]
pub struct Onb<S> {
    axis: [Vec3<S>; 3],
}

impl<S: Scalar> Onb<S> {
    pub closed spec fn u_axis(self) -> Vec3<S> {
        self.axis[0]
    }

    pub closed spec fn v_axis(self) -> Vec3<S> {
        self.axis[1]
    }

    pub closed spec fn w_axis(self) -> Vec3<S> {
        self.axis[2]
    }

    /// `c.0 * u + c.1 * v + c.2 * w`: the vector with coordinates `c` in this basis.
    pub open spec fn transform_spec(self, c: Vec3<S>) -> Vec3<S> {
        self.u_axis().scale_spec(c.0).plus(self.v_axis().scale_spec(c.1)).plus(
            self.w_axis().scale_spec(c.2),
        )
    }

    pub open spec fn transform_ok(self, c: Vec3<S>) -> bool {
        let a = self.u_axis().scale_spec(c.0);
        let b = self.v_axis().scale_spec(c.1);
        let d = self.w_axis().scale_spec(c.2);
        &&& self.u_axis().scale_ok(c.0)
        &&& self.v_axis().scale_ok(c.1)
        &&& self.w_axis().scale_ok(c.2)
        &&& a.plus_ok(b)
        &&& a.plus(b).plus_ok(d)
    }

    /// The basis with the given axes.
    pub fn from_axes(u: Vec3<S>, v: Vec3<S>, w: Vec3<S>) -> (r: Self)
        ensures
            r.u_axis() == u,
            r.v_axis() == v,
            r.w_axis() == w,
    {
        Onb { axis: [u, v, w] }
    }

    /// The axis the basis was built around.
    pub fn w(&self) -> (r: Vec3<S>)
        ensures
            r == self.w_axis(),
    {
        self.axis[2]
    }

    /// Maps coordinates in this basis to a vector in world space.
    pub fn transform(&self, c: Vec3<S>) -> (r: Vec3<S>)
        requires
            lawful::<S>(),
            self.transform_ok(c),
        ensures
            r == self.transform_spec(c),
    {
        let a = self.axis[0].scale(c.0);
        let b = self.axis[1].scale(c.1);
        let d = self.axis[2].scale(c.2);
        let ab = Vec3(a.0 + b.0, a.1 + b.1, a.2 + b.2);
        Vec3(ab.0 + d.0, ab.1 + d.1, ab.2 + d.2)
    }
}

} // verus!
