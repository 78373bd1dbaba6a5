use crate::vec3::{lawful, Scalar, Vec3};
use vstd::prelude::*;

verus! {

/// A half-line `origin + t * direction`; the direction need not have unit length.
#[derive(Clone, Copy, Debug)]
pub struct Ray<S> {
    pub origin: Vec3<S>,
    pub direction: Vec3<S>,
}

impl<S: Scalar> Ray<S> {
    pub open spec fn at_spec(self, t: S) -> Vec3<S> {
        self.origin.plus(self.direction.scale_spec(t))
    }

    /// The point at parameter `t` along the ray.
    pub fn at(self, t: S) -> (r: Vec3<S>)
        requires
            lawful::<S>(),
            self.direction.scale_ok(t),
            self.origin.plus_ok(self.direction.scale_spec(t)),
        ensures
            r == self.at_spec(t),
    {
        let d = self.direction.scale(t);
        Vec3(self.origin.0 + d.0, self.origin.1 + d.1, self.origin.2 + d.2)
    }
}

} // verus!
