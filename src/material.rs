use crate::vec3::Vec3;
use vstd::prelude::*;

verus! {

/// A surface that neither scatters nor emits.
#[derive(Clone, Copy, Debug)]
pub struct DummyMaterial;

/// A diffuse surface: scatters cosine-weighted around the normal, filtered by `albedo`.
#[derive(Clone, Copy, Debug)]
pub struct Lambertian<S> {
    pub albedo: Vec3<S>,
}

impl<S> Lambertian<S> {
    pub fn new(albedo: Vec3<S>) -> (r: Self)
        ensures
            r.albedo == albedo,
    {
        Lambertian { albedo }
    }
}

/// A one-sided emitter of a fixed color; it never scatters.
#[derive(Clone, Copy, Debug)]
pub struct DiffuseLight<S>(pub Vec3<S>);

impl<S: Copy> DiffuseLight<S> {
    /// The light given off at a hit: the color on the front face, none on the back.
    pub fn emitted(&self, front_face: bool) -> (r: Option<Vec3<S>>)
        ensures
            front_face ==> r == Some(self.0),
            !front_face ==> r is None,
    {
        if front_face {
            Some(self.0)
        } else {
            None
        }
    }
}

} // verus!
