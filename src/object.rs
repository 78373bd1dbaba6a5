use vstd::prelude::*;

verus! {

/// An object that nothing hits and whose bounding box is empty.
#[derive(Clone, Copy, Debug)]
pub struct DummyObject;

} // verus!
