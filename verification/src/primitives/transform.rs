use std::sync::Arc;
use vstd::prelude::*;

verus! {

/// A primitive whose surface normals point the other way.
pub struct FlipFacePrimitive<P> {
    primitive: Arc<P>,
}

impl<P> FlipFacePrimitive<P> {
    pub closed spec fn spec_primitive(&self) -> P {
        *self.primitive
    }

    /// `primitive` with its faces flipped.
    pub fn new(primitive: Arc<P>) -> (f: Self)
        ensures
            f.spec_primitive() == *primitive,
    {
        FlipFacePrimitive { primitive }
    }

    /// The primitive whose faces are flipped.
    pub fn inner(&self) -> (p: &P)
        ensures
            *p == self.spec_primitive(),
    {
        &*self.primitive
    }
}

} // verus!
