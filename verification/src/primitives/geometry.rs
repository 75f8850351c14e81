use std::sync::Arc;
use vstd::prelude::*;

verus! {

/// A shape together with the material its surface is made of.
pub struct GeometricPrimitive<S, M> {
    pub shape: Arc<S>,
    pub material: Arc<M>,
}

impl<S, M> GeometricPrimitive<S, M> {
    /// The primitive made of `shape` and `material`.
    pub fn new(shape: Arc<S>, material: Arc<M>) -> (p: Self)
        ensures
            *p.shape == *shape,
            *p.material == *material,
    {
        GeometricPrimitive { shape, material }
    }
}

} // verus!
