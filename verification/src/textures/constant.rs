use vstd::prelude::*;

verus! {

/// A texture with the same value everywhere.
pub struct ConstantTexture<V> {
    value: V,
}

impl<V: Copy> ConstantTexture<V> {
    pub closed spec fn spec_value(&self) -> V {
        self.value
    }

    /// The texture whose value is `value` everywhere.
    pub fn new(value: V) -> (t: Self)
        ensures
            t.spec_value() == value,
    {
        ConstantTexture { value }
    }

    /// The texture's value, at any point.
    pub fn evaluate(&self) -> (v: V)
        ensures
            v == self.spec_value(),
    {
        self.value
    }
}

} // verus!
