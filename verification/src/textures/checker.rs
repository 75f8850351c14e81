use std::sync::Arc;
use vstd::prelude::*;

verus! {

/// A texture alternating between two textures in a three-dimensional
/// checker pattern.
pub struct CheckerTexture<Tx> {
    odd: Arc<Tx>,
    even: Arc<Tx>,
}

impl<Tx> CheckerTexture<Tx> {
    pub closed spec fn spec_odd(&self) -> Tx {
        *self.odd
    }

    pub closed spec fn spec_even(&self) -> Tx {
        *self.even
    }

    /// The checker pattern of `odd` and `even`.
    pub fn new(odd: Arc<Tx>, even: Arc<Tx>) -> (t: Self)
        ensures
            t.spec_odd() == *odd,
            t.spec_even() == *even,
    {
        CheckerTexture { odd, even }
    }

    /// The texture in force at a point where the product of the sines of
    /// ten times each coordinate is negative (`sines_negative`) or not:
    /// the odd texture in the first case, the even one otherwise.
    pub fn select(&self, sines_negative: bool) -> (t: &Tx)
        ensures
            *t == (if sines_negative { self.spec_odd() } else { self.spec_even() }),
    {
        if sines_negative {
            &*self.odd
        } else {
            &*self.even
        }
    }
}

} // verus!
