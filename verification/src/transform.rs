use vstd::prelude::*;

verus! {

/// One elementary transformation, as written in a scene description.
/// `T` is the renderer's scalar type.
#[derive(Clone, Copy, Debug)]
pub enum TransformConfig<T> {
    Translate { offset: [T; 3] },
    /// Rotation about `axis` by `angle` degrees.
    Rotate { axis: [T; 3], angle: T },
    Scale { scale: [T; 3] },
}

/// An object-to-world transformation, kept as the sequence of elementary
/// transformations that make it up, in the order in which they act on a
/// point: `ops[0]` acts first.
///
/// The matrix product `a * b` (apply `b`, then `a`) is the sequence of
/// `b` followed by the sequence of `a`; the identity is the empty sequence.
pub struct Transform<T> {
    pub ops: Vec<TransformConfig<T>>,
}

impl<T: Copy> Transform<T> {
    pub open spec fn view(&self) -> Seq<TransformConfig<T>> {
        self.ops@
    }

    /// The transformation that leaves every point where it is.
    pub fn identity() -> (t: Self)
        ensures
            t.view() == Seq::<TransformConfig<T>>::empty(),
    {
        Transform { ops: Vec::new() }
    }

    /// The transformation made of the given elementary steps, in order.
    pub fn from_ops(ops: &[TransformConfig<T>]) -> (t: Self)
        ensures
            t.view() == ops@,
    {
        let mut out: Vec<TransformConfig<T>> = Vec::new();
        let mut i: usize = 0;
        while i < ops.len()
            invariant
                i <= ops@.len(),
                out@ == ops@.subrange(0, i as int),
            decreases ops@.len() - i,
        {
            out.push(ops[i]);
            i = i + 1;
        }
        Transform { ops: out }
    }

    /// A copy of this transformation.
    pub fn duplicate(&self) -> (t: Self)
        ensures
            t.view() == self.view(),
    {
        Self::from_ops(self.ops.as_slice())
    }

    /// `self * inner`: first `inner`, then `self`.
    pub fn then_after(&self, inner: &Self) -> (t: Self)
        ensures
            t.view() == inner.view() + self.view(),
    {
        let mut out = inner.duplicate();
        let mut i: usize = 0;
        while i < self.ops.len()
            invariant
                i <= self.ops@.len(),
                out.view() == inner.view() + self.ops@.subrange(0, i as int),
            decreases self.ops@.len() - i,
        {
            out.ops.push(self.ops[i]);
            i = i + 1;
        }
        out
    }
}

} // verus!
