use std::sync::Arc;
use vstd::prelude::*;

use crate::utils::random_index;

verus! {

/// An ordered collection of shared shapes, intersected as one shape.
pub struct ShapeList<S> {
    shapes: Vec<Arc<S>>,
}

impl<S> View for ShapeList<S> {
    type V = Seq<S>;

    /// The shapes of the list, in order.
    closed spec fn view(&self) -> Seq<S> {
        self.shapes@.map_values(|a: Arc<S>| *a)
    }
}

impl<S> ShapeList<S> {
    /// An empty list.
    pub fn new() -> (l: Self)
        ensures
            l@ == Seq::<S>::empty(),
    {
        let l = ShapeList { shapes: Vec::new() };
        assert(l@ =~= Seq::<S>::empty());
        l
    }

    /// A list holding the given shapes, in order.
    pub fn from_shapes(shapes: Vec<Arc<S>>) -> (l: Self)
        ensures
            l@ == shapes@.map_values(|a: Arc<S>| *a),
    {
        ShapeList { shapes }
    }

    /// Appends an already shared shape.
    pub fn push(&mut self, shape: Arc<S>)
        ensures
            final(self)@ == old(self)@.push(*shape),
    {
        self.shapes.push(shape);
        assert(self@ =~= old(self)@.push(*shape));
    }

    /// Appends a shape, taking ownership of it.
    pub fn emplace_back(&mut self, shape: S)
        ensures
            final(self)@ == old(self)@.push(shape),
    {
        self.push(Arc::new(shape));
    }

    /// The number of shapes.
    pub fn len(&self) -> (n: usize)
        ensures
            n == self@.len(),
    {
        self.shapes.len()
    }

    /// The shape at position `i`.
    pub fn get(&self, i: usize) -> (s: &S)
        requires
            i < self@.len(),
        ensures
            *s == self@[i as int],
    {
        &*self.shapes[i]
    }

    /// A shape of the list drawn at random; the list must not be
    /// empty.
    pub fn pick_random(&self) -> (p: &S)
        requires
            self@.len() > 0,
        ensures
            exists|i: int| 0 <= i < self@.len() && *p == self@[i],
    {
        let idx = random_index(0, self.shapes.len());
        assert(*self.shapes@[idx as int] == self@[idx as int]);
        &*self.shapes[idx]
    }
}

} // verus!
