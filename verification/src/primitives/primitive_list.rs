use std::sync::Arc;
use vstd::prelude::*;

use crate::utils::{random_index, share};

verus! {

/// An ordered collection of shared primitives, intersected one by one.
pub struct PrimitiveList<P> {
    items: Vec<Arc<P>>,
}

impl<P> View for PrimitiveList<P> {
    type V = Seq<P>;

    /// The primitives of the list, in order.
    closed spec fn view(&self) -> Seq<P> {
        self.items@.map_values(|a: Arc<P>| *a)
    }
}

impl<P> PrimitiveList<P> {
    /// An empty list.
    pub fn new() -> (l: Self)
        ensures
            l@ == Seq::<P>::empty(),
    {
        let l = PrimitiveList { items: Vec::new() };
        assert(l@ =~= Seq::<P>::empty());
        l
    }

    /// A list sharing the primitives of `list`, in the same order.
    pub fn from_slice(list: &[Arc<P>]) -> (l: Self)
        ensures
            l@ == list@.map_values(|a: Arc<P>| *a),
    {
        let mut items: Vec<Arc<P>> = Vec::new();
        let mut i: usize = 0;
        while i < list.len()
            invariant
                i <= list@.len(),
                items@.len() == i,
                forall|j: int| 0 <= j < i ==> *items@[j] == *list@[j],
            decreases list@.len() - i,
        {
            items.push(share(&list[i]));
            i = i + 1;
        }
        let l = PrimitiveList { items };
        assert(l@ =~= list@.map_values(|a: Arc<P>| *a));
        l
    }

    /// Appends a primitive, taking ownership of it.
    pub fn add(&mut self, primitive: P)
        ensures
            final(self)@ == old(self)@.push(primitive),
    {
        self.items.push(Arc::new(primitive));
        assert(self@ =~= old(self)@.push(primitive));
    }

    /// The number of primitives.
    pub fn len(&self) -> (n: usize)
        ensures
            n == self@.len(),
    {
        self.items.len()
    }

    /// The primitive at position `i`.
    pub fn get(&self, i: usize) -> (p: &P)
        requires
            i < self@.len(),
        ensures
            *p == self@[i as int],
    {
        &*self.items[i]
    }

    /// A primitive of the list drawn at random; the list must not be
    /// empty.
    pub fn pick_random(&self) -> (p: &P)
        requires
            self@.len() > 0,
        ensures
            exists|i: int| 0 <= i < self@.len() && *p == self@[i],
    {
        let idx = random_index(0, self.items.len());
        assert(*self.items@[idx as int] == self@[idx as int]);
        &*self.items[idx]
    }
}

} // verus!
