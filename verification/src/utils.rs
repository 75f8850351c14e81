use std::sync::Arc;
use vstd::prelude::*;

verus! {

/// A randomly drawn index in `low..high`.
///
/// Calls `fastrand::usize` on the half-open range; the crate documents that
/// the result lies in the range and that an empty range panics, which the
/// `requires` excludes. Which value of the range comes out depends on the
/// thread's random state and is not stated.
#[verifier::external_body]
pub(crate) fn random_index(low: usize, high: usize) -> (r: usize)
    requires
        low < high,
    ensures
        low <= r < high,
{
    fastrand::usize(low..high)
}

/// Another handle to the value behind `a`.
///
/// Calls `Arc::clone`, which std documents as making a new pointer to the
/// same allocation; the contract states that both handles show the same
/// value.
#[verifier::external_body]
pub(crate) fn share<T>(a: &Arc<T>) -> (r: Arc<T>)
    ensures
        *r == **a,
{
    Arc::clone(a)
}

/// Swaps two elements of a vector.
///
/// Calls `<[T]>::swap`, which std documents as swapping the elements at the
/// two positions and panicking when either is out of bounds (excluded by
/// the `requires`).
#[verifier::external_body]
pub(crate) fn swap_elements<T>(v: &mut Vec<T>, a: usize, b: usize)
    requires
        a < old(v)@.len(),
        b < old(v)@.len(),
    ensures
        final(v)@ == old(v)@.update(a as int, old(v)@[b as int]).update(b as int, old(v)@[a as int]),
{
    v.as_mut_slice().swap(a, b)
}

/// A copy of `v`, element by element.
pub fn copied<A: Copy>(v: &Vec<A>) -> (r: Vec<A>)
    ensures
        r@ == v@,
{
    let mut r: Vec<A> = Vec::new();
    let mut i: usize = 0;
    while i < v.len()
        invariant
            i <= v@.len(),
            r@ == v@.subrange(0, i as int),
        decreases v@.len() - i,
    {
        r.push(v[i]);
        i = i + 1;
    }
    assert(v@.subrange(0, v@.len() as int) =~= v@);
    r
}

} // verus!
