use vstd::prelude::*;

use crate::utils::{random_index, swap_elements};

verus! {

broadcast use vstd::seq_lib::group_to_multiset_ensures;

/// The identity arrangement `0, 1, ..., n - 1`.
pub open spec fn identity_perm(n: nat) -> Seq<usize> {
    Seq::new(n, |i: int| i as usize)
}

/// `s` with its entries at positions `a` and `b` exchanged.
pub open spec fn swapped<A>(s: Seq<A>, a: int, b: int) -> Seq<A> {
    s.update(a, s[b]).update(b, s[a])
}

/// `s` after the Fisher-Yates steps for positions `draws.len() - 1` down to
/// `i`: step `k` exchanges position `k` with position `draws[k]`.
pub open spec fn shuffled(s: Seq<usize>, draws: Seq<usize>, i: nat) -> Seq<usize>
    decreases draws.len() - i,
{
    if i >= draws.len() {
        s
    } else {
        swapped(shuffled(s, draws, i + 1), i as int, draws[i as int] as int)
    }
}

/// `draws` are valid Fisher-Yates draws for the first `n` positions: one
/// per position, each at or before its position.
pub open spec fn valid_draws(draws: Seq<usize>, n: nat) -> bool {
    draws.len() == n && forall|k: int| 0 <= k < n ==> draws[k] <= k
}

/// Shuffles the first `draws.len()` entries of `p` with the given draws:
/// for `k` from the last position down to 0, position `k` is exchanged
/// with position `draws[k]`.
pub fn permute_with_draws(p: &mut Vec<usize>, draws: &Vec<usize>)
    requires
        draws@.len() <= old(p)@.len(),
        valid_draws(draws@, draws@.len()),
    ensures
        final(p)@ == shuffled(old(p)@, draws@, 0),
        final(p)@.len() == old(p)@.len(),
        final(p)@.to_multiset() == old(p)@.to_multiset(),
        forall|k: int| draws@.len() <= k < old(p)@.len() ==> final(p)@[k] == old(p)@[k],
{
    let n = draws.len();
    let mut i: usize = n;
    while i > 0
        invariant
            i <= n == draws@.len() <= p@.len(),
            valid_draws(draws@, n as nat),
            p@ == shuffled(old(p)@, draws@, i as nat),
            p@.len() == old(p)@.len(),
            p@.to_multiset() == old(p)@.to_multiset(),
            forall|k: int| n <= k < old(p)@.len() ==> p@[k] == old(p)@[k],
        decreases i,
    {
        i = i - 1;
        let target = draws[i];
        let ghost before = p@;
        swap_elements(p, i, target);
        proof {
            lemma_swap_keeps_multiset(before, i as int, target as int);
        }
    }
}

/// Shuffles the first `n` entries of `p` (Fisher-Yates, from the back):
/// position `i` is exchanged with a randomly drawn position at or before
/// it. The outcome is the shuffle of `p` by some valid draws, so the
/// entries are rearranged, never changed or lost; which draws come out is
/// random.
pub fn permute(p: &mut Vec<usize>, n: usize)
    requires
        n <= old(p)@.len(),
    ensures
        exists|draws: Seq<usize>| valid_draws(draws, n as nat) && final(p)@ == shuffled(old(p)@, draws, 0),
        final(p)@.len() == old(p)@.len(),
        final(p)@.to_multiset() == old(p)@.to_multiset(),
        forall|k: int| n <= k < old(p)@.len() ==> final(p)@[k] == old(p)@[k],
{
    let mut draws: Vec<usize> = Vec::new();
    let mut k: usize = 0;
    while k < n
        invariant
            k <= n,
            draws@.len() == k,
            forall|j: int| 0 <= j < k ==> draws@[j] == 0,
        decreases n - k,
    {
        draws.push(0);
        k = k + 1;
    }
    let mut i: usize = n;
    while i > 0
        invariant
            i <= n,
            draws@.len() == n,
            forall|j: int| 0 <= j < n ==> draws@[j] <= j,
        decreases i,
    {
        i = i - 1;
        let target = random_index(0, i + 1);
        draws.set(i, target);
    }
    permute_with_draws(p, &draws);
}

/// Swapping two entries of a sequence keeps its multiset of entries.
pub proof fn lemma_swap_keeps_multiset<A>(s: Seq<A>, a: int, b: int)
    requires
        0 <= a < s.len(),
        0 <= b < s.len(),
    ensures
        s.update(a, s[b]).update(b, s[a]).to_multiset() == s.to_multiset(),
{
    broadcast use vstd::seq_lib::to_multiset_update;
    broadcast use vstd::multiset::group_multiset_axioms;

    let s1 = s.update(a, s[b]);
    assert(s1.to_multiset() == s.to_multiset().insert(s[b]).remove(s[a]));
    assert(s1.update(b, s[a]).to_multiset() == s1.to_multiset().insert(s[a]).remove(s1[b]));
    if a == b {
        assert(s1 =~= s);
        assert(s1.update(b, s[a]) =~= s);
    } else {
        assert(s1[b] == s[b]);
        assert(s.to_multiset().count(s[a]) > 0) by {
            assert(s.contains(s[a]));
        }
        assert(s.to_multiset().insert(s[b]).remove(s[a]).insert(s[a]).remove(s[b]) =~= s.to_multiset());
    }
}

/// A random arrangement of `0, 1, ..., 255`: every one of these numbers
/// occurs exactly once.
pub fn perlin_generate_perm() -> (p: Vec<usize>)
    ensures
        p@.len() == 256,
        p@.to_multiset() == identity_perm(256).to_multiset(),
{
    let mut p: Vec<usize> = Vec::new();
    let mut i: usize = 0;
    while i < 256
        invariant
            i <= 256,
            p@ == identity_perm(i as nat),
        decreases 256 - i,
    {
        p.push(i);
        i = i + 1;
        assert(p@ =~= identity_perm(i as nat));
    }
    permute(&mut p, 256);
    p
}

/// An arrangement of `0..256` holds only numbers below 256.
pub proof fn lemma_perm_entries_below(p: Seq<usize>)
    requires
        p.to_multiset() == identity_perm(256).to_multiset(),
    ensures
        forall|k: int| 0 <= k < p.len() ==> p[k] < 256,
{
    assert forall|k: int| 0 <= k < p.len() implies p[k] < 256 by {
        assert(p.contains(p[k]));
        assert(identity_perm(256).to_multiset().count(p[k]) > 0);
        assert(identity_perm(256).contains(p[k]));
    }
}

/// Every number below 256 occurs in an arrangement of `0..256`.
pub proof fn lemma_perm_covers(p: Seq<usize>, v: usize)
    requires
        p.to_multiset() == identity_perm(256).to_multiset(),
        v < 256,
    ensures
        p.contains(v),
{
    assert(identity_perm(256)[v as int] == v);
    assert(identity_perm(256).contains(v));
    assert(identity_perm(256).to_multiset().count(v) > 0);
    assert(p.to_multiset().count(v) > 0);
}

/// The gradient table position for lattice point (i, j, k): the exclusive
/// or of the three permutation entries at the coordinates modulo 256.
pub open spec fn lattice_hash(px: Seq<usize>, py: Seq<usize>, pz: Seq<usize>, i: usize, j: usize, k: usize) -> usize {
    px[(i & 255) as int] ^ py[(j & 255) as int] ^ pz[(k & 255) as int]
}

/// Perlin noise tables: 256 gradients and three arrangements of `0..256`.
pub struct Perlin<V> {
    ran_vec: Vec<V>,
    perm_x: Vec<usize>,
    perm_y: Vec<usize>,
    perm_z: Vec<usize>,
}

impl<V: Copy> Perlin<V> {
    /// The tables are complete: 256 gradients and three arrangements of `0..256`.
    pub closed spec fn wf(&self) -> bool {
        &&& self.ran_vec@.len() == 256
        &&& self.perm_x@.len() == 256 && self.perm_x@.to_multiset() == identity_perm(256).to_multiset()
        &&& self.perm_y@.len() == 256 && self.perm_y@.to_multiset() == identity_perm(256).to_multiset()
        &&& self.perm_z@.len() == 256 && self.perm_z@.to_multiset() == identity_perm(256).to_multiset()
    }

    pub closed spec fn spec_gradients(&self) -> Seq<V> {
        self.ran_vec@
    }

    pub closed spec fn spec_perms(&self) -> (Seq<usize>, Seq<usize>, Seq<usize>) {
        (self.perm_x@, self.perm_y@, self.perm_z@)
    }

    /// Noise tables over the 256 gradients `ran_vec`, with three freshly
    /// drawn arrangements of `0..256`.
    pub fn new(ran_vec: Vec<V>) -> (p: Self)
        requires
            ran_vec@.len() == 256,
        ensures
            p.wf(),
            p.spec_gradients() == ran_vec@,
    {
        Perlin {
            ran_vec,
            perm_x: perlin_generate_perm(),
            perm_y: perlin_generate_perm(),
            perm_z: perlin_generate_perm(),
        }
    }

    /// The gradient of lattice point (i, j, k).
    pub fn gradient_at(&self, i: usize, j: usize, k: usize) -> (g: V)
        requires
            self.wf(),
        ensures
            lattice_hash(self.spec_perms().0, self.spec_perms().1, self.spec_perms().2, i, j, k) < 256,
            g == self.spec_gradients()[lattice_hash(self.spec_perms().0, self.spec_perms().1, self.spec_perms().2, i, j, k) as int],
    {
        proof {
            lemma_perm_entries_below(self.perm_x@);
            lemma_perm_entries_below(self.perm_y@);
            lemma_perm_entries_below(self.perm_z@);
        }
        let ii = i & 255;
        let jj = j & 255;
        let kk = k & 255;
        assert(ii < 256 && jj < 256 && kk < 256) by (bit_vector)
            requires
                ii == i & 255,
                jj == j & 255,
                kk == k & 255,
        ;
        let a = self.perm_x[ii];
        let b = self.perm_y[jj];
        let c = self.perm_z[kk];
        let h = a ^ b ^ c;
        assert(h < 256) by (bit_vector)
            requires
                a < 256,
                b < 256,
                c < 256,
                h == a ^ b ^ c,
        ;
        self.ran_vec[h]
    }

    /// The gradients of the eight corners of the lattice cell whose lowest
    /// corner is (i, j, k), indexed by the offsets (di, dj, dk) in {0, 1};
    /// lattice coordinates wrap around modulo 256.
    pub fn corner_gradients(&self, i: usize, j: usize, k: usize) -> (c: [[[V; 2]; 2]; 2])
        requires
            self.wf(),
            i < usize::MAX,
            j < usize::MAX,
            k < usize::MAX,
        ensures
            forall|di: int, dj: int, dk: int|
                0 <= di < 2 && 0 <= dj < 2 && 0 <= dk < 2 ==> c[di][dj][dk] == self.spec_gradients()[lattice_hash(
                    self.spec_perms().0,
                    self.spec_perms().1,
                    self.spec_perms().2,
                    (i + di) as usize,
                    (j + dj) as usize,
                    (k + dk) as usize,
                ) as int],
    {
        let c000 = self.gradient_at(i, j, k);
        let c001 = self.gradient_at(i, j, k + 1);
        let c010 = self.gradient_at(i, j + 1, k);
        let c011 = self.gradient_at(i, j + 1, k + 1);
        let c100 = self.gradient_at(i + 1, j, k);
        let c101 = self.gradient_at(i + 1, j, k + 1);
        let c110 = self.gradient_at(i + 1, j + 1, k);
        let c111 = self.gradient_at(i + 1, j + 1, k + 1);
        [[[c000, c001], [c010, c011]], [[c100, c101], [c110, c111]]]
    }
}

} // verus!
