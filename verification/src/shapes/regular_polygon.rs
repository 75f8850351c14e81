use vstd::prelude::*;

use super::shape_list::ShapeList;
use super::triangle::{create_triangles, lemma_max_index_below, triangulates, Triangle};
use crate::transform::Transform;

verus! {

/// Index `j` of the fan triangulation of a polygon with `n_sides` rim
/// vertices numbered 1..=n_sides around the centre vertex 0: triangle `i`
/// is (0, i + 1, i + 2), the last one closing back to vertex 1.
pub open spec fn fan_index(n_sides: int, j: int) -> usize {
    let i = j / 3;
    if j % 3 == 0 {
        0usize
    } else if j % 3 == 1 {
        (i + 1) as usize
    } else if i + 1 == n_sides {
        1usize
    } else {
        (i + 2) as usize
    }
}

/// The vertex indices of the fan triangulation of an `n_sides`-gon.
pub open spec fn fan_indices(n_sides: nat) -> Seq<usize> {
    Seq::new(3 * n_sides, |j: int| fan_index(n_sides as int, j))
}

/// The vertex indices of the triangles (0, i, i + 1), i = 1..=n_sides, of a
/// regular polygon, vertex n_sides + 1 being vertex 1 again.
pub fn polygon_fan_indices(n_sides: usize) -> (v: Vec<usize>)
    requires
        n_sides <= usize::MAX / 3,
    ensures
        v@ == fan_indices(n_sides as nat),
{
    let mut indices: Vec<usize> = Vec::new();
    let mut i: usize = 1;
    while i <= n_sides
        invariant
            1 <= i <= n_sides + 1,
            n_sides <= usize::MAX / 3,
            indices@.len() == 3 * (i - 1),
            forall|j: int| 0 <= j < indices@.len() ==> indices@[j] == fan_index(n_sides as int, j),
        decreases n_sides + 1 - i,
    {
        let ghost before = indices@;
        indices.push(0);
        indices.push(i);
        if i == n_sides {
            indices.push(1);
        } else {
            indices.push(i + 1);
        }
        assert forall|j: int| 0 <= j < indices@.len() implies indices@[j] == fan_index(n_sides as int, j) by {
            if j >= before.len() {
                assert(j / 3 == i - 1);
            } else {
                assert(indices@[j] == before[j]);
            }
        }
        i = i + 1;
    }
    assert(indices@ =~= fan_indices(n_sides as nat));
    indices
}

/// A regular polygon in its own plane, made of one triangle per side
/// fanning out from its centre.
pub struct RegularPolygon<T> {
    triangles: ShapeList<Triangle<T>>,
}

impl<T: Copy> RegularPolygon<T> {
    pub closed spec fn spec_triangles(&self) -> Seq<Triangle<T>> {
        self.triangles@
    }

    /// The polygon with the given centre and rim vertices, the rim in order
    /// around the centre, placed by `object_to_world`: vertex 0 is the
    /// centre and vertex `i` the `i`-th rim vertex. A polygon has at least
    /// three sides.
    pub fn new(center: [T; 3], rim: Vec<[T; 3]>, object_to_world: Transform<T>) -> (p: Self)
        requires
            rim@.len() >= 3,
            rim@.len() < usize::MAX / 3,
        ensures
            triangulates(
                p.spec_triangles(),
                fan_indices(rim@.len()),
                seq![center] + rim@,
                object_to_world.view(),
            ),
    {
        let n_sides = rim.len();
        let mut positions: Vec<[T; 3]> = vec![center];
        let mut i: usize = 0;
        while i < n_sides
            invariant
                i <= n_sides == rim@.len(),
                positions@ == seq![center] + rim@.subrange(0, i as int),
            decreases n_sides - i,
        {
            positions.push(rim[i]);
            i = i + 1;
        }
        assert(rim@.subrange(0, n_sides as int) =~= rim@);
        let indices = polygon_fan_indices(n_sides);
        proof {
            assert forall|j: int| 0 <= j < indices@.len() implies indices@[j] < n_sides + 1 by {
                assert(j / 3 < n_sides) by (nonlinear_arith)
                    requires 0 <= j < 3 * n_sides;
            }
            lemma_max_index_below(indices@, (n_sides + 1) as nat);
            assert(indices@.len() % 3 == 0);
        }
        match create_triangles(indices, positions, object_to_world) {
            Ok(triangles) => RegularPolygon { triangles },
            Err(_) => {
                proof {
                    assert(false);
                }
                RegularPolygon { triangles: ShapeList::new() }
            },
        }
    }

    /// The triangles making up the polygon.
    pub fn triangles(&self) -> (r: &ShapeList<Triangle<T>>)
        ensures
            r@ == self.spec_triangles(),
    {
        &self.triangles
    }
}

} // verus!
