use vstd::prelude::*;

use super::shape_list::ShapeList;
use super::triangle::{create_triangles, lemma_max_index_below, triangulates, Triangle};
use crate::transform::Transform;

verus! {

/// The eight corners of the axis-aligned box spanned by `p_min` and
/// `p_max`; corner `i` takes its x from `p_max` when bit 2 of `i` is set,
/// its y when bit 1 is set and its z when bit 0 is set.
pub open spec fn cube_corners<T>(p_min: [T; 3], p_max: [T; 3]) -> Seq<[T; 3]> {
    seq![
        [p_min[0], p_min[1], p_min[2]],
        [p_min[0], p_min[1], p_max[2]],
        [p_min[0], p_max[1], p_min[2]],
        [p_min[0], p_max[1], p_max[2]],
        [p_max[0], p_min[1], p_min[2]],
        [p_max[0], p_min[1], p_max[2]],
        [p_max[0], p_max[1], p_min[2]],
        [p_max[0], p_max[1], p_max[2]],
    ]
}

/// The twelve triangles (two per face) of a box, as corner numbers.
pub open spec fn cube_indices() -> Seq<usize> {
    seq![
        0usize, 1, 2, 1, 3, 2, 4, 6, 5, 5, 6, 7, 0, 2, 4, 4, 2, 6, 1, 5, 3, 5, 7, 3, 0, 4, 1, 4, 5,
        1, 2, 3, 6, 3, 7, 6,
    ]
}

/// An axis-aligned box, made of twelve triangles.
pub struct Cube<T> {
    triangles: ShapeList<Triangle<T>>,
}

impl<T: Copy> Cube<T> {
    pub closed spec fn spec_triangles(&self) -> Seq<Triangle<T>> {
        self.triangles@
    }

    /// The box with opposite corners `p_min` and `p_max`, placed by
    /// `object_to_world`.
    pub fn new(p_min: [T; 3], p_max: [T; 3], object_to_world: Transform<T>) -> (c: Self)
        ensures
            triangulates(c.spec_triangles(), cube_indices(), cube_corners(p_min, p_max), object_to_world.view()),
    {
        let positions: Vec<[T; 3]> = vec![
            [p_min[0], p_min[1], p_min[2]],
            [p_min[0], p_min[1], p_max[2]],
            [p_min[0], p_max[1], p_min[2]],
            [p_min[0], p_max[1], p_max[2]],
            [p_max[0], p_min[1], p_min[2]],
            [p_max[0], p_min[1], p_max[2]],
            [p_max[0], p_max[1], p_min[2]],
            [p_max[0], p_max[1], p_max[2]],
        ];
        let indices: Vec<usize> = vec![
            0, 1, 2, 1, 3, 2, 4, 6, 5, 5, 6, 7, 0, 2, 4, 4, 2, 6, 1, 5, 3, 5, 7, 3, 0, 4, 1, 4, 5,
            1, 2, 3, 6, 3, 7, 6,
        ];
        assert(positions@ =~= cube_corners(p_min, p_max));
        assert(indices@ =~= cube_indices());
        proof {
            assert(forall|i: int| 0 <= i < indices@.len() ==> indices@[i] < 8);
            lemma_max_index_below(indices@, 8);
        }
        let ghost tr = object_to_world.view();
        let triangles = create_triangles(indices, positions, object_to_world);
        match triangles {
            Ok(triangles) => Cube { triangles },
            Err(_) => {
                proof {
                    assert(false);
                }
                Cube { triangles: ShapeList::new() }
            },
        }
    }

    /// The triangles making up the box.
    pub fn triangles(&self) -> (r: &ShapeList<Triangle<T>>)
        ensures
            r@ == self.spec_triangles(),
    {
        &self.triangles
    }
}

} // verus!
