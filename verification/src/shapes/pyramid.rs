use vstd::prelude::*;

use super::shape_list::ShapeList;
use super::triangle::{create_triangles, lemma_max_index_below, triangulates, Triangle};
use crate::transform::Transform;

verus! {

/// The four faces of a tetrahedron, as vertex numbers.
pub open spec fn pyramid_indices() -> Seq<usize> {
    seq![0usize, 1, 2, 0, 2, 3, 0, 3, 1, 1, 3, 2]
}

/// A tetrahedron, made of four triangles.
pub struct Pyramid<T> {
    triangles: ShapeList<Triangle<T>>,
}

impl<T: Copy> Pyramid<T> {
    pub closed spec fn spec_triangles(&self) -> Seq<Triangle<T>> {
        self.triangles@
    }

    /// The tetrahedron with the given four vertices, placed by `object_to_world`.
    pub fn new(vertices: [[T; 3]; 4], object_to_world: Transform<T>) -> (p: Self)
        ensures
            triangulates(p.spec_triangles(), pyramid_indices(), vertices@, object_to_world.view()),
    {
        let vertex_indices: Vec<usize> = vec![0, 1, 2, 0, 2, 3, 0, 3, 1, 1, 3, 2];
        let positions: Vec<[T; 3]> = vec![vertices[0], vertices[1], vertices[2], vertices[3]];
        assert(positions@ =~= vertices@);
        assert(vertex_indices@ =~= pyramid_indices());
        proof {
            assert(forall|i: int| 0 <= i < vertex_indices@.len() ==> vertex_indices@[i] < 4);
            lemma_max_index_below(vertex_indices@, 4);
        }
        match create_triangles(vertex_indices, positions, object_to_world) {
            Ok(triangles) => Pyramid { triangles },
            Err(_) => {
                proof {
                    assert(false);
                }
                Pyramid { triangles: ShapeList::new() }
            },
        }
    }

    /// The triangles making up the tetrahedron.
    pub fn triangles(&self) -> (r: &ShapeList<Triangle<T>>)
        ensures
            r@ == self.spec_triangles(),
    {
        &self.triangles
    }
}

} // verus!
