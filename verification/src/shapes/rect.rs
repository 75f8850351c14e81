use vstd::prelude::*;

use super::shape_list::ShapeList;
use super::triangle::{create_triangles, lemma_max_index_below, triangulates, Triangle};
use crate::transform::Transform;

verus! {

/// The first axis on which the two corners agree, or 3 when they agree on none.
pub open spec fn first_equal_axis(axis_equal: [bool; 3]) -> int {
    if axis_equal[0] {
        0
    } else if axis_equal[1] {
        1
    } else if axis_equal[2] {
        2
    } else {
        3
    }
}

/// The point whose coordinate is `k_val` on the axis `k_axis` normal to a
/// rectangle and `a_val`, `b_val` on the two in-plane axes, which for
/// `k_axis` 0, 1, 2 are (y, z), (z, x) and (x, y).
pub open spec fn place<T>(k_axis: int, a_val: T, b_val: T, k_val: T) -> [T; 3] {
    if k_axis == 0 {
        [k_val, a_val, b_val]
    } else if k_axis == 1 {
        [b_val, k_val, a_val]
    } else {
        [a_val, b_val, k_val]
    }
}

/// The first in-plane axis for the normal axis `k_axis`.
pub open spec fn a_axis(k_axis: int) -> int {
    if k_axis == 0 { 1 } else if k_axis == 1 { 2 } else { 0 }
}

/// The second in-plane axis for the normal axis `k_axis`.
pub open spec fn b_axis(k_axis: int) -> int {
    if k_axis == 0 { 2 } else if k_axis == 1 { 0 } else { 1 }
}

/// The smaller of the two corners' coordinates on `axis`, given whether
/// `p0`'s coordinate is not above `p1`'s.
pub open spec fn lower<T>(p0: [T; 3], p1: [T; 3], ordered: [bool; 3], axis: int) -> T {
    if ordered[axis] { p0[axis] } else { p1[axis] }
}

/// The larger of the two corners' coordinates on `axis`.
pub open spec fn upper<T>(p0: [T; 3], p1: [T; 3], ordered: [bool; 3], axis: int) -> T {
    if ordered[axis] { p1[axis] } else { p0[axis] }
}

/// The four corners of the axis-aligned rectangle with opposite corners
/// `p0` and `p1`: (a0, b0), (a0, b1), (a1, b0), (a1, b1) in the plane
/// normal to the first axis on which the corners agree.
pub open spec fn rect_corners<T>(p0: [T; 3], p1: [T; 3], axis_equal: [bool; 3], ordered: [bool; 3]) -> Seq<[T; 3]> {
    let k = first_equal_axis(axis_equal);
    let a = a_axis(k);
    let b = b_axis(k);
    let a0 = lower(p0, p1, ordered, a);
    let a1 = upper(p0, p1, ordered, a);
    let b0 = lower(p0, p1, ordered, b);
    let b1 = upper(p0, p1, ordered, b);
    let kv = p0[k];
    seq![place(k, a0, b0, kv), place(k, a0, b1, kv), place(k, a1, b0, kv), place(k, a1, b1, kv)]
}

/// The corners of a rectangle lie on the box that its two given corners
/// span: on every axis each corner has the coordinate that `p0` or `p1`
/// has on that same axis, on the normal axis it has `p0`'s; `p0` is one of
/// the corners, and so is `p1` when it lies in the same plane.
pub proof fn lemma_rect_corners_from_given<T>(p0: [T; 3], p1: [T; 3], axis_equal: [bool; 3], ordered: [bool; 3])
    requires
        axis_equal[0] || axis_equal[1] || axis_equal[2],
    ensures
        ({
            let c = rect_corners(p0, p1, axis_equal, ordered);
            let k = first_equal_axis(axis_equal);
            &&& c.len() == 4
            &&& forall|i: int, j: int| 0 <= i < 4 && 0 <= j < 3 ==> (c[i][j] == p0[j] || c[i][j] == p1[j])
            &&& forall|i: int| 0 <= i < 4 ==> c[i][k] == p0[k]
            &&& exists|i: int| 0 <= i < 4 && #[trigger] c[i][0] == p0[0] && c[i][1] == p0[1] && c[i][2] == p0[2]
            &&& p1[k] == p0[k] ==> exists|i: int|
                0 <= i < 4 && #[trigger] c[i][0] == p1[0] && c[i][1] == p1[1] && c[i][2] == p1[2]
        }),
{
    let c = rect_corners(p0, p1, axis_equal, ordered);
    let k = first_equal_axis(axis_equal);
    let a = a_axis(k);
    let b = b_axis(k);
    assert(0 <= k < 3);
    assert forall|i: int, j: int| 0 <= i < 4 && 0 <= j < 3 implies (c[i][j] == p0[j] || c[i][j] == p1[j]) by {
        assert(j == k || j == a || j == b);
    }
    let i0: int = (if ordered[a] { 0int } else { 2int }) + (if ordered[b] { 0int } else { 1int });
    assert forall|j: int| 0 <= j < 3 implies c[i0][j] == p0[j] by {
        assert(j == k || j == a || j == b);
    }
    assert(c[i0][0] == p0[0] && c[i0][1] == p0[1] && c[i0][2] == p0[2]);
    let i1: int = (if ordered[a] { 2int } else { 0int }) + (if ordered[b] { 1int } else { 0int });
    if p1[k] == p0[k] {
        assert forall|j: int| 0 <= j < 3 implies c[i1][j] == p1[j] by {
            assert(j == k || j == a || j == b);
        }
        assert(c[i1][0] == p1[0] && c[i1][1] == p1[1] && c[i1][2] == p1[2]);
    }
}

/// The two triangles of a rectangle, as corner numbers.
pub open spec fn rect_indices() -> Seq<usize> {
    seq![0usize, 1, 2, 1, 3, 2]
}

/// An axis-aligned rectangle, made of two triangles.
pub struct Rect<T> {
    triangles: ShapeList<Triangle<T>>,
}

impl<T: Copy> Rect<T> {
    pub closed spec fn spec_triangles(&self) -> Seq<Triangle<T>> {
        self.triangles@
    }

    /// The rectangle with opposite corners `p0` and `p1`.
    ///
    /// `axis_equal[i]` tells whether the corners have the same coordinate on
    /// axis `i`, and `ordered[i]` whether `p0`'s coordinate on axis `i` is not
    /// above `p1`'s. The rectangle lies in the plane normal to the first axis
    /// on which the corners agree; corners that agree on no axis do not
    /// describe an axis-aligned rectangle.
    pub fn new(
        p0: [T; 3],
        p1: [T; 3],
        axis_equal: [bool; 3],
        ordered: [bool; 3],
        object_to_world: Transform<T>,
    ) -> (r: Self)
        requires
            axis_equal[0] || axis_equal[1] || axis_equal[2],
        ensures
            triangulates(r.spec_triangles(), rect_indices(), rect_corners(p0, p1, axis_equal, ordered), object_to_world.view()),
    {
        let k_axis: usize = if axis_equal[0] {
            0
        } else if axis_equal[1] {
            1
        } else {
            2
        };
        let (a_ax, b_ax): (usize, usize) = if k_axis == 0 {
            (1, 2)
        } else if k_axis == 1 {
            (2, 0)
        } else {
            (0, 1)
        };
        let a0 = if ordered[a_ax] { p0[a_ax] } else { p1[a_ax] };
        let a1 = if ordered[a_ax] { p1[a_ax] } else { p0[a_ax] };
        let b0 = if ordered[b_ax] { p0[b_ax] } else { p1[b_ax] };
        let b1 = if ordered[b_ax] { p1[b_ax] } else { p0[b_ax] };
        let k = p0[k_axis];
        let v0 = place_exec(k_axis, a0, b0, k);
        let v1 = place_exec(k_axis, a0, b1, k);
        let v2 = place_exec(k_axis, a1, b0, k);
        let v3 = place_exec(k_axis, a1, b1, k);
        let indices: Vec<usize> = vec![0, 1, 2, 1, 3, 2];
        let positions: Vec<[T; 3]> = vec![v0, v1, v2, v3];
        assert(positions@ =~= rect_corners(p0, p1, axis_equal, ordered));
        assert(indices@ =~= rect_indices());
        proof {
            assert(forall|i: int| 0 <= i < indices@.len() ==> indices@[i] < 4);
            lemma_max_index_below(indices@, 4);
        }
        match create_triangles(indices, positions, object_to_world) {
            Ok(triangles) => Rect { triangles },
            Err(_) => {
                proof {
                    assert(false);
                }
                Rect { triangles: ShapeList::new() }
            },
        }
    }

    /// The triangles making up the rectangle.
    pub fn triangles(&self) -> (r: &ShapeList<Triangle<T>>)
        ensures
            r@ == self.spec_triangles(),
    {
        &self.triangles
    }
}

fn place_exec<T: Copy>(k_axis: usize, a_val: T, b_val: T, k_val: T) -> (p: [T; 3])
    requires
        k_axis < 3,
    ensures
        p == place(k_axis as int, a_val, b_val, k_val),
{
    if k_axis == 0 {
        [k_val, a_val, b_val]
    } else if k_axis == 1 {
        [b_val, k_val, a_val]
    } else {
        [a_val, b_val, k_val]
    }
}

} // verus!
