use std::sync::Arc;
use vstd::prelude::*;

use super::shape_list::ShapeList;
use crate::transform::{Transform, TransformConfig};
use crate::utils::share;

verus! {

/// Why a triangle mesh description was refused.
#[derive(Clone, Copy, Debug, PartialEq, Eq, Structural)]
pub enum MeshError {
    /// The number of vertex indices is not three times the number of triangles.
    IndexCountMismatch,
    /// The largest vertex index does not name a position.
    PositionIndexOutOfRange,
    /// Normals were given, but the largest vertex index does not name one.
    NormalIndexOutOfRange,
    /// Texture coordinates were given, but the largest vertex index does not name one.
    UvIndexOutOfRange,
}

/// The largest entry of `s`, or 0 when `s` is empty.
pub open spec fn max_index(s: Seq<usize>) -> nat
    decreases s.len(),
{
    if s.len() == 0 {
        0
    } else {
        let rest = max_index(s.drop_last());
        if s.last() > rest {
            s.last() as nat
        } else {
            rest
        }
    }
}

/// The verdict of mesh validation: `None` when the description is
/// accepted, otherwise the first check that fails.
pub open spec fn mesh_rejection(
    n_triangles: nat,
    indices: Seq<usize>,
    n_positions: nat,
    n_normals: nat,
    n_uvs: nat,
) -> Option<MeshError> {
    if n_triangles * 3 != indices.len() {
        Some(MeshError::IndexCountMismatch)
    } else if max_index(indices) >= n_positions {
        Some(MeshError::PositionIndexOutOfRange)
    } else if n_normals != 0 && max_index(indices) >= n_normals {
        Some(MeshError::NormalIndexOutOfRange)
    } else if n_uvs != 0 && max_index(indices) >= n_uvs {
        Some(MeshError::UvIndexOutOfRange)
    } else {
        None
    }
}

/// Shared storage of a triangle mesh: triangle `id` is made of the
/// vertices `vertex_indices[3 * id .. 3 * id + 3]`, each an index into
/// `positions` (and into `vertex_normals` and `uvs` when those are given).
/// Coordinates are in object space; `object_to_world` places the mesh.
pub struct TriangleMeshStorage<T> {
    pub n_triangles: usize,
    pub vertex_indices: Vec<usize>,
    pub positions: Vec<[T; 3]>,
    pub vertex_normals: Vec<[T; 3]>,
    pub uvs: Vec<[T; 2]>,
    pub object_to_world: Transform<T>,
}

impl<T: Copy> TriangleMeshStorage<T> {
    /// The storage satisfies the checks made when it was built.
    pub open spec fn wf(&self) -> bool {
        mesh_rejection(
            self.n_triangles as nat,
            self.vertex_indices@,
            self.positions@.len(),
            self.vertex_normals@.len(),
            self.uvs@.len(),
        ) is None
    }

    /// Validates a mesh description and stores it.
    ///
    /// Succeeds exactly when there are `3 * n_triangles` indices, the
    /// largest index (0 for no indices) names a position, and names a
    /// normal and a texture coordinate whenever those lists are non-empty;
    /// otherwise the first failing check is reported.
    pub fn try_new(
        n_triangles: usize,
        vertex_indices: Vec<usize>,
        positions: Vec<[T; 3]>,
        normals: Vec<[T; 3]>,
        uvs: Vec<[T; 2]>,
        object_to_world: Transform<T>,
    ) -> (r: Result<Self, MeshError>)
        ensures
            match r {
                Ok(m) => {
                    &&& mesh_rejection(
                        n_triangles as nat,
                        vertex_indices@,
                        positions@.len(),
                        normals@.len(),
                        uvs@.len(),
                    ) is None
                    &&& m.n_triangles == n_triangles
                    &&& m.vertex_indices@ == vertex_indices@
                    &&& m.positions@ == positions@
                    &&& m.vertex_normals@ == normals@
                    &&& m.uvs@ == uvs@
                    &&& m.object_to_world.view() == object_to_world.view()
                    &&& m.wf()
                },
                Err(e) => mesh_rejection(
                    n_triangles as nat,
                    vertex_indices@,
                    positions@.len(),
                    normals@.len(),
                    uvs@.len(),
                ) == Some(e),
            },
    {
        let n_indices = vertex_indices.len();
        let n_vertices = n_triangles.checked_mul(3);
        match n_vertices {
            None => {
                assert(n_triangles * 3 > usize::MAX);
                return Err(MeshError::IndexCountMismatch);
            },
            Some(n) => {
                if n != n_indices {
                    return Err(MeshError::IndexCountMismatch);
                }
            },
        }
        let max_idx = max_of(&vertex_indices);
        if max_idx >= positions.len() {
            return Err(MeshError::PositionIndexOutOfRange);
        }
        if normals.len() != 0 && max_idx >= normals.len() {
            return Err(MeshError::NormalIndexOutOfRange);
        }
        if uvs.len() != 0 && max_idx >= uvs.len() {
            return Err(MeshError::UvIndexOutOfRange);
        }
        Ok(TriangleMeshStorage {
            n_triangles,
            vertex_indices,
            positions,
            vertex_normals: normals,
            uvs,
            object_to_world,
        })
    }

    /// Every triangle of the mesh, numbered in order, all sharing this storage.
    pub fn into_triangles(self) -> (list: ShapeList<Triangle<T>>)
        requires
            self.wf(),
        ensures
            list@.len() == self.n_triangles,
            forall|i: int|
                0 <= i < list@.len() ==> (#[trigger] list@[i]).spec_id() == i && list@[i].spec_mesh() == self,
    {
        let n_triangles = self.n_triangles;
        let ghost me = self;
        let mesh = Arc::new(self);
        let mut triangles: ShapeList<Triangle<T>> = ShapeList::new();
        let mut id: usize = 0;
        while id < n_triangles
            invariant
                id <= n_triangles,
                n_triangles == me.n_triangles,
                *mesh == me,
                triangles@.len() == id,
                forall|i: int| 0 <= i < id ==> (#[trigger] triangles@[i]).spec_id() == i && triangles@[i].spec_mesh() == me,
            decreases n_triangles - id,
        {
            let t = Triangle::new(id, share(&mesh));
            triangles.emplace_back(t);
            id = id + 1;
        }
        triangles
    }

    /// The three vertex indices of triangle `id`.
    pub fn triangle_indices(&self, id: usize) -> (r: [usize; 3])
        requires
            self.wf(),
            id < self.n_triangles,
        ensures
            r@ == self.vertex_indices@.subrange(3 * id, 3 * id + 3),
            forall|k: int| 0 <= k < 3 ==> r@[k] < self.positions@.len(),
    {
        proof {
            lemma_max_index_bounds(self.vertex_indices@);
        }
        let len = self.vertex_indices.len();
        assert(id * 3 + 3 <= self.n_triangles * 3) by (nonlinear_arith)
            requires id < self.n_triangles;
        let base = id * 3;
        let r = [self.vertex_indices[base], self.vertex_indices[base + 1], self.vertex_indices[base + 2]];
        assert(r@ =~= self.vertex_indices@.subrange(3 * id, 3 * id + 3));
        r
    }

    /// The three corner positions of triangle `id`, in object space.
    pub fn triangle_positions(&self, id: usize) -> (r: [[T; 3]; 3])
        requires
            self.wf(),
            id < self.n_triangles,
        ensures
            forall|k: int| 0 <= k < 3 ==> r@[k] == self.positions@[self.vertex_indices@[3 * id + k] as int],
    {
        let idx = self.triangle_indices(id);
        [self.positions[idx[0]], self.positions[idx[1]], self.positions[idx[2]]]
    }
}

/// Every entry of `s` is at most `max_index(s)`, and `max_index(s)` is an
/// entry of `s` unless it is 0.
pub proof fn lemma_max_index_bounds(s: Seq<usize>)
    ensures
        forall|i: int| 0 <= i < s.len() ==> s[i] <= max_index(s),
        max_index(s) == 0 || exists|i: int| 0 <= i < s.len() && s[i] == max_index(s),
    decreases s.len(),
{
    if s.len() > 0 {
        lemma_max_index_bounds(s.drop_last());
        assert forall|i: int| 0 <= i < s.len() implies s[i] <= max_index(s) by {
            if i < s.len() - 1 {
                assert(s[i] == s.drop_last()[i]);
            }
        }
        if s.last() <= max_index(s.drop_last()) && max_index(s.drop_last()) != 0 {
            let i = choose|i: int| 0 <= i < s.drop_last().len() && s.drop_last()[i] == max_index(s.drop_last());
            assert(s[i] == max_index(s));
        }
        if s.last() > max_index(s.drop_last()) {
            assert(s[s.len() - 1] == max_index(s));
        }
    }
}

/// The largest entry of `v` (0 for an empty vector).
fn max_of(v: &Vec<usize>) -> (m: usize)
    ensures
        m == max_index(v@),
{
    let mut m: usize = 0;
    let mut i: usize = 0;
    while i < v.len()
        invariant
            i <= v@.len(),
            m == max_index(v@.subrange(0, i as int)),
        decreases v@.len() - i,
    {
        assert(v@.subrange(0, i + 1).drop_last() =~= v@.subrange(0, i as int));
        if v[i] > m {
            m = v[i];
        }
        i = i + 1;
    }
    assert(v@.subrange(0, v@.len() as int) =~= v@);
    m
}

/// One triangle of a shared mesh.
pub struct Triangle<T> {
    id: usize,
    mesh: Arc<TriangleMeshStorage<T>>,
}

impl<T: Copy> Triangle<T> {
    pub closed spec fn spec_id(&self) -> nat {
        self.id as nat
    }

    pub closed spec fn spec_mesh(&self) -> TriangleMeshStorage<T> {
        *self.mesh
    }

    /// Triangle number `id` of `mesh`.
    pub fn new(id: usize, mesh: Arc<TriangleMeshStorage<T>>) -> (t: Self)
        ensures
            t.spec_id() == id,
            t.spec_mesh() == *mesh,
    {
        Triangle { id, mesh }
    }

    /// The triangle's number within its mesh.
    pub fn id(&self) -> (r: usize)
        ensures
            r == self.spec_id(),
    {
        self.id
    }

    /// The mesh the triangle belongs to.
    pub fn mesh(&self) -> (r: &TriangleMeshStorage<T>)
        ensures
            *r == self.spec_mesh(),
    {
        &*self.mesh
    }

    /// The triangle's corners `[p0, p1, p2]`, in object space.
    pub fn get_vertices(&self) -> (r: [[T; 3]; 3])
        requires
            self.spec_mesh().wf(),
            self.spec_id() < self.spec_mesh().n_triangles,
        ensures
            forall|k: int|
                0 <= k < 3 ==> r@[k] == self.spec_mesh().positions@[self.spec_mesh().vertex_indices@[3
                    * self.spec_id() + k] as int],
    {
        self.mesh.triangle_positions(self.id)
    }
}

/// `list` holds, in order, every triangle of one shared storage built from
/// `indices` and `positions` with no normals and no texture coordinates.
pub open spec fn triangulates<T: Copy>(
    list: Seq<Triangle<T>>,
    indices: Seq<usize>,
    positions: Seq<[T; 3]>,
    transform: Seq<TransformConfig<T>>,
) -> bool {
    &&& list.len() == indices.len() / 3
    &&& forall|i: int|
        0 <= i < list.len() ==> {
            &&& (#[trigger] list[i]).spec_id() == i
            &&& list[i].spec_mesh().n_triangles == indices.len() / 3
            &&& list[i].spec_mesh().vertex_indices@ == indices
            &&& list[i].spec_mesh().positions@ == positions
            &&& list[i].spec_mesh().vertex_normals@.len() == 0
            &&& list[i].spec_mesh().uvs@.len() == 0
            &&& list[i].spec_mesh().object_to_world.view() == transform
            &&& list[i].spec_mesh().wf()
        }
}

/// An index list whose entries all lie below a positive bound has its
/// largest entry below that bound.
pub proof fn lemma_max_index_below(s: Seq<usize>, bound: nat)
    requires
        bound > 0,
        forall|i: int| 0 <= i < s.len() ==> s[i] < bound,
    ensures
        max_index(s) < bound,
{
    lemma_max_index_bounds(s);
}

/// Builds the triangles of an indexed mesh without normals or texture
/// coordinates: one triangle per three indices, numbered in order, all
/// sharing one storage.
///
/// Succeeds exactly when the number of indices is a multiple of three and
/// the largest index (0 for no indices) names a position.
pub fn create_triangles<T: Copy>(
    indices: Vec<usize>,
    positions: Vec<[T; 3]>,
    transform: Transform<T>,
) -> (r: Result<ShapeList<Triangle<T>>, MeshError>)
    ensures
        r is Ok <==> (indices@.len() % 3 == 0 && max_index(indices@) < positions@.len()),
        r matches Err(e) ==> e == (if indices@.len() % 3 != 0 {
            MeshError::IndexCountMismatch
        } else {
            MeshError::PositionIndexOutOfRange
        }),
        r matches Ok(list) ==> triangulates(list@, indices@, positions@, transform.view()),
{
    let n_triangles = indices.len() / 3;
    let storage = TriangleMeshStorage::try_new(n_triangles, indices, positions, Vec::new(), Vec::new(), transform);
    let storage = match storage {
        Ok(s) => s,
        Err(e) => {
            return Err(e);
        },
    };
    Ok(storage.into_triangles())
}

} // verus!
