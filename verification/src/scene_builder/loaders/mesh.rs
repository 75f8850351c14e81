use std::rc::Rc;
use vstd::prelude::*;

use crate::scene_builder::assets::AssetsManager;

verus! {

/// A triangle mesh ready to be stored: one index triple per triangle, and
/// per-position normals and texture coordinates (either list may be empty).
pub struct MeshBundle<T> {
    pub n_triangles: usize,
    pub indices: Vec<usize>,
    pub positions: Vec<[T; 3]>,
    pub normals: Vec<[T; 3]>,
    pub uvs: Vec<[T; 2]>,
}

/// One mesh as read from a Wavefront OBJ file: flat coordinate lists and,
/// per face vertex, the index of its position, texture coordinate and
/// normal.
pub struct ObjMesh<T> {
    pub positions: Vec<T>,
    pub texcoords: Vec<T>,
    pub normals: Vec<T>,
    pub indices: Vec<u32>,
    pub texcoord_indices: Vec<u32>,
    pub normal_indices: Vec<u32>,
}

/// Why a mesh file could not be used.
#[derive(Clone, Copy, Debug, PartialEq, Eq, Structural)]
pub enum MeshLoadError {
    /// The file must hold exactly one model; it holds this many.
    ModelCount(usize),
}

/// Attribute `src` re-indexed by position: starting from `src[0]`
/// everywhere, face vertices `0..k` in order write the attribute they use
/// at the position they use.
pub open spec fn align_prefix<T>(position_indices: Seq<usize>, src_indices: Seq<usize>, src: Seq<T>, k: nat) -> Seq<T>
    decreases k,
{
    if k == 0 {
        Seq::new(src.len(), |q: int| src[0])
    } else {
        align_prefix(position_indices, src_indices, src, (k - 1) as nat).update(
            position_indices[k - 1] as int,
            src[src_indices[k - 1] as int],
        )
    }
}

/// Re-indexing keeps the length of the attribute list when every face
/// vertex's position is within it.
pub proof fn lemma_align_prefix_len<T>(pos: Seq<usize>, src_idx: Seq<usize>, src: Seq<T>, k: nat)
    requires
        k <= pos.len(),
        forall|w: int| 0 <= w < k ==> #[trigger] pos[w] < src.len(),
    ensures
        align_prefix(pos, src_idx, src, k).len() == src.len(),
    decreases k,
{
    if k > 0 {
        lemma_align_prefix_len(pos, src_idx, src, (k - 1) as nat);
    }
}

/// After face vertices `0..k` have written their attributes, the attribute
/// at the position of a face vertex `v < k` is the one `v` uses, when no
/// later vertex among them uses that position.
pub proof fn lemma_last_use_wins<T>(pos: Seq<usize>, src_idx: Seq<usize>, src: Seq<T>, k: nat, v: int)
    requires
        0 <= v < k <= pos.len(),
        forall|w: int| 0 <= w < k ==> #[trigger] pos[w] < src.len(),
        forall|w: int| v < w < k ==> #[trigger] pos[w] != pos[v],
    ensures
        align_prefix(pos, src_idx, src, k)[pos[v] as int] == src[src_idx[v] as int],
    decreases k,
{
    lemma_align_prefix_len(pos, src_idx, src, (k - 1) as nat);
    if v < k - 1 {
        lemma_last_use_wins(pos, src_idx, src, (k - 1) as nat, v);
        assert(pos[k - 1] != pos[v]);
    }
}

/// The indices of face vertices are usable for re-indexing `src`: every
/// vertex has an attribute index, and all indices are within `src`.
pub open spec fn alignable<T>(position_indices: Seq<usize>, src_indices: Seq<usize>, src: Seq<T>) -> bool {
    src.len() > 0 ==> forall|v: int|
        0 <= v < position_indices.len() ==> {
            &&& position_indices[v] < src.len()
            &&& v < src_indices.len()
            &&& src_indices[v] < src.len()
        }
}

/// Splits a flat list into consecutive triples.
pub open spec fn triples<T>(flat: Seq<T>) -> Seq<[T; 3]> {
    Seq::new(flat.len() / 3, |i: int| [flat[3 * i], flat[3 * i + 1], flat[3 * i + 2]])
}

/// Splits a flat list into consecutive pairs.
pub open spec fn pairs<T>(flat: Seq<T>) -> Seq<[T; 2]> {
    Seq::new(flat.len() / 2, |i: int| [flat[2 * i], flat[2 * i + 1]])
}

/// Widens every index.
pub open spec fn widened(src: Seq<u32>) -> Seq<usize> {
    Seq::new(src.len(), |i: int| src[i] as usize)
}

/// Loads triangle meshes referred to by asset references.
pub struct MeshLoader {
    pub assets_manager: Rc<AssetsManager>,
}

impl MeshLoader {
    /// A loader resolving references with `assets_manager`.
    pub fn new(assets_manager: Rc<AssetsManager>) -> (l: Self)
        ensures
            *l.assets_manager == *assets_manager,
    {
        MeshLoader { assets_manager }
    }

    /// Re-indexes an attribute list by position: the result has one entry
    /// per entry of `src_datas`, the attribute that the last face vertex
    /// using a position gives it, and `src_datas[0]` where no face vertex
    /// uses the position. An empty attribute list stays empty.
    pub fn triangle_align_indices<T: Copy>(
        position_indices: &Vec<usize>,
        src_indices: &Vec<usize>,
        src_datas: &[T],
    ) -> (target: Vec<T>)
        requires
            alignable(position_indices@, src_indices@, src_datas@),
        ensures
            src_datas@.len() == 0 ==> target@.len() == 0,
            src_datas@.len() > 0 ==> target@ == align_prefix(
                position_indices@,
                src_indices@,
                src_datas@,
                position_indices@.len(),
            ),
    {
        if src_datas.len() == 0 {
            return Vec::new();
        }
        let mut target: Vec<T> = Vec::new();
        let first = src_datas[0];
        let mut q: usize = 0;
        while q < src_datas.len()
            invariant
                q <= src_datas@.len(),
                first == src_datas@[0],
                target@ == Seq::new(q as nat, |r: int| src_datas@[0]),
            decreases src_datas@.len() - q,
        {
            target.push(first);
            q = q + 1;
            assert(target@ =~= Seq::new(q as nat, |r: int| src_datas@[0]));
        }
        let mut v: usize = 0;
        while v < position_indices.len()
            invariant
                v <= position_indices@.len(),
                src_datas@.len() > 0,
                alignable(position_indices@, src_indices@, src_datas@),
                target@ == align_prefix(position_indices@, src_indices@, src_datas@, v as nat),
                target@.len() == src_datas@.len(),
            decreases position_indices@.len() - v,
        {
            let p = position_indices[v];
            let value = src_datas[src_indices[v]];
            target.set(p, value);
            v = v + 1;
        }
        target
    }

    /// Widens 32-bit indices.
    pub fn vec_u32_to_usize(src: &[u32]) -> (r: Vec<usize>)
        ensures
            r@ == widened(src@),
    {
        let mut r: Vec<usize> = Vec::new();
        let mut i: usize = 0;
        while i < src.len()
            invariant
                i <= src@.len(),
                r@ == widened(src@.subrange(0, i as int)),
            decreases src@.len() - i,
        {
            r.push(src[i] as usize);
            i = i + 1;
            assert(r@ =~= widened(src@.subrange(0, i as int)));
        }
        assert(src@.subrange(0, src@.len() as int) =~= src@);
        r
    }

    /// The mesh bundle of the single model of an OBJ file: positions,
    /// texture coordinates and normals grouped per vertex, texture
    /// coordinates and normals re-indexed by position, one triangle per
    /// three face vertices. A file with another number of models is refused.
    pub fn bundle_from_models<T: Copy>(&self, models: Vec<ObjMesh<T>>) -> (r: Result<MeshBundle<T>, MeshLoadError>)
        requires
            models@.len() == 1 ==> obj_mesh_usable(models@[0]),
        ensures
            models@.len() != 1 ==> r == Err::<MeshBundle<T>, MeshLoadError>(MeshLoadError::ModelCount(models@.len() as usize)),
            models@.len() == 1 ==> (r matches Ok(b) && bundles(models@[0], b)),
    {
        if models.len() != 1 {
            return Err(MeshLoadError::ModelCount(models.len()));
        }
        let m = &models[0];
        let positions = Self::group_triples(&m.positions);
        let texcoords = Self::group_pairs(&m.texcoords);
        let normals = Self::group_triples(&m.normals);
        let vertices_indices = Self::vec_u32_to_usize(&m.indices);
        let texcoord_indices = Self::vec_u32_to_usize(&m.texcoord_indices);
        let normal_indices = Self::vec_u32_to_usize(&m.normal_indices);
        let uvs = Self::triangle_align_indices(&vertices_indices, &texcoord_indices, texcoords.as_slice());
        let normals = Self::triangle_align_indices(&vertices_indices, &normal_indices, normals.as_slice());
        Ok(MeshBundle { n_triangles: m.indices.len() / 3, indices: vertices_indices, positions, normals, uvs })
    }

    fn group_triples<T: Copy>(flat: &Vec<T>) -> (r: Vec<[T; 3]>)
        ensures
            r@ == triples(flat@),
    {
        let len = flat.len();
        let n = len / 3;
        let mut r: Vec<[T; 3]> = Vec::new();
        let mut i: usize = 0;
        while i < n
            invariant
                i <= n == flat@.len() / 3,
                len == flat@.len(),
                r@ == triples(flat@).subrange(0, i as int),
            decreases n - i,
        {
            r.push([flat[3 * i], flat[3 * i + 1], flat[3 * i + 2]]);
            i = i + 1;
            assert(r@ =~= triples(flat@).subrange(0, i as int));
        }
        assert(triples(flat@).subrange(0, n as int) =~= triples(flat@));
        r
    }

    fn group_pairs<T: Copy>(flat: &Vec<T>) -> (r: Vec<[T; 2]>)
        ensures
            r@ == pairs(flat@),
    {
        let len = flat.len();
        let n = len / 2;
        let mut r: Vec<[T; 2]> = Vec::new();
        let mut i: usize = 0;
        while i < n
            invariant
                i <= n == flat@.len() / 2,
                len == flat@.len(),
                r@ == pairs(flat@).subrange(0, i as int),
            decreases n - i,
        {
            r.push([flat[2 * i], flat[2 * i + 1]]);
            i = i + 1;
            assert(r@ =~= pairs(flat@).subrange(0, i as int));
        }
        assert(pairs(flat@).subrange(0, n as int) =~= pairs(flat@));
        r
    }
}

/// The OBJ mesh can be turned into a bundle: its coordinate lists split
/// evenly into vertices, and its texture-coordinate and normal indices
/// cover every face vertex and stay within their lists.
pub open spec fn obj_mesh_usable<T>(m: ObjMesh<T>) -> bool {
    &&& m.positions@.len() % 3 == 0
    &&& m.texcoords@.len() % 2 == 0
    &&& m.normals@.len() % 3 == 0
    &&& alignable(widened(m.indices@), widened(m.texcoord_indices@), pairs(m.texcoords@))
    &&& alignable(widened(m.indices@), widened(m.normal_indices@), triples(m.normals@))
}

/// Whether the face vertices' attribute indices `src_indices` can re-index
/// an attribute list `src` of `n` entries (see `alignable`).
fn indices_fit<A>(position_indices: &Vec<u32>, src_indices: &Vec<u32>, n: usize, Ghost(src): Ghost<Seq<A>>) -> (b: bool)
    requires
        src.len() == n,
    ensures
        b == alignable(widened(position_indices@), widened(src_indices@), src),
{
    if n == 0 {
        return true;
    }
    let mut v: usize = 0;
    while v < position_indices.len()
        invariant
            v <= position_indices@.len(),
            src.len() == n,
            n > 0,
            forall|w: int|
                0 <= w < v ==> {
                    &&& #[trigger] widened(position_indices@)[w] < n
                    &&& w < widened(src_indices@).len()
                    &&& widened(src_indices@)[w] < n
                },
        decreases position_indices@.len() - v,
    {
        let p = position_indices[v] as usize;
        assert(widened(position_indices@)[v as int] == p);
        if p >= n || v >= src_indices.len() {
            return false;
        }
        let s = src_indices[v] as usize;
        assert(widened(src_indices@)[v as int] == s);
        if s >= n {
            return false;
        }
        v = v + 1;
    }
    true
}

/// Whether the OBJ mesh `m` can be turned into a bundle.
pub fn mesh_usable<T: Copy>(m: &ObjMesh<T>) -> (b: bool)
    ensures
        b == obj_mesh_usable(*m),
{
    m.positions.len() % 3 == 0 && m.texcoords.len() % 2 == 0 && m.normals.len() % 3 == 0 && indices_fit::<[T; 2]>(
        &m.indices,
        &m.texcoord_indices,
        m.texcoords.len() / 2,
        Ghost(pairs(m.texcoords@)),
    ) && indices_fit::<[T; 3]>(&m.indices, &m.normal_indices, m.normals.len() / 3, Ghost(triples(m.normals@)))
}

/// The normal and the texture coordinate that a bundle made from an OBJ
/// mesh holds at a position are those of the file that the last face
/// vertex using that position names.
pub proof fn lemma_bundle_follows_last_use<T>(m: ObjMesh<T>, b: MeshBundle<T>, v: int)
    requires
        obj_mesh_usable(m),
        bundles(m, b),
        0 <= v < m.indices@.len(),
        forall|w: int| v < w < m.indices@.len() ==> #[trigger] m.indices@[w] != m.indices@[v],
    ensures
        triples(m.normals@).len() > 0 ==> b.normals@[m.indices@[v] as int] == triples(
            m.normals@,
        )[m.normal_indices@[v] as int],
        pairs(m.texcoords@).len() > 0 ==> b.uvs@[m.indices@[v] as int] == pairs(m.texcoords@)[m.texcoord_indices@[v] as int],
{
    let pos = widened(m.indices@);
    let n = m.indices@.len();
    assert forall|w: int| v < w < n implies #[trigger] pos[w] != pos[v] by {
        assert(m.indices@[w] != m.indices@[v]);
    }
    if triples(m.normals@).len() > 0 {
        let src = triples(m.normals@);
        let si = widened(m.normal_indices@);
        assert forall|w: int| 0 <= w < n implies #[trigger] pos[w] < src.len() by {
            assert(0 <= w < pos.len());
        }
        lemma_last_use_wins(pos, si, src, n as nat, v);
        assert(si[v] as int == m.normal_indices@[v] as int);
    }
    if pairs(m.texcoords@).len() > 0 {
        let src = pairs(m.texcoords@);
        let si = widened(m.texcoord_indices@);
        assert forall|w: int| 0 <= w < n implies #[trigger] pos[w] < src.len() by {
            assert(0 <= w < pos.len());
        }
        lemma_last_use_wins(pos, si, src, n as nat, v);
        assert(si[v] as int == m.texcoord_indices@[v] as int);
    }
}

/// `b` is the bundle made from the OBJ mesh `m`.
pub open spec fn bundles<T>(m: ObjMesh<T>, b: MeshBundle<T>) -> bool {
    &&& b.n_triangles == m.indices@.len() / 3
    &&& b.indices@ == widened(m.indices@)
    &&& b.positions@ == triples(m.positions@)
    &&& (pairs(m.texcoords@).len() == 0 ==> b.uvs@.len() == 0)
    &&& (pairs(m.texcoords@).len() > 0 ==> b.uvs@ == align_prefix(
        widened(m.indices@),
        widened(m.texcoord_indices@),
        pairs(m.texcoords@),
        m.indices@.len(),
    ))
    &&& (triples(m.normals@).len() == 0 ==> b.normals@.len() == 0)
    &&& (triples(m.normals@).len() > 0 ==> b.normals@ == align_prefix(
        widened(m.indices@),
        widened(m.normal_indices@),
        triples(m.normals@),
        m.indices@.len(),
    ))
}

} // verus!
