use std::sync::Arc;
use vstd::prelude::*;

use super::builder::Builder;
use super::bundle::values;
use super::loaders::mesh::MeshBundle;
use super::types::ShapeConfig;
use crate::shapes::cube::{cube_corners, cube_indices};
use crate::shapes::pyramid::pyramid_indices;
use crate::shapes::rect::{rect_corners, rect_indices};
use crate::shapes::regular_polygon::fan_indices;
use crate::shapes::triangle::{mesh_rejection, triangulates};
use crate::shapes::{Cube, MeshError, Pyramid, Rect, RegularPolygon, ShapeList, Triangle, TriangleMeshStorage};
use crate::transform::{Transform, TransformConfig};
use crate::utils::{copied, share};

verus! {

/// A shape ready for the renderer.
pub enum SceneShape<T> {
    /// One triangle of a shared mesh.
    Triangle(Triangle<T>),
    Cube(Cube<T>),
    Rect(Rect<T>),
    Pyramid(Pyramid<T>),
    Polygon(RegularPolygon<T>),
    /// A sphere as described; its surface is computed by the renderer.
    Sphere { center: [T; 3], radius: T, object_to_world: Transform<T> },
    /// A disk as described; its surface is computed by the renderer.
    Disk { center: [T; 3], radius: T, normal: [T; 3], object_to_world: Transform<T> },
    /// A cylinder as described; its surface is computed by the renderer.
    Cylinder { center0: [T; 3], center1: [T; 3], radius: T, object_to_world: Transform<T> },
    /// Triangles intersected as one shape.
    Group(ShapeList<Triangle<T>>),
}

/// `mesh` holds the given mesh description, placed by `t`, and passed
/// validation.
pub open spec fn stores<T: Copy>(
    mesh: TriangleMeshStorage<T>,
    n_triangles: nat,
    indices: Seq<usize>,
    positions: Seq<[T; 3]>,
    normals: Seq<[T; 3]>,
    uvs: Seq<[T; 2]>,
    t: Seq<TransformConfig<T>>,
) -> bool {
    &&& mesh.n_triangles == n_triangles
    &&& mesh.vertex_indices@ == indices
    &&& mesh.positions@ == positions
    &&& mesh.vertex_normals@ == normals
    &&& mesh.uvs@ == uvs
    &&& mesh.object_to_world.view() == t
    &&& mesh.wf()
}

/// `shapes` are the triangles of a storage holding the description, one
/// per triangle, numbered in order.
pub open spec fn mesh_triangles<T: Copy>(
    shapes: Seq<SceneShape<T>>,
    n_triangles: nat,
    indices: Seq<usize>,
    positions: Seq<[T; 3]>,
    normals: Seq<[T; 3]>,
    uvs: Seq<[T; 2]>,
    t: Seq<TransformConfig<T>>,
) -> bool {
    &&& shapes.len() == n_triangles
    &&& forall|i: int|
        0 <= i < shapes.len() ==> (#[trigger] shapes[i] matches SceneShape::Triangle(tr) && tr.spec_id() == i && stores(
            tr.spec_mesh(),
            n_triangles,
            indices,
            positions,
            normals,
            uvs,
            t,
        ))
}

/// The verdict on a shape description: `None` when its shapes can be
/// built, otherwise why its mesh is refused. A mesh read from a file is
/// judged as loaded.
pub open spec fn shape_rejection<T>(conf: ShapeConfig<T>, loaded: Option<MeshBundle<T>>) -> Option<MeshError> {
    match conf {
        ShapeConfig::TriangleMesh { indices, positions, uvs, normals } => mesh_rejection(
            indices@.len() / 3,
            indices@,
            positions@.len(),
            normals@.len(),
            uvs@.len(),
        ),
        ShapeConfig::Uri(_) => match loaded {
            Some(b) => mesh_rejection(b.n_triangles as nat, b.indices@, b.positions@.len(), b.normals@.len(), b.uvs@.len()),
            None => None,
        },
        _ => None,
    }
}

/// `out` are the shapes that `conf` describes, placed by `t`: a mesh gives
/// its triangles, any other description one shape. `loaded` is the mesh
/// read for a file reference, `rect_flags` tells on which axes a
/// rectangle's corners agree and are ordered, and `polygon` gives a
/// polygon's centre and rim.
pub open spec fn shapes_built_from<T: Copy>(
    out: Seq<SceneShape<T>>,
    conf: ShapeConfig<T>,
    t: Seq<TransformConfig<T>>,
    loaded: Option<MeshBundle<T>>,
    rect_flags: Option<([bool; 3], [bool; 3])>,
    polygon: Option<([T; 3], Vec<[T; 3]>)>,
) -> bool {
    match conf {
        ShapeConfig::Sphere { center, radius } => {
            &&& out.len() == 1
            &&& out[0] matches SceneShape::Sphere { center: c, radius: r, object_to_world: o }
            &&& c == center && r == radius && o.view() == t
        },
        ShapeConfig::Disk { center, radius, normal } => {
            &&& out.len() == 1
            &&& out[0] matches SceneShape::Disk { center: c, radius: r, normal: n, object_to_world: o }
            &&& c == center && r == radius && n == normal && o.view() == t
        },
        ShapeConfig::Cylinder { center0, center1, radius } => {
            &&& out.len() == 1
            &&& out[0] matches SceneShape::Cylinder { center0: c0, center1: c1, radius: r, object_to_world: o }
            &&& c0 == center0 && c1 == center1 && r == radius && o.view() == t
        },
        ShapeConfig::Cube { p_min, p_max } => {
            &&& out.len() == 1
            &&& out[0] matches SceneShape::Cube(c)
            &&& triangulates(c.spec_triangles(), cube_indices(), cube_corners(p_min, p_max), t)
        },
        ShapeConfig::Rect { v0, v1 } => {
            &&& out.len() == 1
            &&& rect_flags matches Some(f)
            &&& out[0] matches SceneShape::Rect(r)
            &&& triangulates(r.spec_triangles(), rect_indices(), rect_corners(v0, v1, f.0, f.1), t)
        },
        ShapeConfig::Pyramid { v0, v1, v2, v3 } => {
            &&& out.len() == 1
            &&& out[0] matches SceneShape::Pyramid(p)
            &&& triangulates(p.spec_triangles(), pyramid_indices(), seq![v0, v1, v2, v3], t)
        },
        ShapeConfig::RegularPolygon { .. } => {
            &&& out.len() == 1
            &&& polygon matches Some(pg)
            &&& out[0] matches SceneShape::Polygon(p)
            &&& triangulates(p.spec_triangles(), fan_indices(pg.1@.len()), seq![pg.0] + pg.1@, t)
        },
        ShapeConfig::TriangleMesh { indices, positions, uvs, normals } => mesh_triangles(
            out,
            indices@.len() / 3,
            indices@,
            positions@,
            normals@,
            uvs@,
            t,
        ),
        ShapeConfig::Uri(_) => loaded matches Some(b) && mesh_triangles(
            out,
            b.n_triangles as nat,
            b.indices@,
            b.positions@,
            b.normals@,
            b.uvs@,
            t,
        ),
    }
}

/// One shape per triangle of `mesh`, numbered in order, all sharing it.
pub fn mesh_shapes<T: Copy>(mesh: TriangleMeshStorage<T>) -> (v: Vec<Arc<SceneShape<T>>>)
    requires
        mesh.wf(),
    ensures
        v@.len() == mesh.n_triangles,
        forall|i: int|
            0 <= i < v@.len() ==> (*#[trigger] v@[i] matches SceneShape::Triangle(tr) && tr.spec_id() == i
                && tr.spec_mesh() == mesh),
{
    let n_triangles = mesh.n_triangles;
    let ghost me = mesh;
    let mesh = Arc::new(mesh);
    let mut v: Vec<Arc<SceneShape<T>>> = Vec::new();
    let mut id: usize = 0;
    while id < n_triangles
        invariant
            id <= n_triangles,
            n_triangles == me.n_triangles,
            *mesh == me,
            v@.len() == id,
            forall|i: int|
                0 <= i < id ==> (*#[trigger] v@[i] matches SceneShape::Triangle(tr) && tr.spec_id() == i
                    && tr.spec_mesh() == me),
        decreases n_triangles - id,
    {
        v.push(Arc::new(SceneShape::Triangle(Triangle::new(id, share(&mesh)))));
        id = id + 1;
    }
    v
}

/// Validates a mesh description and makes its triangles, placed by `t`;
/// the first failing check is reported.
fn build_mesh<T: Copy>(
    n_triangles: usize,
    indices: Vec<usize>,
    positions: Vec<[T; 3]>,
    normals: Vec<[T; 3]>,
    uvs: Vec<[T; 2]>,
    t: Transform<T>,
) -> (r: Result<Vec<Arc<SceneShape<T>>>, MeshError>)
    ensures
        match r {
            Ok(v) => mesh_rejection(n_triangles as nat, indices@, positions@.len(), normals@.len(), uvs@.len()) is None
                && mesh_triangles(values(v@), n_triangles as nat, indices@, positions@, normals@, uvs@, t.view()),
            Err(e) => mesh_rejection(n_triangles as nat, indices@, positions@.len(), normals@.len(), uvs@.len()) == Some(e),
        },
{
    let ghost (ix, ps, ns, us, tv) = (indices@, positions@, normals@, uvs@, t.view());
    match TriangleMeshStorage::try_new(n_triangles, indices, positions, normals, uvs, t) {
        Ok(mesh) => {
            let v = mesh_shapes(mesh);
            assert forall|i: int| 0 <= i < values(v@).len() implies (#[trigger] values(v@)[i] matches SceneShape::Triangle(tr)
                && tr.spec_id() == i && stores(tr.spec_mesh(), n_triangles as nat, ix, ps, ns, us, tv)) by {
                assert(values(v@)[i] == *v@[i]);
            }
            Ok(v)
        },
        Err(e) => Err(e),
    }
}

/// A list holding the one shape `s`.
fn single<T>(s: SceneShape<T>) -> (v: Vec<Arc<SceneShape<T>>>)
    ensures
        values(v@) == seq![s],
{
    let mut v: Vec<Arc<SceneShape<T>>> = Vec::new();
    v.push(Arc::new(s));
    assert(values(v@) =~= seq![s]);
    v
}

impl<T: Copy> Builder<T> {
    /// The shapes that `conf` describes, placed by `object_to_world`: the
    /// triangles of a mesh (given in the description, or `loaded` from the
    /// file it refers to), or one shape for any other description.
    ///
    /// What takes floating point is worked out by the caller: on which
    /// axes a rectangle's corners agree and are ordered (`rect_flags`;
    /// they must agree on some axis), and a regular polygon's centre and
    /// rim vertices (`polygon`; at least three). Fails exactly when a mesh
    /// is refused, with the first failing check.
    pub fn build_shapes(
        conf: &ShapeConfig<T>,
        object_to_world: Transform<T>,
        loaded: Option<MeshBundle<T>>,
        rect_flags: Option<([bool; 3], [bool; 3])>,
        polygon: Option<([T; 3], Vec<[T; 3]>)>,
    ) -> (r: Result<Vec<Arc<SceneShape<T>>>, MeshError>)
        requires
            conf is Uri ==> loaded is Some,
            conf is Rect ==> (rect_flags matches Some(f) && (f.0[0] || f.0[1] || f.0[2])),
            conf matches ShapeConfig::RegularPolygon { num_sides, .. } ==> (polygon matches Some(p) && p.1@.len()
                == *num_sides && 3 <= *num_sides < usize::MAX / 3),
        ensures
            match r {
                Ok(v) => shape_rejection(*conf, loaded) is None && shapes_built_from(
                    values(v@),
                    *conf,
                    object_to_world.view(),
                    loaded,
                    rect_flags,
                    polygon,
                ),
                Err(e) => shape_rejection(*conf, loaded) == Some(e),
            },
    {
        let ghost tv = object_to_world.view();
        match conf {
            ShapeConfig::Sphere { center, radius } => Ok(
                single(SceneShape::Sphere { center: *center, radius: *radius, object_to_world }),
            ),
            ShapeConfig::Disk { center, radius, normal } => Ok(
                single(SceneShape::Disk { center: *center, radius: *radius, normal: *normal, object_to_world }),
            ),
            ShapeConfig::Cylinder { center0, center1, radius } => Ok(
                single(
                    SceneShape::Cylinder { center0: *center0, center1: *center1, radius: *radius, object_to_world },
                ),
            ),
            ShapeConfig::Cube { p_min, p_max } => Ok(single(SceneShape::Cube(Cube::new(*p_min, *p_max, object_to_world)))),
            ShapeConfig::Rect { v0, v1 } => match rect_flags {
                Some((axis_equal, ordered)) => Ok(
                    single(SceneShape::Rect(Rect::new(*v0, *v1, axis_equal, ordered, object_to_world))),
                ),
                None => {
                    proof {
                        assert(false);
                    }
                    Ok(Vec::new())
                },
            },
            ShapeConfig::Pyramid { v0, v1, v2, v3 } => {
                let vertices = [*v0, *v1, *v2, *v3];
                assert(vertices@ =~= seq![*v0, *v1, *v2, *v3]);
                Ok(single(SceneShape::Pyramid(Pyramid::new(vertices, object_to_world))))
            },
            ShapeConfig::RegularPolygon { .. } => match polygon {
                Some((center, rim)) => Ok(single(SceneShape::Polygon(RegularPolygon::new(center, rim, object_to_world)))),
                None => {
                    proof {
                        assert(false);
                    }
                    Ok(Vec::new())
                },
            },
            ShapeConfig::TriangleMesh { indices, positions, uvs, normals } => build_mesh(
                indices.len() / 3,
                copied(indices),
                copied(positions),
                copied(normals),
                copied(uvs),
                object_to_world,
            ),
            ShapeConfig::Uri(_) => match loaded {
                Some(b) => build_mesh(b.n_triangles, b.indices, b.positions, b.normals, b.uvs, object_to_world),
                None => {
                    proof {
                        assert(false);
                    }
                    Ok(Vec::new())
                },
            },
        }
    }
}

} // verus!
