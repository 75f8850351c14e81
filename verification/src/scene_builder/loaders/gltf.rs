use std::sync::Arc;
use vstd::prelude::*;

use crate::primitives::GeometricPrimitive;
use crate::scene_builder::bundle::{values, ScenePrimitive, WorldBundle};
use crate::scene_builder::geometry::{mesh_shapes, stores, SceneShape};
use crate::shapes::triangle::{max_index, mesh_rejection};
use crate::shapes::{MeshError, TriangleMeshStorage};
use crate::transform::{Transform, TransformConfig};
use crate::utils::{copied, share};

verus! {

/// One model of a glTF scene, as read from the file: how its vertices are
/// assembled, its vertex indices if it has any, its per-vertex positions,
/// normals and texture coordinates (either list may be empty), and whether
/// its material makes it a light source (an emission that is not black and
/// comes from no texture).
pub struct GltfModel<T> {
    pub is_triangles: bool,
    pub indices: Option<Vec<usize>>,
    pub positions: Vec<[T; 3]>,
    pub normals: Vec<[T; 3]>,
    pub uvs: Vec<[T; 2]>,
    pub emits_light: bool,
}

/// Why a glTF scene could not be loaded.
#[derive(Clone, Copy, Debug, PartialEq, Eq, Structural)]
pub enum GltfError {
    /// A triangle model has no vertex indices.
    NoIndices,
    /// A triangle model's mesh was refused.
    Mesh(MeshError),
}

/// The verdict on one model: models that are not made of triangles are
/// skipped, a triangle model needs vertex indices and a valid mesh.
pub open spec fn model_rejection<T>(m: GltfModel<T>) -> Option<GltfError> {
    if !m.is_triangles {
        None
    } else {
        match m.indices {
            None => Some(GltfError::NoIndices),
            Some(ix) => match mesh_rejection(ix@.len() / 3, ix@, m.positions@.len(), m.normals@.len(), m.uvs@.len()) {
                Some(e) => Some(GltfError::Mesh(e)),
                None => None,
            },
        }
    }
}

/// The verdict on a scene: the failure of its first refused model.
pub open spec fn scene_rejection<T>(models: Seq<GltfModel<T>>) -> Option<GltfError>
    decreases models.len(),
{
    if models.len() == 0 {
        None
    } else {
        match scene_rejection(models.drop_last()) {
            Some(e) => Some(e),
            None => model_rejection(models.last()),
        }
    }
}

/// Once a prefix of the models is refused, the whole scene is refused
/// for the same reason.
pub proof fn lemma_rejection_persists<T>(models: Seq<GltfModel<T>>, k: int)
    requires
        0 <= k <= models.len(),
        scene_rejection(models.subrange(0, k)) is Some,
    ensures
        scene_rejection(models) == scene_rejection(models.subrange(0, k)),
    decreases models.len(),
{
    if k < models.len() {
        assert(models.drop_last().subrange(0, k) =~= models.subrange(0, k));
        lemma_rejection_persists(models.drop_last(), k);
    } else {
        assert(models.subrange(0, k) =~= models);
    }
}

/// One primitive of a loaded scene: model `model`, either its triangle
/// number `triangle` or, when that is `None`, all its triangles as one
/// shape.
pub struct GltfPart {
    pub model: int,
    pub triangle: Option<int>,
}

/// The number of triangles of a model with vertex indices.
pub open spec fn model_triangle_count<T>(m: GltfModel<T>) -> nat {
    match m.indices {
        Some(ix) => ix@.len() / 3,
        None => 0,
    }
}

/// The primitives that model number `k` gives: none when it is not made of
/// triangles, one for all its triangles when it emits light, otherwise one
/// per triangle in order.
pub open spec fn model_parts<T>(m: GltfModel<T>, k: int) -> Seq<GltfPart> {
    if !m.is_triangles {
        Seq::empty()
    } else if m.emits_light {
        seq![GltfPart { model: k, triangle: None }]
    } else {
        Seq::new(model_triangle_count(m), |j: int| GltfPart { model: k, triangle: Some(j) })
    }
}

/// The primitives of a scene, model after model.
pub open spec fn scene_parts<T>(models: Seq<GltfModel<T>>) -> Seq<GltfPart>
    decreases models.len(),
{
    if models.len() == 0 {
        Seq::empty()
    } else {
        scene_parts(models.drop_last()) + model_parts(models.last(), models.len() - 1)
    }
}

/// The primitives among `parts` that are light sources, in order: those
/// that gather all triangles of a model.
pub open spec fn light_parts(parts: Seq<GltfPart>) -> Seq<GltfPart>
    decreases parts.len(),
{
    if parts.len() == 0 {
        Seq::empty()
    } else {
        light_parts(parts.drop_last()) + if parts.last().triangle is None {
            seq![parts.last()]
        } else {
            Seq::empty()
        }
    }
}

/// The number of models among `models` that are made of triangles and
/// emit light.
pub open spec fn emitting_models<T>(models: Seq<GltfModel<T>>) -> nat
    decreases models.len(),
{
    if models.len() == 0 {
        0
    } else {
        emitting_models(models.drop_last()) + if models.last().is_triangles && models.last().emits_light {
            1nat
        } else {
            0nat
        }
    }
}

/// The lights among two runs of primitives are those of the first run,
/// then those of the second.
pub proof fn lemma_light_parts_concat(a: Seq<GltfPart>, b: Seq<GltfPart>)
    ensures
        light_parts(a + b) == light_parts(a) + light_parts(b),
    decreases b.len(),
{
    if b.len() == 0 {
        assert(a + b =~= a);
        assert(light_parts(a) + light_parts(b) =~= light_parts(a));
    } else {
        lemma_light_parts_concat(a, b.drop_last());
        assert((a + b).drop_last() =~= a + b.drop_last());
        assert((a + b).last() == b.last());
        let tail = if b.last().triangle is None {
            seq![b.last()]
        } else {
            Seq::empty()
        };
        assert(light_parts(a) + light_parts(b.drop_last()) + tail =~= light_parts(a) + (light_parts(b.drop_last()) + tail));
    }
}

/// Primitives that each stand for one triangle are no lights.
pub proof fn lemma_triangle_parts_are_no_lights(parts: Seq<GltfPart>)
    requires
        forall|k: int| 0 <= k < parts.len() ==> (#[trigger] parts[k]).triangle is Some,
    ensures
        light_parts(parts).len() == 0,
    decreases parts.len(),
{
    if parts.len() > 0 {
        assert forall|k: int| 0 <= k < parts.drop_last().len() implies (#[trigger] parts.drop_last()[k]).triangle is Some by {
            assert(parts.drop_last()[k] == parts[k]);
        }
        lemma_triangle_parts_are_no_lights(parts.drop_last());
    }
}

/// A loaded glTF scene has one light per triangle model that emits light.
pub proof fn lemma_one_light_per_emitting_model<T>(models: Seq<GltfModel<T>>)
    ensures
        light_parts(scene_parts(models)).len() == emitting_models(models),
    decreases models.len(),
{
    if models.len() > 0 {
        let m = models.last();
        let row = model_parts(m, models.len() - 1);
        lemma_one_light_per_emitting_model(models.drop_last());
        lemma_light_parts_concat(scene_parts(models.drop_last()), row);
        if m.is_triangles && m.emits_light {
            assert(light_parts(row).len() == 1) by {
                assert(row.drop_last() =~= Seq::<GltfPart>::empty());
                assert(light_parts(row.drop_last()).len() == 0);
            }
        } else {
            lemma_triangle_parts_are_no_lights(row);
        }
    }
}

/// Adding a model that is not made of triangles, anywhere among the
/// models, changes neither whether and why loading fails nor the numbers
/// of primitives and of lights.
pub proof fn lemma_skipped_model<T>(models: Seq<GltfModel<T>>, k: int, m: GltfModel<T>)
    requires
        0 <= k <= models.len(),
        !m.is_triangles,
    ensures
        scene_rejection(models.insert(k, m)) == scene_rejection(models),
        scene_parts(models.insert(k, m)).len() == scene_parts(models).len(),
        emitting_models(models.insert(k, m)) == emitting_models(models),
        light_parts(scene_parts(models.insert(k, m))).len() == light_parts(scene_parts(models)).len(),
    decreases models.len(),
{
    let ext = models.insert(k, m);
    if k == models.len() {
        assert(ext.drop_last() =~= models);
        assert(ext.last() == m);
        assert(model_parts(m, models.len() as int) =~= Seq::<GltfPart>::empty());
        assert(scene_parts(ext) =~= scene_parts(models));
    } else {
        lemma_skipped_model(models.drop_last(), k, m);
        assert(ext.drop_last() =~= models.drop_last().insert(k, m));
        assert(ext.last() == models.last());
        assert(model_parts(models.last(), ext.len() - 1).len() == model_parts(models.last(), models.len() - 1).len());
    }
    lemma_one_light_per_emitting_model(ext);
    lemma_one_light_per_emitting_model(models);
}

/// `s` is the shape of `part` of model `m` placed by `t`: the numbered
/// triangle, or the list of all triangles in order, of a storage holding
/// the model's mesh.
pub open spec fn part_shape<T: Copy>(s: SceneShape<T>, part: GltfPart, m: GltfModel<T>, t: Seq<TransformConfig<T>>) -> bool {
    let n = model_triangle_count(m);
    &&& m.indices matches Some(ix)
    &&& match part.triangle {
        Some(j) => s matches SceneShape::Triangle(tr) && tr.spec_id() == j && stores(
            tr.spec_mesh(),
            n,
            ix@,
            m.positions@,
            m.normals@,
            m.uvs@,
            t,
        ),
        None => s matches SceneShape::Group(list) && list@.len() == n && forall|i: int|
            0 <= i < n ==> (#[trigger] list@[i]).spec_id() == i && stores(
                list@[i].spec_mesh(),
                n,
                ix@,
                m.positions@,
                m.normals@,
                m.uvs@,
                t,
            ),
    }
}

/// `p` is the primitive of `part`: its shape made of the material of the
/// part's model.
pub open spec fn part_primitive<T: Copy, M>(
    p: ScenePrimitive<SceneShape<T>, M>,
    part: GltfPart,
    models: Seq<GltfModel<T>>,
    materials: Seq<M>,
    t: Seq<TransformConfig<T>>,
) -> bool {
    &&& p matches ScenePrimitive::Geometric(g)
    &&& *g.material == materials[part.model]
    &&& part_shape(*g.shape, part, models[part.model], t)
}

/// `w` holds the primitives `parts` in order, and as lights those among
/// them that are light sources.
pub open spec fn holds_parts<T: Copy, M>(
    w: WorldBundle<SceneShape<T>, M>,
    parts: Seq<GltfPart>,
    models: Seq<GltfModel<T>>,
    materials: Seq<M>,
    t: Seq<TransformConfig<T>>,
) -> bool {
    &&& w.primitives@.len() == parts.len()
    &&& forall|k: int|
        0 <= k < parts.len() ==> part_primitive(*w.primitives@[k], #[trigger] parts[k], models, materials, t)
    &&& w.lights@.len() == light_parts(parts).len()
    &&& forall|k: int|
        0 <= k < light_parts(parts).len() ==> part_primitive(
            *w.lights@[k],
            #[trigger] light_parts(parts)[k],
            models,
            materials,
            t,
        )
}

/// A triangle model whose vertex normals are given but do not reach its
/// largest vertex index is refused for that, when its indices and
/// positions are in order.
pub proof fn lemma_short_normals_refused<T>(m: GltfModel<T>)
    requires
        m.is_triangles,
        m.indices matches Some(ix) && ix@.len() % 3 == 0 && max_index(ix@) < m.positions@.len() && m.normals@.len()
            != 0 && max_index(ix@) >= m.normals@.len(),
    ensures
        model_rejection(m) == Some(GltfError::Mesh(MeshError::NormalIndexOutOfRange)),
{
}

/// A triangle model whose vertex indices, positions, normals and texture
/// coordinates pass mesh validation is accepted.
pub proof fn lemma_valid_model_accepted<T>(m: GltfModel<T>)
    requires
        m.indices matches Some(ix) && ix@.len() % 3 == 0 && max_index(ix@) < m.positions@.len() && (m.normals@.len()
            == 0 || max_index(ix@) < m.normals@.len()) && (m.uvs@.len() == 0 || max_index(ix@) < m.uvs@.len()),
    ensures
        model_rejection(m) is None,
{
}

/// Every primitive of a loaded scene is made of triangles whose storage
/// holds its own model's vertex indices, positions, normals and texture
/// coordinates, placed by the scene's transformation, and of its model's
/// material.
pub proof fn lemma_loaded_meshes_keep_model_data<T: Copy, M>(
    w: WorldBundle<SceneShape<T>, M>,
    models: Seq<GltfModel<T>>,
    materials: Seq<M>,
    t: Seq<TransformConfig<T>>,
)
    requires
        holds_parts(w, scene_parts(models), models, materials, t),
    ensures
        forall|k: int|
            0 <= k < w.primitives@.len() ==> {
                let m = models[scene_parts(models)[k].model];
                &&& #[trigger] *w.primitives@[k] matches ScenePrimitive::Geometric(g)
                &&& *g.material == materials[scene_parts(models)[k].model]
                &&& m.indices is Some
                &&& (*g.shape matches SceneShape::Triangle(tr) ==> {
                    &&& tr.spec_mesh().vertex_indices@ == m.indices->0@
                    &&& tr.spec_mesh().positions@ == m.positions@
                    &&& tr.spec_mesh().vertex_normals@ == m.normals@
                    &&& tr.spec_mesh().uvs@ == m.uvs@
                    &&& tr.spec_mesh().object_to_world.view() == t
                })
                &&& (*g.shape matches SceneShape::Group(list) ==> forall|i: int|
                    0 <= i < list@.len() ==> {
                        &&& (#[trigger] list@[i]).spec_mesh().vertex_indices@ == m.indices->0@
                        &&& list@[i].spec_mesh().positions@ == m.positions@
                        &&& list@[i].spec_mesh().vertex_normals@ == m.normals@
                        &&& list@[i].spec_mesh().uvs@ == m.uvs@
                        &&& list@[i].spec_mesh().object_to_world.view() == t
                    })
            },
{
    let parts = scene_parts(models);
    assert forall|k: int| 0 <= k < w.primitives@.len() implies {
        let m = models[parts[k].model];
        &&& #[trigger] *w.primitives@[k] matches ScenePrimitive::Geometric(g)
        &&& *g.material == materials[parts[k].model]
        &&& m.indices is Some
        &&& (*g.shape matches SceneShape::Triangle(tr) ==> {
            &&& tr.spec_mesh().vertex_indices@ == m.indices->0@
            &&& tr.spec_mesh().positions@ == m.positions@
            &&& tr.spec_mesh().vertex_normals@ == m.normals@
            &&& tr.spec_mesh().uvs@ == m.uvs@
            &&& tr.spec_mesh().object_to_world.view() == t
        })
        &&& (*g.shape matches SceneShape::Group(list) ==> forall|i: int|
            0 <= i < list@.len() ==> {
                &&& (#[trigger] list@[i]).spec_mesh().vertex_indices@ == m.indices->0@
                &&& list@[i].spec_mesh().positions@ == m.positions@
                &&& list@[i].spec_mesh().vertex_normals@ == m.normals@
                &&& list@[i].spec_mesh().uvs@ == m.uvs@
                &&& list@[i].spec_mesh().object_to_world.view() == t
            })
    } by {
        assert(part_primitive(*w.primitives@[k], parts[k], models, materials, t));
    }
}

/// Loads the models of a glTF scene, placed by `transform`, model `k` made
/// of `materials[k]`.
///
/// Models not made of triangles are skipped. A triangle model that emits
/// light becomes one primitive gathering all its triangles, which is also
/// a light of the scene; any other triangle model gives one primitive per
/// triangle, in order. Fails at the first triangle model without vertex
/// indices or with a refused mesh.
pub fn load_scene<T: Copy, M>(
    models: &Vec<GltfModel<T>>,
    materials: &Vec<Arc<M>>,
    transform: &Transform<T>,
) -> (r: Result<WorldBundle<SceneShape<T>, M>, GltfError>)
    requires
        materials@.len() == models@.len(),
    ensures
        match r {
            Ok(w) => scene_rejection(models@) is None && holds_parts(
                w,
                scene_parts(models@),
                models@,
                values(materials@),
                transform.view(),
            ),
            Err(e) => scene_rejection(models@) == Some(e),
        },
{
    let ghost mats = values(materials@);
    let ghost tv = transform.view();
    let mut w: WorldBundle<SceneShape<T>, M> = WorldBundle { primitives: Vec::new(), lights: Vec::new() };
    let mut i: usize = 0;
    while i < models.len()
        invariant
            i <= models@.len(),
            materials@.len() == models@.len(),
            mats == values(materials@),
            tv == transform.view(),
            scene_rejection(models@.subrange(0, i as int)) is None,
            holds_parts(w, scene_parts(models@.subrange(0, i as int)), models@, mats, tv),
        decreases models@.len() - i,
    {
        let ghost prefix = models@.subrange(0, i as int);
        let ghost before = scene_parts(prefix);
        proof {
            assert(models@.subrange(0, i + 1).drop_last() =~= prefix);
            assert(models@.subrange(0, i + 1).last() == models@[i as int]);
        }
        let m = &models[i];
        if m.is_triangles {
            match &m.indices {
                None => {
                    proof {
                        lemma_rejection_persists(models@, i + 1);
                    }
                    return Err(GltfError::NoIndices);
                },
                Some(ix) => {
                    let n = ix.len() / 3;
                    let stored = TriangleMeshStorage::try_new(
                        n,
                        copied(ix),
                        copied(&m.positions),
                        copied(&m.normals),
                        copied(&m.uvs),
                        transform.duplicate(),
                    );
                    let mesh = match stored {
                        Ok(mesh) => mesh,
                        Err(e) => {
                            proof {
                                lemma_rejection_persists(models@, i + 1);
                            }
                            return Err(GltfError::Mesh(e));
                        },
                    };
                    assert(stores(mesh, n as nat, ix@, m.positions@, m.normals@, m.uvs@, tv));
                    if m.emits_light {
                        let list = mesh.into_triangles();
                        let ghost part = GltfPart { model: i as int, triangle: None };
                        let ghost group = SceneShape::Group(list);
                        assert(part_shape(group, part, models@[i as int], tv));
                        let shape = Arc::new(SceneShape::Group(list));
                        let prim = Arc::new(
                            ScenePrimitive::Geometric(GeometricPrimitive::new(shape, share(&materials[i]))),
                        );
                        w.lights.push(share(&prim));
                        w.primitives.push(prim);
                        proof {
                            let after = before.push(part);
                            assert(model_parts(models@[i as int], i as int) =~= seq![part]);
                            assert(scene_parts(models@.subrange(0, i + 1)) =~= after);
                            assert(after.drop_last() =~= before);
                            assert(light_parts(after) == light_parts(before).push(part));
                            assert(holds_parts(w, after, models@, mats, tv));
                        }
                    } else {
                        let ghost me = mesh;
                        let shapes = mesh_shapes(mesh);
                        let ghost row = model_parts(models@[i as int], i as int);
                        let mut j: usize = 0;
                        while j < shapes.len()
                            invariant
                                j <= shapes@.len(),
                                shapes@.len() == n,
                                i < models@.len(),
                                materials@.len() == models@.len(),
                                mats == values(materials@),
                                tv == transform.view(),
                                models@[i as int].is_triangles,
                                !models@[i as int].emits_light,
                                models@[i as int].indices == Some(*ix),
                                n == ix@.len() / 3,
                                row == model_parts(models@[i as int], i as int),
                                stores(me, n as nat, ix@, models@[i as int].positions@, models@[i as int].normals@, models@[i as int].uvs@, tv),
                                forall|k: int|
                                    0 <= k < shapes@.len() ==> (*#[trigger] shapes@[k] matches SceneShape::Triangle(tr)
                                        && tr.spec_id() == k && tr.spec_mesh() == me),
                                holds_parts(w, before + row.subrange(0, j as int), models@, mats, tv),
                            decreases shapes@.len() - j,
                        {
                            let ghost cur = before + row.subrange(0, j as int);
                            let ghost part = row[j as int];
                            assert(before + row.subrange(0, j + 1) =~= cur.push(part));
                            assert(cur.push(part).drop_last() =~= cur);
                            assert(part_shape(*shapes@[j as int], part, models@[i as int], tv));
                            let prim = Arc::new(
                                ScenePrimitive::Geometric(GeometricPrimitive::new(share(&shapes[j]), share(&materials[i]))),
                            );
                            w.primitives.push(prim);
                            assert(light_parts(cur.push(part)) == light_parts(cur));
                            j = j + 1;
                        }
                        assert(row.subrange(0, n as int) =~= row);
                        assert(scene_parts(models@.subrange(0, i + 1)) == before + row);
                    }
                },
            }
        } else {
            assert(model_parts(models@[i as int], i as int) =~= Seq::<GltfPart>::empty());
            assert(scene_parts(models@.subrange(0, i + 1)) =~= before);
        }
        i = i + 1;
    }
    assert(models@.subrange(0, models@.len() as int) =~= models@);
    Ok(w)
}

} // verus!
