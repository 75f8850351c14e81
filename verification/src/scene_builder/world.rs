use std::sync::Arc;
use vstd::prelude::*;

use super::builder::{accelerated, camera_built_from, placements, Accelerator, Builder, CameraNode, Placement, SceneLayout};
use super::bundle::{assemble_world, expand, lights_of, primitive_for, values, ScenePrimitive, WorldBundle};
use super::geometry::{shape_rejection, shapes_built_from, SceneShape};
use super::loaders::mesh::MeshBundle;
use super::assets::AssetError;
use super::materials::{build_material, dirs_of, material_built_from, material_stop, MaterialNode, TextureStop};
use super::types::{AcceleratorConfig, ShapeConfig};
use crate::project::{Project, Settings};
use crate::shapes::MeshError;
use crate::utils::share;

verus! {

/// A primitive of a built scene.
pub type Prim<T> = ScenePrimitive<SceneShape<T>, MaterialNode<T>>;

/// A light of a built scene: a primitive that emits light, or a uniform
/// environment light of radiance `l`.
pub enum LightNode<T> {
    Area(Arc<Prim<T>>),
    Environment { l: [T; 3] },
}

/// What a scene contributes to a project: its primitives, its lights and
/// possibly a camera.
pub struct SceneBundle<T> {
    pub primitives: Vec<Arc<Prim<T>>>,
    pub lights: Vec<LightNode<T>>,
    pub camera: Option<CameraNode<T>>,
}

/// The lights `ls` as area lights.
pub open spec fn area_lights<T>(ls: Seq<Arc<Prim<T>>>) -> Seq<LightNode<T>> {
    ls.map_values(|p: Arc<Prim<T>>| LightNode::Area(p))
}

impl<T> SceneBundle<T> {
    /// The bundle of a world: its primitives, its emitting primitives as
    /// area lights, and no camera.
    pub fn from_world(w: WorldBundle<SceneShape<T>, MaterialNode<T>>) -> (b: Self)
        ensures
            b.primitives@ == w.primitives@,
            b.lights@ == area_lights(w.lights@),
            b.camera is None,
    {
        let mut lights: Vec<LightNode<T>> = Vec::new();
        let mut i: usize = 0;
        while i < w.lights.len()
            invariant
                i <= w.lights@.len(),
                lights@ == area_lights(w.lights@.subrange(0, i as int)),
            decreases w.lights@.len() - i,
        {
            lights.push(LightNode::Area(share(&w.lights[i])));
            assert(lights@ =~= area_lights(w.lights@.subrange(0, i + 1)));
            i = i + 1;
        }
        assert(w.lights@.subrange(0, w.lights@.len() as int) =~= w.lights@);
        SceneBundle { primitives: w.primitives, lights, camera: None }
    }

    /// Adds the primitives and lights of `other` after those of this
    /// bundle; the camera of `other`, when it has one, replaces this one's.
    pub fn union_assign(&mut self, other: SceneBundle<T>)
        ensures
            final(self).primitives@ == old(self).primitives@ + other.primitives@,
            final(self).lights@ == old(self).lights@ + other.lights@,
            final(self).camera == (if other.camera is Some {
                other.camera
            } else {
                old(self).camera
            }),
    {
        let SceneBundle { primitives, lights, camera } = other;
        let mut primitives = primitives;
        let mut lights = lights;
        self.primitives.append(&mut primitives);
        self.lights.append(&mut lights);
        if camera.is_some() {
            self.camera = camera;
        }
    }
}

/// What the caller works out for one geometry, by reading files or with
/// floating point: the mesh a file reference names, on which axes a
/// rectangle's corners agree and are ordered, and a regular polygon's
/// centre and rim.
pub struct ShapeInputs<T> {
    pub loaded: Option<MeshBundle<T>>,
    pub rect_flags: Option<([bool; 3], [bool; 3])>,
    pub polygon: Option<([T; 3], Vec<[T; 3]>)>,
}

/// `inp` gives what building `shape` needs.
pub open spec fn inputs_fit<T>(shape: ShapeConfig<T>, inp: ShapeInputs<T>) -> bool {
    &&& shape is Uri ==> inp.loaded is Some
    &&& shape is Rect ==> (inp.rect_flags matches Some(f) && (f.0[0] || f.0[1] || f.0[2]))
    &&& shape matches ShapeConfig::RegularPolygon { num_sides, .. } ==> (inp.polygon matches Some(p) && p.1@.len()
        == num_sides && 3 <= num_sides < usize::MAX / 3)
}

/// Why the geometries of a scene could not be built.
#[derive(Clone, Copy, Debug, PartialEq, Eq, Structural)]
pub enum BuildError {
    /// A mesh was refused.
    Mesh(MeshError),
    /// An image reference of a material did not resolve.
    Texture(AssetError),
}

/// What ends the building of geometries before it is done: a refused
/// mesh, or what stops the building of a material's textures.
#[derive(Clone, Copy, Debug, PartialEq, Eq, Structural)]
pub enum BuildStop {
    Mesh(MeshError),
    Texture(TextureStop),
}

/// What a build error says of where the building stopped.
pub open spec fn stop_of(e: BuildError) -> BuildStop {
    match e {
        BuildError::Mesh(m) => BuildStop::Mesh(m),
        BuildError::Texture(a) => BuildStop::Texture(TextureStop::Asset(a)),
    }
}

/// What ends the building of one geometry, if anything: its shapes are
/// built first, then its material.
pub open spec fn geometry_stop<T>(dirs: (Seq<char>, Seq<char>), g: Placement<T>, inp: ShapeInputs<T>) -> Option<BuildStop> {
    match shape_rejection(g.shape, inp.loaded) {
        Some(e) => Some(BuildStop::Mesh(e)),
        None => match material_stop(dirs, g.material) {
            Some(e) => Some(BuildStop::Texture(e)),
            None => None,
        },
    }
}

/// What ends the building of the geometries `gs`, geometry `k` with inputs
/// `inputs[k]`: what ends that of the first one that does not build.
pub open spec fn layout_stop<T>(
    dirs: (Seq<char>, Seq<char>),
    gs: Seq<Placement<T>>,
    inputs: Seq<ShapeInputs<T>>,
) -> Option<BuildStop>
    decreases gs.len(),
{
    if gs.len() == 0 {
        None
    } else {
        match layout_stop(dirs, gs.drop_last(), inputs) {
            Some(e) => Some(e),
            None => geometry_stop(dirs, gs.last(), inputs[gs.len() - 1]),
        }
    }
}

/// Once the building of some geometries stops, that of all of them stops
/// at the same place.
pub proof fn lemma_layout_stop_persists<T>(
    dirs: (Seq<char>, Seq<char>),
    gs: Seq<Placement<T>>,
    inputs: Seq<ShapeInputs<T>>,
    k: int,
)
    requires
        0 <= k <= gs.len(),
        layout_stop(dirs, gs.subrange(0, k), inputs) is Some,
    ensures
        layout_stop(dirs, gs, inputs) == layout_stop(dirs, gs.subrange(0, k), inputs),
    decreases gs.len(),
{
    if k < gs.len() {
        assert(gs.drop_last().subrange(0, k) =~= gs.subrange(0, k));
        lemma_layout_stop_persists(dirs, gs.drop_last(), inputs, k);
    } else {
        assert(gs.subrange(0, k) =~= gs);
    }
}

/// `shapes[k]` and `materials[k]` are the shapes and the material that
/// geometry `k` of `gs` describes.
pub open spec fn built_geometries<T: Copy>(
    dirs: (Seq<char>, Seq<char>),
    gs: Seq<Placement<T>>,
    inputs: Seq<ShapeInputs<T>>,
    shapes: Seq<Seq<SceneShape<T>>>,
    materials: Seq<MaterialNode<T>>,
) -> bool {
    &&& shapes.len() == gs.len()
    &&& materials.len() == gs.len()
    &&& forall|k: int|
        0 <= k < gs.len() ==> shapes_built_from(
            #[trigger] shapes[k],
            gs[k].shape,
            gs[k].transform,
            inputs[k].loaded,
            inputs[k].rect_flags,
            inputs[k].polygon,
        ) && material_built_from(dirs, materials[k], gs[k].material)
}

impl<T: Copy> Builder<T> {
    /// Builds a written-out scene from its layout: the shapes and the
    /// material of each geometry (with `inputs[k]` for geometry `k`), one
    /// primitive per shape, flipped as asked, those of light-emitting
    /// geometries also area lights, then the environment lights in order;
    /// and the scene's camera if it has one. Fails at the first geometry
    /// whose shapes or material cannot be built.
    pub fn build_layout<'a>(&self, layout: &SceneLayout<'a, T>, inputs: Vec<ShapeInputs<T>>) -> (r: Result<
        SceneBundle<T>,
        BuildError,
    >)
        requires
            inputs@.len() == layout.geometries@.len(),
            forall|k: int| 0 <= k < inputs@.len() ==> inputs_fit(*layout.geometries@[k].shape, #[trigger] inputs@[k]),
            layout.camera matches Some(c) ==> (c.aspect is None ==> self.spec_settings() is Some),
            layout_stop(dirs_of(self.spec_assets_manager()), placements(layout.geometries@), inputs@) != Some(
                BuildStop::Texture(TextureStop::ScalarImage),
            ),
        ensures
            ({
                let dirs = dirs_of(self.spec_assets_manager());
                let gs = placements(layout.geometries@);
                match r {
                    Ok(b) => {
                        &&& layout_stop(dirs, gs, inputs@) is None
                        &&& exists|shapes: Seq<Seq<SceneShape<T>>>, materials: Seq<MaterialNode<T>>|
                            #[trigger] built_geometries(dirs, gs, inputs@, shapes, materials) && {
                                let expected = expand(layout.geometries@, shapes, materials, gs.len());
                                let n_area = lights_of(expected).len();
                                &&& b.primitives@.len() == expected.len()
                                &&& forall|k: int|
                                    0 <= k < expected.len() ==> primitive_for(*b.primitives@[k], #[trigger] expected[k])
                                &&& b.lights@.len() == n_area + layout.environments@.len()
                                &&& forall|k: int|
                                    0 <= k < n_area ==> (#[trigger] b.lights@[k] matches LightNode::Area(p)
                                        && primitive_for(*p, lights_of(expected)[k]))
                                &&& forall|k: int|
                                    0 <= k < layout.environments@.len() ==> #[trigger] b.lights@[n_area + k]
                                        == (LightNode::<T>::Environment { l: layout.environments@[k].l })
                            }
                        &&& match layout.camera {
                            Some(c) => b.camera matches Some(cn) && camera_built_from(cn, *c, self.spec_settings()),
                            None => b.camera is None,
                        }
                    },
                    Err(e) => layout_stop(dirs, gs, inputs@) == Some(stop_of(e)),
                }
            }),
    {
        let manager = self.assets_manager();
        let ghost dirs = dirs_of(*manager);
        let ghost gs = placements(layout.geometries@);
        let ghost ins = inputs@;
        let n = layout.geometries.len();
        let mut rest = inputs;
        let mut shapes: Vec<Vec<Arc<SceneShape<T>>>> = Vec::new();
        let mut materials: Vec<Arc<MaterialNode<T>>> = Vec::new();
        let mut i: usize = 0;
        while i < n
            invariant
                n == layout.geometries@.len(),
                n == ins.len(),
                i <= n,
                gs == placements(layout.geometries@),
                dirs == dirs_of(*manager),
                *manager == self.spec_assets_manager(),
                ins == inputs@,
                layout_stop(dirs, gs, ins) != Some(BuildStop::Texture(TextureStop::ScalarImage)),
                rest@ == ins.subrange(i as int, n as int),
                forall|k: int| 0 <= k < n ==> inputs_fit(*layout.geometries@[k].shape, #[trigger] ins[k]),
                shapes@.len() == i,
                materials@.len() == i,
                layout_stop(dirs, gs.subrange(0, i as int), ins) is None,
                forall|k: int|
                    0 <= k < i ==> shapes_built_from(
                        values(#[trigger] shapes@[k]@),
                        gs[k].shape,
                        gs[k].transform,
                        ins[k].loaded,
                        ins[k].rect_flags,
                        ins[k].polygon,
                    ) && material_built_from(dirs, *materials@[k], gs[k].material),
            decreases n - i,
        {
            proof {
                assert(gs.subrange(0, i + 1).drop_last() =~= gs.subrange(0, i as int));
                assert(gs.subrange(0, i + 1).last() == gs[i as int]);
                assert(rest@[0] == ins[i as int]);
                assert(inputs_fit(*layout.geometries@[i as int].shape, ins[i as int]));
            }
            let inp = rest.remove(0);
            let geom = &layout.geometries[i];
            let ghost inp0 = inp;
            assert(gs[i as int] == layout.geometries@[i as int].view());
            assert(inp0 == ins[i as int]);
            let built = Builder::<T>::build_shapes(
                geom.shape,
                geom.object_to_world.duplicate(),
                inp.loaded,
                inp.rect_flags,
                inp.polygon,
            );
            let shape_list = match built {
                Ok(v) => v,
                Err(e) => {
                    proof {
                        assert(layout_stop(dirs, gs.subrange(0, i + 1), ins) == Some(BuildStop::Mesh(e)));
                        lemma_layout_stop_persists(dirs, gs, ins, i + 1);
                    }
                    return Err(BuildError::Mesh(e));
                },
            };
            assert(material_stop(dirs, *geom.material) != Some(TextureStop::ScalarImage)) by {
                if material_stop(dirs, *geom.material) == Some(TextureStop::ScalarImage) {
                    assert(layout_stop(dirs, gs.subrange(0, i + 1), ins) == Some(
                        BuildStop::Texture(TextureStop::ScalarImage),
                    ));
                    lemma_layout_stop_persists(dirs, gs, ins, i + 1);
                }
            }
            let material = match build_material(manager, geom.material) {
                Ok(m) => m,
                Err(e) => {
                    proof {
                        assert(layout_stop(dirs, gs.subrange(0, i + 1), ins) == Some(BuildStop::Texture(TextureStop::Asset(e))));
                        lemma_layout_stop_persists(dirs, gs, ins, i + 1);
                    }
                    return Err(BuildError::Texture(e));
                },
            };
            let ghost prev_shapes = shapes@;
            let ghost prev_materials = materials@;
            shapes.push(shape_list);
            materials.push(Arc::new(material));
            assert forall|k: int| 0 <= k < i + 1 implies shapes_built_from(
                values(#[trigger] shapes@[k]@),
                gs[k].shape,
                gs[k].transform,
                ins[k].loaded,
                ins[k].rect_flags,
                ins[k].polygon,
            ) && material_built_from(dirs, *materials@[k], gs[k].material) by {
                if k < i {
                    assert(shapes@[k] == prev_shapes[k]);
                    assert(materials@[k] == prev_materials[k]);
                }
            }
            assert(rest@ =~= ins.subrange(i + 1, n as int));
            i = i + 1;
        }
        let ghost sh = shapes@.map_values(|v: Vec<Arc<SceneShape<T>>>| values(v@));
        let ghost mats = values(materials@);
        assert(gs.subrange(0, n as int) =~= gs);
        assert(built_geometries(dirs, gs, ins, sh, mats)) by {
            assert forall|k: int| 0 <= k < gs.len() implies shapes_built_from(
                #[trigger] sh[k],
                gs[k].shape,
                gs[k].transform,
                ins[k].loaded,
                ins[k].rect_flags,
                ins[k].polygon,
            ) && material_built_from(dirs, mats[k], gs[k].material) by {
                assert(sh[k] == values(shapes@[k]@));
            }
        }
        let w = assemble_world(&layout.geometries, &shapes, &materials);
        let ghost expected = expand(layout.geometries@, sh, mats, n as nat);
        let ghost n_area = lights_of(expected).len();
        let mut bundle = SceneBundle::from_world(w);
        let mut j: usize = 0;
        while j < layout.environments.len()
            invariant
                j <= layout.environments@.len(),
                bundle.lights@.len() == n_area + j,
                forall|k: int|
                    0 <= k < n_area ==> (#[trigger] bundle.lights@[k] matches LightNode::Area(p) && primitive_for(
                        *p,
                        lights_of(expected)[k],
                    )),
                forall|k: int|
                    0 <= k < j ==> #[trigger] bundle.lights@[n_area + k] == (LightNode::<T>::Environment {
                        l: layout.environments@[k].l,
                    }),
                bundle.primitives@.len() == expected.len(),
                forall|k: int| 0 <= k < expected.len() ==> primitive_for(*bundle.primitives@[k], #[trigger] expected[k]),
            decreases layout.environments@.len() - j,
        {
            bundle.lights.push(LightNode::Environment { l: layout.environments[j].l });
            proof {
                assert(bundle.lights@[n_area + j] == (LightNode::<T>::Environment { l: layout.environments@[j as int].l }));
            }
            j = j + 1;
        }
        bundle.camera = match layout.camera {
            Some(c) => Some(self.build_camera(c)),
            None => None,
        };
        Ok(bundle)
    }
}

/// Why the scenes of a project do not make a renderable scene.
#[derive(Clone, Copy, Debug, PartialEq, Eq, Structural)]
pub enum ProjectError {
    /// No scene has a light.
    NoLights,
    /// No scene has a camera.
    NoCamera,
}

/// The primitives of the bundles `bs`, bundle after bundle.
pub open spec fn merged_primitives<T>(bs: Seq<SceneBundle<T>>) -> Seq<Arc<Prim<T>>>
    decreases bs.len(),
{
    if bs.len() == 0 {
        Seq::empty()
    } else {
        merged_primitives(bs.drop_last()) + bs.last().primitives@
    }
}

/// The lights of the bundles `bs`, bundle after bundle.
pub open spec fn merged_lights<T>(bs: Seq<SceneBundle<T>>) -> Seq<LightNode<T>>
    decreases bs.len(),
{
    if bs.len() == 0 {
        Seq::empty()
    } else {
        merged_lights(bs.drop_last()) + bs.last().lights@
    }
}

/// The camera of the last of the bundles `bs` that has one.
pub open spec fn merged_camera<T>(bs: Seq<SceneBundle<T>>) -> Option<CameraNode<T>>
    decreases bs.len(),
{
    if bs.len() == 0 {
        None
    } else if bs.last().camera is Some {
        bs.last().camera
    } else {
        merged_camera(bs.drop_last())
    }
}

/// The verdict on the merged bundles `bs`: they need a light, then a camera.
pub open spec fn scenes_rejection<T>(bs: Seq<SceneBundle<T>>) -> Option<ProjectError> {
    if merged_lights(bs).len() == 0 {
        Some(ProjectError::NoLights)
    } else if merged_camera(bs) is None {
        Some(ProjectError::NoCamera)
    } else {
        None
    }
}

/// A scene ready for rendering: its camera, its primitives organised for
/// intersection, and its lights.
pub struct BuiltScene<T> {
    pub camera: CameraNode<T>,
    pub world: Accelerator<Prim<T>>,
    pub lights: Vec<LightNode<T>>,
}

impl<T: Copy> Builder<T> {
    /// Merges the bundles of a project's scenes in order: primitives and
    /// lights are concatenated, and the camera is that of the last scene
    /// with one. Refuses a project without any light, then one without a
    /// camera.
    pub fn build_scenes(bundles: Vec<SceneBundle<T>>) -> (r: Result<SceneBundle<T>, ProjectError>)
        ensures
            match r {
                Ok(b) => {
                    &&& scenes_rejection(bundles@) is None
                    &&& b.primitives@ == merged_primitives(bundles@)
                    &&& b.lights@ == merged_lights(bundles@)
                    &&& b.camera == merged_camera(bundles@)
                },
                Err(e) => scenes_rejection(bundles@) == Some(e),
            },
    {
        let ghost bs = bundles@;
        let n = bundles.len();
        let mut rest = bundles;
        let mut main = SceneBundle { primitives: Vec::new(), lights: Vec::new(), camera: None };
        let mut i: usize = 0;
        while i < n
            invariant
                n == bs.len(),
                i <= n,
                rest@ == bs.subrange(i as int, n as int),
                main.primitives@ == merged_primitives(bs.subrange(0, i as int)),
                main.lights@ == merged_lights(bs.subrange(0, i as int)),
                main.camera == merged_camera(bs.subrange(0, i as int)),
            decreases n - i,
        {
            proof {
                assert(bs.subrange(0, i + 1).drop_last() =~= bs.subrange(0, i as int));
                assert(bs.subrange(0, i + 1).last() == bs[i as int]);
                assert(rest@[0] == bs[i as int]);
            }
            let b = rest.remove(0);
            main.union_assign(b);
            assert(rest@ =~= bs.subrange(i + 1, n as int));
            i = i + 1;
        }
        assert(bs.subrange(0, n as int) =~= bs);
        if main.lights.len() == 0 {
            return Err(ProjectError::NoLights);
        }
        if main.camera.is_none() {
            return Err(ProjectError::NoCamera);
        }
        Ok(main)
    }

    /// Assembles a project from the bundles of its scenes: records its
    /// settings, merges the bundles (refused as `build_scenes` refuses
    /// them), and organises the primitives as `accelerator` asks.
    pub fn build_project(
        &mut self,
        name: String,
        settings: Settings,
        accelerator: &AcceleratorConfig,
        bundles: Vec<SceneBundle<T>>,
    ) -> (r: Result<Project<BuiltScene<T>>, ProjectError>)
        ensures
            final(self).spec_settings() matches Some(s) && s.output_dir@ == settings.output_dir@ && s.width
                == settings.width && s.height == settings.height && s.nsamples == settings.nsamples && s.max_depth
                == settings.max_depth,
            final(self).state() == old(self).state(),
            final(self).spec_assets_manager() == old(self).spec_assets_manager(),
            match r {
                Ok(p) => {
                    &&& scenes_rejection(bundles@) is None
                    &&& p.spec_name() == name@
                    &&& *p.spec_settings() == settings
                    &&& Some(p.spec_scene().camera) == merged_camera(bundles@)
                    &&& p.spec_scene().lights@ == merged_lights(bundles@)
                    &&& accelerated(p.spec_scene().world, *accelerator, merged_primitives(bundles@))
                },
                Err(e) => scenes_rejection(bundles@) == Some(e),
            },
    {
        self.set_settings(settings.duplicate());
        let bundle = Self::build_scenes(bundles)?;
        let SceneBundle { primitives, lights, camera } = bundle;
        let camera = match camera {
            Some(c) => c,
            None => {
                proof {
                    assert(false);
                }
                return Err(ProjectError::NoCamera);
            },
        };
        let world = Self::build_accelerator(accelerator, primitives.as_slice());
        Ok(Project::new(name, settings, BuiltScene { camera, world, lights }))
    }
}

} // verus!
