use std::rc::Rc;
use std::sync::Arc;
use vstd::prelude::*;

use super::assets::AssetsManager;
use super::types::{
    AcceleratorConfig, CameraConfig, EnvironmentConfig, MaterialConfig, PrimitiveConfig,
    SceneCustomConfig, ShapeConfig, TransformConfig,
};
use crate::primitives::PrimitiveList;
use crate::project::Settings;
use crate::transform::Transform;
use crate::utils::share;

verus! {

/// The builder's transformation state: the saved enclosing
/// transformations, innermost last, and the current object-to-world
/// transformation.
pub struct TransformState<T> {
    pub stack: Seq<Seq<TransformConfig<T>>>,
    pub current: Seq<TransformConfig<T>>,
}

/// The state after entering a node with transformation `t`: the current
/// transformation is saved, and `t` now acts after it.
pub open spec fn entered<T>(s: TransformState<T>, t: Seq<TransformConfig<T>>) -> TransformState<T> {
    TransformState { stack: s.stack.push(s.current), current: s.current + t }
}

/// The state after leaving a node: the last saved transformation is restored.
pub open spec fn exited<T>(s: TransformState<T>) -> TransformState<T> {
    TransformState { stack: s.stack.drop_last(), current: s.stack.last() }
}

/// Leaving a node restores the state from before entering it, whatever
/// the node's transformation.
pub proof fn lemma_exit_undoes_enter<T>(s: TransformState<T>, t: Seq<TransformConfig<T>>)
    ensures
        exited(entered(s, t)) == s,
{
    assert(entered(s, t).stack.drop_last() =~= s.stack);
}

/// A geometry of the scene tree together with the object-to-world
/// transformation accumulated on the way to it.
pub struct Placement<T> {
    pub shape: ShapeConfig<T>,
    pub material: MaterialConfig<T>,
    pub transform: Seq<TransformConfig<T>>,
    pub flip_face: bool,
    pub area_light: bool,
}

/// The geometries of the subtree `node`, in depth-first order, when the
/// transformation in force around it is `outer`.
pub open spec fn flatten_node<T>(node: PrimitiveConfig<T>, outer: Seq<TransformConfig<T>>) -> Seq<Placement<T>>
    decreases node,
{
    match node {
        PrimitiveConfig::Geom { transforms, shape, material, area_light, flip_face } => seq![
            Placement {
                shape,
                material,
                transform: outer + transforms@,
                flip_face,
                area_light: area_light is Some,
            },
        ],
        PrimitiveConfig::Container { transforms, children } => {
            flatten_nodes(children@, outer + transforms@)
        },
    }
}

/// The geometries of the trees `nodes`, in order.
pub open spec fn flatten_nodes<T>(nodes: Seq<PrimitiveConfig<T>>, outer: Seq<TransformConfig<T>>) -> Seq<Placement<T>>
    decreases nodes,
{
    if nodes.len() == 0 {
        Seq::empty()
    } else {
        flatten_nodes(nodes.drop_last(), outer) + flatten_node(nodes.last(), outer)
    }
}

/// A geometry of the scene tree, referring to its description, with its
/// accumulated object-to-world transformation.
pub struct PlacedGeometry<'a, T> {
    pub shape: &'a ShapeConfig<T>,
    pub material: &'a MaterialConfig<T>,
    pub object_to_world: Transform<T>,
    pub flip_face: bool,
    pub area_light: bool,
}

impl<'a, T: Copy> PlacedGeometry<'a, T> {
    pub open spec fn view(&self) -> Placement<T> {
        Placement {
            shape: *self.shape,
            material: *self.material,
            transform: self.object_to_world.view(),
            flip_face: self.flip_face,
            area_light: self.area_light,
        }
    }
}

/// The placements described by `v`.
pub open spec fn placements<'a, T: Copy>(v: Seq<PlacedGeometry<'a, T>>) -> Seq<Placement<T>> {
    v.map_values(|g: PlacedGeometry<'a, T>| g.view())
}

/// The layout of a written-out scene: its geometries, its camera if it
/// has one, and its environment lights.
pub struct SceneLayout<'a, T> {
    pub geometries: Vec<PlacedGeometry<'a, T>>,
    pub camera: Option<&'a CameraConfig<T>>,
    pub environments: Vec<&'a EnvironmentConfig<T>>,
}

/// How a camera's aspect ratio is known.
pub enum Aspect<T> {
    /// Given in the camera description.
    Given(T),
    /// The ratio of the project's image width to its height.
    ImageRatio { width: usize, height: usize },
}

/// A camera ready for the renderer: the description's placement and lens,
/// with its aspect ratio settled.
pub struct CameraNode<T> {
    pub look_from: [T; 3],
    pub look_at: [T; 3],
    pub view_up: [T; 3],
    pub vertical_fov: T,
    pub aspect: Aspect<T>,
    pub aperture: T,
    pub focus_dist: T,
    pub time0: T,
    pub time1: T,
}

/// `c` is the camera that `conf` describes: its placement and lens as
/// given, and its aspect ratio as given or, when absent, that of the image
/// size in `settings`.
pub open spec fn camera_built_from<T>(c: CameraNode<T>, conf: CameraConfig<T>, settings: Option<Settings>) -> bool {
    &&& c.look_from == conf.look_from
    &&& c.look_at == conf.look_at
    &&& c.view_up == conf.view_up
    &&& c.vertical_fov == conf.vertical_fov
    &&& c.aperture == conf.aperture
    &&& c.focus_dist == conf.focus_dist
    &&& c.time0 == conf.time0
    &&& c.time1 == conf.time1
    &&& match conf.aspect {
        Some(a) => c.aspect matches Aspect::Given(g) && g == a,
        None => c.aspect matches Aspect::ImageRatio { width, height } && width == settings->0.width && height
            == settings->0.height,
    }
}

/// How the primitives of a scene are organised.
pub enum Accelerator<P> {
    /// A plain list.
    List(PrimitiveList<P>),
    /// The primitives from which a bounding volume hierarchy is built.
    Bvh(Vec<Arc<P>>),
}

/// `a` organises the primitives `prims`, in order, as `conf` asks.
pub open spec fn accelerated<P>(a: Accelerator<P>, conf: AcceleratorConfig, prims: Seq<Arc<P>>) -> bool {
    match a {
        Accelerator::List(l) => conf == AcceleratorConfig::Nop && l@ == prims.map_values(|p: Arc<P>| *p),
        Accelerator::Bvh(v) => conf == AcceleratorConfig::Bvh && v@.map_values(|p: Arc<P>| *p) == prims.map_values(
            |p: Arc<P>| *p,
        ),
    }
}

/// Walks scene descriptions, keeping track of the transformation in force.
pub struct Builder<T> {
    settings: Option<Settings>,
    transforms_stack: Vec<Transform<T>>,
    cur_transform: Transform<T>,
    assets_manager: Rc<AssetsManager>,
}

impl<T: Copy> Builder<T> {
    /// The builder's transformation state.
    pub closed spec fn state(&self) -> TransformState<T> {
        TransformState {
            stack: self.transforms_stack@.map_values(|t: Transform<T>| t.view()),
            current: self.cur_transform.view(),
        }
    }

    pub closed spec fn spec_settings(&self) -> Option<Settings> {
        self.settings
    }

    pub closed spec fn spec_assets_manager(&self) -> AssetsManager {
        *self.assets_manager
    }

    /// A builder with no settings, no saved transformations and the
    /// identity as current transformation.
    pub fn new(assets_manager: Rc<AssetsManager>) -> (b: Self)
        ensures
            b.state().stack == Seq::<Seq<TransformConfig<T>>>::empty(),
            b.state().current == Seq::<TransformConfig<T>>::empty(),
            b.spec_settings() is None,
            b.spec_assets_manager() == *assets_manager,
    {
        let b = Builder {
            settings: None,
            transforms_stack: Vec::new(),
            cur_transform: Transform::identity(),
            assets_manager,
        };
        assert(b.state().stack =~= Seq::<Seq<TransformConfig<T>>>::empty());
        b
    }

    /// Records the project settings.
    pub fn set_settings(&mut self, settings: Settings)
        ensures
            final(self).spec_settings() == Some(settings),
            final(self).state() == old(self).state(),
            final(self).spec_assets_manager() == old(self).spec_assets_manager(),
    {
        self.settings = Some(settings);
    }

    /// The assets manager the builder resolves references with.
    pub fn assets_manager(&self) -> (m: &AssetsManager)
        ensures
            *m == self.spec_assets_manager(),
    {
        &*self.assets_manager
    }

    /// The current object-to-world transformation.
    pub fn get_current_transform(&self) -> (t: Transform<T>)
        ensures
            t.view() == self.state().current,
    {
        self.cur_transform.duplicate()
    }

    /// Saves the current transformation and makes `transform` act after it.
    pub fn enter_transform(&mut self, transform: Transform<T>)
        ensures
            final(self).state() == entered(old(self).state(), transform.view()),
            final(self).spec_settings() == old(self).spec_settings(),
            final(self).spec_assets_manager() == old(self).spec_assets_manager(),
    {
        let saved = self.cur_transform.duplicate();
        self.transforms_stack.push(saved);
        self.cur_transform = transform.then_after(&self.cur_transform);
        assert(self.state().stack =~= entered(old(self).state(), transform.view()).stack);
    }

    /// Enters a node whose transformations are `confs`.
    pub fn enter_transform_conf(&mut self, confs: &[TransformConfig<T>])
        ensures
            final(self).state() == entered(old(self).state(), confs@),
            final(self).spec_settings() == old(self).spec_settings(),
            final(self).spec_assets_manager() == old(self).spec_assets_manager(),
    {
        let transform = Self::build_transforms(confs);
        self.enter_transform(transform);
    }

    /// Leaves the innermost node, restoring the transformation saved when
    /// entering it. There must be such a node.
    pub fn exit_transform(&mut self)
        requires
            old(self).state().stack.len() > 0,
        ensures
            final(self).state() == exited(old(self).state()),
            final(self).spec_settings() == old(self).spec_settings(),
            final(self).spec_assets_manager() == old(self).spec_assets_manager(),
    {
        let last = self.transforms_stack.pop();
        match last {
            Some(t) => {
                self.cur_transform = t;
            },
            None => {},
        }
        assert(self.state().stack =~= exited(old(self).state()).stack);
    }

    /// The recorded project settings; they must have been recorded.
    pub fn get_settings(&self) -> (s: &Settings)
        requires
            self.spec_settings() is Some,
        ensures
            Some(*s) == self.spec_settings(),
    {
        self.settings.as_ref().unwrap()
    }

    /// The geometries of the scene trees `confs`, in depth-first order,
    /// each with the transformation accumulated on the way to it: the
    /// current transformation, then the transformations of the enclosing
    /// groups from the outside in, then the geometry's own. The builder's
    /// transformation state is the same afterwards.
    pub fn build_world<'a>(&mut self, confs: &'a Vec<PrimitiveConfig<T>>) -> (out: Vec<PlacedGeometry<'a, T>>)
        ensures
            placements(out@) == flatten_nodes(confs@, old(self).state().current),
            final(self).state() == old(self).state(),
            final(self).spec_settings() == old(self).spec_settings(),
            final(self).spec_assets_manager() == old(self).spec_assets_manager(),
        decreases confs@,
    {
        let ghost s0 = self.state();
        let mut out: Vec<PlacedGeometry<'a, T>> = Vec::new();
        let mut i: usize = 0;
        while i < confs.len()
            invariant
                i <= confs@.len(),
                self.state() == s0,
                self.spec_settings() == old(self).spec_settings(),
                self.spec_assets_manager() == old(self).spec_assets_manager(),
                placements(out@) == flatten_nodes(confs@.subrange(0, i as int), s0.current),
            decreases confs@.len() - i,
        {
            let conf = &confs[i];
            let ghost before = out@;
            self.enter_transform_conf(conf.get_transforms());
            proof {
                assert(confs@.subrange(0, i + 1).drop_last() =~= confs@.subrange(0, i as int));
                assert(confs@.subrange(0, i + 1).last() == confs@[i as int]);
            }
            match conf {
                PrimitiveConfig::Geom { shape, material, area_light, flip_face, .. } => {
                    let g = PlacedGeometry {
                        shape,
                        material,
                        object_to_world: self.get_current_transform(),
                        flip_face: *flip_face,
                        area_light: area_light.is_some(),
                    };
                    out.push(g);
                    assert(placements(out@) =~= placements(before) + flatten_node(confs@[i as int], s0.current));
                },
                PrimitiveConfig::Container { children, .. } => {
                    assert(decreases_to!(confs@ => children@)) by {
                        assert(decreases_to!(confs@ => confs@[i as int]));
                    }
                    let mut sub = self.build_world(children);
                    let ghost sub_view = sub@;
                    out.append(&mut sub);
                    assert(out@ =~= before + sub_view);
                    assert(placements(out@) =~= placements(before) + placements(sub_view));
                    assert(placements(sub_view) == flatten_node(confs@[i as int], s0.current));
                },
            }
            assert(placements(out@) == placements(before) + flatten_node(confs@[i as int], s0.current));
            assert(flatten_nodes(confs@.subrange(0, i + 1), s0.current) == flatten_nodes(confs@.subrange(0, i as int), s0.current) + flatten_node(confs@[i as int], s0.current));
            self.exit_transform();
            proof {
                lemma_exit_undoes_enter(s0, conf.spec_transforms());
            }
            i = i + 1;
        }
        assert(confs@.subrange(0, confs@.len() as int) =~= confs@);
        out
    }

    /// The layout of a written-out scene: its own transformations act
    /// after the current one on all of its geometries; it keeps its camera
    /// (if any) and its environment lights in order. The builder's
    /// transformation state is the same afterwards.
    pub fn build_scene_custom<'a>(&mut self, conf: &'a SceneCustomConfig<T>) -> (layout: SceneLayout<'a, T>)
        ensures
            placements(layout.geometries@) == flatten_nodes(conf.world@, old(self).state().current + conf.transforms@),
            match layout.camera {
                Some(c) => conf.camera == Some(*c),
                None => conf.camera is None,
            },
            layout.environments@.len() == conf.environments@.len(),
            forall|i: int| 0 <= i < conf.environments@.len() ==> *layout.environments@[i] == conf.environments@[i],
            final(self).state() == old(self).state(),
            final(self).spec_settings() == old(self).spec_settings(),
            final(self).spec_assets_manager() == old(self).spec_assets_manager(),
    {
        let ghost s0 = self.state();
        self.enter_transform_conf(conf.transforms.as_slice());
        let geometries = self.build_world(&conf.world);
        let camera = conf.camera.as_ref();
        let mut environments: Vec<&'a EnvironmentConfig<T>> = Vec::new();
        let mut i: usize = 0;
        while i < conf.environments.len()
            invariant
                i <= conf.environments@.len(),
                environments@.len() == i,
                forall|j: int| 0 <= j < i ==> *environments@[j] == conf.environments@[j],
            decreases conf.environments@.len() - i,
        {
            environments.push(&conf.environments[i]);
            i = i + 1;
        }
        self.exit_transform();
        proof {
            lemma_exit_undoes_enter(s0, conf.transforms@);
        }
        SceneLayout { geometries, camera, environments }
    }

    /// The camera that `conf` describes; when it gives no aspect ratio, the
    /// ratio of the project's image size is used, so the project settings
    /// must have been recorded.
    pub fn build_camera(&self, conf: &CameraConfig<T>) -> (c: CameraNode<T>)
        requires
            conf.aspect is None ==> self.spec_settings() is Some,
        ensures
            camera_built_from(c, *conf, self.spec_settings()),
    {
        let aspect = match conf.aspect {
            Some(a) => Aspect::Given(a),
            None => {
                let settings = self.get_settings();
                Aspect::ImageRatio { width: settings.width, height: settings.height }
            },
        };
        CameraNode {
            look_from: conf.look_from,
            look_at: conf.look_at,
            view_up: conf.view_up,
            vertical_fov: conf.vertical_fov,
            aspect,
            aperture: conf.aperture,
            focus_dist: conf.focus_dist,
            time0: conf.time0,
            time1: conf.time1,
        }
    }

    /// The transformation made of the elementary steps `confs`, the first
    /// one acting first.
    pub fn build_transforms(confs: &[TransformConfig<T>]) -> (t: Transform<T>)
        ensures
            t.view() == confs@,
    {
        let mut acc = Transform::identity();
        let mut i: usize = 0;
        while i < confs.len()
            invariant
                i <= confs@.len(),
                acc.view() == confs@.subrange(0, i as int),
            decreases confs@.len() - i,
        {
            let step = Transform::from_ops(&[confs[i]]);
            acc = step.then_after(&acc);
            assert(acc.view() =~= confs@.subrange(0, i + 1));
            i = i + 1;
        }
        assert(confs@.subrange(0, confs@.len() as int) =~= confs@);
        acc
    }

    /// The organisation of `prims` that `conf` asks for.
    pub fn build_accelerator<P>(conf: &AcceleratorConfig, prims: &[Arc<P>]) -> (a: Accelerator<P>)
        ensures
            accelerated(a, *conf, prims@),
    {
        match conf {
            AcceleratorConfig::Nop => Accelerator::List(PrimitiveList::from_slice(prims)),
            AcceleratorConfig::Bvh => {
                let mut v: Vec<Arc<P>> = Vec::new();
                let mut i: usize = 0;
                while i < prims.len()
                    invariant
                        i <= prims@.len(),
                        v@.len() == i,
                        forall|j: int| 0 <= j < i ==> *v@[j] == *prims@[j],
                    decreases prims@.len() - i,
                {
                    v.push(share(&prims[i]));
                    i = i + 1;
                }
                assert(v@.map_values(|p: Arc<P>| *p) =~= prims@.map_values(|p: Arc<P>| *p));
                Accelerator::Bvh(v)
            },
        }
    }
}

} // verus!
