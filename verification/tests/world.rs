use std::rc::Rc;
use std::sync::Arc;

use toy_ray_tracer::project::Settings;
use toy_ray_tracer::scene_builder::assets::AssetsManager;
use toy_ray_tracer::scene_builder::builder::{Accelerator, Builder};
use toy_ray_tracer::scene_builder::bundle::ScenePrimitive;
use toy_ray_tracer::scene_builder::geometry::SceneShape;
use toy_ray_tracer::scene_builder::loaders::gltf::{load_scene, GltfError, GltfModel};
use toy_ray_tracer::scene_builder::loaders::mesh::MeshBundle;
use toy_ray_tracer::scene_builder::assets::AssetError;
use toy_ray_tracer::scene_builder::materials::MaterialNode;
use toy_ray_tracer::scene_builder::types::{
    AcceleratorConfig, AorB, AreaLightConfig, CameraConfig, EnvironmentConfig, MaterialConfig, PrimitiveConfig,
    SceneCustomConfig, ShapeConfig, TextureConfig, UriConfig,
};
use toy_ray_tracer::scene_builder::world::{BuildError, LightNode, ProjectError, SceneBundle, ShapeInputs};
use toy_ray_tracer::shapes::MeshError;
use toy_ray_tracer::transform::Transform;

fn no_inputs() -> ShapeInputs<f32> {
    ShapeInputs { loaded: None, rect_flags: None, polygon: None }
}

fn shapes_of(conf: &ShapeConfig<f32>, inputs: ShapeInputs<f32>) -> Result<Vec<Arc<SceneShape<f32>>>, MeshError> {
    Builder::<f32>::build_shapes(conf, Transform::identity(), inputs.loaded, inputs.rect_flags, inputs.polygon)
}

fn triangle_id(s: &SceneShape<f32>) -> usize {
    match s {
        SceneShape::Triangle(t) => t.id(),
        _ => panic!("expected a triangle"),
    }
}

#[test]
fn analytic_shapes_keep_their_description() {
    let conf = ShapeConfig::Sphere { center: [1.0, 2.0, 3.0], radius: 0.5 };
    let v = shapes_of(&conf, no_inputs()).ok().unwrap();
    assert_eq!(v.len(), 1);
    match &*v[0] {
        SceneShape::Sphere { center, radius, object_to_world } => {
            assert_eq!(*center, [1.0, 2.0, 3.0]);
            assert_eq!(*radius, 0.5);
            assert!(object_to_world.ops.is_empty());
        },
        _ => panic!("expected a sphere"),
    }
    let conf = ShapeConfig::Cylinder { center0: [0.0, 0.0, 0.0], center1: [0.0, 1.0, 0.0], radius: 2.0 };
    match &*shapes_of(&conf, no_inputs()).ok().unwrap()[0] {
        SceneShape::Cylinder { center1, radius, .. } => {
            assert_eq!(*center1, [0.0, 1.0, 0.0]);
            assert_eq!(*radius, 2.0);
        },
        _ => panic!("expected a cylinder"),
    }
}

#[test]
fn meshes_give_one_shape_per_triangle() {
    let conf = ShapeConfig::TriangleMesh {
        indices: vec![0, 1, 2, 2, 1, 3],
        positions: vec![[0.0, 0.0, 0.0], [1.0, 0.0, 0.0], [0.0, 1.0, 0.0], [1.0, 1.0, 0.0]],
        uvs: vec![],
        normals: vec![],
    };
    let v = shapes_of(&conf, no_inputs()).ok().unwrap();
    assert_eq!(v.len(), 2);
    assert_eq!(triangle_id(&v[0]), 0);
    assert_eq!(triangle_id(&v[1]), 1);
    let bad = ShapeConfig::TriangleMesh {
        indices: vec![0, 1, 4],
        positions: vec![[0.0, 0.0, 0.0], [1.0, 0.0, 0.0], [0.0, 1.0, 0.0]],
        uvs: vec![],
        normals: vec![],
    };
    assert_eq!(shapes_of(&bad, no_inputs()).err(), Some(MeshError::PositionIndexOutOfRange));
}

#[test]
fn loaded_meshes_are_validated_as_loaded() {
    let conf = ShapeConfig::Uri(UriConfig { uri: "mesh.obj".to_string() });
    let bundle = MeshBundle {
        n_triangles: 1,
        indices: vec![0, 1, 2],
        positions: vec![[0.0, 0.0, 0.0], [1.0, 0.0, 0.0], [0.0, 1.0, 0.0]],
        normals: vec![],
        uvs: vec![[0.0, 0.0]],
    };
    let inputs = ShapeInputs { loaded: Some(bundle), rect_flags: None, polygon: None };
    assert_eq!(shapes_of(&conf, inputs).err(), Some(MeshError::UvIndexOutOfRange));
    let bundle = MeshBundle {
        n_triangles: 1,
        indices: vec![0, 1, 2],
        positions: vec![[0.0, 0.0, 0.0], [1.0, 0.0, 0.0], [0.0, 1.0, 0.0]],
        normals: vec![],
        uvs: vec![],
    };
    let inputs = ShapeInputs { loaded: Some(bundle), rect_flags: None, polygon: None };
    let v = shapes_of(&conf, inputs).ok().unwrap();
    assert_eq!(v.len(), 1);
    assert_eq!(triangle_id(&v[0]), 0);
}

#[test]
fn solid_shapes_are_triangulated() {
    let cube = ShapeConfig::Cube { p_min: [0.0, 0.0, 0.0], p_max: [1.0, 1.0, 1.0] };
    match &*shapes_of(&cube, no_inputs()).ok().unwrap()[0] {
        SceneShape::Cube(c) => assert_eq!(c.triangles().len(), 12),
        _ => panic!("expected a cube"),
    }
    let pyramid = ShapeConfig::Pyramid { v0: [0.0, 0.0, 0.0], v1: [1.0, 0.0, 0.0], v2: [0.0, 1.0, 0.0], v3: [0.0, 0.0, 1.0] };
    match &*shapes_of(&pyramid, no_inputs()).ok().unwrap()[0] {
        SceneShape::Pyramid(p) => assert_eq!(p.triangles().len(), 4),
        _ => panic!("expected a pyramid"),
    }
    let rect = ShapeConfig::Rect { v0: [0.0, 0.0, 0.0], v1: [1.0, 1.0, 0.0] };
    let inputs = ShapeInputs { loaded: None, rect_flags: Some(([false, false, true], [true, true, true])), polygon: None };
    match &*shapes_of(&rect, inputs).ok().unwrap()[0] {
        SceneShape::Rect(r) => assert_eq!(r.triangles().len(), 2),
        _ => panic!("expected a rectangle"),
    }
    let polygon = ShapeConfig::RegularPolygon { radius: 1.0, num_sides: 4, normal: [0.0, 0.0, 1.0] };
    let rim = vec![[0.0, 1.0, 0.0], [-1.0, 0.0, 0.0], [0.0, -1.0, 0.0], [1.0, 0.0, 0.0]];
    let inputs = ShapeInputs { loaded: None, rect_flags: None, polygon: Some(([0.0, 0.0, 0.0], rim)) };
    match &*shapes_of(&polygon, inputs).ok().unwrap()[0] {
        SceneShape::Polygon(p) => {
            assert_eq!(p.triangles().len(), 4);
            assert_eq!(p.triangles().get(3).get_vertices(), [[0.0, 0.0, 0.0], [1.0, 0.0, 0.0], [0.0, 1.0, 0.0]]);
        },
        _ => panic!("expected a polygon"),
    }
}

fn model(is_triangles: bool, indices: Option<Vec<usize>>, emits_light: bool) -> GltfModel<f32> {
    GltfModel {
        is_triangles,
        indices,
        positions: vec![[0.0, 0.0, 0.0], [1.0, 0.0, 0.0], [0.0, 1.0, 0.0], [1.0, 1.0, 0.0]],
        normals: vec![],
        uvs: vec![],
        emits_light,
    }
}

fn material(ir: f32) -> Arc<MaterialNode<f32>> {
    Arc::new(MaterialNode::Dielectric { ir })
}

fn material_ir(m: &MaterialNode<f32>) -> f32 {
    match m {
        MaterialNode::Dielectric { ir } => *ir,
        _ => panic!("expected a dielectric"),
    }
}

#[test]
fn gltf_models_become_primitives_and_lights() {
    let models = vec![
        model(false, None, false),
        model(true, Some(vec![0, 1, 2, 2, 1, 3]), false),
        model(true, Some(vec![0, 1, 2, 2, 1, 3]), true),
    ];
    let materials = vec![material(1.0), material(2.0), material(3.0)];
    let w = load_scene(&models, &materials, &Transform::identity()).ok().unwrap();
    assert_eq!(w.primitives.len(), 3);
    assert_eq!(w.lights.len(), 1);
    match &*w.primitives[1] {
        ScenePrimitive::Geometric(g) => {
            assert_eq!(triangle_id(&g.shape), 1);
            assert_eq!(material_ir(&g.material), 2.0);
        },
        _ => panic!("glTF primitives are not flipped"),
    }
    match &*w.lights[0] {
        ScenePrimitive::Geometric(g) => {
            match &*g.shape {
                SceneShape::Group(list) => assert_eq!(list.len(), 2),
                _ => panic!("an emitting model is one group of triangles"),
            }
            assert_eq!(material_ir(&g.material), 3.0);
        },
        _ => panic!("glTF primitives are not flipped"),
    }
    assert!(Arc::ptr_eq(&w.lights[0], &w.primitives[2]));
}

#[test]
fn gltf_models_are_refused_in_order() {
    let materials = vec![material(1.0), material(2.0)];
    let models = vec![model(true, None, false), model(true, Some(vec![0, 1, 9]), false)];
    assert_eq!(load_scene(&models, &materials, &Transform::identity()).err(), Some(GltfError::NoIndices));
    let models = vec![model(true, Some(vec![0, 1, 9]), false), model(true, None, false)];
    assert_eq!(
        load_scene(&models, &materials, &Transform::identity()).err(),
        Some(GltfError::Mesh(MeshError::PositionIndexOutOfRange))
    );
    let models = vec![
        model(true, Some(vec![0, 1, 2]), false),
        model(false, None, true),
        model(true, Some(vec![0, 1, 2, 2, 1, 3]), true),
    ];
    let materials3 = vec![material(1.0), material(2.0), material(3.0)];
    let with_skipped = load_scene(&models, &materials3, &Transform::identity()).ok().unwrap();
    let models = vec![model(true, Some(vec![0, 1, 2]), false), model(true, Some(vec![0, 1, 2, 2, 1, 3]), true)];
    let without = load_scene(&models, &materials, &Transform::identity()).ok().unwrap();
    assert_eq!(with_skipped.primitives.len(), without.primitives.len());
    assert_eq!(with_skipped.lights.len(), without.lights.len());
    let models = vec![model(false, None, false), model(false, Some(vec![0, 1]), true)];
    let w = load_scene(&models, &materials, &Transform::identity()).ok().unwrap();
    assert!(w.primitives.is_empty());
    assert!(w.lights.is_empty());
}

fn camera() -> CameraConfig<f32> {
    CameraConfig {
        look_from: [0.0, 0.0, 10.0],
        look_at: [0.0, 0.0, 0.0],
        view_up: [0.0, 1.0, 0.0],
        vertical_fov: 20.0,
        aspect: None,
        aperture: 0.0,
        focus_dist: 10.0,
        time0: 0.0,
        time1: 1.0,
    }
}

fn settings() -> Settings {
    Settings { output_dir: "./output".to_string(), width: 800, height: 400, nsamples: 4, max_depth: 8 }
}

fn scene(material: MaterialConfig<f32>) -> SceneCustomConfig<f32> {
    SceneCustomConfig {
        transforms: vec![],
        camera: Some(camera()),
        world: vec![
            PrimitiveConfig::Geom {
                transforms: vec![],
                shape: ShapeConfig::Sphere { center: [0.0, 0.0, 0.0], radius: 1.0 },
                material: MaterialConfig::DiffuseLight { emit: AorB::B([4.0, 4.0, 4.0]) },
                area_light: Some(AreaLightConfig {}),
                flip_face: false,
            },
            PrimitiveConfig::Geom {
                transforms: vec![],
                shape: ShapeConfig::TriangleMesh {
                    indices: vec![0, 1, 2, 2, 1, 3],
                    positions: vec![[0.0, 0.0, 0.0], [1.0, 0.0, 0.0], [0.0, 1.0, 0.0], [1.0, 1.0, 0.0]],
                    uvs: vec![],
                    normals: vec![],
                },
                material,
                area_light: None,
                flip_face: true,
            },
        ],
        environments: vec![EnvironmentConfig { l: [0.1, 0.2, 0.3] }],
    }
}

#[test]
fn written_scenes_become_bundles() {
    let mut b: Builder<f32> = Builder::new(Rc::new(AssetsManager::new("/assets", "/proj")));
    b.set_settings(settings());
    let conf = scene(MaterialConfig::Dielectric { ir: 1.5 });
    let layout = b.build_scene_custom(&conf);
    let bundle = b.build_layout(&layout, vec![no_inputs(), no_inputs()]).ok().unwrap();
    assert_eq!(bundle.primitives.len(), 3);
    assert_eq!(bundle.lights.len(), 2);
    match &bundle.lights[0] {
        LightNode::Area(p) => assert!(Arc::ptr_eq(p, &bundle.primitives[0])),
        LightNode::Environment { .. } => panic!("the area light comes first"),
    }
    match &bundle.lights[1] {
        LightNode::Environment { l } => assert_eq!(*l, [0.1, 0.2, 0.3]),
        LightNode::Area(_) => panic!("the environment light comes last"),
    }
    match &*bundle.primitives[2] {
        ScenePrimitive::Flipped(f) => assert_eq!(triangle_id(&f.inner().shape), 1),
        ScenePrimitive::Geometric(_) => panic!("the mesh asks for flipped faces"),
    }
    assert_eq!(bundle.camera.unwrap().focus_dist, 10.0);

    let bad = scene(MaterialConfig::Transparent {
        eta: 1.3,
        roughness: AorB::A(TextureConfig::ImageTexture { uri: "http://example.com/r.png".to_string() }),
        albedo: AorB::B([1.0, 1.0, 1.0]),
    });
    let layout = b.build_scene_custom(&bad);
    assert_eq!(
        b.build_layout(&layout, vec![no_inputs(), no_inputs()]).err(),
        Some(BuildError::Texture(AssetError::HostNotSupported))
    );
}

fn bundle_with(lights: usize, camera_fov: Option<f32>) -> SceneBundle<f32> {
    let prim = Arc::new(ScenePrimitive::Geometric(toy_ray_tracer::primitives::GeometricPrimitive::new(
        Arc::new(SceneShape::Sphere { center: [0.0, 0.0, 0.0], radius: 1.0, object_to_world: Transform::identity() }),
        material(1.0),
    )));
    let mut b = SceneBundle { primitives: vec![prim], lights: vec![], camera: None };
    for _ in 0..lights {
        b.lights.push(LightNode::Environment { l: [1.0, 1.0, 1.0] });
    }
    if let Some(fov) = camera_fov {
        let mut builder: Builder<f32> = Builder::new(Rc::new(AssetsManager::new("a", "p")));
        builder.set_settings(settings());
        let mut c = builder.build_camera(&camera());
        c.vertical_fov = fov;
        b.camera = Some(c);
    }
    b
}

#[test]
fn scenes_merge_in_order() {
    let mut a = bundle_with(1, Some(30.0));
    a.union_assign(bundle_with(2, None));
    assert_eq!(a.primitives.len(), 2);
    assert_eq!(a.lights.len(), 3);
    assert_eq!(a.camera.as_ref().unwrap().vertical_fov, 30.0);
    a.union_assign(bundle_with(0, Some(45.0)));
    assert_eq!(a.camera.as_ref().unwrap().vertical_fov, 45.0);

    let merged = Builder::<f32>::build_scenes(vec![bundle_with(0, Some(30.0)), bundle_with(1, Some(60.0)), bundle_with(1, None)])
        .ok()
        .unwrap();
    assert_eq!(merged.primitives.len(), 3);
    assert_eq!(merged.lights.len(), 2);
    assert_eq!(merged.camera.unwrap().vertical_fov, 60.0);
}

#[test]
fn projects_need_a_light_and_a_camera() {
    assert_eq!(Builder::<f32>::build_scenes(vec![]).err(), Some(ProjectError::NoLights));
    assert_eq!(
        Builder::<f32>::build_scenes(vec![bundle_with(0, Some(30.0))]).err(),
        Some(ProjectError::NoLights)
    );
    assert_eq!(Builder::<f32>::build_scenes(vec![bundle_with(1, None)]).err(), Some(ProjectError::NoCamera));

    let mut b: Builder<f32> = Builder::new(Rc::new(AssetsManager::new("a", "p")));
    let p = b
        .build_project("demo".to_string(), settings(), &AcceleratorConfig::Nop, vec![bundle_with(1, Some(30.0)), bundle_with(0, None)])
        .ok()
        .unwrap();
    assert_eq!(p.name(), "demo");
    assert_eq!(p.settings().width, 800);
    assert_eq!(b.get_settings().height, 400);
    assert_eq!(p.scene().lights.len(), 1);
    assert_eq!(p.scene().camera.vertical_fov, 30.0);
    match &p.scene().world {
        Accelerator::List(l) => assert_eq!(l.len(), 2),
        Accelerator::Bvh(_) => panic!("a plain list was asked for"),
    }
    let mut b: Builder<f32> = Builder::new(Rc::new(AssetsManager::new("a", "p")));
    assert_eq!(
        b.build_project("demo".to_string(), settings(), &AcceleratorConfig::Bvh, vec![bundle_with(1, None)]).err(),
        Some(ProjectError::NoCamera)
    );
}
