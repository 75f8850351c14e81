use std::rc::Rc;

use toy_ray_tracer::scene_builder::assets::{AssetError, AssetsManager, UrlFailure};
use toy_ray_tracer::scene_builder::builder::{Accelerator, Aspect, Builder};
use toy_ray_tracer::scene_builder::loaders::mesh::{MeshLoadError, MeshLoader, ObjMesh};
use toy_ray_tracer::scene_builder::types::{
    AcceleratorConfig, AorB, AreaLightConfig, MaterialConfig, PrimitiveConfig, SceneCustomConfig,
    ShapeConfig, TransformConfig,
};
use toy_ray_tracer::transform::Transform;
use toy_ray_tracer::scene_builder::materials::{
    build_material, build_texture_or_f32, build_texture_or_vec3f, MaterialNode, TextureNode,
};
use toy_ray_tracer::scene_builder::types::TextureConfig;
use std::sync::Arc;
use toy_ray_tracer::scene_builder::bundle::{assemble_world, ScenePrimitive};
use toy_ray_tracer::scene_builder::loaders::format::{project_format, ProjectFormat};

#[test]
fn test_url() {
    let url = url::Url::parse("file:///path/to/file.json").unwrap();
    println!("{:?}", url);
}

#[test]
fn test_assets_manager() {
    let assets_dir = "./assets/";
    let project_dir = "./project";
    let manager = AssetsManager::new(assets_dir, project_dir);
    let path = manager.load_path("assets:///models/cmu_cow/spot.obj").ok().unwrap();
    println!("{:?}", path);
}

#[test]
fn asset_paths_resolve_against_the_right_directory() {
    let manager = AssetsManager::new("./assets/", "./project");
    assert_eq!(manager.load_path("assets:///models/cmu_cow/spot.obj").ok().unwrap(), "./assets/models/cmu_cow/spot.obj");
    assert_eq!(manager.load_path("models/a.obj").ok().unwrap(), "./project/models/a.obj");
    assert_eq!(manager.load_path("file:///models/a.obj").ok().unwrap(), "./project/models/a.obj");
    assert_eq!(manager.load_path("/abs/a.obj").ok().unwrap(), "/abs/a.obj");
    assert_eq!(manager.load_path("http://example.com/a.obj").err(), Some(AssetError::HostNotSupported));
    assert_eq!(manager.load_path("http://").err(), Some(AssetError::InvalidUri));
}

#[test]
fn resolution_follows_the_parse_outcome() {
    let manager = AssetsManager::new("/data", "proj/");
    let r = manager.resolve_parsed("x.png", Err(UrlFailure::RelativeWithoutBase));
    assert_eq!(r.ok().unwrap(), "proj/x.png");
    let r = manager.resolve_parsed("bad", Err(UrlFailure::Invalid));
    assert_eq!(r.err(), Some(AssetError::InvalidUri));
    let r = manager.resolve_parsed("assets:/t/x.png", Ok(("assets".to_string(), false, "//t/x.png".to_string())));
    assert_eq!(r.ok().unwrap(), "/data/t/x.png");
    let r = manager.resolve_parsed("s://h/x", Ok(("s".to_string(), true, "/x".to_string())));
    assert_eq!(r.err(), Some(AssetError::HostNotSupported));
}

fn translate(x: f32) -> TransformConfig<f32> {
    TransformConfig::Translate { offset: [x, 0.0, 0.0] }
}

fn offset_of(t: &TransformConfig<f32>) -> f32 {
    match t {
        TransformConfig::Translate { offset } => offset[0],
        _ => f32::NAN,
    }
}

fn offsets(t: &Transform<f32>) -> Vec<f32> {
    t.ops.iter().map(offset_of).collect()
}

fn geom(x: f32, light: bool) -> PrimitiveConfig<f32> {
    PrimitiveConfig::Geom {
        transforms: vec![translate(x)],
        shape: ShapeConfig::Sphere { center: [0.0, 0.0, 0.0], radius: x },
        material: MaterialConfig::Dielectric { ir: 1.5 },
        area_light: if light { Some(AreaLightConfig {}) } else { None },
        flip_face: !light,
    }
}

#[test]
fn entering_then_leaving_a_transform_restores_it() {
    let mut b: Builder<f32> = Builder::new(Rc::new(AssetsManager::new("a", "p")));
    assert!(offsets(&b.get_current_transform()).is_empty());
    b.enter_transform_conf(&[translate(1.0)]);
    b.enter_transform(Builder::build_transforms(&[translate(2.0), translate(3.0)]));
    assert_eq!(offsets(&b.get_current_transform()), vec![1.0, 2.0, 3.0]);
    b.exit_transform();
    assert_eq!(offsets(&b.get_current_transform()), vec![1.0]);
    b.exit_transform();
    assert!(offsets(&b.get_current_transform()).is_empty());
}

#[test]
fn world_is_flattened_depth_first_with_accumulated_transforms() {
    let world = vec![
        geom(1.0, false),
        PrimitiveConfig::Container {
            transforms: vec![translate(10.0)],
            children: vec![geom(2.0, true), PrimitiveConfig::Container { transforms: vec![translate(20.0)], children: vec![geom(3.0, false)] }],
        },
        geom(4.0, true),
    ];
    let mut b: Builder<f32> = Builder::new(Rc::new(AssetsManager::new("a", "p")));
    b.enter_transform_conf(&[translate(100.0)]);
    let placed = b.build_world(&world);
    assert_eq!(placed.len(), 4);
    assert_eq!(offsets(&placed[0].object_to_world), vec![100.0, 1.0]);
    assert_eq!(offsets(&placed[1].object_to_world), vec![100.0, 10.0, 2.0]);
    assert_eq!(offsets(&placed[2].object_to_world), vec![100.0, 10.0, 20.0, 3.0]);
    assert_eq!(offsets(&placed[3].object_to_world), vec![100.0, 4.0]);
    assert_eq!(placed.iter().map(|g| g.area_light).collect::<Vec<_>>(), vec![false, true, false, true]);
    assert_eq!(placed.iter().map(|g| g.flip_face).collect::<Vec<_>>(), vec![true, false, true, false]);
    match placed[2].shape {
        ShapeConfig::Sphere { radius, .. } => assert_eq!(*radius, 3.0),
        _ => panic!("wrong shape"),
    }
    // the builder's transformation is back where it was
    assert_eq!(offsets(&b.get_current_transform()), vec![100.0]);
}

#[test]
fn custom_scene_applies_its_transform_and_keeps_lights() {
    let conf = SceneCustomConfig {
        transforms: vec![translate(5.0)],
        camera: None,
        world: vec![geom(1.0, true)],
        environments: vec![toy_ray_tracer::scene_builder::types::EnvironmentConfig { l: [0.5, 0.5, 0.5] }],
    };
    let mut b: Builder<f32> = Builder::new(Rc::new(AssetsManager::new("a", "p")));
    let layout = b.build_scene_custom(&conf);
    assert_eq!(layout.geometries.len(), 1);
    assert_eq!(offsets(&layout.geometries[0].object_to_world), vec![5.0, 1.0]);
    assert!(layout.camera.is_none());
    assert_eq!(layout.environments.len(), 1);
    assert_eq!(layout.environments[0].l, [0.5, 0.5, 0.5]);
    assert!(offsets(&b.get_current_transform()).is_empty());
}

#[test]
fn accelerator_choice_follows_the_config() {
    let prims = vec![Arc::new(1u32), Arc::new(2u32)];
    match Builder::<f32>::build_accelerator(&AcceleratorConfig::Nop, &prims) {
        Accelerator::List(l) => {
            assert_eq!(l.len(), 2);
            assert_eq!(*l.get(1), 2);
        },
        Accelerator::Bvh(_) => panic!("expected a list"),
    }
    match Builder::<f32>::build_accelerator(&AcceleratorConfig::default_config(), &prims) {
        Accelerator::Bvh(v) => assert_eq!(v.iter().map(|p| **p).collect::<Vec<_>>(), vec![1, 2]),
        Accelerator::List(_) => panic!("expected a hierarchy"),
    }
    let _unused: AorB<u8, u8> = AorB::A(0);
}

#[test]
fn attributes_are_realigned_by_position() {
    // face vertices use positions 2, 0, 2 with texture coordinates 0, 1, 2
    let aligned = MeshLoader::triangle_align_indices(&vec![2, 0, 2], &vec![0, 1, 2], &['a', 'b', 'c']);
    assert_eq!(aligned, vec!['b', 'a', 'c']);
    let empty: Vec<char> = MeshLoader::triangle_align_indices(&vec![2, 0, 2], &vec![], &[]);
    assert!(empty.is_empty());
    assert_eq!(MeshLoader::vec_u32_to_usize(&[3, 0, 7]), vec![3usize, 0, 7]);
}

#[test]
fn obj_models_become_bundles() {
    let loader = MeshLoader::new(Rc::new(AssetsManager::new("a", "p")));
    let mesh = ObjMesh {
        positions: vec![0.0f32, 0.0, 0.0, 1.0, 0.0, 0.0, 0.0, 1.0, 0.0],
        texcoords: vec![0.0, 0.0, 1.0, 1.0, 2.0, 2.0],
        normals: vec![],
        indices: vec![0, 1, 2],
        texcoord_indices: vec![2, 0, 1],
        normal_indices: vec![],
    };
    let b = loader.bundle_from_models(vec![mesh]).ok().unwrap();
    assert_eq!(b.n_triangles, 1);
    assert_eq!(b.indices, vec![0, 1, 2]);
    assert_eq!(b.positions, vec![[0.0, 0.0, 0.0], [1.0, 0.0, 0.0], [0.0, 1.0, 0.0]]);
    assert_eq!(b.uvs, vec![[2.0, 2.0], [0.0, 0.0], [1.0, 1.0]]);
    assert!(b.normals.is_empty());
    let none: Vec<ObjMesh<f32>> = vec![];
    assert_eq!(loader.bundle_from_models(none).err(), Some(MeshLoadError::ModelCount(0)));
}

#[test]
fn world_assembly_marks_lights_and_flips() {
    let world = vec![geom(1.0, false), geom(2.0, true)];
    let mut b: Builder<f32> = Builder::new(Rc::new(AssetsManager::new("a", "p")));
    let placed = b.build_world(&world);
    let shapes = vec![vec![Arc::new('a'), Arc::new('b')], vec![Arc::new('c')]];
    let materials = vec![Arc::new(10u8), Arc::new(20u8)];
    let w = assemble_world(&placed, &shapes, &materials);
    assert_eq!(w.primitives.len(), 3);
    assert_eq!(w.lights.len(), 1);
    match &*w.primitives[0] {
        ScenePrimitive::Flipped(f) => {
            assert_eq!(*f.inner().shape, 'a');
            assert_eq!(*f.inner().material, 10);
        },
        ScenePrimitive::Geometric(_) => panic!("the first geometry asks for flipped faces"),
    }
    match &*w.lights[0] {
        ScenePrimitive::Geometric(g) => {
            assert_eq!(*g.shape, 'c');
            assert_eq!(*g.material, 20);
        },
        ScenePrimitive::Flipped(_) => panic!("the light's geometry is not flipped"),
    }
    assert!(Arc::ptr_eq(&w.lights[0], &w.primitives[2]));
}

#[test]
fn project_files_are_read_by_extension() {
    assert_eq!(project_format("scenes/demo.json"), Some(ProjectFormat::Json));
    assert_eq!(project_format("demo.js"), Some(ProjectFormat::Js));
    assert_eq!(project_format("demo.yaml"), None);
    assert_eq!(project_format("demo"), None);
    assert_eq!(project_format(".json"), None);
}

#[test]
fn textures_resolve_their_images() {
    let manager = AssetsManager::new("/assets", "/proj");
    let conf: AorB<TextureConfig<[f32; 3]>, [f32; 3]> = AorB::A(TextureConfig::CheckerTexture {
        odd: Box::new(AorB::B([1.0, 0.0, 0.0])),
        even: Box::new(AorB::A(TextureConfig::ImageTexture { uri: "assets:///earth.jpg".to_string() })),
    });
    match build_texture_or_vec3f(&manager, &conf).ok().unwrap() {
        TextureNode::Checker(c) => {
            match c.select(true) {
                TextureNode::Constant(k) => assert_eq!(k.evaluate(), [1.0, 0.0, 0.0]),
                _ => panic!("odd half is a constant"),
            }
            match c.select(false) {
                TextureNode::Image { path } => assert_eq!(path, "/assets/earth.jpg"),
                _ => panic!("even half is an image"),
            }
        },
        _ => panic!("expected a checker"),
    }
    let bad: AorB<TextureConfig<f32>, f32> = AorB::A(TextureConfig::ImageTexture { uri: "http://host/x.png".to_string() });
    assert_eq!(build_texture_or_f32(&manager, &bad).err(), Some(AssetError::HostNotSupported));
    let bad_odd: AorB<TextureConfig<f32>, f32> = AorB::A(TextureConfig::CheckerTexture {
        odd: Box::new(AorB::A(TextureConfig::ImageTexture { uri: "http://".to_string() })),
        even: Box::new(AorB::A(TextureConfig::ImageTexture { uri: "rough.png".to_string() })),
    });
    assert_eq!(build_texture_or_f32(&manager, &bad_odd).err(), Some(AssetError::InvalidUri));
    let checker: AorB<TextureConfig<f32>, f32> = AorB::A(TextureConfig::CheckerTexture {
        odd: Box::new(AorB::B(0.25)),
        even: Box::new(AorB::A(TextureConfig::ConstantTexture { value: 0.75 })),
    });
    match build_texture_or_f32(&manager, &checker).ok().unwrap() {
        TextureNode::Checker(c) => match c.select(false) {
            TextureNode::Constant(k) => assert_eq!(k.evaluate(), 0.75),
            _ => panic!("even half is a constant"),
        },
        _ => panic!("expected a checker"),
    }
}

#[test]
fn materials_build_their_textures() {
    let manager = AssetsManager::new("/assets", "/proj");
    let conf = MaterialConfig::Metal { albedo: AorB::B([0.7f32, 0.6, 0.5]), fuzz: 0.1 };
    match build_material(&manager, &conf).ok().unwrap() {
        MaterialNode::Metal { albedo: TextureNode::Constant(c), fuzz } => {
            assert_eq!(c.evaluate(), [0.7, 0.6, 0.5]);
            assert_eq!(fuzz, 0.1);
        },
        _ => panic!("expected a metal"),
    }
    let conf = MaterialConfig::GltfPbr {
        eta: 1.5f32,
        base_color: AorB::B([1.0, 1.0, 1.0]),
        roughness: AorB::B(0.5),
        metallic: AorB::B(0.0),
        emit: AorB::A(TextureConfig::ImageTexture { uri: "https://example.com/e.png".to_string() }),
    };
    assert_eq!(build_material(&manager, &conf).err(), Some(AssetError::HostNotSupported));
    let conf = MaterialConfig::Transparent {
        eta: 1.3f32,
        roughness: AorB::A(TextureConfig::ImageTexture { uri: "http://example.com/r.png".to_string() }),
        albedo: AorB::B([1.0, 1.0, 1.0]),
    };
    assert_eq!(build_material(&manager, &conf).err(), Some(AssetError::HostNotSupported));
    let conf = MaterialConfig::GltfPbr {
        eta: 1.5f32,
        base_color: AorB::A(TextureConfig::ImageTexture { uri: "http://example.com/b.png".to_string() }),
        roughness: AorB::B(0.5),
        metallic: AorB::A(TextureConfig::ImageTexture { uri: "metal.png".to_string() }),
        emit: AorB::B([0.0, 0.0, 0.0]),
    };
    assert_eq!(build_material(&manager, &conf).err(), Some(AssetError::HostNotSupported));
}

#[test]
fn cameras_take_the_image_ratio_when_no_aspect_is_given() {
    let conf = toy_ray_tracer::scene_builder::types::CameraConfig {
        look_from: [0.0f32, 0.0, 10.0],
        look_at: [0.0, 0.0, 0.0],
        view_up: [0.0, 1.0, 0.0],
        vertical_fov: 20.0,
        aspect: None,
        aperture: 0.0,
        focus_dist: 10.0,
        time0: 0.0,
        time1: 0.0,
    };
    let mut b: Builder<f32> = Builder::new(Rc::new(AssetsManager::new("a", "p")));
    b.set_settings(toy_ray_tracer::project::Settings {
        output_dir: "./output".to_string(),
        width: 800,
        height: 400,
        nsamples: 15,
        max_depth: 15,
    });
    assert_eq!(b.get_settings().width, 800);
    let cam = b.build_camera(&conf);
    assert_eq!(cam.focus_dist, 10.0);
    assert_eq!(cam.look_from, [0.0, 0.0, 10.0]);
    match cam.aspect {
        Aspect::ImageRatio { width, height } => assert_eq!((width, height), (800, 400)),
        Aspect::Given(_) => panic!("no aspect was given"),
    }
    let given = toy_ray_tracer::scene_builder::types::CameraConfig { aspect: Some(1.5), ..conf };
    match b.build_camera(&given).aspect {
        Aspect::Given(a) => assert_eq!(a, 1.5),
        Aspect::ImageRatio { .. } => panic!("an aspect was given"),
    }
}
