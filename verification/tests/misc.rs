use std::sync::Arc;

use toy_ray_tracer::primitives::{FlipFacePrimitive, GeometricPrimitive, PrimitiveList};
use toy_ray_tracer::project::{Project, RenderOptions, Settings};
use toy_ray_tracer::scene::Scene;
use toy_ray_tracer::scene_builder::js::create_internal_module_script;
use toy_ray_tracer::scene_builder::loaders::js::create_internal_module_script as create_helper_module_script;
use toy_ray_tracer::scenes::{get_scene_factory, SceneError, SceneKind};
use toy_ray_tracer::shapes::ShapeList;

#[test]
fn registered_scenes_are_found_by_name() {
    let opt = RenderOptions { width: 320, height: 240, nsamples: 4, max_depth: 5 };
    let make = |kind: SceneKind, o: RenderOptions| (kind, o.width, o.height);
    let f = get_scene_factory("scene1").ok().unwrap();
    assert_eq!(f.name(), "scene1");
    assert_eq!(f.create_scene(&make, opt), (SceneKind::Scene1, 320, 240));
    let f = get_scene_factory("earth").ok().unwrap();
    assert_eq!(f.create_scene(&make, opt), (SceneKind::Earth, 320, 240));
    match get_scene_factory("scene2") {
        Err(e) => {
            assert_eq!(e.message(), "no such scene: scene2");
            let SceneError::NoSuchScene(n) = e;
            assert_eq!(n, "scene2");
        },
        Ok(_) => panic!("scene2 is not registered"),
    }
}

#[test]
fn module_scripts_export_identity_constructors() {
    let s = create_internal_module_script();
    assert!(s.starts_with("\nexport function log(v) {\n"));
    assert!(s.contains("export function make_project(v) { return JSON.stringify(v); }\n"));
    assert!(s.ends_with("export function make_sky(v) { return v; }export function make_settings(v) { return v; }export function make_vec3f(v) { return v; }"));
    assert_eq!(s.matches("export function make_").count(), 10);
    let h = create_helper_module_script();
    assert!(h.contains("export function make_primitive_list(v) { return v; }"));
    assert!(!h.contains("make_sky"));
    assert!(h.contains("export class Color {"));
    assert!(h.contains("static make_screen_size(size)"));
}

#[test]
fn lists_keep_their_order() {
    let mut shapes: ShapeList<u8> = ShapeList::new();
    shapes.push(Arc::new(7));
    shapes.emplace_back(9);
    assert_eq!(shapes.len(), 2);
    assert_eq!(*shapes.get(0), 7);
    assert_eq!(*shapes.get(1), 9);
    let mut prims: PrimitiveList<u8> = PrimitiveList::new();
    prims.add(3);
    prims.add(4);
    assert_eq!(*prims.get(1), 4);
    let copy = PrimitiveList::from_slice(&[Arc::new(5u8)]);
    assert_eq!(copy.len(), 1);
    let g = GeometricPrimitive::new(Arc::new(1u8), Arc::new('m'));
    assert_eq!(*g.material, 'm');
    let f = FlipFacePrimitive::new(Arc::new(g));
    assert_eq!(*f.inner().shape, 1);
}

#[test]
fn project_and_scene_accessors() {
    let settings = Settings { output_dir: "./output".to_string(), width: 800, height: 600, nsamples: 15, max_depth: 10 };
    let opts = settings.duplicate().into_render_options();
    assert_eq!((opts.width, opts.height, opts.nsamples, opts.max_depth), (800, 600, 15, 10));
    let scene = Scene::new(1u8, Arc::new(2u8), Arc::new(3u8), Arc::new('s'), "earth".to_string(), "image texture earth".to_string());
    assert_eq!((*scene.camera(), *scene.world(), *scene.light_shape(), *scene.sky()), (1, 2, 3, 's'));
    assert_eq!(scene.name(), "earth");
    let project = Project::new("test".to_string(), settings, scene);
    assert_eq!(project.name(), "test");
    assert_eq!(project.settings().height, 600);
    assert_eq!(project.scene().name(), "earth");
}
