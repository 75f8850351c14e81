use toy_ray_tracer::scene_builder::builder::Builder;
use toy_ray_tracer::scene_builder::geometry::SceneShape;
use toy_ray_tracer::scene_builder::types::ShapeConfig;
use toy_ray_tracer::shapes::{create_triangles, Cube, MeshError, Pyramid, Rect, RegularPolygon, TriangleMeshStorage};
use toy_ray_tracer::shapes::regular_polygon::polygon_fan_indices;
use toy_ray_tracer::transform::Transform;

fn p(x: f32, y: f32, z: f32) -> [f32; 3] {
    [x, y, z]
}

#[test]
fn cube_has_twelve_triangles_over_eight_corners() {
    let cube = Cube::new(p(0.0, 0.0, 0.0), p(1.0, 2.0, 3.0), Transform::identity());
    let list = cube.triangles();
    assert_eq!(list.len(), 12);
    for i in 0..12 {
        assert_eq!(list.get(i).id(), i);
    }
    let mesh = list.get(0).mesh();
    assert_eq!(mesh.positions.len(), 8);
    assert_eq!(mesh.positions[0], p(0.0, 0.0, 0.0));
    assert_eq!(mesh.positions[5], p(1.0, 0.0, 3.0));
    assert_eq!(mesh.positions[7], p(1.0, 2.0, 3.0));
    assert_eq!(mesh.vertex_indices.len(), 36);
    assert_eq!(&mesh.vertex_indices[0..6], &[0, 1, 2, 1, 3, 2]);
    assert_eq!(list.get(4).get_vertices(), [p(0.0, 0.0, 0.0), p(0.0, 2.0, 0.0), p(1.0, 0.0, 0.0)]);
}

#[test]
fn pyramid_has_four_faces() {
    let v = [p(0.0, 0.0, 0.0), p(1.0, 0.0, 0.0), p(0.0, 1.0, 0.0), p(0.0, 0.0, 1.0)];
    let pyr = Pyramid::new(v, Transform::identity());
    let list = pyr.triangles();
    assert_eq!(list.len(), 4);
    assert_eq!(list.get(0).mesh().vertex_indices, vec![0, 1, 2, 0, 2, 3, 0, 3, 1, 1, 3, 2]);
    assert_eq!(list.get(3).get_vertices(), [v[1], v[3], v[2]]);
}

#[test]
fn rect_in_xy_plane_orders_its_corners() {
    // z is shared, so the rectangle lies in the xy plane (a = x, b = y).
    let p0 = p(2.0, 0.0, 5.0);
    let p1 = p(1.0, 3.0, 5.0);
    let eq = [false, false, true];
    let ordered = [p0[0] <= p1[0], p0[1] <= p1[1], p0[2] <= p1[2]];
    let rect = Rect::new(p0, p1, eq, ordered, Transform::identity());
    let list = rect.triangles();
    assert_eq!(list.len(), 2);
    let mesh = list.get(0).mesh();
    assert_eq!(mesh.positions, vec![p(1.0, 0.0, 5.0), p(1.0, 3.0, 5.0), p(2.0, 0.0, 5.0), p(2.0, 3.0, 5.0)]);
    assert_eq!(mesh.vertex_indices, vec![0, 1, 2, 1, 3, 2]);
}

#[test]
fn rect_normal_to_x_uses_y_then_z() {
    let p0 = p(4.0, 1.0, 2.0);
    let p1 = p(4.0, 0.0, 3.0);
    let rect = Rect::new(p0, p1, [true, false, false], [true, false, true], Transform::identity());
    let mesh = rect.triangles().get(1).mesh();
    assert_eq!(mesh.positions, vec![p(4.0, 0.0, 2.0), p(4.0, 0.0, 3.0), p(4.0, 1.0, 2.0), p(4.0, 1.0, 3.0)]);
}

#[test]
fn triangle_polygon_fans_from_the_centre() {
    assert_eq!(polygon_fan_indices(3), vec![0, 1, 2, 0, 2, 3, 0, 3, 1]);
    assert_eq!(polygon_fan_indices(4), vec![0, 1, 2, 0, 2, 3, 0, 3, 4, 0, 4, 1]);
    let rim = vec![p(0.0, 1.0, 0.0), p(-0.87, -0.5, 0.0), p(0.87, -0.5, 0.0)];
    let poly = RegularPolygon::new(p(0.0, 0.0, 0.0), rim.clone(), Transform::identity());
    let list = poly.triangles();
    assert_eq!(list.len(), 3);
    let mesh = list.get(2).mesh();
    assert_eq!(mesh.positions.len(), 4);
    assert_eq!(mesh.positions[0], p(0.0, 0.0, 0.0));
    assert_eq!(&mesh.positions[1..], &rim[..]);
    assert_eq!(list.get(2).get_vertices(), [p(0.0, 0.0, 0.0), rim[2], rim[0]]);
}

#[test]
fn mesh_validation_reports_each_failure() {
    let pos = vec![p(0.0, 0.0, 0.0), p(1.0, 0.0, 0.0), p(0.0, 1.0, 0.0)];
    let ok = TriangleMeshStorage::try_new(1, vec![0, 1, 2], pos.clone(), vec![], vec![], Transform::identity());
    assert!(ok.is_ok());
    let m = ok.ok().unwrap();
    assert_eq!(m.triangle_indices(0), [0, 1, 2]);

    let r = TriangleMeshStorage::try_new(2, vec![0, 1, 2], pos.clone(), vec![], vec![], Transform::identity());
    assert_eq!(r.err(), Some(MeshError::IndexCountMismatch));
    let r = TriangleMeshStorage::try_new(1, vec![0, 1, 3], pos.clone(), vec![], vec![], Transform::identity());
    assert_eq!(r.err(), Some(MeshError::PositionIndexOutOfRange));
    let r = TriangleMeshStorage::try_new(1, vec![0, 1, 2], pos.clone(), vec![p(0.0, 0.0, 1.0)], vec![], Transform::identity());
    assert_eq!(r.err(), Some(MeshError::NormalIndexOutOfRange));
    let r = TriangleMeshStorage::try_new(1, vec![0, 1, 2], pos.clone(), vec![], vec![[0.0, 0.0]; 2], Transform::identity());
    assert_eq!(r.err(), Some(MeshError::UvIndexOutOfRange));
    let r = TriangleMeshStorage::try_new(usize::MAX, vec![0, 1, 2], pos.clone(), vec![], vec![], Transform::identity());
    assert_eq!(r.err(), Some(MeshError::IndexCountMismatch));
    // No indices at all: the largest index counts as 0, so one position is needed.
    let r = TriangleMeshStorage::<f32>::try_new(0, vec![], vec![], vec![], vec![], Transform::identity());
    assert_eq!(r.err(), Some(MeshError::PositionIndexOutOfRange));
}

#[test]
fn create_triangles_numbers_triangles_in_order() {
    let pos = vec![p(0.0, 0.0, 0.0), p(1.0, 0.0, 0.0), p(0.0, 1.0, 0.0), p(1.0, 1.0, 0.0)];
    let list = create_triangles(vec![0, 1, 2, 1, 3, 2], pos.clone(), Transform::identity()).ok().unwrap();
    assert_eq!(list.len(), 2);
    assert_eq!(list.get(1).id(), 1);
    assert_eq!(list.get(1).get_vertices(), [pos[1], pos[3], pos[2]]);
    assert_eq!(
        create_triangles(vec![0, 1], pos.clone(), Transform::identity()).err(),
        Some(MeshError::IndexCountMismatch)
    );
    assert_eq!(
        create_triangles(vec![0, 1, 4], pos, Transform::identity()).err(),
        Some(MeshError::PositionIndexOutOfRange)
    );
}

#[test]
fn meshes_with_attributes_keep_them() {
    let pos = vec![p(0.0, 0.0, 0.0), p(1.0, 0.0, 0.0), p(0.0, 1.0, 0.0)];
    let normals = vec![p(0.0, 0.0, 1.0); 3];
    let uvs = vec![[0.0, 0.0], [1.0, 0.0], [1.0, 1.0]];
    let mesh = |indices: Vec<usize>, normals: Vec<[f32; 3]>, uvs: Vec<[f32; 2]>| {
        let conf = ShapeConfig::TriangleMesh { indices, positions: pos.clone(), uvs, normals };
        Builder::<f32>::build_shapes(&conf, Transform::identity(), None, None, None)
    };
    let list = mesh(vec![0, 1, 2, 2, 1, 0], normals.clone(), uvs.clone()).ok().unwrap();
    assert_eq!(list.len(), 2);
    match &*list[1] {
        SceneShape::Triangle(t) => {
            assert_eq!(t.mesh().vertex_normals, normals);
            assert_eq!(t.mesh().uvs, uvs);
            assert_eq!(t.get_vertices(), [pos[2], pos[1], pos[0]]);
        },
        _ => panic!("expected a triangle"),
    }
    let bad = mesh(vec![0, 1, 2, 2], vec![], vec![]);
    assert_eq!(bad.err(), Some(MeshError::IndexCountMismatch));
    let bad = mesh(vec![0, 1, 2], vec![], uvs[..2].to_vec());
    assert_eq!(bad.err(), Some(MeshError::UvIndexOutOfRange));
}
