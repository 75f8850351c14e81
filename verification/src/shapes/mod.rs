pub mod shape_list;
pub mod triangle;
pub mod cube;
pub mod pyramid;
pub mod rect;
pub mod regular_polygon;

pub use shape_list::ShapeList;
pub use triangle::{create_triangles, MeshError, Triangle, TriangleMeshStorage};
pub use cube::Cube;
pub use pyramid::Pyramid;
pub use rect::Rect;
pub use regular_polygon::RegularPolygon;
