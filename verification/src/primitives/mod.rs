pub mod geometry;
pub mod primitive_list;
pub mod transform;

pub use geometry::GeometricPrimitive;
pub use primitive_list::PrimitiveList;
pub use transform::FlipFacePrimitive;
