pub mod format;
pub mod gltf;
pub mod js;
pub mod mesh;

pub use mesh::{MeshBundle, MeshLoader};
