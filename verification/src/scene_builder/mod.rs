pub mod assets;
pub mod builder;
pub mod bundle;
pub mod geometry;
pub mod js;
pub mod loaders;
pub mod materials;
pub mod types;
pub mod world;

pub use assets::AssetsManager;
pub use builder::Builder;
