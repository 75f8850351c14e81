//! Scene description, mesh topology, texture addressing and scene
//! assembly logic of a small physically based ray tracer.
//!
//! Geometry payloads (coordinates, colours, angles) are kept generic so
//! that the combinatorial logic can be stated and proved independently
//! of the number type used by the renderer.
pub mod transform;
pub mod utils;
pub mod shapes;
pub mod project;
pub mod scene;
pub mod scene_builder;
pub mod primitives;
pub mod textures;
pub mod scenes;
