pub mod checker;
pub mod constant;
pub mod image_texture;

pub use checker::CheckerTexture;
pub use constant::ConstantTexture;
pub use image_texture::{ImageTexture, ImageTextureData, ImageTextureParams};
pub mod noise;
