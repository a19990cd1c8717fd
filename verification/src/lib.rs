//! Conversion of physically-based-rendering material textures between the
//! combined "metallic + smoothness" convention (metallic in the luminance
//! channel, smoothness in the alpha channel) and the separate "metallic" and
//! "roughness" convention (two greyscale images, roughness being the
//! complement of smoothness).

pub mod error;
pub mod grid;
pub mod naming;
pub mod pixel;
pub mod transform;

pub use error::TextureError;
pub use grid::{GridView, PixelGrid};
pub use naming::{merge_output_name, split_output_names, strip_suffix};
pub use pixel::{Layout, Pixel};
pub use transform::{
    merge, merge_pixel, split, split_pixel, CombinedTexture, MetallicTexture, RoughnessTexture,
};
