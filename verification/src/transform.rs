//! The channel transform: splitting a combined texture into a metallic and a
//! roughness texture, and merging the two back.
//!
//! Smoothness and roughness are complements: `roughness = 255 - smoothness`.

use vstd::prelude::*;
use crate::error::TextureError;
use crate::grid::{
    lemma_index_in_range, lemma_luma_alpha_pixel_at, lemma_luma_pixel_at, GridView, PixelGrid,
};
use crate::pixel::{Layout, Pixel};

verus! {

/// A grid in the combined convention: luminance is the metallic value (0
/// not metallic, 255 metallic), alpha is the smoothness (0 fully rough, 255
/// fully smooth).
pub type CombinedTexture = PixelGrid;

/// A grid whose luminance is the metallic value (0 not metallic, 255
/// metallic).
pub type MetallicTexture = PixelGrid;

/// A grid whose luminance is the roughness (0 fully smooth, 255 fully
/// rough): the complement of the smoothness.
pub type RoughnessTexture = PixelGrid;

/// The metallic pixel for a combined pixel: its luminance, fully opaque.
pub open spec fn metallic_pixel(combined: Pixel) -> Pixel {
    Pixel { luminance: combined.luminance, alpha: 255 }
}

/// The roughness pixel for a combined pixel: the complement of its alpha as
/// luminance, fully opaque.
pub open spec fn roughness_pixel(combined: Pixel) -> Pixel {
    Pixel { luminance: (255 - combined.alpha) as u8, alpha: 255 }
}

/// The combined pixel for a metallic and a roughness pixel: the luminance of
/// the first, and the complement of the luminance of the second as alpha.
pub open spec fn combined_pixel(metallic: Pixel, roughness: Pixel) -> Pixel {
    Pixel { luminance: metallic.luminance, alpha: (255 - roughness.luminance) as u8 }
}

/// The metallic texture of a combined texture: every pixel's luminance,
/// without alpha channel.
pub open spec fn split_metallic(combined: GridView) -> GridView {
    GridView::luma(
        combined.width,
        combined.height,
        |i: int| metallic_pixel(combined.pixel_at(i)).luminance,
    )
}

/// The roughness texture of a combined texture: the complement of every
/// pixel's alpha, without alpha channel.
pub open spec fn split_roughness(combined: GridView) -> GridView {
    GridView::luma(
        combined.width,
        combined.height,
        |i: int| roughness_pixel(combined.pixel_at(i)).luminance,
    )
}

/// The combined texture of a metallic and a roughness texture of the same
/// dimensions.
pub open spec fn merge_combined(metallic: GridView, roughness: GridView) -> GridView {
    GridView::luma_alpha(
        metallic.width,
        metallic.height,
        |i: int| combined_pixel(metallic.pixel_at(i), roughness.pixel_at(i)),
    )
}

/// Whether two grids have the same width and the same height.
pub open spec fn same_dimensions(a: GridView, b: GridView) -> bool {
    a.width == b.width && a.height == b.height
}

/// Splits one combined pixel into its metallic and its roughness pixel.
pub fn split_pixel(combined: Pixel) -> (parts: (Pixel, Pixel))
    ensures
        parts.0 == metallic_pixel(combined),
        parts.1 == roughness_pixel(combined),
{
    (
        Pixel { luminance: combined.luminance, alpha: 255 },
        Pixel { luminance: 255 - combined.alpha, alpha: 255 },
    )
}

/// Merges a metallic and a roughness pixel into one combined pixel.
pub fn merge_pixel(metallic: Pixel, roughness: Pixel) -> (combined: Pixel)
    ensures
        combined == combined_pixel(metallic, roughness),
{
    Pixel { luminance: metallic.luminance, alpha: 255 - roughness.luminance }
}

/// Splits a combined texture into its metallic and its roughness texture, in
/// this order. Fails, with nothing produced, if the texture has no alpha
/// channel.
///
/// Both results have the dimensions of the input and no alpha channel. At
/// every position the metallic texture has the luminance of the input, and
/// the roughness texture has the complement of the input's alpha.
pub fn split(combined: &CombinedTexture) -> (result: Result<
    (MetallicTexture, RoughnessTexture),
    TextureError,
>)
    ensures
        result is Ok <==> combined@.layout.has_alpha(),
        result matches Err(e) ==> e == TextureError::MissingAlphaChannel,
        result matches Ok((metallic, roughness)) ==> metallic@ == split_metallic(combined@)
            && roughness@ == split_roughness(combined@),
        result matches Ok((metallic, roughness)) ==> !metallic@.layout.has_alpha()
            && !roughness@.layout.has_alpha()
            && same_dimensions(metallic@, combined@)
            && same_dimensions(roughness@, combined@),
        result matches Ok((metallic, roughness)) ==> forall|x: int, y: int|
            #![trigger metallic@.pixel(x, y)]
            #![trigger roughness@.pixel(x, y)]
            combined@.in_bounds(x, y) ==> (metallic@.pixel(x, y).luminance
                == combined@.pixel(x, y).luminance
                && metallic@.pixel(x, y).alpha == 255
                && roughness@.pixel(x, y).luminance == 255 - combined@.pixel(x, y).alpha
                && roughness@.pixel(x, y).alpha == 255),
{
    if !combined.has_alpha() {
        return Err(TextureError::MissingAlphaChannel);
    }
    let count: usize = combined.pixel_count();
    let mut metallic: Vec<u8> = Vec::with_capacity(count);
    let mut roughness: Vec<u8> = Vec::with_capacity(count);
    let mut i: usize = 0;
    while i < count
        invariant
            count == combined@.pixel_count(),
            i <= count,
            metallic@.len() == i,
            roughness@.len() == i,
            forall|j: int|
                0 <= j < i ==> metallic@[j] == metallic_pixel(combined@.pixel_at(j)).luminance,
            forall|j: int|
                0 <= j < i ==> roughness@[j] == roughness_pixel(combined@.pixel_at(j)).luminance,
        decreases count - i,
    {
        let (m, r) = split_pixel(combined.pixel_at(i));
        metallic.push(m.luminance);
        roughness.push(r.luminance);
        i += 1;
    }
    assert(metallic@ =~= split_metallic(combined@).samples);
    assert(roughness@ =~= split_roughness(combined@).samples);
    let metallic = PixelGrid::from_raw(combined.width(), combined.height(), Layout::Luma, metallic);
    let roughness = PixelGrid::from_raw(combined.width(), combined.height(), Layout::Luma, roughness);
    proof {
        assert forall|x: int, y: int| combined@.in_bounds(x, y) implies {
            &&& split_metallic(combined@).pixel(x, y) == metallic_pixel(combined@.pixel(x, y))
            &&& split_roughness(combined@).pixel(x, y) == roughness_pixel(combined@.pixel(x, y))
        } by {
            lemma_split_pixel(combined@, x, y);
        }
    }
    Ok((metallic.unwrap(), roughness.unwrap()))
}

/// Merges a metallic and a roughness texture into one combined texture.
/// Fails, with nothing produced, if the two differ in width or height.
///
/// The result has the dimensions of the inputs and an alpha channel. At every
/// position it has the luminance of the metallic texture, and as alpha the
/// complement of the luminance of the roughness texture.
pub fn merge(metallic: &MetallicTexture, roughness: &RoughnessTexture) -> (result: Result<
    CombinedTexture,
    TextureError,
>)
    ensures
        result is Ok <==> same_dimensions(metallic@, roughness@),
        result matches Err(e) ==> e == (TextureError::DimensionMismatch {
            expected: (metallic@.width as u32, metallic@.height as u32),
            actual: (roughness@.width as u32, roughness@.height as u32),
        }),
        result matches Ok(combined) ==> combined@ == merge_combined(metallic@, roughness@),
        result matches Ok(combined) ==> combined@.layout.has_alpha()
            && same_dimensions(combined@, metallic@)
            && same_dimensions(combined@, roughness@),
        result matches Ok(combined) ==> forall|x: int, y: int|
            #![trigger combined@.pixel(x, y)]
            metallic@.in_bounds(x, y) ==> (combined@.pixel(x, y).luminance
                == metallic@.pixel(x, y).luminance
                && combined@.pixel(x, y).alpha == 255 - roughness@.pixel(x, y).luminance),
{
    let expected: (u32, u32) = metallic.dimensions();
    let actual: (u32, u32) = roughness.dimensions();
    if expected.0 != actual.0 || expected.1 != actual.1 {
        return Err(TextureError::DimensionMismatch { expected, actual });
    }
    let count: usize = metallic.pixel_count();
    let mut combined: Vec<u8> = Vec::new();
    let mut i: usize = 0;
    while i < count
        invariant
            count == metallic@.pixel_count(),
            count == roughness@.pixel_count(),
            i <= count,
            combined@.len() == 2 * i,
            forall|k: int|
                0 <= k < 2 * i ==> combined@[k] == merge_combined(metallic@, roughness@).samples[k],
        decreases count - i,
    {
        let pixel = merge_pixel(metallic.pixel_at(i), roughness.pixel_at(i));
        combined.push(pixel.luminance);
        combined.push(pixel.alpha);
        i += 1;
    }
    assert(combined@ =~= merge_combined(metallic@, roughness@).samples);
    let combined = PixelGrid::from_raw(expected.0, expected.1, Layout::LumaAlpha, combined);
    proof {
        assert forall|x: int, y: int| metallic@.in_bounds(x, y) implies merge_combined(
            metallic@,
            roughness@,
        ).pixel(x, y) == combined_pixel(metallic@.pixel(x, y), roughness@.pixel(x, y)) by {
            lemma_merge_pixel(metallic@, roughness@, x, y);
        }
    }
    Ok(combined.unwrap())
}

/// Splitting works pixel by pixel: at every position of the grid, the pixels
/// of the two results are the metallic and the roughness pixel of the pixel
/// of the input.
pub proof fn lemma_split_pixel(combined: GridView, x: int, y: int)
    requires
        combined.in_bounds(x, y),
    ensures
        split_metallic(combined).pixel(x, y) == metallic_pixel(combined.pixel(x, y)),
        split_roughness(combined).pixel(x, y) == roughness_pixel(combined.pixel(x, y)),
{
    let i = combined.index_of(x, y);
    lemma_index_in_range(combined.width, combined.height, x, y);
    lemma_luma_pixel_at(
        combined.width,
        combined.height,
        |i: int| metallic_pixel(combined.pixel_at(i)).luminance,
        i,
    );
    lemma_luma_pixel_at(
        combined.width,
        combined.height,
        |i: int| roughness_pixel(combined.pixel_at(i)).luminance,
        i,
    );
}

/// Merging works pixel by pixel: at every position of the grid, the pixel of
/// the result is the combined pixel of the pixels of the two inputs.
pub proof fn lemma_merge_pixel(metallic: GridView, roughness: GridView, x: int, y: int)
    requires
        same_dimensions(metallic, roughness),
        metallic.in_bounds(x, y),
    ensures
        merge_combined(metallic, roughness).pixel(x, y) == combined_pixel(
            metallic.pixel(x, y),
            roughness.pixel(x, y),
        ),
{
    lemma_index_in_range(metallic.width, metallic.height, x, y);
    lemma_luma_alpha_pixel_at(
        metallic.width,
        metallic.height,
        |i: int| combined_pixel(metallic.pixel_at(i), roughness.pixel_at(i)),
        metallic.index_of(x, y),
    );
}

/// Merging the two parts of a split pixel gives the pixel back, since
/// `255 - (255 - a) == a`.
pub proof fn lemma_merge_inverts_split_pixel(combined: Pixel)
    ensures
        combined_pixel(metallic_pixel(combined), roughness_pixel(combined)) == combined,
{
}

/// Round trip: merging the two textures that a combined texture with an
/// alpha channel splits into gives that texture back, luminance and alpha
/// alike.
pub proof fn lemma_merge_inverts_split(combined: GridView)
    requires
        combined.wf(),
        combined.layout.has_alpha(),
    ensures
        merge_combined(split_metallic(combined), split_roughness(combined)) == combined,
{
    let merged = merge_combined(split_metallic(combined), split_roughness(combined));
    assert forall|k: int| 0 <= k < merged.samples.len() implies merged.samples[k]
        == combined.samples[k] by {
        lemma_merge_inverts_split_pixel(combined.pixel_at(k / 2));
    }
    assert(merged.samples =~= combined.samples);
}

/// Round trip the other way: splitting the texture that a metallic and a
/// roughness texture of the same dimensions, both without alpha channel,
/// merge into gives the two back.
pub proof fn lemma_split_inverts_merge(metallic: GridView, roughness: GridView)
    requires
        metallic.wf(),
        roughness.wf(),
        !metallic.layout.has_alpha(),
        !roughness.layout.has_alpha(),
        same_dimensions(metallic, roughness),
    ensures
        split_metallic(merge_combined(metallic, roughness)) == metallic,
        split_roughness(merge_combined(metallic, roughness)) == roughness,
{
    let merged = merge_combined(metallic, roughness);
    assert forall|i: int| 0 <= i < metallic.pixel_count() implies merged.pixel_at(i)
        == combined_pixel(metallic.pixel_at(i), roughness.pixel_at(i)) by {
        lemma_luma_alpha_pixel_at(
            metallic.width,
            metallic.height,
            |i: int| combined_pixel(metallic.pixel_at(i), roughness.pixel_at(i)),
            i,
        );
    }
    assert(split_metallic(merged).samples =~= metallic.samples);
    assert(split_roughness(merged).samples =~= roughness.samples);
}

} // verus!
