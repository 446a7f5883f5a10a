//! Texture uploads: decoding an encoded image to 8-bit RGBA and describing
//! the texture, the copy into it and its sampler.

use vstd::prelude::*;

verus! {

/// What decoding a PNG image yields: width, height and the RGBA8 pixels row
/// by row, or `None` when the bytes are no PNG image the decoder reads.
pub uninterp spec fn decoded_rgba8(bytes: Seq<u8>) -> Option<(u32, u32, Seq<u8>)>;

/// Relies on `image::load_from_memory_with_format` with the PNG format fixed
/// (no format guessing, so no registered detection or decoding hook is
/// consulted), then `DynamicImage::to_rgba8` and
/// `ImageBuffer::{dimensions, into_raw}`: the outcome depends on the bytes alone.
#[verifier::external_body]
fn decode_rgba8(bytes: &[u8]) -> (r: Option<(u32, u32, Vec<u8>)>)
    ensures
        match r {
            Some((w, h, px)) => decoded_rgba8(bytes@) == Some((w, h, px@)),
            None => decoded_rgba8(bytes@) is None,
        },
{
    match image::load_from_memory_with_format(bytes, image::ImageFormat::Png) {
        Ok(img) => {
            let rgba = img.to_rgba8();
            let (w, h) = rgba.dimensions();
            Some((w, h, rgba.into_raw()))
        },
        Err(_) => None,
    }
}

/// Why a texture could not be prepared.
#[derive(PartialEq, Eq, Structural, Clone, Copy, Debug)]
pub enum TextureError {
    /// The bytes are not a PNG image the decoder reads.
    Decode,
    /// A row of the image takes more bytes than a `u32` counts.
    TooWide,
    /// The pixel buffer does not hold exactly four bytes per pixel.
    SizeMismatch,
}

/// Layout of the pixel bytes handed to the texture copy.
#[derive(PartialEq, Eq, Structural, Clone, Copy, Debug)]
pub struct TexelCopyLayout {
    pub offset: u64,
    pub bytes_per_row: u32,
    pub rows_per_image: u32,
}

/// A 2D sRGB RGBA8 texture, sampled and written by copy, with one mip level
/// and one sample, together with the bytes to copy into it.
pub struct TextureUpload {
    pub width: u32,
    pub height: u32,
    pub depth_or_array_layers: u32,
    pub mip_level_count: u32,
    pub sample_count: u32,
    pub layout: TexelCopyLayout,
    pub pixels: Vec<u8>,
}

/// The error, if any, of preparing a `width` by `height` texture from a pixel
/// buffer of `len` bytes.
pub open spec fn upload_error(width: u32, height: u32, len: int) -> Option<TextureError> {
    if 4 * width > u32::MAX {
        Some(TextureError::TooWide)
    } else if len != 4 * width * height {
        Some(TextureError::SizeMismatch)
    } else {
        None
    }
}

/// The upload prepared from a decoded image has the image's size, one layer,
/// one mip level, one sample, rows of `4 * width` bytes and the pixels as given.
pub open spec fn is_upload_of(u: &TextureUpload, width: u32, height: u32, pixels: Seq<u8>) -> bool {
    &&& u.width == width
    &&& u.height == height
    &&& u.depth_or_array_layers == 1
    &&& u.mip_level_count == 1
    &&& u.sample_count == 1
    &&& u.layout == (TexelCopyLayout { offset: 0, bytes_per_row: (4 * width) as u32, rows_per_image: height })
    &&& u.pixels@ == pixels
}

/// Describes the texture and the copy for decoded RGBA8 pixels.
pub fn texture_upload(width: u32, height: u32, pixels: Vec<u8>) -> (r: Result<TextureUpload, TextureError>)
    ensures
        r is Ok <==> upload_error(width, height, pixels@.len() as int) is None,
        match r {
            Ok(u) => is_upload_of(&u, width, height, pixels@),
            Err(e) => upload_error(width, height, pixels@.len() as int) == Some(e),
        },
{
    if width > u32::MAX / 4 {
        return Err(TextureError::TooWide);
    }
    let bytes_per_row: u32 = 4 * width;
    assert((bytes_per_row as int) * (height as int) <= u32::MAX as int * u32::MAX as int) by (nonlinear_arith)
        requires bytes_per_row <= u32::MAX, height <= u32::MAX;
    let needed: u64 = (bytes_per_row as u64) * (height as u64);
    if pixels.len() as u64 != needed {
        return Err(TextureError::SizeMismatch);
    }
    let ghost px = pixels@;
    let u = TextureUpload {
        width,
        height,
        depth_or_array_layers: 1,
        mip_level_count: 1,
        sample_count: 1,
        layout: TexelCopyLayout { offset: 0, bytes_per_row, rows_per_image: height },
        pixels,
    };
    assert(u.pixels@ == px);
    Ok(u)
}

/// Decodes a PNG image and describes its texture upload.
pub fn prepare_texture(bytes: &[u8]) -> (r: Result<TextureUpload, TextureError>)
    ensures
        decoded_rgba8(bytes@) is None <==> r == Err::<TextureUpload, TextureError>(TextureError::Decode),
        match decoded_rgba8(bytes@) {
            Some((w, h, px)) => match r {
                Ok(u) => upload_error(w, h, px.len() as int) is None && is_upload_of(&u, w, h, px),
                Err(e) => upload_error(w, h, px.len() as int) == Some(e),
            },
            None => true,
        },
{
    match decode_rgba8(bytes) {
        Some((w, h, px)) => texture_upload(w, h, px),
        None => Err(TextureError::Decode),
    }
}

/// How texture coordinates outside [0, 1] are resolved.
#[derive(PartialEq, Eq, Structural, Clone, Copy, Debug)]
pub enum AddressMode {
    ClampToEdge,
    Repeat,
}

/// How texels are filtered.
#[derive(PartialEq, Eq, Structural, Clone, Copy, Debug)]
pub enum FilterMode {
    Nearest,
    Linear,
}

/// Parameters of a texture sampler.
#[derive(PartialEq, Eq, Structural, Clone, Copy, Debug)]
pub struct SamplerDesc {
    pub address_mode: AddressMode,
    pub mag_filter: FilterMode,
    pub min_filter: FilterMode,
    pub mipmap_filter: FilterMode,
}

/// The sampler every texture gets: clamped to the edge, linear magnification,
/// nearest minification and mip filtering.
pub fn default_sampler() -> (r: SamplerDesc)
    ensures
        r == (SamplerDesc {
            address_mode: AddressMode::ClampToEdge,
            mag_filter: FilterMode::Linear,
            min_filter: FilterMode::Nearest,
            mipmap_filter: FilterMode::Nearest,
        }),
{
    SamplerDesc {
        address_mode: AddressMode::ClampToEdge,
        mag_filter: FilterMode::Linear,
        min_filter: FilterMode::Nearest,
        mipmap_filter: FilterMode::Nearest,
    }
}

} // verus!
