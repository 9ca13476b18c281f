//! The CPU stage of texture loads: decode a PNG or TGA file to RGBA8 pixels
//! and describe the upload.
use vstd::prelude::*;

verus! {

#[verifier::external_type_specification]
#[verifier::external_body]
pub struct ExImageError(image::ImageError);

#[derive(Clone, Copy, Debug, PartialEq, Eq, Structural)]
pub enum TextureFileFormat {
    Png,
    Tga,
}

/// Decoded pixels, four bytes per pixel, rows top to bottom.
pub struct RgbaImage {
    pub width: u32,
    pub height: u32,
    pub pixels: Vec<u8>,
}

/// What the image decoder makes of a file: its width, height and RGBA8
/// bytes, or nothing when the bytes are not an image of that format.
pub uninterp spec fn decoded_rgba(bytes: Seq<u8>, tga: bool) -> Option<(u32, u32, Seq<u8>)>;

/// Relies on `image::load_from_memory_with_format`, then
/// `DynamicImage::to_rgba8` and `ImageBuffer::into_raw`: decoding depends on
/// the bytes and the format alone, and an RGBA8 buffer holds at least four
/// bytes per pixel.
#[verifier::external_body]
fn decode_rgba(bytes: &[u8], tga: bool) -> (r: Result<RgbaImage, image::ImageError>)
    ensures
        r is Ok <==> decoded_rgba(bytes@, tga) is Some,
        r is Ok ==> decoded_rgba(bytes@, tga) == Some(
            (r->Ok_0.width, r->Ok_0.height, r->Ok_0.pixels@),
        ),
        r is Ok ==> r->Ok_0.pixels@.len() >= 4 * r->Ok_0.width * r->Ok_0.height,
{
    let format = if tga { image::ImageFormat::Tga } else { image::ImageFormat::Png };
    image::load_from_memory_with_format(bytes, format).map(|img| {
        let rgba = img.to_rgba8();
        let (width, height) = rgba.dimensions();
        RgbaImage { width, height, pixels: rgba.into_raw() }
    })
}

#[derive(Clone, Copy, Debug, PartialEq, Eq, Structural)]
pub enum PixelFormat {
    Rgba8Srgb,
    Rgba8Unorm,
}

/// What the GPU upload of a texture takes.
pub struct TextureUpload {
    pub width: u32,
    pub height: u32,
    pub format: PixelFormat,
    /// Exactly four bytes per pixel.
    pub pixels: Vec<u8>,
}

#[derive(Debug)]
pub enum TextureError {
    /// The bytes are not an image of the expected format.
    Decode(image::ImageError),
    /// The decoded buffer holds fewer bytes than its dimensions need.
    ShortBuffer,
}

pub open spec fn pixel_bytes(width: u32, height: u32) -> int {
    4 * width * height
}

/// `u` uploads the first `4 * width * height` bytes of `pixels`, as sRGB when
/// `srgb` holds, else as linear values.
pub open spec fn upload_matches(u: TextureUpload, width: u32, height: u32, pixels: Seq<u8>, srgb: bool) -> bool {
    &&& u.width == width
    &&& u.height == height
    &&& u.format == if srgb { PixelFormat::Rgba8Srgb } else { PixelFormat::Rgba8Unorm }
    &&& u.pixels@ == pixels.subrange(0, pixel_bytes(width, height))
}

/// The upload for decoded pixels; `None` when the buffer is too short for its
/// dimensions.
pub fn texture_upload(img: RgbaImage, srgb: bool) -> (r: Option<TextureUpload>)
    ensures
        r is Some <==> img.pixels@.len() >= pixel_bytes(img.width, img.height),
        r is Some ==> upload_matches(r->Some_0, img.width, img.height, img.pixels@, srgb),
{
    let RgbaImage { width, height, mut pixels } = img;
    assert(4 * (width as u128) * (height as u128) <= 4 * 0xffff_ffffu128 * 0xffff_ffffu128)
        by (nonlinear_arith)
        requires
            width <= 0xffff_ffffu32,
            height <= 0xffff_ffffu32,
    ;
    let needed: u128 = 4 * (width as u128) * (height as u128);
    assert(needed == pixel_bytes(width, height)) by (nonlinear_arith)
        requires
            needed == 4 * (width as u128) * (height as u128),
    ;
    if needed > pixels.len() as u128 {
        return None;
    }
    pixels.truncate(needed as usize);
    let format = if srgb { PixelFormat::Rgba8Srgb } else { PixelFormat::Rgba8Unorm };
    Some(TextureUpload { width, height, format, pixels })
}

/// The CPU stage of a texture load.
pub fn decode_texture(bytes: &Vec<u8>, format: TextureFileFormat, srgb: bool) -> (r: Result<
    TextureUpload,
    TextureError,
>)
    ensures
        r is Ok <==> decoded_rgba(bytes@, format == TextureFileFormat::Tga) is Some,
        r is Ok ==> ({
            let (w, h, p) = decoded_rgba(bytes@, format == TextureFileFormat::Tga)->Some_0;
            upload_matches(r->Ok_0, w, h, p, srgb)
        }),
        r is Err ==> r->Err_0 is Decode,
{
    match decode_rgba(bytes.as_slice(), format == TextureFileFormat::Tga) {
        Ok(img) => match texture_upload(img, srgb) {
            Some(u) => Ok(u),
            None => Err(TextureError::ShortBuffer),
        },
        Err(e) => Err(TextureError::Decode(e)),
    }
}

} // verus!
