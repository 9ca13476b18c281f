use gfx_core::texture::{decode_texture, texture_upload, PixelFormat, RgbaImage, TextureError, TextureFileFormat};
use image::{ImageBuffer, ImageFormat, Rgba};
use std::io::Cursor;

fn encoded(format: ImageFormat) -> Vec<u8> {
    let img: ImageBuffer<Rgba<u8>, Vec<u8>> =
        ImageBuffer::from_raw(2, 1, vec![255, 0, 0, 255, 0, 0, 255, 128]).unwrap();
    let mut out = Cursor::new(Vec::new());
    img.write_to(&mut out, format).unwrap();
    out.into_inner()
}

#[test]
fn png_texture_decodes_to_rgba() {
    let u = decode_texture(&encoded(ImageFormat::Png), TextureFileFormat::Png, true).unwrap();
    assert_eq!((u.width, u.height), (2, 1));
    assert_eq!(u.format, PixelFormat::Rgba8Srgb);
    assert_eq!(u.pixels, vec![255, 0, 0, 255, 0, 0, 255, 128]);
}

#[test]
fn tga_texture_decodes_to_rgba() {
    let u = decode_texture(&encoded(ImageFormat::Tga), TextureFileFormat::Tga, false).unwrap();
    assert_eq!((u.width, u.height), (2, 1));
    assert_eq!(u.format, PixelFormat::Rgba8Unorm);
    assert_eq!(u.pixels, vec![255, 0, 0, 255, 0, 0, 255, 128]);
}

#[test]
fn wrong_format_is_a_decode_error() {
    let r = decode_texture(&encoded(ImageFormat::Png), TextureFileFormat::Tga, true);
    assert!(matches!(r, Err(TextureError::Decode(_))));
    let r = decode_texture(&b"not an image".to_vec(), TextureFileFormat::Png, true);
    assert!(matches!(r, Err(TextureError::Decode(_))));
}

#[test]
fn upload_takes_exactly_the_pixels_it_needs() {
    let img = RgbaImage { width: 1, height: 1, pixels: vec![1, 2, 3, 4, 5, 6] };
    let u = texture_upload(img, false).unwrap();
    assert_eq!(u.pixels, vec![1, 2, 3, 4]);
    assert_eq!(u.format, PixelFormat::Rgba8Unorm);
    let short = RgbaImage { width: 2, height: 1, pixels: vec![1, 2, 3, 4] };
    assert!(texture_upload(short, true).is_none());
    let empty = RgbaImage { width: 0, height: 5, pixels: vec![] };
    assert_eq!(texture_upload(empty, true).unwrap().pixels, Vec::<u8>::new());
}
