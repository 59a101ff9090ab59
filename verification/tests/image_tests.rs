use std::io::Cursor;

use luxlib::io::{decode_image, image_texture, DecodedImage};
use luxlib::math::UVec3;
use luxlib::texture::TextureDimension;
use luxlib::LuxError;

fn png_bytes(width: u32, height: u32, pixels: Vec<u8>) -> Vec<u8> {
    let img = image::RgbaImage::from_raw(width, height, pixels).unwrap();
    let mut out = Cursor::new(Vec::new());
    img.write_to(&mut out, image::ImageFormat::Png).unwrap();
    out.into_inner()
}

#[test]
fn decodes_png_to_rgba8() {
    let pixels = vec![255, 0, 0, 255, 0, 255, 0, 128];
    let bytes = png_bytes(2, 1, pixels.clone());
    let decoded = decode_image(Some("png"), &bytes).ok().unwrap();
    assert_eq!(decoded.width, 2);
    assert_eq!(decoded.height, 1);
    assert_eq!(decoded.rgba8, pixels);
    let upper = decode_image(Some("PNG"), &bytes).ok().unwrap();
    assert_eq!(upper.rgba8, pixels);
}

#[test]
fn corrupt_bytes_give_io_error() {
    match decode_image(Some("png"), &[1, 2, 3, 4]) {
        Err(LuxError::IoError(msg)) => assert!(!msg.is_empty()),
        _ => panic!("expected an IoError"),
    }
}

#[test]
fn unknown_extension_gives_io_error() {
    let bytes = png_bytes(1, 1, vec![1, 2, 3, 4]);
    match decode_image(Some("xyz"), &bytes) {
        Err(LuxError::IoError(msg)) => {
            assert!(msg.contains("xyz"));
            assert!(msg.contains("was not recognized as an image format"));
        }
        _ => panic!("expected an IoError"),
    }
}

#[test]
fn missing_extension_gives_io_error() {
    let bytes = png_bytes(1, 1, vec![1, 2, 3, 4]);
    match decode_image(None, &bytes) {
        Err(LuxError::IoError(msg)) => {
            assert_eq!(msg, "The image format could not be determined")
        }
        _ => panic!("expected an IoError"),
    }
}

#[test]
fn pixel_buffer_has_four_bytes_per_pixel() {
    let bytes = png_bytes(3, 2, vec![9; 24]);
    let decoded = decode_image(Some("png"), &bytes).ok().unwrap();
    assert_eq!(decoded.rgba8.len(), 4 * 3 * 2);
}

#[test]
fn image_texture_settings() {
    let b = image_texture(DecodedImage { width: 3, height: 2, rgba8: vec![7; 24] });
    assert!(b.label.is_none());
    assert_eq!(b.size, UVec3::new(3, 2, 1));
    assert_eq!(b.mipmap, 1);
    assert_eq!(b.samples, 1);
    assert_eq!(b.dimensions, TextureDimension::D2);
    assert_eq!(b.content, Some(vec![7; 24]));
}

#[test]
fn decoded_image_becomes_texture_content() {
    let pixels = vec![10, 20, 30, 40, 50, 60, 70, 80, 90, 100, 110, 120];
    let bytes = png_bytes(1, 3, pixels.clone());
    let b = image_texture(decode_image(Some("png"), &bytes).ok().unwrap());
    assert_eq!(b.size, UVec3::new(1, 3, 1));
    assert_eq!(b.content, Some(pixels));
}
