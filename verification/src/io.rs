use vstd::prelude::*;

use crate::math::UVec3;
use crate::texture::{TextureBuilder, TextureDimension};
use crate::LuxError;
use image::error::ImageFormatHint;
use image::{ImageError, ImageFormat, ImageReader};
use std::io::Cursor;

verus! {

/// The handle through which a frame loads assets from disk; the reading of the file is done by
/// the host application, the decoding by [`decode_image`].
pub struct Io;

/// A decoded image: its size in pixels and its pixels as 8-bit red, green, blue and alpha,
/// row after row.
pub struct DecodedImage {
    pub width: u32,
    pub height: u32,
    pub rgba8: Vec<u8>,
}

/// What the `image` crate makes of the encoded `bytes` of a file with the given extension (none
/// when the file name has no extension): the width, height and RGBA8 pixels of the decoded
/// image and whether its own colour type has an alpha channel, or the message of its error.
pub uninterp spec fn decoded_image(extension: Option<Seq<char>>, bytes: Seq<u8>) -> Result<
    (u32, u32, Seq<u8>, bool),
    Seq<char>,
>;

/// The abstract value of an optional extension.
pub open spec fn extension_view(extension: Option<&str>) -> Option<Seq<char>> {
    match extension {
        Some(e) => Some(e@),
        None => None,
    }
}

/// Decodes an encoded image with the `image` crate as `ImageReader::open` followed by
/// `decode` does for a file: without an extension no format is known; with one, the format is
/// `ImageFormat::from_extension`, and an extension it does not know gives the crate's
/// `ImageError::Unsupported` for that path extension. The pixels are converted by
/// `DynamicImage::to_rgba8`, which holds four bytes per pixel and, for an image whose colour type
/// has no alpha channel (`ColorType::has_alpha`), fills the alpha byte with the maximum 255
/// (`subpixel_cast_rgb_to_rgba` and the fallback path in the crate's `cicp` module). The contract
/// claims that the outcome is a function of the extension and the bytes (named
/// `decoded_image`), that the pixel buffer has `4 * width * height` bytes, that it is opaque when
/// the decoded image has no alpha channel, and that an error comes back as `LuxError::IoError`
/// with the error's message.
#[verifier::external_body]
pub fn decode_image(extension: Option<&str>, bytes: &[u8]) -> (r: Result<DecodedImage, LuxError>)
    ensures
        match decoded_image(extension_view(extension), bytes@) {
            Ok((w, h, px, has_alpha)) => {
                &&& r matches Ok(d) && d.width == w && d.height == h && d.rgba8@ == px
                &&& px.len() == 4 * w * h
                &&& !has_alpha ==> forall|p: int| 0 <= p < w * h ==> #[trigger] px[4 * p + 3] == 255
            },
            Err(msg) => r matches Err(LuxError::IoError(m)) && m@ == msg,
        },
{
    let cursor = Cursor::new(bytes);
    let decoded = match extension {
        None => ImageReader::new(cursor).decode(),
        Some(ext) => match ImageFormat::from_extension(ext) {
            Some(format) => ImageReader::with_format(cursor, format).decode(),
            None => Err(ImageError::Unsupported(ImageFormatHint::PathExtension(ext.into()).into())),
        },
    };
    match decoded {
        Ok(img) => {
            let rgba = img.to_rgba8();
            Ok(DecodedImage { width: rgba.width(), height: rgba.height(), rgba8: rgba.into_raw() })
        },
        Err(e) => Err(LuxError::IoError(e.to_string())),
    }
}

/// The settings of a texture that shows a decoded image: its size, one layer, one mipmap level,
/// one sample, two dimensions and the image's pixels as content.
pub fn image_texture(img: DecodedImage) -> (b: TextureBuilder)
    ensures
        b.label is None,
        b.size == (UVec3 { x: img.width, y: img.height, z: 1 }),
        b.mipmap == 1,
        b.samples == 1,
        b.dimensions == TextureDimension::D2,
        b.content == Some(img.rgba8),
{
    TextureBuilder {
        label: None,
        size: UVec3::new(img.width, img.height, 1),
        mipmap: 1,
        samples: 1,
        dimensions: TextureDimension::D2,
        content: Some(img.rgba8),
    }
}

} // verus!
