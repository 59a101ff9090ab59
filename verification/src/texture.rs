use vstd::prelude::*;

use crate::math::UVec3;

verus! {

/// How many dimensions a texture has.
#[derive(Clone, Copy, PartialEq, Eq, Debug, Structural)]
pub enum TextureDimension {
    D1,
    D2,
    D3,
}

/// What a sampler does with coordinates outside the texture.
#[derive(Clone, Copy, PartialEq, Eq, Debug, Structural)]
pub enum TextureAddressMode {
    Clamp,
    Repeat,
    Mirror,
}

/// How a sampler blends neighbouring texels.
#[derive(Clone, Copy, PartialEq, Eq, Debug, Structural)]
pub enum TextureFilter {
    Linear,
    Nearest,
}

/// The settings of a sampler.
pub struct SamplerBuilder {
    label: Option<String>,
    address_mode: TextureAddressMode,
    filter: TextureFilter,
}

/// The abstract value of a [`SamplerBuilder`].
pub struct SamplerBuilderView {
    pub label: Option<Seq<char>>,
    pub address_mode: TextureAddressMode,
    pub filter: TextureFilter,
}

impl View for SamplerBuilder {
    type V = SamplerBuilderView;

    closed spec fn view(&self) -> SamplerBuilderView {
        SamplerBuilderView {
            label: match self.label {
                Some(l) => Some(l@),
                None => None,
            },
            address_mode: self.address_mode,
            filter: self.filter,
        }
    }
}

impl Default for SamplerBuilder {
    fn default() -> (b: Self)
        ensures
            b@ == (SamplerBuilderView {
                label: None,
                address_mode: TextureAddressMode::Clamp,
                filter: TextureFilter::Nearest,
            }),
    {
        SamplerBuilder {
            label: None,
            address_mode: TextureAddressMode::Clamp,
            filter: TextureFilter::Nearest,
        }
    }
}

impl SamplerBuilder {
    /// The label, if any.
    pub fn get_label(&self) -> (l: Option<&String>)
        ensures
            match l {
                Some(s) => self@.label == Some(s@),
                None => self@.label is None,
            },
    {
        match &self.label {
            Some(s) => Some(s),
            None => None,
        }
    }

    /// The address mode, used for all three coordinates.
    pub fn get_address_mode(&self) -> (m: TextureAddressMode)
        ensures
            m == self@.address_mode,
    {
        self.address_mode
    }

    /// The filter, used for magnification, minification and between mipmap levels.
    pub fn get_filter(&self) -> (f: TextureFilter)
        ensures
            f == self@.filter,
    {
        self.filter
    }
}

/// The settings of a texture: its extent, mipmap level count, dimension, sample count and the
/// pixels to upload, if any.
pub struct TextureBuilder {
    pub label: Option<String>,
    pub size: UVec3,
    pub mipmap: u32,
    pub dimensions: TextureDimension,
    pub samples: u32,
    pub content: Option<Vec<u8>>,
}

impl Default for TextureBuilder {
    fn default() -> (b: Self)
        ensures
            b.label is None,
            b.size == (UVec3 { x: 1, y: 1, z: 1 }),
            b.mipmap == 1,
            b.samples == 1,
            b.dimensions == TextureDimension::D2,
            b.content is None,
    {
        TextureBuilder {
            label: None,
            size: UVec3::new(1, 1, 1),
            mipmap: 1,
            samples: 1,
            dimensions: TextureDimension::D2,
            content: None,
        }
    }
}

/// Bytes in one texel of the library's textures (8-bit red, green, blue and alpha).
pub const BYTES_PER_TEXEL: u32 = 4;

/// How pixel data laid out row after row is copied into a texture.
#[derive(PartialEq, Eq, Debug, Structural)]
pub struct TexelCopyLayout {
    pub offset: u64,
    pub bytes_per_row: Option<u32>,
    pub rows_per_image: Option<u32>,
}

/// The layout of tightly packed pixel data for a texture `width` texels wide and `height` texels
/// high: rows of four bytes per texel, starting at offset 0.
pub fn texel_copy_layout(width: u32, height: u32) -> (l: TexelCopyLayout)
    requires
        width * BYTES_PER_TEXEL <= u32::MAX,
    ensures
        l == (TexelCopyLayout {
            offset: 0,
            bytes_per_row: Some((width * BYTES_PER_TEXEL) as u32),
            rows_per_image: Some(height),
        }),
{
    TexelCopyLayout {
        offset: 0,
        bytes_per_row: Some(width * BYTES_PER_TEXEL),
        rows_per_image: Some(height),
    }
}

} // verus!
