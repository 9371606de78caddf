//! Texture formats and the rules that pick them for loaded images.

use vstd::prelude::*;
use crate::rendering::gl_enums;

verus! {

/// Sized internal formats that textures and renderbuffers are allocated with.
#[derive(Debug, Clone, Copy, PartialEq, Eq, Structural)]
pub enum SizedTextureFormat {
    R8,
    R16,
    Rg8,
    Rgb8,
    Srgb8,
    Rgba8,
    Srgb8A8,
    Rg16f,
    Rgb16f,
    Rgba16f,
    Rgb32f,
    Rgba32f,
    Depth16,
    Depth24,
    Depth32,
    Depth32f,
    Depth32fStencil8,
    Depth24Stencil8,
    StencilIndex8,
}

impl SizedTextureFormat {
    /// The OpenGL enumerant of the format.
    pub open spec fn gl_value(self) -> u32 {
        match self {
            SizedTextureFormat::R8 => gl_enums::R8,
            SizedTextureFormat::R16 => gl_enums::R16,
            SizedTextureFormat::Rg8 => gl_enums::RG8,
            SizedTextureFormat::Rgb8 => gl_enums::RGB8,
            SizedTextureFormat::Srgb8 => gl_enums::SRGB8,
            SizedTextureFormat::Rgba8 => gl_enums::RGBA8,
            SizedTextureFormat::Srgb8A8 => gl_enums::SRGB8_ALPHA8,
            SizedTextureFormat::Rg16f => gl_enums::RG16F,
            SizedTextureFormat::Rgb16f => gl_enums::RGB16F,
            SizedTextureFormat::Rgba16f => gl_enums::RGBA16F,
            SizedTextureFormat::Rgb32f => gl_enums::RGB32F,
            SizedTextureFormat::Rgba32f => gl_enums::RGBA32F,
            SizedTextureFormat::Depth16 => gl_enums::DEPTH_COMPONENT16,
            SizedTextureFormat::Depth24 => gl_enums::DEPTH_COMPONENT24,
            SizedTextureFormat::Depth32 => gl_enums::DEPTH_COMPONENT32,
            SizedTextureFormat::Depth32f => gl_enums::DEPTH_COMPONENT32F,
            SizedTextureFormat::Depth32fStencil8 => gl_enums::DEPTH32F_STENCIL8,
            SizedTextureFormat::Depth24Stencil8 => gl_enums::DEPTH24_STENCIL8,
            SizedTextureFormat::StencilIndex8 => gl_enums::STENCIL_INDEX8,
        }
    }

    /// The OpenGL enumerant of the format.
    pub fn gl_enum(&self) -> (r: u32)
        ensures
            r == self.gl_value(),
    {
        match self {
            SizedTextureFormat::R8 => gl_enums::R8,
            SizedTextureFormat::R16 => gl_enums::R16,
            SizedTextureFormat::Rg8 => gl_enums::RG8,
            SizedTextureFormat::Rgb8 => gl_enums::RGB8,
            SizedTextureFormat::Srgb8 => gl_enums::SRGB8,
            SizedTextureFormat::Rgba8 => gl_enums::RGBA8,
            SizedTextureFormat::Srgb8A8 => gl_enums::SRGB8_ALPHA8,
            SizedTextureFormat::Rg16f => gl_enums::RG16F,
            SizedTextureFormat::Rgb16f => gl_enums::RGB16F,
            SizedTextureFormat::Rgba16f => gl_enums::RGBA16F,
            SizedTextureFormat::Rgb32f => gl_enums::RGB32F,
            SizedTextureFormat::Rgba32f => gl_enums::RGBA32F,
            SizedTextureFormat::Depth16 => gl_enums::DEPTH_COMPONENT16,
            SizedTextureFormat::Depth24 => gl_enums::DEPTH_COMPONENT24,
            SizedTextureFormat::Depth32 => gl_enums::DEPTH_COMPONENT32,
            SizedTextureFormat::Depth32f => gl_enums::DEPTH_COMPONENT32F,
            SizedTextureFormat::Depth32fStencil8 => gl_enums::DEPTH32F_STENCIL8,
            SizedTextureFormat::Depth24Stencil8 => gl_enums::DEPTH24_STENCIL8,
            SizedTextureFormat::StencilIndex8 => gl_enums::STENCIL_INDEX8,
        }
    }

    /// Formats whose texels are stored as floating point numbers.
    pub open spec fn spec_is_floating_point(self) -> bool {
        match self {
            SizedTextureFormat::Rg16f
            | SizedTextureFormat::Rgb16f
            | SizedTextureFormat::Rgba16f
            | SizedTextureFormat::Rgb32f
            | SizedTextureFormat::Rgba32f
            | SizedTextureFormat::Depth32f
            | SizedTextureFormat::Depth32fStencil8 => true,
            _ => false,
        }
    }

    /// Whether texels of this format are stored as floating point numbers.
    pub fn is_floating_point(&self) -> (r: bool)
        ensures
            r == self.spec_is_floating_point(),
    {
        match self {
            SizedTextureFormat::Rg16f
            | SizedTextureFormat::Rgb16f
            | SizedTextureFormat::Rgba16f
            | SizedTextureFormat::Rgb32f
            | SizedTextureFormat::Rgba32f
            | SizedTextureFormat::Depth32f
            | SizedTextureFormat::Depth32fStencil8 => true,
            _ => false,
        }
    }
}

/// Pixel layouts of client-side image data.
#[derive(Debug, Clone, Copy, PartialEq, Eq, Structural)]
pub enum TextureFormat {
    Red,
    Rg,
    Rgb,
    Rgba,
}

impl TextureFormat {
    /// The OpenGL enumerant of the layout.
    pub open spec fn gl_value(self) -> u32 {
        match self {
            TextureFormat::Red => gl_enums::RED,
            TextureFormat::Rg => gl_enums::RG,
            TextureFormat::Rgb => gl_enums::RGB,
            TextureFormat::Rgba => gl_enums::RGBA,
        }
    }

    /// The OpenGL enumerant of the layout.
    pub fn gl_enum(&self) -> (r: u32)
        ensures
            r == self.gl_value(),
    {
        match self {
            TextureFormat::Red => gl_enums::RED,
            TextureFormat::Rg => gl_enums::RG,
            TextureFormat::Rgb => gl_enums::RGB,
            TextureFormat::Rgba => gl_enums::RGBA,
        }
    }
}

/// The colour layout of a decoded image, with the bit depth of a channel.
#[derive(Debug, Clone, Copy, PartialEq, Eq, Structural)]
pub enum ColorType {
    Gray(u8),
    RGB(u8),
    Palette(u8),
    GrayA(u8),
    RGBA(u8),
    BGR(u8),
    BGRA(u8),
}

/// The formats a decoded image is uploaded with, or `None` for layouts that
/// textures do not support.
pub open spec fn spec_texture_formats_for(
    color_type: ColorType,
    is_srgb: bool,
) -> Option<(SizedTextureFormat, TextureFormat)> {
    match color_type {
        ColorType::Gray(_) => Some((SizedTextureFormat::R8, TextureFormat::Red)),
        ColorType::GrayA(_) => Some((SizedTextureFormat::Rg8, TextureFormat::Rg)),
        ColorType::RGB(_) => if is_srgb {
            Some((SizedTextureFormat::Srgb8, TextureFormat::Rgb))
        } else {
            Some((SizedTextureFormat::Rgb8, TextureFormat::Rgb))
        },
        ColorType::RGBA(_) => if is_srgb {
            Some((SizedTextureFormat::Srgb8A8, TextureFormat::Rgba))
        } else {
            Some((SizedTextureFormat::Rgba8, TextureFormat::Rgba))
        },
        _ => None,
    }
}

/// The error text for image layouts that have no texture format.
pub fn unsupported_format_message() -> (s: String)
    ensures
        s@ == "Unsupported texture format."@,
{
    String::from_str("Unsupported texture format.")
}

/// The largest `k` with `2^k <= n`, and 0 for `n <= 1`.
pub open spec fn floor_log2(n: nat) -> nat
    decreases n,
{
    if n <= 1 {
        0
    } else {
        1 + floor_log2(n / 2)
    }
}

/// The number of mip levels of a texture of the given size: one level per
/// halving of the larger side down to a single texel, or one level when no
/// mipmaps are generated. A texture with no texels asked with mipmaps gets
/// `i32::MIN`, the saturated value of `floor(log2(0)) + 1`.
pub open spec fn mip_levels(width: u32, height: u32, generate_mipmap: bool) -> int {
    if !generate_mipmap {
        1
    } else if width == 0 && height == 0 {
        i32::MIN as int
    } else {
        (floor_log2(if width >= height { width as nat } else { height as nat }) + 1) as int
    }
}

pub struct Utils;

impl Utils {
    /// The number of mip levels a texture of the given size is allocated
    /// with: `floor(log2(max(width, height))) + 1` when mipmaps are
    /// generated, else 1; `i32::MIN` for mipmaps of a texture with no texels.
    pub fn mip_level_count(width: u32, height: u32, generate_mipmap: bool) -> (r: i32)
        ensures
            r == mip_levels(width, height, generate_mipmap),
    {
        if !generate_mipmap {
            return 1;
        }
        let largest = if width >= height { width } else { height };
        if largest == 0 {
            return i32::MIN;
        }
        let mut n: u32 = largest;
        let mut count: u32 = 1;
        assert(n <= u32::MAX >> 0u32) by (bit_vector);
        while n > 1
            invariant
                count + floor_log2(n as nat) == floor_log2(largest as nat) + 1,
                count <= 32,
                n <= u32::MAX >> ((count - 1) as u32),
                count >= 1,
            decreases n,
        {
            assert(n / 2 <= u32::MAX >> (count as u32)) by (bit_vector)
                requires
                    n <= u32::MAX >> ((count - 1) as u32),
                    1 <= count <= 32,
                    n > 1,
            ;
            assert(count < 32) by (bit_vector)
                requires
                    n <= u32::MAX >> ((count - 1) as u32),
                    1 <= count <= 32,
                    n > 1,
            ;
            n = n / 2;
            count = count + 1;
        }
        count as i32
    }

    /// Picks the internal and client formats for an image of the given colour
    /// layout; sRGB applies to RGB and RGBA images only.
    pub fn color_type_to_texture_formats(
        color_type: ColorType,
        is_srgb: bool,
    ) -> (r: Result<(SizedTextureFormat, TextureFormat), String>)
        ensures
            match spec_texture_formats_for(color_type, is_srgb) {
                Some(f) => r == Ok::<(SizedTextureFormat, TextureFormat), String>(f),
                None => r is Err && r->Err_0@ == "Unsupported texture format."@,
            },
    {
        match color_type {
            ColorType::Gray(_) => Ok((SizedTextureFormat::R8, TextureFormat::Red)),
            ColorType::GrayA(_) => Ok((SizedTextureFormat::Rg8, TextureFormat::Rg)),
            ColorType::RGB(_) => {
                if is_srgb {
                    Ok((SizedTextureFormat::Srgb8, TextureFormat::Rgb))
                } else {
                    Ok((SizedTextureFormat::Rgb8, TextureFormat::Rgb))
                }
            },
            ColorType::RGBA(_) => {
                if is_srgb {
                    Ok((SizedTextureFormat::Srgb8A8, TextureFormat::Rgba))
                } else {
                    Ok((SizedTextureFormat::Rgba8, TextureFormat::Rgba))
                }
            },
            _ => Err(unsupported_format_message()),
        }
    }
}

/// The pixel formats of KTX cube maps that the engine uploads directly; any
/// other format is carried by its numeric code.
#[derive(Debug, Clone, Copy, PartialEq, Eq, Structural)]
pub enum GliFormat {
    Rgb16SfloatPack16,
    Rgba16SfloatPack16,
    Rgb8UnormPack8,
    Rgba32SfloatPack32,
    Rgb32SfloatPack32,
    Other(u32),
}

/// The number of channels of a texel of the format.
pub open spec fn sized_channels(f: SizedTextureFormat) -> nat {
    match f {
        SizedTextureFormat::R8 | SizedTextureFormat::R16 => 1,
        SizedTextureFormat::Rg8 | SizedTextureFormat::Rg16f => 2,
        SizedTextureFormat::Rgb8 | SizedTextureFormat::Srgb8 | SizedTextureFormat::Rgb16f
        | SizedTextureFormat::Rgb32f => 3,
        SizedTextureFormat::Rgba8 | SizedTextureFormat::Srgb8A8 | SizedTextureFormat::Rgba16f
        | SizedTextureFormat::Rgba32f => 4,
        SizedTextureFormat::Depth16 | SizedTextureFormat::Depth24 | SizedTextureFormat::Depth32
        | SizedTextureFormat::Depth32f | SizedTextureFormat::StencilIndex8 => 1,
        SizedTextureFormat::Depth32fStencil8 | SizedTextureFormat::Depth24Stencil8 => 2,
    }
}

/// The bits of the (first) component of a texel of the format.
pub open spec fn sized_component_bits(f: SizedTextureFormat) -> nat {
    match f {
        SizedTextureFormat::R8 | SizedTextureFormat::Rg8 | SizedTextureFormat::Rgb8 | SizedTextureFormat::Srgb8
        | SizedTextureFormat::Rgba8 | SizedTextureFormat::Srgb8A8 | SizedTextureFormat::StencilIndex8 => 8,
        SizedTextureFormat::R16 | SizedTextureFormat::Rg16f | SizedTextureFormat::Rgb16f
        | SizedTextureFormat::Rgba16f | SizedTextureFormat::Depth16 => 16,
        SizedTextureFormat::Depth24 | SizedTextureFormat::Depth24Stencil8 => 24,
        SizedTextureFormat::Rgb32f | SizedTextureFormat::Rgba32f | SizedTextureFormat::Depth32
        | SizedTextureFormat::Depth32f | SizedTextureFormat::Depth32fStencil8 => 32,
    }
}

/// Whether the format stores colour in the sRGB encoding.
pub open spec fn sized_is_srgb(f: SizedTextureFormat) -> bool {
    f == SizedTextureFormat::Srgb8 || f == SizedTextureFormat::Srgb8A8
}

/// The number of channels of a client pixel layout.
pub open spec fn layout_channels(f: TextureFormat) -> nat {
    match f {
        TextureFormat::Red => 1,
        TextureFormat::Rg => 2,
        TextureFormat::Rgb => 3,
        TextureFormat::Rgba => 4,
    }
}

/// The channels of a texel of a KTX format.
pub open spec fn gli_channels(f: GliFormat) -> nat {
    match f {
        GliFormat::Rgb16SfloatPack16 | GliFormat::Rgb8UnormPack8 | GliFormat::Rgb32SfloatPack32 => 3,
        _ => 4,
    }
}

/// The bits of a component of a texel of a KTX format.
pub open spec fn gli_component_bits(f: GliFormat) -> nat {
    match f {
        GliFormat::Rgb8UnormPack8 => 8,
        GliFormat::Rgb16SfloatPack16 | GliFormat::Rgba16SfloatPack16 => 16,
        _ => 32,
    }
}

/// Whether the components of a KTX format are floating point.
pub open spec fn gli_is_float(f: GliFormat) -> bool {
    !(f is Rgb8UnormPack8)
}

/// A cube map is stored as its KTX data is laid out: the internal format and
/// the client layout have the texels' channel count, the internal format has
/// their component size and kind (float or linear unsigned normalised), and
/// float data is read as half floats or floats by its size. Formats the engine
/// does not know fall back to 8-bit RGBA.
pub proof fn lemma_cube_map_formats_keep_the_texel_layout(f: GliFormat)
    ensures
        ({
            let (internal, layout, data_type) = spec_cube_map_formats(f);
            &&& !(f is Other) ==> sized_channels(internal) == gli_channels(f)
            &&& !(f is Other) ==> layout_channels(layout) == gli_channels(f)
            &&& !(f is Other) ==> sized_component_bits(internal) == gli_component_bits(f)
            &&& !(f is Other) ==> internal.spec_is_floating_point() == gli_is_float(f)
            &&& !(f is Other) ==> !sized_is_srgb(internal)
            &&& !(f is Other) && gli_is_float(f) && gli_component_bits(f) == 16 ==> data_type == gl_enums::HALF_FLOAT
            &&& !(f is Other) && gli_is_float(f) && gli_component_bits(f) == 32 ==> data_type == gl_enums::FLOAT
            &&& !gli_is_float(f) ==> data_type == gl_enums::UNSIGNED_INT
            &&& f is Other ==> internal == SizedTextureFormat::Rgba8 && layout == TextureFormat::Rgba
                && data_type == gl_enums::UNSIGNED_INT
        }),
{
}

/// The internal format, client layout and component type a cube map of the
/// given KTX format is uploaded with.
pub open spec fn spec_cube_map_formats(format: GliFormat) -> (SizedTextureFormat, TextureFormat, u32) {
    match format {
        GliFormat::Rgb16SfloatPack16 => (SizedTextureFormat::Rgb16f, TextureFormat::Rgb, gl_enums::HALF_FLOAT),
        GliFormat::Rgba16SfloatPack16 => (SizedTextureFormat::Rgba16f, TextureFormat::Rgba, gl_enums::HALF_FLOAT),
        GliFormat::Rgb8UnormPack8 => (SizedTextureFormat::Rgb8, TextureFormat::Rgb, gl_enums::UNSIGNED_INT),
        GliFormat::Rgba32SfloatPack32 => (SizedTextureFormat::Rgba32f, TextureFormat::Rgba, gl_enums::FLOAT),
        GliFormat::Rgb32SfloatPack32 => (SizedTextureFormat::Rgb32f, TextureFormat::Rgb, gl_enums::FLOAT),
        GliFormat::Other(_) => (SizedTextureFormat::Rgba8, TextureFormat::Rgba, gl_enums::UNSIGNED_INT),
    }
}

/// A cube map texture object.
pub struct TextureCube {
    id: u32,
}

impl TextureCube {
    /// The cube map texture object `id`.
    pub fn new(id: u32) -> (r: TextureCube)
        ensures
            r.spec_id() == id,
    {
        TextureCube { id }
    }

    pub closed spec fn spec_id(&self) -> u32 {
        self.id
    }

    pub fn get_id(&self) -> (r: u32)
        ensures
            r == self.spec_id(),
    {
        self.id
    }

    /// Translates a KTX pixel format into upload formats; unknown formats fall
    /// back to 8-bit RGBA.
    pub fn translate_gli_format_info(format: GliFormat) -> (r: (SizedTextureFormat, TextureFormat, u32))
        ensures
            r == spec_cube_map_formats(format),
            !(format is Other) ==> sized_channels(r.0) == gli_channels(format) && layout_channels(r.1)
                == gli_channels(format),
            !(format is Other) ==> sized_component_bits(r.0) == gli_component_bits(format),
            !(format is Other) ==> r.0.spec_is_floating_point() == gli_is_float(format) && !sized_is_srgb(r.0),
            !(format is Other) && gli_is_float(format) && gli_component_bits(format) == 16 ==> r.2
                == gl_enums::HALF_FLOAT,
            !(format is Other) && gli_is_float(format) && gli_component_bits(format) == 32 ==> r.2 == gl_enums::FLOAT,
            !gli_is_float(format) ==> r.2 == gl_enums::UNSIGNED_INT,
            format is Other ==> r == (SizedTextureFormat::Rgba8, TextureFormat::Rgba, gl_enums::UNSIGNED_INT),
    {
        match format {
            GliFormat::Rgb16SfloatPack16 => (SizedTextureFormat::Rgb16f, TextureFormat::Rgb, gl_enums::HALF_FLOAT),
            GliFormat::Rgba16SfloatPack16 => (SizedTextureFormat::Rgba16f, TextureFormat::Rgba, gl_enums::HALF_FLOAT),
            GliFormat::Rgb8UnormPack8 => (SizedTextureFormat::Rgb8, TextureFormat::Rgb, gl_enums::UNSIGNED_INT),
            GliFormat::Rgba32SfloatPack32 => (SizedTextureFormat::Rgba32f, TextureFormat::Rgba, gl_enums::FLOAT),
            GliFormat::Rgb32SfloatPack32 => (SizedTextureFormat::Rgb32f, TextureFormat::Rgb, gl_enums::FLOAT),
            GliFormat::Other(_) => (SizedTextureFormat::Rgba8, TextureFormat::Rgba, gl_enums::UNSIGNED_INT),
        }
    }
}

} // verus!
