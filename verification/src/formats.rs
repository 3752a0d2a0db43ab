//! The format catalog: the universal formats a container can store, the
//! target formats a level can be transcoded to, and what is known of each.

use vstd::prelude::*;

verus! {

/// The kind of container a byte buffer is declared to hold.
#[derive(Clone, Copy, Debug, PartialEq, Eq, Structural)]
pub enum TranscoderType {
    /// A `.basis` container.
    Basis,
    /// A KTX2 container with a universal payload.
    Ktx2,
}

/// The universal format in which a container stores its texture data.
#[allow(non_camel_case_types)]
#[derive(Clone, Copy, Debug, PartialEq, Eq, Structural)]
pub enum BasisTextureFormat {
    /// Lower quality, smaller files.
    ETC1S,
    /// Higher quality, larger files.
    UASTC4x4,
}

/// What the images of a container are meant to be used as.
#[derive(Clone, Copy, Debug, PartialEq, Eq, Structural)]
pub enum BasisTextureType {
    /// An arbitrary array of 2D RGB or RGBA images with optional mipmaps.
    TextureType2D,
    /// An array of 2D images that all have the same size and mipmap count.
    TextureType2DArray,
    /// An array of cubemap levels, six faces each.
    TextureTypeCubemapArray,
    /// An array of 2D video frames.
    TextureTypeVideoFrames,
    /// A 3D texture, one image per slice.
    TextureTypeVolume,
}

/// A texture format that a level can be transcoded to.
#[allow(non_camel_case_types)]
#[derive(Clone, Copy, Debug, PartialEq, Eq, Structural)]
pub enum TranscoderTextureFormat {
    /// Opaque only, 8 bytes per 4x4 block.
    ETC1_RGB,
    /// Opaque and alpha, 16 bytes per 4x4 block.
    ETC2_RGBA,
    /// Opaque only, 8 bytes per 4x4 block.
    BC1_RGB,
    /// Opaque and alpha, 16 bytes per 4x4 block.
    BC3_RGBA,
    /// Red only, 8 bytes per 4x4 block.
    BC4_R,
    /// Red and green, 16 bytes per 4x4 block.
    BC5_RG,
    /// Opaque and alpha, 16 bytes per 4x4 block.
    BC7_RGBA,
    /// Opaque only, 8 bytes per 4x4 block, swizzled.
    PVRTC1_4_RGB,
    /// Opaque and alpha, 8 bytes per 4x4 block, swizzled.
    PVRTC1_4_RGBA,
    /// Opaque and alpha, 16 bytes per 4x4 block.
    ASTC_4x4_RGBA,
    /// Opaque only, 8 bytes per 4x4 block.
    ATC_RGB,
    /// Opaque and alpha, 16 bytes per 4x4 block.
    ATC_RGBA,
    /// Opaque only, 16 bytes per 8x4 block.
    FXT1_RGB,
    /// Opaque only, 8 bytes per 4x4 block.
    PVRTC2_4_RGB,
    /// Opaque and alpha, 8 bytes per 4x4 block.
    PVRTC2_4_RGBA,
    /// Red only, 8 bytes per 4x4 block.
    ETC2_EAC_R11,
    /// Red and green, 16 bytes per 4x4 block.
    ETC2_EAC_RG11,
    /// Raw pixels, 4 bytes each.
    RGBA32,
    /// Raw pixels, 2 bytes each.
    RGB565,
    /// Raw pixels, 2 bytes each.
    BGR565,
    /// Raw pixels, 2 bytes each.
    RGBA4444,
}

impl Default for BasisTextureFormat {
    /// ETC1S, the format a container is taken to hold where it names none.
    fn default() -> (format: Self)
        ensures
            format == BasisTextureFormat::ETC1S,
    {
        BasisTextureFormat::ETC1S
    }
}

impl Default for BasisTextureType {
    /// Plain 2D images, what a container is taken to hold where it names
    /// no use.
    fn default() -> (texture_type: Self)
        ensures
            texture_type == BasisTextureType::TextureType2D,
    {
        BasisTextureType::TextureType2D
    }
}

impl BasisTextureFormat {
    /// The number by which the codec knows this format.
    pub open spec fn spec_code(self) -> i32 {
        match self {
            BasisTextureFormat::ETC1S => 0,
            BasisTextureFormat::UASTC4x4 => 1,
        }
    }

    /// The format that the codec knows by `code`, if there is one.
    pub open spec fn spec_from_code(code: i32) -> Option<BasisTextureFormat> {
        if code == 0 {
            Some(BasisTextureFormat::ETC1S)
        } else if code == 1 {
            Some(BasisTextureFormat::UASTC4x4)
        } else {
            None
        }
    }

    /// The number by which the codec knows this format.
    #[verifier::when_used_as_spec(spec_code)]
    pub fn code(self) -> (code: i32)
        ensures
            code == self.spec_code(),
    {
        match self {
            BasisTextureFormat::ETC1S => 0,
            BasisTextureFormat::UASTC4x4 => 1,
        }
    }

    /// The format that the codec knows by `code`, or `None` for a number
    /// that stands for no universal format.
    #[verifier::when_used_as_spec(spec_from_code)]
    pub fn from_code(code: i32) -> (format: Option<BasisTextureFormat>)
        ensures
            format == Self::spec_from_code(code),
    {
        if code == 0 {
            Some(BasisTextureFormat::ETC1S)
        } else if code == 1 {
            Some(BasisTextureFormat::UASTC4x4)
        } else {
            None
        }
    }

    /// Whether data stored in this universal format can be transcoded to
    /// `target`.
    ///
    /// ETC1S feeds every target format. UASTC feeds every target format but
    /// PVRTC2, ATC and FXT1.
    pub open spec fn spec_can_transcode_to_format(self, target: TranscoderTextureFormat) -> bool {
        match self {
            BasisTextureFormat::ETC1S => true,
            BasisTextureFormat::UASTC4x4 => !(target is PVRTC2_4_RGB || target is PVRTC2_4_RGBA
                || target is ATC_RGB || target is ATC_RGBA || target is FXT1_RGB),
        }
    }

    /// Whether data stored in this universal format can be transcoded to
    /// `target`.
    #[verifier::when_used_as_spec(spec_can_transcode_to_format)]
    pub fn can_transcode_to_format(self, target: TranscoderTextureFormat) -> (supported: bool)
        ensures
            supported == self.spec_can_transcode_to_format(target),
    {
        match self {
            BasisTextureFormat::ETC1S => true,
            BasisTextureFormat::UASTC4x4 => match target {
                TranscoderTextureFormat::PVRTC2_4_RGB
                | TranscoderTextureFormat::PVRTC2_4_RGBA
                | TranscoderTextureFormat::ATC_RGB
                | TranscoderTextureFormat::ATC_RGBA
                | TranscoderTextureFormat::FXT1_RGB => false,
                _ => true,
            },
        }
    }
}

impl BasisTextureType {
    /// The number by which the codec knows this texture type.
    pub open spec fn spec_code(self) -> i32 {
        match self {
            BasisTextureType::TextureType2D => 0,
            BasisTextureType::TextureType2DArray => 1,
            BasisTextureType::TextureTypeCubemapArray => 2,
            BasisTextureType::TextureTypeVideoFrames => 3,
            BasisTextureType::TextureTypeVolume => 4,
        }
    }

    /// The texture type that the codec knows by `code`, if there is one.
    pub open spec fn spec_from_code(code: i32) -> Option<BasisTextureType> {
        if code == 0 {
            Some(BasisTextureType::TextureType2D)
        } else if code == 1 {
            Some(BasisTextureType::TextureType2DArray)
        } else if code == 2 {
            Some(BasisTextureType::TextureTypeCubemapArray)
        } else if code == 3 {
            Some(BasisTextureType::TextureTypeVideoFrames)
        } else if code == 4 {
            Some(BasisTextureType::TextureTypeVolume)
        } else {
            None
        }
    }

    /// The number by which the codec knows this texture type.
    #[verifier::when_used_as_spec(spec_code)]
    pub fn code(self) -> (code: i32)
        ensures
            code == self.spec_code(),
    {
        match self {
            BasisTextureType::TextureType2D => 0,
            BasisTextureType::TextureType2DArray => 1,
            BasisTextureType::TextureTypeCubemapArray => 2,
            BasisTextureType::TextureTypeVideoFrames => 3,
            BasisTextureType::TextureTypeVolume => 4,
        }
    }

    /// The texture type that the codec knows by `code`, or `None` for a
    /// number that stands for no texture type.
    #[verifier::when_used_as_spec(spec_from_code)]
    pub fn from_code(code: i32) -> (texture_type: Option<BasisTextureType>)
        ensures
            texture_type == Self::spec_from_code(code),
    {
        if code == 0 {
            Some(BasisTextureType::TextureType2D)
        } else if code == 1 {
            Some(BasisTextureType::TextureType2DArray)
        } else if code == 2 {
            Some(BasisTextureType::TextureTypeCubemapArray)
        } else if code == 3 {
            Some(BasisTextureType::TextureTypeVideoFrames)
        } else if code == 4 {
            Some(BasisTextureType::TextureTypeVolume)
        } else {
            None
        }
    }
}

impl TranscoderTextureFormat {
    /// The number by which the codec knows this target format.
    pub open spec fn spec_code(self) -> i32 {
        match self {
            TranscoderTextureFormat::ETC1_RGB => 0,
            TranscoderTextureFormat::ETC2_RGBA => 1,
            TranscoderTextureFormat::BC1_RGB => 2,
            TranscoderTextureFormat::BC3_RGBA => 3,
            TranscoderTextureFormat::BC4_R => 4,
            TranscoderTextureFormat::BC5_RG => 5,
            TranscoderTextureFormat::BC7_RGBA => 6,
            TranscoderTextureFormat::PVRTC1_4_RGB => 8,
            TranscoderTextureFormat::PVRTC1_4_RGBA => 9,
            TranscoderTextureFormat::ASTC_4x4_RGBA => 10,
            TranscoderTextureFormat::ATC_RGB => 11,
            TranscoderTextureFormat::ATC_RGBA => 12,
            TranscoderTextureFormat::RGBA32 => 13,
            TranscoderTextureFormat::RGB565 => 14,
            TranscoderTextureFormat::BGR565 => 15,
            TranscoderTextureFormat::RGBA4444 => 16,
            TranscoderTextureFormat::FXT1_RGB => 17,
            TranscoderTextureFormat::PVRTC2_4_RGB => 18,
            TranscoderTextureFormat::PVRTC2_4_RGBA => 19,
            TranscoderTextureFormat::ETC2_EAC_R11 => 20,
            TranscoderTextureFormat::ETC2_EAC_RG11 => 21,
        }
    }

    /// The target format that the codec knows by `code`, if there is one.
    pub open spec fn spec_from_code(code: i32) -> Option<TranscoderTextureFormat> {
        if code == 0 {
            Some(TranscoderTextureFormat::ETC1_RGB)
        } else if code == 1 {
            Some(TranscoderTextureFormat::ETC2_RGBA)
        } else if code == 2 {
            Some(TranscoderTextureFormat::BC1_RGB)
        } else if code == 3 {
            Some(TranscoderTextureFormat::BC3_RGBA)
        } else if code == 4 {
            Some(TranscoderTextureFormat::BC4_R)
        } else if code == 5 {
            Some(TranscoderTextureFormat::BC5_RG)
        } else if code == 6 {
            Some(TranscoderTextureFormat::BC7_RGBA)
        } else if code == 8 {
            Some(TranscoderTextureFormat::PVRTC1_4_RGB)
        } else if code == 9 {
            Some(TranscoderTextureFormat::PVRTC1_4_RGBA)
        } else if code == 10 {
            Some(TranscoderTextureFormat::ASTC_4x4_RGBA)
        } else if code == 11 {
            Some(TranscoderTextureFormat::ATC_RGB)
        } else if code == 12 {
            Some(TranscoderTextureFormat::ATC_RGBA)
        } else if code == 13 {
            Some(TranscoderTextureFormat::RGBA32)
        } else if code == 14 {
            Some(TranscoderTextureFormat::RGB565)
        } else if code == 15 {
            Some(TranscoderTextureFormat::BGR565)
        } else if code == 16 {
            Some(TranscoderTextureFormat::RGBA4444)
        } else if code == 17 {
            Some(TranscoderTextureFormat::FXT1_RGB)
        } else if code == 18 {
            Some(TranscoderTextureFormat::PVRTC2_4_RGB)
        } else if code == 19 {
            Some(TranscoderTextureFormat::PVRTC2_4_RGBA)
        } else if code == 20 {
            Some(TranscoderTextureFormat::ETC2_EAC_R11)
        } else if code == 21 {
            Some(TranscoderTextureFormat::ETC2_EAC_RG11)
        } else {
            None
        }
    }

    /// Whether the format stores fixed-size blocks of pixels (`true`) or
    /// raw pixels (`false`).
    pub open spec fn spec_is_compressed(self) -> bool {
        !(self is RGBA32 || self is RGB565 || self is BGR565 || self is RGBA4444)
    }

    /// Bytes that one block takes in a block format, or one pixel in a raw
    /// pixel format.
    pub open spec fn spec_bytes_per_block_or_pixel(self) -> u32 {
        match self {
            TranscoderTextureFormat::ETC1_RGB
            | TranscoderTextureFormat::BC1_RGB
            | TranscoderTextureFormat::BC4_R
            | TranscoderTextureFormat::PVRTC1_4_RGB
            | TranscoderTextureFormat::PVRTC1_4_RGBA
            | TranscoderTextureFormat::ATC_RGB
            | TranscoderTextureFormat::PVRTC2_4_RGB
            | TranscoderTextureFormat::PVRTC2_4_RGBA
            | TranscoderTextureFormat::ETC2_EAC_R11 => 8,
            TranscoderTextureFormat::BC7_RGBA
            | TranscoderTextureFormat::ETC2_RGBA
            | TranscoderTextureFormat::BC3_RGBA
            | TranscoderTextureFormat::BC5_RG
            | TranscoderTextureFormat::ASTC_4x4_RGBA
            | TranscoderTextureFormat::ATC_RGBA
            | TranscoderTextureFormat::FXT1_RGB
            | TranscoderTextureFormat::ETC2_EAC_RG11 => 16,
            TranscoderTextureFormat::RGBA32 => 4,
            TranscoderTextureFormat::RGB565
            | TranscoderTextureFormat::BGR565
            | TranscoderTextureFormat::RGBA4444 => 2,
        }
    }

    /// Width in pixels of the unit the format is addressed by: of a block
    /// in a block format, 1 in a raw pixel format.
    pub open spec fn spec_block_width(self) -> u32 {
        if !self.spec_is_compressed() {
            1
        } else if self is FXT1_RGB {
            8
        } else {
            4
        }
    }

    /// Height in pixels of the unit the format is addressed by: of a block
    /// in a block format, 1 in a raw pixel format.
    pub open spec fn spec_block_height(self) -> u32 {
        if !self.spec_is_compressed() {
            1
        } else {
            4
        }
    }

    /// Whether the format lays its blocks out in a swizzled order. Such a
    /// format has no row pitch to override, and takes levels whose width
    /// and height are powers of two only.
    pub open spec fn spec_has_swizzled_layout(self) -> bool {
        self is PVRTC1_4_RGB || self is PVRTC1_4_RGBA
    }

    /// Whether the format carries an alpha channel.
    pub open spec fn spec_has_alpha(self) -> bool {
        self is ETC2_RGBA || self is BC3_RGBA || self is ASTC_4x4_RGBA || self is BC7_RGBA
            || self is PVRTC1_4_RGBA || self is PVRTC2_4_RGBA || self is ATC_RGBA
            || self is RGBA32 || self is RGBA4444
    }

    /// The number by which the codec knows this target format.
    #[verifier::when_used_as_spec(spec_code)]
    pub fn code(self) -> (code: i32)
        ensures
            code == self.spec_code(),
    {
        match self {
            TranscoderTextureFormat::ETC1_RGB => 0,
            TranscoderTextureFormat::ETC2_RGBA => 1,
            TranscoderTextureFormat::BC1_RGB => 2,
            TranscoderTextureFormat::BC3_RGBA => 3,
            TranscoderTextureFormat::BC4_R => 4,
            TranscoderTextureFormat::BC5_RG => 5,
            TranscoderTextureFormat::BC7_RGBA => 6,
            TranscoderTextureFormat::PVRTC1_4_RGB => 8,
            TranscoderTextureFormat::PVRTC1_4_RGBA => 9,
            TranscoderTextureFormat::ASTC_4x4_RGBA => 10,
            TranscoderTextureFormat::ATC_RGB => 11,
            TranscoderTextureFormat::ATC_RGBA => 12,
            TranscoderTextureFormat::RGBA32 => 13,
            TranscoderTextureFormat::RGB565 => 14,
            TranscoderTextureFormat::BGR565 => 15,
            TranscoderTextureFormat::RGBA4444 => 16,
            TranscoderTextureFormat::FXT1_RGB => 17,
            TranscoderTextureFormat::PVRTC2_4_RGB => 18,
            TranscoderTextureFormat::PVRTC2_4_RGBA => 19,
            TranscoderTextureFormat::ETC2_EAC_R11 => 20,
            TranscoderTextureFormat::ETC2_EAC_RG11 => 21,
        }
    }

    /// The target format that the codec knows by `code`, or `None` for a
    /// number that stands for no target format.
    #[verifier::when_used_as_spec(spec_from_code)]
    pub fn from_code(code: i32) -> (format: Option<TranscoderTextureFormat>)
        ensures
            format == Self::spec_from_code(code),
    {
        match code {
            0 => Some(TranscoderTextureFormat::ETC1_RGB),
            1 => Some(TranscoderTextureFormat::ETC2_RGBA),
            2 => Some(TranscoderTextureFormat::BC1_RGB),
            3 => Some(TranscoderTextureFormat::BC3_RGBA),
            4 => Some(TranscoderTextureFormat::BC4_R),
            5 => Some(TranscoderTextureFormat::BC5_RG),
            6 => Some(TranscoderTextureFormat::BC7_RGBA),
            8 => Some(TranscoderTextureFormat::PVRTC1_4_RGB),
            9 => Some(TranscoderTextureFormat::PVRTC1_4_RGBA),
            10 => Some(TranscoderTextureFormat::ASTC_4x4_RGBA),
            11 => Some(TranscoderTextureFormat::ATC_RGB),
            12 => Some(TranscoderTextureFormat::ATC_RGBA),
            13 => Some(TranscoderTextureFormat::RGBA32),
            14 => Some(TranscoderTextureFormat::RGB565),
            15 => Some(TranscoderTextureFormat::BGR565),
            16 => Some(TranscoderTextureFormat::RGBA4444),
            17 => Some(TranscoderTextureFormat::FXT1_RGB),
            18 => Some(TranscoderTextureFormat::PVRTC2_4_RGB),
            19 => Some(TranscoderTextureFormat::PVRTC2_4_RGBA),
            20 => Some(TranscoderTextureFormat::ETC2_EAC_R11),
            21 => Some(TranscoderTextureFormat::ETC2_EAC_RG11),
            _ => None,
        }
    }

    /// Whether the format stores fixed-size blocks of pixels.
    #[verifier::when_used_as_spec(spec_is_compressed)]
    pub fn is_compressed(self) -> (compressed: bool)
        ensures
            compressed == self.spec_is_compressed(),
    {
        match self {
            TranscoderTextureFormat::RGBA32
            | TranscoderTextureFormat::RGB565
            | TranscoderTextureFormat::BGR565
            | TranscoderTextureFormat::RGBA4444 => false,
            _ => true,
        }
    }

    /// Bytes that one block takes in a block format, or one pixel in a raw
    /// pixel format.
    #[verifier::when_used_as_spec(spec_bytes_per_block_or_pixel)]
    pub fn bytes_per_block_or_pixel(self) -> (bytes: u32)
        ensures
            bytes == self.spec_bytes_per_block_or_pixel(),
            bytes == 2 || bytes == 4 || bytes == 8 || bytes == 16,
    {
        match self {
            TranscoderTextureFormat::ETC1_RGB
            | TranscoderTextureFormat::BC1_RGB
            | TranscoderTextureFormat::BC4_R
            | TranscoderTextureFormat::PVRTC1_4_RGB
            | TranscoderTextureFormat::PVRTC1_4_RGBA
            | TranscoderTextureFormat::ATC_RGB
            | TranscoderTextureFormat::PVRTC2_4_RGB
            | TranscoderTextureFormat::PVRTC2_4_RGBA
            | TranscoderTextureFormat::ETC2_EAC_R11 => 8,
            TranscoderTextureFormat::BC7_RGBA
            | TranscoderTextureFormat::ETC2_RGBA
            | TranscoderTextureFormat::BC3_RGBA
            | TranscoderTextureFormat::BC5_RG
            | TranscoderTextureFormat::ASTC_4x4_RGBA
            | TranscoderTextureFormat::ATC_RGBA
            | TranscoderTextureFormat::FXT1_RGB
            | TranscoderTextureFormat::ETC2_EAC_RG11 => 16,
            TranscoderTextureFormat::RGBA32 => 4,
            TranscoderTextureFormat::RGB565
            | TranscoderTextureFormat::BGR565
            | TranscoderTextureFormat::RGBA4444 => 2,
        }
    }

    /// Width in pixels of the unit the format is addressed by.
    #[verifier::when_used_as_spec(spec_block_width)]
    pub fn block_width(self) -> (width: u32)
        ensures
            width == self.spec_block_width(),
            width == 1 || width == 4 || width == 8,
    {
        if !self.is_compressed() {
            1
        } else {
            match self {
                TranscoderTextureFormat::FXT1_RGB => 8,
                _ => 4,
            }
        }
    }

    /// Height in pixels of the unit the format is addressed by.
    #[verifier::when_used_as_spec(spec_block_height)]
    pub fn block_height(self) -> (height: u32)
        ensures
            height == self.spec_block_height(),
            height == 1 || height == 4,
    {
        if !self.is_compressed() {
            1
        } else {
            4
        }
    }

    /// Whether the format lays its blocks out in a swizzled order.
    #[verifier::when_used_as_spec(spec_has_swizzled_layout)]
    pub fn has_swizzled_layout(self) -> (swizzled: bool)
        ensures
            swizzled == self.spec_has_swizzled_layout(),
    {
        match self {
            TranscoderTextureFormat::PVRTC1_4_RGB | TranscoderTextureFormat::PVRTC1_4_RGBA => true,
            _ => false,
        }
    }

    /// Whether the format carries an alpha channel.
    #[verifier::when_used_as_spec(spec_has_alpha)]
    pub fn has_alpha(self) -> (alpha: bool)
        ensures
            alpha == self.spec_has_alpha(),
    {
        match self {
            TranscoderTextureFormat::ETC2_RGBA
            | TranscoderTextureFormat::BC3_RGBA
            | TranscoderTextureFormat::ASTC_4x4_RGBA
            | TranscoderTextureFormat::BC7_RGBA
            | TranscoderTextureFormat::PVRTC1_4_RGBA
            | TranscoderTextureFormat::PVRTC2_4_RGBA
            | TranscoderTextureFormat::ATC_RGBA
            | TranscoderTextureFormat::RGBA32
            | TranscoderTextureFormat::RGBA4444 => true,
            _ => false,
        }
    }
}

/// A target format and the number the codec knows it by determine each
/// other: reading a format's number back gives the format, and a number
/// that names a format is that format's number.
pub proof fn target_format_code_round_trip(format: TranscoderTextureFormat, code: i32)
    ensures
        TranscoderTextureFormat::spec_from_code(format.spec_code()) == Some(format),
        TranscoderTextureFormat::spec_from_code(code) matches Some(named) ==> named.spec_code()
            == code,
{
}

/// A universal format and the number the codec knows it by determine each
/// other.
pub proof fn basis_format_code_round_trip(format: BasisTextureFormat, code: i32)
    ensures
        BasisTextureFormat::spec_from_code(format.spec_code()) == Some(format),
        BasisTextureFormat::spec_from_code(code) matches Some(named) ==> named.spec_code() == code,
{
}

/// A texture type and the number the codec knows it by determine each
/// other.
pub proof fn texture_type_code_round_trip(texture_type: BasisTextureType, code: i32)
    ensures
        BasisTextureType::spec_from_code(texture_type.spec_code()) == Some(texture_type),
        BasisTextureType::spec_from_code(code) matches Some(named) ==> named.spec_code() == code,
{
}

/// A raw pixel format is addressed pixel by pixel, and a block format by
/// blocks of more than one pixel.
pub proof fn pixel_formats_have_unit_blocks(format: TranscoderTextureFormat)
    ensures
        !format.spec_is_compressed() <==> (format.spec_block_width() == 1
            && format.spec_block_height() == 1),
        format.spec_block_width() > 0,
        format.spec_block_height() > 0,
        format.spec_bytes_per_block_or_pixel() > 0,
{
}

} // verus!
