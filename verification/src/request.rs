//! What a transcode asks of the decode primitive, and what becomes of the
//! primitive's answer.

use crate::container::ContainerDescription;
use crate::flags::DecodeFlags;
use crate::formats::TranscoderTextureFormat;
use crate::records::ImageLevelDescription;
use crate::sizing::blocks_covering;
use crate::sizing::is_power_of_two;
use vstd::arithmetic::power2::is_pow2;
use vstd::prelude::*;

verus! {

/// Extra parameters for transcoding an image.
#[derive(Clone, Copy, Debug)]
pub struct TranscodeParameters {
    /// The image to transcode.
    pub image_index: u32,
    /// The mip level of the image to transcode.
    pub level_index: u32,
    /// Optional flags that steer the decoding.
    pub decode_flags: Option<DecodeFlags>,
    /// Optional override for the row pitch, in blocks or pixels.
    pub output_row_pitch_in_blocks_or_pixels: Option<u32>,
    /// Optional override for the number of rows to transcode, in pixels.
    pub output_rows_in_pixels: Option<u32>,
}

/// Why a transcode gave no output.
#[derive(Clone, Copy, Debug, PartialEq, Eq, Structural)]
pub enum TranscodeError {
    /// The container's universal format cannot feed the target format.
    TranscodeFormatNotSupported,
    /// The container has no level at the image and level index asked for.
    ImageLevelNotFound,
    /// The level could not be decoded into the target format.
    TranscodeFailed,
}

/// One call of the decode primitive: the level to decode, the format to
/// decode it to, and the layout and size of the buffer to decode it into.
#[derive(Clone, Copy, Debug, PartialEq, Eq, Structural)]
pub struct DecodeRequest {
    /// The image to decode.
    pub image_index: u32,
    /// The mip level of the image to decode.
    pub level_index: u32,
    /// The format to decode to.
    pub format: TranscoderTextureFormat,
    /// The decode flags as a word.
    pub decode_flags: u32,
    /// Blocks or pixels from the start of one row to the start of the next.
    pub output_row_pitch_in_blocks_or_pixels: u32,
    /// Rows of pixels to decode.
    pub output_rows_in_pixels: u32,
    /// Blocks or pixels that the output buffer has room for.
    pub output_size_in_blocks_or_pixels: u32,
    /// Bytes of the output buffer.
    pub output_size_in_bytes: u32,
}

impl Default for TranscodeParameters {
    /// The first level of the first image, with no flags and no overrides.
    fn default() -> (parameters: Self)
        ensures
            parameters.image_index == 0,
            parameters.level_index == 0,
            parameters.decode_flags is None,
            parameters.output_row_pitch_in_blocks_or_pixels is None,
            parameters.output_rows_in_pixels is None,
    {
        TranscodeParameters {
            image_index: 0,
            level_index: 0,
            decode_flags: None,
            output_row_pitch_in_blocks_or_pixels: None,
            output_rows_in_pixels: None,
        }
    }
}

impl TranscodeParameters {
    /// The decode flags as a word: the flags given, or none.
    pub open spec fn flag_bits(self) -> u32 {
        match self.decode_flags {
            Some(flags) => flags.spec_bits(),
            None => 0,
        }
    }

    /// The rows of pixels that the primitive is told to decode: the
    /// override as it is given, or the height of the level.
    pub open spec fn rows_in_pixels(self, original_height: u32) -> u32 {
        match self.output_rows_in_pixels {
            Some(rows) => rows,
            None => original_height,
        }
    }
}

/// Whether a level of this size can be laid out in `format`: a swizzled
/// format takes a level only if its width and its height are powers of two.
pub open spec fn layout_admits(format: TranscoderTextureFormat, level: ImageLevelDescription) -> bool {
    format.spec_has_swizzled_layout() ==> is_pow2(level.original_width as int) && is_pow2(
        level.original_height as int,
    )
}

impl DecodeRequest {
    /// The request that decodes `level` to `format` under `parameters`.
    ///
    /// The output is sized from the level's pixel dimensions, the format and
    /// the overrides. There is no request, and the transcode has failed,
    /// where that size does not fit in 32 bits or where the format's layout
    /// does not admit the level.
    pub open spec fn spec_for_level(
        format: TranscoderTextureFormat,
        level: ImageLevelDescription,
        parameters: TranscodeParameters,
    ) -> Result<DecodeRequest, TranscodeError> {
        let units = format.minimum_output_blocks_or_pixels(
            level.original_width,
            level.original_height,
            parameters.output_row_pitch_in_blocks_or_pixels,
            parameters.output_rows_in_pixels,
        );
        let bytes = format.minimum_output_bytes(
            level.original_width,
            level.original_height,
            parameters.output_row_pitch_in_blocks_or_pixels,
            parameters.output_rows_in_pixels,
        );
        if bytes > u32::MAX || !layout_admits(format, level) {
            Err(TranscodeError::TranscodeFailed)
        } else {
            Ok(
                DecodeRequest {
                    image_index: parameters.image_index,
                    level_index: parameters.level_index,
                    format,
                    decode_flags: parameters.flag_bits(),
                    output_row_pitch_in_blocks_or_pixels: format.row_pitch(
                        level.original_width,
                        parameters.output_row_pitch_in_blocks_or_pixels,
                    ) as u32,
                    output_rows_in_pixels: parameters.rows_in_pixels(level.original_height),
                    output_size_in_blocks_or_pixels: units as u32,
                    output_size_in_bytes: bytes as u32,
                },
            )
        }
    }

    /// The buffer that the primitive is handed: as many zero bytes as the
    /// output takes.
    pub open spec fn zeroed_output(self) -> Seq<u8> {
        Seq::new(self.output_size_in_bytes as nat, |i: int| 0u8)
    }

    /// What a transcode returns once the primitive has answered: the
    /// buffer, if the primitive reports success and the buffer still has
    /// the size asked for; a failure otherwise.
    pub open spec fn spec_complete(self, decoded: bool, output: Vec<u8>) -> Result<
        Vec<u8>,
        TranscodeError,
    > {
        if decoded && output@.len() == self.output_size_in_bytes {
            Ok(output)
        } else {
            Err(TranscodeError::TranscodeFailed)
        }
    }

    /// The request that decodes `level` to `format` under `parameters`, or
    /// the failure that stands in its place.
    pub fn for_level(
        format: TranscoderTextureFormat,
        level: ImageLevelDescription,
        parameters: &TranscodeParameters,
    ) -> (request: Result<DecodeRequest, TranscodeError>)
        ensures
            request == Self::spec_for_level(format, level, *parameters),
    {
        let bytes: u32 = match format.checked_minimum_output_buffer_bytes(
            level.original_width,
            level.original_height,
            level.block_count,
            parameters.output_row_pitch_in_blocks_or_pixels,
            parameters.output_rows_in_pixels,
        ) {
            Some(bytes) => bytes,
            None => {
                return Err(TranscodeError::TranscodeFailed);
            },
        };
        if format.has_swizzled_layout() && !(is_power_of_two(level.original_width)
            && is_power_of_two(level.original_height)) {
            return Err(TranscodeError::TranscodeFailed);
        }
        let ghost units = format.minimum_output_blocks_or_pixels(
            level.original_width,
            level.original_height,
            parameters.output_row_pitch_in_blocks_or_pixels,
            parameters.output_rows_in_pixels,
        );
        assert(units <= units * (format.spec_bytes_per_block_or_pixel() as nat))
            by (nonlinear_arith)
            requires
                format.spec_bytes_per_block_or_pixel() >= 1,
        ;
        let units: u32 = format.calculate_minimum_output_buffer_blocks_or_pixels(
            level.original_width,
            level.original_height,
            level.block_count,
            parameters.output_row_pitch_in_blocks_or_pixels,
            parameters.output_rows_in_pixels,
        );
        let decode_flags: u32 = match parameters.decode_flags {
            Some(flags) => flags.bits(),
            None => 0,
        };
        let rows_in_pixels: u32 = match parameters.output_rows_in_pixels {
            Some(rows) => rows,
            None => level.original_height,
        };
        Ok(
            DecodeRequest {
                image_index: parameters.image_index,
                level_index: parameters.level_index,
                format,
                decode_flags,
                output_row_pitch_in_blocks_or_pixels: format.resolve_row_pitch(
                    level.original_width,
                    parameters.output_row_pitch_in_blocks_or_pixels,
                ),
                output_rows_in_pixels: rows_in_pixels,
                output_size_in_blocks_or_pixels: units,
                output_size_in_bytes: bytes,
            },
        )
    }

    /// The buffer that the primitive is handed, freshly made.
    pub fn output_buffer(&self) -> (buffer: Vec<u8>)
        ensures
            buffer@ == self.zeroed_output(),
    {
        let buffer: Vec<u8> = vec![0u8; self.output_size_in_bytes as usize];
        assert(buffer@ =~= self.zeroed_output());
        buffer
    }

    /// What a transcode returns once the primitive has answered.
    #[verifier::when_used_as_spec(spec_complete)]
    pub fn complete(self, decoded: bool, output: Vec<u8>) -> (result: Result<
        Vec<u8>,
        TranscodeError,
    >)
        ensures
            result == self.spec_complete(decoded, output),
    {
        if decoded && output.len() == self.output_size_in_bytes as usize {
            Ok(output)
        } else {
            Err(TranscodeError::TranscodeFailed)
        }
    }
}

impl ContainerDescription {
    /// The request that a transcode of this container to `format` under
    /// `parameters` makes of the decode primitive, or the error that the
    /// transcode ends in before the primitive is asked.
    ///
    /// The format is looked at first, then the level, then the size and the
    /// layout of the output.
    pub open spec fn decode_request(
        self,
        format: TranscoderTextureFormat,
        parameters: TranscodeParameters,
    ) -> Result<DecodeRequest, TranscodeError> {
        if !self.texture_format.spec_can_transcode_to_format(format) {
            Err(TranscodeError::TranscodeFormatNotSupported)
        } else {
            match self.level_description(parameters.image_index, parameters.level_index) {
                None => Err(TranscodeError::ImageLevelNotFound),
                Some(level) => DecodeRequest::spec_for_level(format, level, parameters),
            }
        }
    }
}

/// A request gives the primitive a buffer that is as large as the layout it
/// names: the bytes of the buffer are its blocks or pixels times the bytes
/// of one, and its blocks or pixels are the row pitch times the rows.
pub proof fn request_buffer_matches_layout(
    format: TranscoderTextureFormat,
    level: ImageLevelDescription,
    parameters: TranscodeParameters,
)
    ensures
        DecodeRequest::spec_for_level(format, level, parameters) matches Ok(request) ==> {
            &&& request.format == format
            &&& request.image_index == parameters.image_index
            &&& request.level_index == parameters.level_index
            &&& request.output_size_in_bytes == request.output_size_in_blocks_or_pixels
                * format.spec_bytes_per_block_or_pixel()
            &&& request.output_size_in_blocks_or_pixels
                == request.output_row_pitch_in_blocks_or_pixels * format.row_count(
                level.original_height,
                parameters.output_rows_in_pixels,
            )
            &&& !format.spec_is_compressed() ==> request.output_size_in_blocks_or_pixels
                == request.output_row_pitch_in_blocks_or_pixels * request.output_rows_in_pixels
            &&& request.zeroed_output().len() == request.output_size_in_bytes
        },
{
    let pitch = format.row_pitch(level.original_width, parameters.output_row_pitch_in_blocks_or_pixels);
    let rows = format.row_count(level.original_height, parameters.output_rows_in_pixels);
    let unit = format.spec_bytes_per_block_or_pixel() as nat;
    let units = pitch * rows;
    if units * unit <= u32::MAX {
        assert(units <= units * unit) by (nonlinear_arith)
            requires
                unit >= 1,
        ;
        if rows > 0 {
            assert(pitch <= pitch * rows) by (nonlinear_arith)
                requires
                    rows >= 1,
            ;
        }
        assert(blocks_covering(level.original_height as nat, 1) == level.original_height);
        if !format.spec_is_compressed() {
            assert(rows == parameters.rows_in_pixels(level.original_height));
        }
    }
}

/// A transcode to a target format that the container's universal format
/// cannot feed ends in `TranscodeFormatNotSupported`, whatever the request
/// holds.
pub proof fn unsupported_format_is_always_rejected(
    container: ContainerDescription,
    format: TranscoderTextureFormat,
    parameters: TranscodeParameters,
)
    requires
        !container.texture_format.spec_can_transcode_to_format(format),
    ensures
        container.decode_request(format, parameters) == Err::<DecodeRequest, TranscodeError>(
            TranscodeError::TranscodeFormatNotSupported,
        ),
{
}

/// A transcode of a level that the container does not have, to a target
/// format that the container's universal format can feed, ends in
/// `ImageLevelNotFound`.
pub proof fn missing_level_is_not_found(
    container: ContainerDescription,
    format: TranscoderTextureFormat,
    parameters: TranscodeParameters,
)
    requires
        container.texture_format.spec_can_transcode_to_format(format),
        parameters.level_index >= container.level_count(parameters.image_index),
    ensures
        container.decode_request(format, parameters) == Err::<DecodeRequest, TranscodeError>(
            TranscodeError::ImageLevelNotFound,
        ),
{
}

/// A transcode to a swizzled format of a level whose width or height is no
/// power of two ends in `TranscodeFailed`, also where the size of its
/// output can be computed.
pub proof fn swizzled_format_needs_powers_of_two(
    container: ContainerDescription,
    format: TranscoderTextureFormat,
    parameters: TranscodeParameters,
)
    requires
        container.texture_format.spec_can_transcode_to_format(format),
        format.spec_has_swizzled_layout(),
        container.level_description(parameters.image_index, parameters.level_index) matches Some(
            level,
        ) && !(is_pow2(level.original_width as int) && is_pow2(level.original_height as int)),
    ensures
        container.decode_request(format, parameters) == Err::<DecodeRequest, TranscodeError>(
            TranscodeError::TranscodeFailed,
        ),
{
}

/// The request depends on nothing in the container but its universal
/// format and the level that is asked for: two containers that agree on
/// these make the same request.
pub proof fn request_depends_on_level_alone(
    first: ContainerDescription,
    second: ContainerDescription,
    format: TranscoderTextureFormat,
    parameters: TranscodeParameters,
)
    requires
        first.texture_format == second.texture_format,
        first.level_description(parameters.image_index, parameters.level_index)
            == second.level_description(parameters.image_index, parameters.level_index),
    ensures
        first.decode_request(format, parameters) == second.decode_request(format, parameters),
{
}

} // verus!
