//! The transcoder: a container opened over its bytes, the queries that read
//! it, and the transcode of one level to a target format.

use crate::container::ContainerDescription;
use crate::formats::BasisTextureFormat;
use crate::formats::BasisTextureType;
use crate::formats::TranscoderTextureFormat;
use crate::formats::TranscoderType;
use crate::records::FileInfo;
use crate::records::ImageInfo;
use crate::records::ImageLevelDescription;
use crate::records::ImageLevelInfo;
use crate::records::UserData;
use crate::request::DecodeRequest;
use crate::request::TranscodeError;
use crate::request::TranscodeParameters;
use vstd::arithmetic::power2::is_pow2;
use vstd::prelude::*;

verus! {

/// A transcoder that can convert the levels of one container to
/// compressed GPU formats or raw pixels.
///
/// It borrows the container's bytes for as long as it lives and never
/// changes them, and it holds what the container reports of itself.
pub struct Transcoder<'a> {
    container_type: TranscoderType,
    data: &'a [u8],
    description: ContainerDescription,
}

impl<'a> Transcoder<'a> {
    /// A transcoder always holds a well-formed description, over bytes that
    /// a 32-bit size can count.
    #[verifier::type_invariant]
    spec fn holds_valid_container(self) -> bool {
        self.description.well_formed() && self.data@.len() <= u32::MAX
    }

    /// What the container reports of itself.
    pub closed spec fn view(&self) -> ContainerDescription {
        self.description
    }

    /// The bytes of the container.
    pub closed spec fn spec_data(&self) -> &'a [u8] {
        self.data
    }

    /// The kind of container the bytes were declared to hold.
    pub closed spec fn spec_container_type(&self) -> TranscoderType {
        self.container_type
    }

    /// Whether `result` is what a transcode of this container to `format`
    /// under `parameters` may return when `decode` is its primitive.
    ///
    /// Where the transcode makes no request of the primitive, `result` is
    /// the error it ends in. Where it makes one, the primitive has answered
    /// that request, on the container's bytes and a zeroed buffer of the
    /// size asked for, and `result` is what becomes of its answer.
    pub open spec fn transcodes_to<F: Fn(DecodeRequest, &[u8], Vec<u8>) -> (bool, Vec<u8>)>(
        &self,
        format: TranscoderTextureFormat,
        parameters: TranscodeParameters,
        decode: F,
        result: Result<Vec<u8>, TranscodeError>,
    ) -> bool {
        match self@.decode_request(format, parameters) {
            Err(error) => result == Err::<Vec<u8>, TranscodeError>(error),
            Ok(request) => exists|buffer: Vec<u8>, answer: (bool, Vec<u8>)|
                {
                    &&& buffer@ == request.zeroed_output()
                    &&& #[trigger] call_ensures(decode, (request, self.spec_data(), buffer), answer)
                    &&& result == request.spec_complete(answer.0, answer.1)
                },
        }
    }

    /// Opens a container of the declared type over `data`, which reports
    /// `description` of itself.
    ///
    /// The bytes are borrowed, neither copied nor looked at. There is no
    /// transcoder where the description is not well formed, or where the
    /// bytes are more than a 32-bit size can count.
    pub fn new(ttype: TranscoderType, data: &'a [u8], description: ContainerDescription) -> (transcoder:
        Option<Transcoder<'a>>)
        ensures
            transcoder is Some <==> description.well_formed() && data@.len() <= u32::MAX,
            transcoder matches Some(opened) ==> opened@ == description && opened.spec_data() == data
                && opened.spec_container_type() == ttype,
    {
        if data.len() > 0xffff_ffff || !description.is_well_formed() {
            None
        } else {
            Some(Transcoder { container_type: ttype, data, description })
        }
    }

    /// The kind of container the bytes were declared to hold.
    #[verifier::when_used_as_spec(spec_container_type)]
    pub fn container_type(&self) -> (ttype: TranscoderType)
        ensures
            ttype == self.spec_container_type(),
    {
        self.container_type
    }

    /// The bytes of the container.
    #[verifier::when_used_as_spec(spec_data)]
    pub fn data(&self) -> (data: &'a [u8])
        ensures
            data == self.spec_data(),
            data@.len() <= u32::MAX,
    {
        proof {
            use_type_invariant(self);
        }
        self.data
    }

    /// What the container reports of itself; it is always well formed.
    pub fn description(&self) -> (description: &ContainerDescription)
        ensures
            *description == self@,
            description.well_formed(),
    {
        proof {
            use_type_invariant(self);
        }
        &self.description
    }

    /// Whether the checksums of the container matched: the one over the
    /// header, or with `full_validation` those over the header and the
    /// whole payload.
    pub fn validate_file_checksums(&self, full_validation: bool) -> (valid: bool)
        ensures
            valid == if full_validation {
                self@.full_checksums_valid
            } else {
                self@.checksums_valid
            },
    {
        if full_validation {
            self.description.full_checksums_valid
        } else {
            self.description.checksums_valid
        }
    }

    /// Whether the header passed the quick structural check.
    pub fn validate_header(&self) -> (valid: bool)
        ensures
            valid == self@.header_valid,
    {
        self.description.header_valid
    }

    /// What the images of the container are meant to be used as.
    pub fn basis_texture_type(&self) -> (texture_type: BasisTextureType)
        ensures
            texture_type == self@.texture_type,
    {
        self.description.texture_type
    }

    /// The universal format the container stores its texture data in.
    pub fn basis_texture_format(&self) -> (texture_format: BasisTextureFormat)
        ensures
            texture_format == self@.texture_format,
    {
        self.description.texture_format
    }

    /// The author's two words, or an error where the container gives none.
    pub fn user_data(&self) -> (user_data: Result<UserData, ()>)
        ensures
            user_data is Ok <==> self@.user_data is Some,
            user_data matches Ok(words) ==> self@.user_data == Some(words),
    {
        match self.description.user_data {
            Some(words) => Ok(words),
            None => Err(()),
        }
    }

    /// Number of images in the container.
    pub fn image_count(&self) -> (count: u32)
        ensures
            count == self@.images@.len(),
    {
        proof {
            use_type_invariant(self);
        }
        self.description.images.len() as u32
    }

    /// Number of mip levels of the image at `image_index`; zero where
    /// there is no such image, and at least one where there is.
    pub fn image_level_count(&self, image_index: u32) -> (count: u32)
        ensures
            count == self@.level_count(image_index),
            count > 0 <==> self@.has_image(image_index),
    {
        proof {
            use_type_invariant(self);
        }
        if (image_index as usize) < self.description.images.len() {
            assert(self.description.images@[image_index as int].well_formed());
            self.description.images[image_index as usize].levels.len() as u32
        } else {
            0
        }
    }

    /// The description of the level at `image_index` and `level_index`.
    ///
    /// There is one exactly where both indices are within bounds, and the
    /// level it describes has a width, a height and a block count above
    /// zero.
    pub fn image_level_description(&self, image_index: u32, level_index: u32) -> (description:
        Option<ImageLevelDescription>)
        ensures
            description == self@.level_description(image_index, level_index),
            description is Some <==> image_index < self@.images@.len() && level_index
                < self@.level_count(image_index),
            description matches Some(level) ==> level.original_width > 0 && level.original_height
                > 0 && level.block_count > 0,
    {
        match self.image_level_info(image_index, level_index) {
            Some(info) => {
                proof {
                    use_type_invariant(self);
                    assert(self.description.images@[image_index as int].well_formed());
                    assert(self.description.images@[image_index as int].levels@[level_index as int].spec_description().spec_has_content());
                }
                Some(info.description())
            },
            None => None,
        }
    }

    /// The record of the image at `image_index`, present exactly where
    /// there is such an image.
    pub fn image_info(&self, image_index: u32) -> (info: Option<ImageInfo>)
        ensures
            info == self@.image_info(image_index),
            info is Some <==> image_index < self@.images@.len(),
    {
        if (image_index as usize) < self.description.images.len() {
            Some(self.description.images[image_index as usize].info)
        } else {
            None
        }
    }

    /// The record of the level at `image_index` and `level_index`, present
    /// exactly where both indices are within bounds.
    pub fn image_level_info(&self, image_index: u32, level_index: u32) -> (info: Option<
        ImageLevelInfo,
    >)
        ensures
            info == self@.level_info(image_index, level_index),
            info is Some <==> image_index < self@.images@.len() && level_index
                < self@.level_count(image_index),
    {
        if (image_index as usize) < self.description.images.len() {
            let image = &self.description.images[image_index as usize];
            if (level_index as usize) < image.levels.len() {
                Some(image.levels[level_index as usize])
            } else {
                None
            }
        } else {
            None
        }
    }

    /// The record of the file as a whole, where the container gives one.
    pub fn file_info(&self) -> (info: Option<FileInfo>)
        ensures
            info == self@.file_info,
    {
        self.description.file_info
    }

    /// The request that a transcode to `transcode_format` makes of the
    /// decode primitive, or the error that the transcode ends in before the
    /// primitive is asked.
    ///
    /// A target format that the container's universal format cannot feed
    /// gives `TranscodeFormatNotSupported`, whatever the parameters say.
    /// Otherwise indices out of bounds give `ImageLevelNotFound`. Otherwise
    /// an output whose size does not fit in 32 bits, or a level that the
    /// format's layout does not admit, gives `TranscodeFailed`.
    pub fn decode_request(
        &self,
        transcode_format: TranscoderTextureFormat,
        transcode_parameters: &TranscodeParameters,
    ) -> (request: Result<DecodeRequest, TranscodeError>)
        ensures
            request == self@.decode_request(transcode_format, *transcode_parameters),
    {
        let basis_format: BasisTextureFormat = self.basis_texture_format();
        if !basis_format.can_transcode_to_format(transcode_format) {
            return Err(TranscodeError::TranscodeFormatNotSupported);
        }
        let description: ImageLevelDescription = match self.image_level_description(
            transcode_parameters.image_index,
            transcode_parameters.level_index,
        ) {
            Some(description) => description,
            None => {
                return Err(TranscodeError::ImageLevelNotFound);
            },
        };
        DecodeRequest::for_level(transcode_format, description, transcode_parameters)
    }

    /// Decodes one mip level of one image to `transcode_format`, with
    /// `decode` as the primitive that fills the output.
    ///
    /// The primitive is handed the request, the container's bytes and a
    /// zeroed buffer of exactly the size the output takes; it hands back
    /// whether it succeeded, and the buffer. It is asked once, and only
    /// where the format is supported, the level exists and the output can
    /// be laid out. The buffer is returned only if the primitive reports
    /// success and the buffer still has its size; what a failed primitive
    /// wrote is dropped.
    pub fn transcode_image_level<F>(
        &self,
        transcode_format: TranscoderTextureFormat,
        transcode_parameters: TranscodeParameters,
        decode: F,
    ) -> (result: Result<Vec<u8>, TranscodeError>) where
        F: Fn(DecodeRequest, &[u8], Vec<u8>) -> (bool, Vec<u8>),

        requires
            forall|request: DecodeRequest, buffer: Vec<u8>|
                self@.decode_request(transcode_format, transcode_parameters) == Ok::<
                    DecodeRequest,
                    TranscodeError,
                >(request) && buffer@ == request.zeroed_output() ==> #[trigger] call_requires(
                    decode,
                    (request, self.spec_data(), buffer),
                ),
        ensures
            self.transcodes_to(transcode_format, transcode_parameters, decode, result),
            !self@.texture_format.spec_can_transcode_to_format(transcode_format) ==> result == Err::<
                Vec<u8>,
                TranscodeError,
            >(TranscodeError::TranscodeFormatNotSupported),
            self@.texture_format.spec_can_transcode_to_format(transcode_format)
                && transcode_parameters.level_index >= self@.level_count(
                transcode_parameters.image_index,
            ) ==> result == Err::<Vec<u8>, TranscodeError>(TranscodeError::ImageLevelNotFound),
            self@.texture_format.spec_can_transcode_to_format(transcode_format)
                && transcode_format.spec_has_swizzled_layout() && (self@.level_description(
                transcode_parameters.image_index,
                transcode_parameters.level_index,
            ) matches Some(level) && !(is_pow2(level.original_width as int) && is_pow2(
                level.original_height as int,
            ))) ==> result == Err::<Vec<u8>, TranscodeError>(TranscodeError::TranscodeFailed),
            result matches Ok(output) ==> self@.decode_request(
                transcode_format,
                transcode_parameters,
            ) matches Ok(request) && output@.len() == request.output_size_in_bytes,
    {
        let request: DecodeRequest = match self.decode_request(
            transcode_format,
            &transcode_parameters,
        ) {
            Ok(request) => request,
            Err(error) => {
                return Err(error);
            },
        };
        let buffer: Vec<u8> = request.output_buffer();
        let ghost zeroed = buffer;
        let answer: (bool, Vec<u8>) = decode(request, self.data, buffer);
        assert(call_ensures(decode, (request, self.spec_data(), zeroed), answer));
        request.complete(answer.0, answer.1)
    }
}

/// The outputs of two transcodes are the same: both are the same error, or
/// both are buffers that hold the same bytes.
pub open spec fn same_output(
    first: Result<Vec<u8>, TranscodeError>,
    second: Result<Vec<u8>, TranscodeError>,
) -> bool {
    match (first, second) {
        (Ok(one), Ok(other)) => one@ == other@,
        (Err(one), Err(other)) => one == other,
        _ => false,
    }
}

/// Whether `decode` answers the same each time it is asked the same: on one
/// request, the same bytes and buffers that hold the same, it reports the
/// same success and hands back the same bytes.
pub open spec fn answers_alike<F: Fn(DecodeRequest, &[u8], Vec<u8>) -> (bool, Vec<u8>)>(
    decode: F,
) -> bool {
    forall|
        request: DecodeRequest,
        data: &[u8],
        buffer: Vec<u8>,
        again: Vec<u8>,
        answer: (bool, Vec<u8>),
        other: (bool, Vec<u8>),
    |
        buffer@ == again@ && #[trigger] call_ensures(decode, (request, data, buffer), answer)
            && #[trigger] call_ensures(decode, (request, data, again), other) ==> answer.0
            == other.0 && answer.1@ == other.1@
}

/// Transcoding twice gives the same output: with a primitive that answers
/// the same each time, two transcodes of one container to one format under
/// one set of parameters end in the same error or in the same bytes.
pub proof fn transcode_is_repeatable<F: Fn(DecodeRequest, &[u8], Vec<u8>) -> (bool, Vec<u8>)>(
    transcoder: Transcoder<'_>,
    format: TranscoderTextureFormat,
    parameters: TranscodeParameters,
    decode: F,
    first: Result<Vec<u8>, TranscodeError>,
    second: Result<Vec<u8>, TranscodeError>,
)
    requires
        answers_alike(decode),
        transcoder.transcodes_to(format, parameters, decode, first),
        transcoder.transcodes_to(format, parameters, decode, second),
    ensures
        same_output(first, second),
{
    match transcoder@.decode_request(format, parameters) {
        Err(error) => {},
        Ok(request) => {
            let (buffer, answer) = choose|buffer: Vec<u8>, answer: (bool, Vec<u8>)|
                {
                    &&& buffer@ == request.zeroed_output()
                    &&& #[trigger] call_ensures(
                        decode,
                        (request, transcoder.spec_data(), buffer),
                        answer,
                    )
                    &&& first == request.spec_complete(answer.0, answer.1)
                };
            let (again, other) = choose|again: Vec<u8>, other: (bool, Vec<u8>)|
                {
                    &&& again@ == request.zeroed_output()
                    &&& #[trigger] call_ensures(
                        decode,
                        (request, transcoder.spec_data(), again),
                        other,
                    )
                    &&& second == request.spec_complete(other.0, other.1)
                };
            assert(answer.0 == other.0 && answer.1@ == other.1@);
        },
    }
}

} // verus!
