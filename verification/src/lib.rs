//! Transcoding of universal texture containers: the format catalog, the
//! accessor over a container's images and levels, and the engine that sizes
//! the output of a transcode and types its outcome.

pub mod container;
pub mod flags;
pub mod formats;
pub mod records;
pub mod request;
pub mod sizing;
pub mod transcoder;

pub use container::ContainerDescription;
pub use container::ImageRecord;
pub use flags::DecodeFlags;
pub use formats::BasisTextureFormat;
pub use formats::BasisTextureType;
pub use formats::TranscoderTextureFormat;
pub use formats::TranscoderType;
pub use records::FileInfo;
pub use records::ImageInfo;
pub use records::ImageLevelDescription;
pub use records::ImageLevelInfo;
pub use records::UserData;
pub use request::DecodeRequest;
pub use request::TranscodeError;
pub use request::TranscodeParameters;
pub use transcoder::Transcoder;
