//! The fixed-shape records in which a container describes itself: its
//! images, their levels and the file as a whole.

use crate::formats::BasisTextureFormat;
use crate::formats::BasisTextureType;
use vstd::prelude::*;

verus! {

/// Lightweight description of one mip level of one image.
#[derive(Clone, Copy, Debug, PartialEq, Eq, Structural)]
pub struct ImageLevelDescription {
    /// Width of the level in pixels; need not be a multiple of a block's
    /// width.
    pub original_width: u32,
    /// Height of the level in pixels; need not be a multiple of a block's
    /// height.
    pub original_height: u32,
    /// Blocks that the level takes in the container's universal format.
    pub block_count: u32,
}

/// The two words a container carries for its author's own use.
#[derive(Clone, Copy, Debug, PartialEq, Eq, Structural)]
pub struct UserData {
    pub userdata0: u32,
    pub userdata1: u32,
}

/// What a container says of one of its images.
#[derive(Clone, Copy, Debug, PartialEq, Eq, Structural)]
pub struct ImageInfo {
    pub image_index: u32,
    pub total_levels: u32,
    pub orig_width: u32,
    pub orig_height: u32,
    pub width: u32,
    pub height: u32,
    pub num_blocks_x: u32,
    pub num_blocks_y: u32,
    pub total_blocks: u32,
    pub first_slice_index: u32,
    pub alpha_flag: bool,
    pub iframe_flag: bool,
}

/// What a container says of one mip level of one of its images.
#[derive(Clone, Copy, Debug, PartialEq, Eq, Structural)]
pub struct ImageLevelInfo {
    pub image_index: u32,
    pub level_index: u32,
    pub orig_width: u32,
    pub orig_height: u32,
    pub width: u32,
    pub height: u32,
    pub num_blocks_x: u32,
    pub num_blocks_y: u32,
    pub total_blocks: u32,
    pub first_slice_index: u32,
    pub rgb_file_ofs: u32,
    pub rgb_file_len: u32,
    pub alpha_file_ofs: u32,
    pub alpha_file_len: u32,
    pub alpha_flag: bool,
    pub iframe_flag: bool,
}

/// What a container says of itself as a whole.
#[derive(Clone, Copy, Debug, PartialEq, Eq, Structural)]
pub struct FileInfo {
    pub version: u32,
    pub total_header_size: u32,
    pub total_selectors: u32,
    pub selector_codebook_ofs: u32,
    pub selector_codebook_size: u32,
    pub total_endpoints: u32,
    pub endpoint_codebook_ofs: u32,
    pub endpoint_codebook_size: u32,
    pub tables_ofs: u32,
    pub tables_size: u32,
    pub slices_size: u32,
    pub tex_type: BasisTextureType,
    pub us_per_frame: u32,
    pub total_images: u32,
    pub userdata0: u32,
    pub userdata1: u32,
    pub tex_format: BasisTextureFormat,
    pub y_flipped: bool,
    pub etc1s: bool,
    pub has_alpha_slices: bool,
}

impl ImageLevelDescription {
    /// Whether the level holds anything: a width, a height and a block
    /// count that are all above zero.
    pub open spec fn spec_has_content(self) -> bool {
        self.original_width > 0 && self.original_height > 0 && self.block_count > 0
    }

    /// Whether the level holds anything.
    #[verifier::when_used_as_spec(spec_has_content)]
    pub fn has_content(self) -> (content: bool)
        ensures
            content == self.spec_has_content(),
    {
        self.original_width > 0 && self.original_height > 0 && self.block_count > 0
    }
}

impl Default for ImageLevelDescription {
    /// The description of a level that holds nothing.
    fn default() -> (description: Self)
        ensures
            description == (ImageLevelDescription {
                original_width: 0,
                original_height: 0,
                block_count: 0,
            }),
    {
        ImageLevelDescription { original_width: 0, original_height: 0, block_count: 0 }
    }
}

impl Default for UserData {
    /// Two zero words.
    fn default() -> (user_data: Self)
        ensures
            user_data == (UserData { userdata0: 0, userdata1: 0 }),
    {
        UserData { userdata0: 0, userdata1: 0 }
    }
}

impl ImageLevelInfo {
    /// The lightweight description of the level: its pixel dimensions and
    /// its block count, as this record gives them.
    pub open spec fn spec_description(self) -> ImageLevelDescription {
        ImageLevelDescription {
            original_width: self.orig_width,
            original_height: self.orig_height,
            block_count: self.total_blocks,
        }
    }

    /// The lightweight description of the level.
    #[verifier::when_used_as_spec(spec_description)]
    pub fn description(self) -> (description: ImageLevelDescription)
        ensures
            description == self.spec_description(),
    {
        ImageLevelDescription {
            original_width: self.orig_width,
            original_height: self.orig_height,
            block_count: self.total_blocks,
        }
    }
}

} // verus!
