//! What a container holds, as plain values: its formats, its images and
//! the levels of each image, addressed by index.

use crate::formats::BasisTextureFormat;
use crate::formats::BasisTextureType;
use crate::records::FileInfo;
use crate::records::ImageInfo;
use crate::records::ImageLevelDescription;
use crate::records::ImageLevelInfo;
use crate::records::UserData;
use vstd::prelude::*;

verus! {

/// One image of a container: its record and the records of its mip
/// levels, the largest level first.
#[derive(Debug)]
pub struct ImageRecord {
    pub info: ImageInfo,
    pub levels: Vec<ImageLevelInfo>,
}

/// What a container reports of itself.
#[derive(Debug)]
pub struct ContainerDescription {
    /// Whether the header passed the quick structural check.
    pub header_valid: bool,
    /// Whether the checksum over the header matched.
    pub checksums_valid: bool,
    /// Whether the checksums over the header and the whole payload matched.
    pub full_checksums_valid: bool,
    /// What the images are meant to be used as.
    pub texture_type: BasisTextureType,
    /// The universal format the texture data is stored in.
    pub texture_format: BasisTextureFormat,
    /// The author's two words, where the container gives them.
    pub user_data: Option<UserData>,
    /// The record of the file as a whole, where the container gives one.
    pub file_info: Option<FileInfo>,
    /// The images, by index.
    pub images: Vec<ImageRecord>,
}

impl ImageRecord {
    /// An image is well formed when it has at least one level, no more
    /// levels than a 32-bit index can address, and every level holds
    /// something.
    pub open spec fn well_formed(self) -> bool {
        &&& 1 <= self.levels@.len() <= u32::MAX
        &&& forall|level: int|
            0 <= level < self.levels@.len() ==> (#[trigger] self.levels@[level]).spec_description().spec_has_content()
    }

    /// Whether the image is well formed.
    pub fn is_well_formed(&self) -> (well_formed: bool)
        ensures
            well_formed == self.well_formed(),
    {
        let count: usize = self.levels.len();
        if count == 0 || count > 0xffff_ffff {
            return false;
        }
        let mut level: usize = 0;
        while level < count
            invariant
                count == self.levels@.len(),
                level <= count,
                forall|seen: int|
                    0 <= seen < level ==> (#[trigger] self.levels@[seen]).spec_description().spec_has_content(),
            decreases count - level,
        {
            if !self.levels[level].description().has_content() {
                return false;
            }
            level = level + 1;
        }
        true
    }
}

impl ContainerDescription {
    /// A description is well formed when it has no more images than a
    /// 32-bit index can address and every image is well formed.
    pub open spec fn well_formed(self) -> bool {
        &&& self.images@.len() <= u32::MAX
        &&& forall|image: int|
            0 <= image < self.images@.len() ==> (#[trigger] self.images@[image]).well_formed()
    }

    /// Whether `image_index` addresses an image.
    pub open spec fn has_image(self, image_index: u32) -> bool {
        image_index < self.images@.len()
    }

    /// The number of levels of the image at `image_index`; zero where
    /// there is no such image.
    pub open spec fn level_count(self, image_index: u32) -> nat {
        if self.has_image(image_index) {
            self.images@[image_index as int].levels@.len()
        } else {
            0
        }
    }

    /// Whether `image_index` and `level_index` address a level.
    pub open spec fn has_level(self, image_index: u32, level_index: u32) -> bool {
        level_index < self.level_count(image_index)
    }

    /// The record of the image at `image_index`, if there is one.
    pub open spec fn image_info(self, image_index: u32) -> Option<ImageInfo> {
        if self.has_image(image_index) {
            Some(self.images@[image_index as int].info)
        } else {
            None
        }
    }

    /// The record of the level at `image_index` and `level_index`, if
    /// there is one.
    pub open spec fn level_info(self, image_index: u32, level_index: u32) -> Option<
        ImageLevelInfo,
    > {
        if self.has_level(image_index, level_index) {
            Some(self.images@[image_index as int].levels@[level_index as int])
        } else {
            None
        }
    }

    /// The description of the level at `image_index` and `level_index`, if
    /// there is one: the pixel dimensions and block count of its record.
    pub open spec fn level_description(self, image_index: u32, level_index: u32) -> Option<
        ImageLevelDescription,
    > {
        match self.level_info(image_index, level_index) {
            Some(info) => Some(info.spec_description()),
            None => None,
        }
    }

    /// Whether the description is well formed.
    pub fn is_well_formed(&self) -> (well_formed: bool)
        ensures
            well_formed == self.well_formed(),
    {
        let count: usize = self.images.len();
        if count > 0xffff_ffff {
            return false;
        }
        let mut image: usize = 0;
        while image < count
            invariant
                count == self.images@.len(),
                image <= count,
                forall|seen: int| 0 <= seen < image ==> (#[trigger] self.images@[seen]).well_formed(),
            decreases count - image,
        {
            if !self.images[image].is_well_formed() {
                return false;
            }
            image = image + 1;
        }
        true
    }
}

/// In a well-formed container every pair of indices within bounds has a
/// level description, and that level has a width, a height and a block
/// count above zero; a pair out of bounds has none.
pub proof fn levels_in_bounds_are_described(
    container: ContainerDescription,
    image_index: u32,
    level_index: u32,
)
    requires
        container.well_formed(),
    ensures
        container.has_level(image_index, level_index) <==> container.level_description(
            image_index,
            level_index,
        ) is Some,
        container.level_description(image_index, level_index) matches Some(level)
            ==> level.original_width > 0 && level.original_height > 0 && level.block_count > 0,
        container.has_level(image_index, level_index) <==> image_index < container.images@.len()
            && level_index < container.level_count(image_index),
{
    if container.has_level(image_index, level_index) {
        let image = container.images@[image_index as int];
        assert(image.well_formed());
        assert(image.levels@[level_index as int].spec_description().spec_has_content());
    }
}

/// In a well-formed container every image has at least one level.
pub proof fn images_have_levels(container: ContainerDescription, image_index: u32)
    requires
        container.well_formed(),
    ensures
        container.has_image(image_index) <==> container.level_count(image_index) >= 1,
        container.has_image(image_index) <==> container.has_level(image_index, 0),
        container.has_image(image_index) <==> container.image_info(image_index) is Some,
{
    if container.has_image(image_index) {
        assert(container.images@[image_index as int].well_formed());
    }
}

} // verus!
