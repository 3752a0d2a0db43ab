use basis_universal::BasisTextureFormat;
use basis_universal::BasisTextureType;
use basis_universal::ContainerDescription;
use basis_universal::FileInfo;
use basis_universal::ImageInfo;
use basis_universal::ImageLevelDescription;
use basis_universal::ImageLevelInfo;
use basis_universal::ImageRecord;
use basis_universal::Transcoder;
use basis_universal::TranscoderType;
use basis_universal::UserData;

fn level(image_index: u32, level_index: u32, width: u32, height: u32) -> ImageLevelInfo {
    let blocks_x = (width + 3) / 4;
    let blocks_y = (height + 3) / 4;
    ImageLevelInfo {
        image_index,
        level_index,
        orig_width: width,
        orig_height: height,
        width: blocks_x * 4,
        height: blocks_y * 4,
        num_blocks_x: blocks_x,
        num_blocks_y: blocks_y,
        total_blocks: blocks_x * blocks_y,
        first_slice_index: image_index * 4 + level_index,
        rgb_file_ofs: 100,
        rgb_file_len: 50,
        alpha_file_ofs: 0,
        alpha_file_len: 0,
        alpha_flag: false,
        iframe_flag: false,
    }
}

fn image(image_index: u32, sizes: &[(u32, u32)]) -> ImageRecord {
    let mut levels = Vec::new();
    for (level_index, (width, height)) in sizes.iter().enumerate() {
        levels.push(level(image_index, level_index as u32, *width, *height));
    }
    let (width, height) = if sizes.is_empty() { (0, 0) } else { sizes[0] };
    ImageRecord {
        info: ImageInfo {
            image_index,
            total_levels: sizes.len() as u32,
            orig_width: width,
            orig_height: height,
            width: (width + 3) / 4 * 4,
            height: (height + 3) / 4 * 4,
            num_blocks_x: (width + 3) / 4,
            num_blocks_y: (height + 3) / 4,
            total_blocks: (width + 3) / 4 * ((height + 3) / 4),
            first_slice_index: image_index * 4,
            alpha_flag: false,
            iframe_flag: false,
        },
        levels,
    }
}

fn container(images: Vec<ImageRecord>) -> ContainerDescription {
    ContainerDescription {
        header_valid: true,
        checksums_valid: true,
        full_checksums_valid: false,
        texture_type: BasisTextureType::TextureType2DArray,
        texture_format: BasisTextureFormat::UASTC4x4,
        user_data: Some(UserData { userdata0: 7, userdata1: 11 }),
        file_info: None,
        images,
    }
}

fn two_images() -> ContainerDescription {
    container(vec![image(0, &[(17, 9), (8, 4), (4, 2)]), image(1, &[(64, 64)])])
}

#[test]
fn opening_keeps_type_bytes_and_description() {
    let bytes = [1u8, 2, 3, 4];
    let transcoder = Transcoder::new(TranscoderType::Ktx2, &bytes, two_images()).expect("opens");
    assert_eq!(transcoder.container_type(), TranscoderType::Ktx2);
    assert_eq!(transcoder.data(), &bytes[..]);
    assert_eq!(transcoder.description().images.len(), 2);
    assert_eq!(transcoder.description().images[0].levels[1], level(0, 1, 8, 4));
}

#[test]
fn container_without_images_opens() {
    let bytes: [u8; 0] = [];
    let transcoder = Transcoder::new(TranscoderType::Basis, &bytes, container(Vec::new()));
    let transcoder = transcoder.expect("opens");
    assert_eq!(transcoder.image_count(), 0);
    assert_eq!(transcoder.image_level_count(0), 0);
    assert_eq!(transcoder.image_level_description(0, 0), None);
    assert_eq!(transcoder.image_info(0), None);
    assert_eq!(transcoder.image_level_info(0, 0), None);
}

#[test]
fn image_without_levels_does_not_open() {
    let bytes = [0u8; 8];
    let description = container(vec![image(0, &[(16, 16)]), image(1, &[])]);
    assert!(!description.is_well_formed());
    assert!(Transcoder::new(TranscoderType::Basis, &bytes, description).is_none());
}

#[test]
fn level_without_content_does_not_open() {
    let bytes = [0u8; 8];
    for (width, height) in [(0u32, 4u32), (4, 0), (0, 0)] {
        let description = container(vec![image(0, &[(16, 16), (width, height)])]);
        assert!(!description.is_well_formed());
        assert!(Transcoder::new(TranscoderType::Basis, &bytes, description).is_none());
    }
    let mut description = container(vec![image(0, &[(16, 16)])]);
    description.images[0].levels[0].total_blocks = 0;
    assert!(!description.images[0].is_well_formed());
    assert!(Transcoder::new(TranscoderType::Basis, &bytes, description).is_none());
}

#[test]
fn well_formed_descriptions() {
    assert!(two_images().is_well_formed());
    assert!(container(Vec::new()).is_well_formed());
    assert!(image(0, &[(1, 1)]).is_well_formed());
    assert!(!image(0, &[]).is_well_formed());
}

#[test]
fn counts_of_images_and_levels() {
    let bytes = [0u8; 8];
    let transcoder = Transcoder::new(TranscoderType::Basis, &bytes, two_images()).unwrap();
    assert_eq!(transcoder.image_count(), 2);
    assert_eq!(transcoder.image_level_count(0), 3);
    assert_eq!(transcoder.image_level_count(1), 1);
    assert_eq!(transcoder.image_level_count(2), 0);
    assert_eq!(transcoder.image_level_count(u32::MAX), 0);
}

#[test]
fn levels_within_bounds_are_described() {
    let bytes = [0u8; 8];
    let transcoder = Transcoder::new(TranscoderType::Basis, &bytes, two_images()).unwrap();
    for image_index in 0..4 {
        for level_index in 0..5 {
            let within = image_index < transcoder.image_count()
                && level_index < transcoder.image_level_count(image_index);
            match transcoder.image_level_description(image_index, level_index) {
                Some(description) => {
                    assert!(within);
                    assert!(description.original_width > 0);
                    assert!(description.original_height > 0);
                    assert!(description.block_count > 0);
                }
                None => assert!(!within),
            }
        }
    }
    assert_eq!(
        transcoder.image_level_description(0, 0),
        Some(ImageLevelDescription { original_width: 17, original_height: 9, block_count: 15 })
    );
    assert_eq!(
        transcoder.image_level_description(0, 2),
        Some(ImageLevelDescription { original_width: 4, original_height: 2, block_count: 1 })
    );
    assert_eq!(
        transcoder.image_level_description(1, 0),
        Some(ImageLevelDescription { original_width: 64, original_height: 64, block_count: 256 })
    );
    assert_eq!(transcoder.image_level_description(0, 3), None);
    assert_eq!(transcoder.image_level_description(1, 1), None);
    assert_eq!(transcoder.image_level_description(2, 0), None);
    assert_eq!(transcoder.image_level_description(u32::MAX, u32::MAX), None);
}

#[test]
fn records_are_passed_through() {
    let bytes = [0u8; 8];
    let transcoder = Transcoder::new(TranscoderType::Basis, &bytes, two_images()).unwrap();
    assert_eq!(transcoder.image_info(0), Some(image(0, &[(17, 9), (8, 4), (4, 2)]).info));
    assert_eq!(transcoder.image_info(1), Some(image(1, &[(64, 64)]).info));
    assert_eq!(transcoder.image_info(2), None);
    assert_eq!(transcoder.image_level_info(0, 1), Some(level(0, 1, 8, 4)));
    assert_eq!(transcoder.image_level_info(1, 0), Some(level(1, 0, 64, 64)));
    assert_eq!(transcoder.image_level_info(1, 1), None);
    assert_eq!(transcoder.image_level_info(2, 0), None);
    assert_eq!(level(0, 1, 8, 4).description(), transcoder.image_level_description(0, 1).unwrap());
}

#[test]
fn formats_and_validation_results() {
    let bytes = [0u8; 8];
    let transcoder = Transcoder::new(TranscoderType::Basis, &bytes, two_images()).unwrap();
    assert_eq!(transcoder.basis_texture_type(), BasisTextureType::TextureType2DArray);
    assert_eq!(transcoder.basis_texture_format(), BasisTextureFormat::UASTC4x4);
    assert!(transcoder.validate_header());
    assert!(transcoder.validate_file_checksums(false));
    assert!(!transcoder.validate_file_checksums(true));

    let mut description = two_images();
    description.header_valid = false;
    description.checksums_valid = false;
    description.full_checksums_valid = true;
    description.texture_format = BasisTextureFormat::ETC1S;
    description.texture_type = BasisTextureType::TextureTypeVolume;
    let transcoder = Transcoder::new(TranscoderType::Basis, &bytes, description).unwrap();
    assert!(!transcoder.validate_header());
    assert!(!transcoder.validate_file_checksums(false));
    assert!(transcoder.validate_file_checksums(true));
    assert_eq!(transcoder.basis_texture_format(), BasisTextureFormat::ETC1S);
    assert_eq!(transcoder.basis_texture_type(), BasisTextureType::TextureTypeVolume);
}

#[test]
fn user_data_is_given_or_missing() {
    let bytes = [0u8; 8];
    let transcoder = Transcoder::new(TranscoderType::Basis, &bytes, two_images()).unwrap();
    assert_eq!(transcoder.user_data(), Ok(UserData { userdata0: 7, userdata1: 11 }));
    let mut description = two_images();
    description.user_data = None;
    let transcoder = Transcoder::new(TranscoderType::Basis, &bytes, description).unwrap();
    assert_eq!(transcoder.user_data(), Err(()));
}

#[test]
fn file_info_is_given_or_missing() {
    let bytes = [0u8; 8];
    let transcoder = Transcoder::new(TranscoderType::Basis, &bytes, two_images()).unwrap();
    assert_eq!(transcoder.file_info(), None);
    let info = FileInfo {
        version: 0x13,
        total_header_size: 77,
        total_selectors: 1,
        selector_codebook_ofs: 2,
        selector_codebook_size: 3,
        total_endpoints: 4,
        endpoint_codebook_ofs: 5,
        endpoint_codebook_size: 6,
        tables_ofs: 7,
        tables_size: 8,
        slices_size: 9,
        tex_type: BasisTextureType::TextureType2D,
        us_per_frame: 10,
        total_images: 2,
        userdata0: 7,
        userdata1: 11,
        tex_format: BasisTextureFormat::UASTC4x4,
        y_flipped: true,
        etc1s: false,
        has_alpha_slices: false,
    };
    let mut description = two_images();
    description.file_info = Some(info);
    let transcoder = Transcoder::new(TranscoderType::Basis, &bytes, description).unwrap();
    assert_eq!(transcoder.file_info(), Some(info));
}

#[test]
fn defaults() {
    assert_eq!(
        ImageLevelDescription::default(),
        ImageLevelDescription { original_width: 0, original_height: 0, block_count: 0 }
    );
    assert!(!ImageLevelDescription::default().has_content());
    assert!(ImageLevelDescription { original_width: 1, original_height: 1, block_count: 1 }
        .has_content());
    assert_eq!(UserData::default(), UserData { userdata0: 0, userdata1: 0 });
}
