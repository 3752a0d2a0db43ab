use basis_universal::sizing::is_power_of_two;
use basis_universal::TranscoderTextureFormat;

#[test]
fn block_format_17_by_9_takes_120_bytes() {
    // 4x4 blocks of 8 bytes: ceil(17/4) * ceil(9/4) * 8 = 5 * 3 * 8.
    let format = TranscoderTextureFormat::BC1_RGB;
    assert_eq!(format.block_width(), 4);
    assert_eq!(format.block_height(), 4);
    assert_eq!(format.bytes_per_block_or_pixel(), 8);
    assert_eq!(format.calculate_minimum_output_buffer_bytes(17, 9, 15, None, None), 120);
    assert_eq!(
        format.calculate_minimum_output_buffer_blocks_or_pixels(17, 9, 15, None, None),
        15
    );
    assert_eq!(format.checked_minimum_output_buffer_bytes(17, 9, 15, None, None), Some(120));
}

#[test]
fn sixteen_byte_blocks_double_the_size() {
    let format = TranscoderTextureFormat::BC3_RGBA;
    assert_eq!(format.calculate_minimum_output_buffer_bytes(17, 9, 15, None, None), 240);
}

#[test]
fn default_row_pitch_rounds_the_width_up() {
    let format = TranscoderTextureFormat::ETC1_RGB;
    let expected: [(u32, u32); 8] =
        [(0, 0), (1, 1), (3, 1), (4, 1), (5, 2), (8, 2), (9, 3), (4096, 1024)];
    for (width, pitch) in expected {
        assert_eq!(format.resolve_row_pitch(width, None), pitch, "{}", width);
    }
    assert_eq!(format.resolve_row_pitch(u32::MAX, None), 0x4000_0000);
    assert_eq!(format.resolve_row_count(u32::MAX, None), 0x4000_0000);
}

#[test]
fn fxt1_blocks_are_eight_pixels_wide() {
    let format = TranscoderTextureFormat::FXT1_RGB;
    assert_eq!(format.resolve_row_pitch(17, None), 3);
    assert_eq!(format.resolve_row_count(9, None), 3);
    assert_eq!(format.calculate_minimum_output_buffer_bytes(17, 9, 15, None, None), 3 * 3 * 16);
}

#[test]
fn raw_pixels_take_width_times_height() {
    assert_eq!(
        TranscoderTextureFormat::RGBA32.calculate_minimum_output_buffer_bytes(17, 9, 15, None, None),
        17 * 9 * 4
    );
    for format in [
        TranscoderTextureFormat::RGB565,
        TranscoderTextureFormat::BGR565,
        TranscoderTextureFormat::RGBA4444,
    ] {
        assert_eq!(
            format.calculate_minimum_output_buffer_bytes(17, 9, 15, None, None),
            17 * 9 * 2
        );
        assert_eq!(
            format.calculate_minimum_output_buffer_blocks_or_pixels(17, 9, 15, None, None),
            17 * 9
        );
    }
}

#[test]
fn row_pitch_override_is_used_as_given() {
    let block = TranscoderTextureFormat::BC1_RGB;
    assert_eq!(block.resolve_row_pitch(17, Some(10)), 10);
    assert_eq!(block.calculate_minimum_output_buffer_bytes(17, 9, 15, Some(10), None), 10 * 3 * 8);
    assert_eq!(block.calculate_minimum_output_buffer_bytes(17, 9, 15, Some(2), None), 2 * 3 * 8);
    assert_eq!(block.calculate_minimum_output_buffer_bytes(17, 9, 15, Some(0), None), 0);
    let pixels = TranscoderTextureFormat::RGBA32;
    assert_eq!(pixels.resolve_row_pitch(17, Some(32)), 32);
    assert_eq!(pixels.calculate_minimum_output_buffer_bytes(17, 9, 15, Some(32), None), 32 * 9 * 4);
}

#[test]
fn swizzled_format_ignores_row_pitch_override() {
    for format in [TranscoderTextureFormat::PVRTC1_4_RGB, TranscoderTextureFormat::PVRTC1_4_RGBA] {
        assert_eq!(format.resolve_row_pitch(16, Some(99)), 4);
        assert_eq!(format.resolve_row_pitch(16, Some(0)), 4);
        assert_eq!(
            format.calculate_minimum_output_buffer_bytes(16, 16, 16, Some(99), None),
            4 * 4 * 8
        );
        assert_eq!(
            format.calculate_minimum_output_buffer_bytes(16, 16, 16, None, None),
            4 * 4 * 8
        );
    }
}

#[test]
fn row_count_override_counts_for_raw_pixels_only() {
    let pixels = TranscoderTextureFormat::RGB565;
    assert_eq!(pixels.resolve_row_count(9, Some(20)), 20);
    assert_eq!(pixels.calculate_minimum_output_buffer_bytes(17, 9, 15, None, Some(20)), 17 * 20 * 2);
    assert_eq!(
        pixels.calculate_minimum_output_buffer_bytes(17, 9, 15, Some(32), Some(20)),
        32 * 20 * 2
    );
    let block = TranscoderTextureFormat::BC7_RGBA;
    assert_eq!(block.resolve_row_count(9, Some(20)), 3);
    assert_eq!(block.calculate_minimum_output_buffer_bytes(17, 9, 15, None, Some(20)), 5 * 3 * 16);
}

#[test]
fn source_block_count_does_not_enter() {
    let format = TranscoderTextureFormat::ETC2_RGBA;
    for blocks in [0u32, 1, 15, 1000, u32::MAX] {
        assert_eq!(format.calculate_minimum_output_buffer_bytes(17, 9, blocks, None, None), 240);
    }
}

#[test]
fn size_that_does_not_fit_is_none() {
    let pixels = TranscoderTextureFormat::RGBA32;
    assert_eq!(pixels.checked_minimum_output_buffer_bytes(0x10000, 0x10000, 1, None, None), None);
    assert_eq!(
        pixels.checked_minimum_output_buffer_blocks_or_pixels(0x10000, 0x10000, 1, None, None),
        None
    );
    // The pixels fit, the bytes do not.
    assert_eq!(
        pixels.checked_minimum_output_buffer_blocks_or_pixels(0x8000, 0x8000, 1, None, None),
        Some(0x4000_0000)
    );
    assert_eq!(pixels.checked_minimum_output_buffer_bytes(0x8000, 0x8000, 1, None, None), None);
    assert_eq!(
        pixels.checked_minimum_output_buffer_bytes(1, 1, 1, Some(u32::MAX), Some(u32::MAX)),
        None
    );
    // The largest that fits.
    assert_eq!(
        TranscoderTextureFormat::RGB565.checked_minimum_output_buffer_bytes(
            0x7fff_ffff,
            1,
            1,
            None,
            None
        ),
        Some(0xffff_fffe)
    );
    let block = TranscoderTextureFormat::BC1_RGB;
    assert_eq!(
        block.checked_minimum_output_buffer_bytes(u32::MAX, u32::MAX, 1, None, None),
        None
    );
    assert_eq!(block.checked_minimum_output_buffer_bytes(17, 9, 1, None, None), Some(120));
}

#[test]
fn size_does_not_shrink_as_the_level_grows() {
    let formats = [
        TranscoderTextureFormat::BC1_RGB,
        TranscoderTextureFormat::BC3_RGBA,
        TranscoderTextureFormat::FXT1_RGB,
        TranscoderTextureFormat::PVRTC1_4_RGB,
        TranscoderTextureFormat::RGBA32,
        TranscoderTextureFormat::RGB565,
    ];
    let overrides: [(Option<u32>, Option<u32>); 4] =
        [(None, None), (Some(7), None), (None, Some(5)), (Some(7), Some(5))];
    for format in formats {
        for (pitch, rows) in overrides {
            for width in 0u32..40 {
                for height in 0u32..40 {
                    let here =
                        format.calculate_minimum_output_buffer_bytes(width, height, 0, pitch, rows);
                    let wider = format
                        .calculate_minimum_output_buffer_bytes(width + 1, height, 0, pitch, rows);
                    let higher = format
                        .calculate_minimum_output_buffer_bytes(width, height + 1, 0, pitch, rows);
                    assert!(here <= wider, "{:?} {} {}", format, width, height);
                    assert!(here <= higher, "{:?} {} {}", format, width, height);
                }
            }
        }
    }
}

#[test]
fn powers_of_two() {
    for exponent in 0..32 {
        assert!(is_power_of_two(1u32 << exponent));
    }
    for value in [0u32, 3, 5, 6, 7, 9, 12, 17, 100, 0xffff, 0x8000_0001, u32::MAX] {
        assert!(!is_power_of_two(value), "{}", value);
    }
}
