use game_engine::constants;
use game_engine::device::Device;
use game_engine::device::Extent3D;
use game_engine::instance::QueueFamilyIndices;
use game_engine::color::pack_channels;
use game_engine::color::pack_unorm4x8;
use game_engine::color::quantize_unorm8;
use game_engine::color::unpack_unorm4x8;
use game_engine::color::ONE;
use game_engine::vulkan_renderer::checkerboard;
use game_engine::vulkan_renderer::VulkanRenderer;
use game_engine::vulkan_renderer::CHECKERBOARD_SIZE;
use game_engine::vulkan_renderer::GREY;

/// The packing as it is written with floats.
fn packed_with_floats(vec: [f32; 4]) -> u32 {
    let r = (vec[0].clamp(0.0, 1.0) * 255.0).round() as u32;
    let g = (vec[1].clamp(0.0, 1.0) * 255.0).round() as u32;
    let b = (vec[2].clamp(0.0, 1.0) * 255.0).round() as u32;
    let a = (vec[3].clamp(0.0, 1.0) * 255.0).round() as u32;
    r | (g << 8) | (b << 16) | (a << 24)
}

fn bits(vec: [f32; 4]) -> [u32; 4] {
    [vec[0].to_bits(), vec[1].to_bits(), vec[2].to_bits(), vec[3].to_bits()]
}

#[test]
fn white_packs_to_all_ones() {
    assert_eq!(pack_unorm4x8(bits([1.0, 1.0, 1.0, 1.0])), 0xFFFF_FFFF);
}

#[test]
fn opaque_black_has_alpha_in_the_top_byte() {
    assert_eq!(pack_unorm4x8(bits([0.0, 0.0, 0.0, 1.0])), 0xFF00_0000);
}

#[test]
fn magenta_packs_red_and_blue() {
    assert_eq!(pack_unorm4x8(bits([1.0, 0.0, 1.0, 1.0])), 0xFFFF_00FF);
}

#[test]
fn each_channel_goes_to_its_own_byte() {
    assert_eq!(pack_unorm4x8(bits([1.0, 0.0, 0.0, 0.0])), 0x0000_00FF);
    assert_eq!(pack_unorm4x8(bits([0.0, 1.0, 0.0, 0.0])), 0x0000_FF00);
    assert_eq!(pack_unorm4x8(bits([0.0, 0.0, 1.0, 0.0])), 0x00FF_0000);
    assert_eq!(pack_unorm4x8(bits([0.0, 0.0, 0.0, 1.0])), 0xFF00_0000);
    assert_eq!(pack_channels([0x12, 0x34, 0x56, 0x78]), 0x7856_3412);
}

#[test]
fn bit_patterns_of_the_constants_are_those_of_the_floats() {
    assert_eq!(ONE, 1.0f32.to_bits());
    assert_eq!(GREY, 0.67f32.to_bits());
    assert_eq!(quantize_unorm8(GREY), 171);
}

#[test]
fn channels_are_held_to_the_unit_range() {
    assert_eq!(quantize_unorm8(2.5f32.to_bits()), 255);
    assert_eq!(quantize_unorm8(f32::INFINITY.to_bits()), 255);
    assert_eq!(quantize_unorm8(f32::MAX.to_bits()), 255);
    assert_eq!(quantize_unorm8((-0.5f32).to_bits()), 0);
    assert_eq!(quantize_unorm8((-0.0f32).to_bits()), 0);
    assert_eq!(quantize_unorm8(f32::NEG_INFINITY.to_bits()), 0);
    assert_eq!(quantize_unorm8(f32::NAN.to_bits()), 0);
    assert_eq!(quantize_unorm8(0x7FC0_0001), 0);
    assert_eq!(quantize_unorm8(0xFFC0_0000), 0);
    assert_eq!(quantize_unorm8(f32::MIN_POSITIVE.to_bits()), 0);
    assert_eq!(quantize_unorm8(1), 0);
}

#[test]
fn channels_round_to_the_nearest_level() {
    assert_eq!(quantize_unorm8(0.5f32.to_bits()), 128);
    assert_eq!(quantize_unorm8(0.2f32.to_bits()), 51);
    assert_eq!(quantize_unorm8(0.25f32.to_bits()), 64);
    assert_eq!(quantize_unorm8(0.001f32.to_bits()), 0);
    assert_eq!(quantize_unorm8(0.002f32.to_bits()), 1);
    assert_eq!(quantize_unorm8(0.999f32.to_bits()), 255);
    assert_eq!(quantize_unorm8(0.99f32.to_bits()), 252);
    assert_eq!(quantize_unorm8((1.0f32 - f32::EPSILON).to_bits()), 255);
}

#[test]
fn levels_agree_with_single_precision_arithmetic_at_the_half_steps() {
    // Around every point where the level changes, bit pattern by bit pattern.
    for level in 0..255u32 {
        let edge = ((level as f32 + 0.5) / 255.0).to_bits();
        for pattern in edge - 64..edge + 64 {
            let float = f32::from_bits(pattern);
            let expected = (float.clamp(0.0, 1.0) * 255.0).round() as u32;
            assert_eq!(quantize_unorm8(pattern) as u32, expected, "pattern {:#x}", pattern);
        }
    }
}

#[test]
fn levels_agree_with_single_precision_arithmetic_across_all_floats() {
    let mut pattern: u32 = 0;
    loop {
        let float = f32::from_bits(pattern);
        let expected = (float.clamp(0.0, 1.0) * 255.0).round() as u32;
        assert_eq!(quantize_unorm8(pattern) as u32, expected, "pattern {:#x}", pattern);
        match pattern.checked_add(40_009) {
            Some(next) => pattern = next,
            None => break,
        }
    }
}

#[test]
fn packing_agrees_with_the_packing_written_with_floats() {
    let samples = [0.0f32, 0.1, 0.2, 0.33, 0.5, 0.67, 0.75, 0.9, 1.0, 1.5, -1.0];
    for r in samples {
        for g in samples {
            let vec = [r, g, 0.67, 1.0 - r.clamp(0.0, 1.0)];
            assert_eq!(pack_unorm4x8(bits(vec)), packed_with_floats(vec));
        }
    }
}

#[test]
fn unpacking_gives_the_packed_channels_back() {
    for pixel in [0u32, 1, 0xFF, 0xFF00, 0x7856_3412, 0xFFFF_00FF, 0xFF00_0000, u32::MAX] {
        assert_eq!(pack_channels(unpack_unorm4x8(pixel)), pixel);
    }
    for channels in [[0u8, 0, 0, 0], [1, 2, 3, 4], [255, 0, 255, 255], [171, 171, 171, 255]] {
        assert_eq!(unpack_unorm4x8(pack_channels(channels)), channels);
    }
}

#[test]
fn checkerboard_cell_is_even_color_where_row_plus_column_is_even() {
    let black = pack_unorm4x8(bits([0.0, 0.0, 0.0, 1.0]));
    let magenta = pack_unorm4x8(bits([1.0, 0.0, 1.0, 1.0]));
    let pixels = checkerboard(16, black, magenta);
    assert_eq!(pixels.len(), 256);
    for i in 0..16 {
        for j in 0..16 {
            let cell = pixels[i * 16 + j];
            assert_eq!(cell == black, (i + j) % 2 == 0);
            assert_eq!(cell == magenta, (i + j) % 2 == 1);
        }
    }
}

#[test]
fn checkerboards_of_other_sizes() {
    assert!(checkerboard(0, 1, 2).is_empty());
    assert_eq!(checkerboard(1, 1, 2), vec![1]);
    assert_eq!(checkerboard(2, 1, 2), vec![1, 2, 2, 1]);
    assert_eq!(checkerboard(3, 7, 9), vec![7, 9, 7, 9, 7, 9, 7, 9, 7]);
}

#[test]
fn default_textures_hold_their_colors() {
    let indices = QueueFamilyIndices { graphics_family: Some(0), presentation_family: Some(0) };
    let device = Device::new(1, &indices, 90, 91).expect("both families are there");
    let textures = VulkanRenderer::init_default_textures(&device);
    assert_eq!(textures.white, 0xFFFF_FFFF);
    assert_eq!(textures.black, 0xFF00_0000);
    assert_eq!(textures.grey, 0xFFAB_ABAB);
    assert_eq!(textures.grey, packed_with_floats([0.67, 0.67, 0.67, 1.0]));
    assert_eq!(textures.error_checkerboard.len(), CHECKERBOARD_SIZE * CHECKERBOARD_SIZE);
    for i in 0..CHECKERBOARD_SIZE {
        for j in 0..CHECKERBOARD_SIZE {
            let expected = if (i + j) % 2 == 0 { 0xFF00_0000 } else { 0xFFFF_00FF };
            assert_eq!(textures.error_checkerboard[i * CHECKERBOARD_SIZE + j], expected);
        }
    }
    let uploads = [
        (&textures.white_upload, 1u32),
        (&textures.black_upload, 1),
        (&textures.grey_upload, 1),
        (&textures.error_checkerboard_upload, 16),
    ];
    for (upload, side) in uploads {
        assert_eq!(upload.image.extent(), Extent3D { width: side, height: side, depth: 1 });
        assert_eq!(upload.image.format(), constants::FORMAT_R8G8B8A8_UNORM);
        assert_eq!(upload.image.mip_levels(), 1);
        assert_eq!(
            upload.image_info.usage,
            constants::IMAGE_USAGE_SAMPLED
                | constants::IMAGE_USAGE_TRANSFER_DST
                | constants::IMAGE_USAGE_TRANSFER_SRC
        );
        assert_eq!(upload.image_info.mip_levels, 1);
        assert_eq!(upload.image_info.extent, Extent3D { width: side, height: side, depth: 1 });
        assert_eq!(upload.staging.size(), (side * side * 4) as u64);
        assert_eq!(upload.staging_info.usage, constants::BUFFER_USAGE_TRANSFER_SRC);
        assert!(upload.staging.cpu_accessible());
    }
}

#[test]
fn default_texture_is_refused_where_its_pixels_do_not_fit() {
    let indices = QueueFamilyIndices { graphics_family: Some(0), presentation_family: Some(0) };
    let device = Device::new(1, &indices, 90, 91).expect("both families are there");
    assert!(VulkanRenderer::default_texture(&device, 32767).is_some());
    assert!(VulkanRenderer::default_texture(&device, 32768).is_none());
    assert!(VulkanRenderer::default_texture(&device, 0).is_some());
}
