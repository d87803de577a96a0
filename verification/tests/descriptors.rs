use game_engine::constants;
use game_engine::descriptor::pool_create_info;
use game_engine::descriptor::DescriptorAllocator;
use game_engine::descriptor::DescriptorInfo;
use game_engine::descriptor::DescriptorLayoutBuilder;
use game_engine::descriptor::DescriptorSetAllocateInfo;
use game_engine::descriptor::DescriptorSetLayout;
use game_engine::descriptor::DescriptorSetLayoutBinding;
use game_engine::descriptor::DescriptorWriter;
use game_engine::descriptor::PoolSizeRatio;
use game_engine::descriptor::WriteDescriptorSet;
use game_engine::vulkan_renderer::VulkanRenderer;

#[test]
fn fixed_pool_is_sized_by_its_ratios() {
    let ratios = [
        PoolSizeRatio { descriptor_type: constants::DESCRIPTOR_TYPE_STORAGE_IMAGE, ratio_milli: 1000 },
        PoolSizeRatio { descriptor_type: constants::DESCRIPTOR_TYPE_UNIFORM_BUFFER, ratio_milli: 2500 },
    ];
    let info = pool_create_info(10, &ratios);
    assert_eq!(info.max_sets, 10);
    assert_eq!(info.pool_sizes.len(), 2);
    assert_eq!(info.pool_sizes[0].ty, constants::DESCRIPTOR_TYPE_STORAGE_IMAGE);
    assert_eq!(info.pool_sizes[0].descriptor_count, 10);
    assert_eq!(info.pool_sizes[1].ty, constants::DESCRIPTOR_TYPE_UNIFORM_BUFFER);
    assert_eq!(info.pool_sizes[1].descriptor_count, 25);
    assert!(pool_create_info(10, &[]).pool_sizes.is_empty());
}

#[test]
fn fixed_allocator_without_a_pool_has_nothing_to_give() {
    let mut allocator = DescriptorAllocator::new();
    assert_eq!(allocator.allocate(3), None);
    assert_eq!(allocator.clear_descriptors(), None);
    assert_eq!(allocator.destroy_pool(), None);
}

#[test]
fn fixed_allocator_asks_its_pool_for_one_set() {
    let mut allocator = DescriptorAllocator::new();
    allocator.init_pool(40);
    assert_eq!(
        allocator.allocate(3),
        Some(DescriptorSetAllocateInfo { descriptor_pool: 40, set_layout: 3, descriptor_set_count: 1 })
    );
    assert_eq!(allocator.clear_descriptors(), Some(40));
    assert_eq!(allocator.allocate(4).map(|request| request.descriptor_pool), Some(40));
    assert_eq!(allocator.destroy_pool(), Some(40));
    assert_eq!(allocator.destroy_pool(), None);
    assert_eq!(allocator.allocate(3), None);
}

#[test]
fn layout_builder_keeps_bindings_in_order() {
    let mut builder = DescriptorLayoutBuilder::new();
    builder.add_binding(0, constants::DESCRIPTOR_TYPE_STORAGE_IMAGE, constants::SHADER_STAGE_COMPUTE);
    builder.add_binding(
        3,
        constants::DESCRIPTOR_TYPE_UNIFORM_BUFFER,
        constants::SHADER_STAGE_VERTEX | constants::SHADER_STAGE_FRAGMENT,
    );
    let info = builder.build(5);
    assert_eq!(info.flags, 5);
    assert_eq!(
        info.bindings,
        vec![
            DescriptorSetLayoutBinding {
                binding: 0,
                descriptor_type: constants::DESCRIPTOR_TYPE_STORAGE_IMAGE,
                descriptor_count: 1,
                stage_flags: constants::SHADER_STAGE_COMPUTE,
            },
            DescriptorSetLayoutBinding {
                binding: 3,
                descriptor_type: constants::DESCRIPTOR_TYPE_UNIFORM_BUFFER,
                descriptor_count: 1,
                stage_flags: 0x11,
            },
        ]
    );
    builder.clear();
    assert!(builder.build(0).bindings.is_empty());
    assert_eq!(DescriptorSetLayout::new(9).layout(), 9);
}

#[test]
fn writer_records_writes_and_aims_them_at_a_set() {
    let mut writer = DescriptorWriter::new();
    writer.add_uniform_buffer(0, 50, 240, 16);
    writer.add_storage_image(1, 60);
    writer.add_image(
        2,
        61,
        62,
        constants::IMAGE_LAYOUT_SHADER_READ_ONLY_OPTIMAL,
        constants::DESCRIPTOR_TYPE_COMBINED_IMAGE_SAMPLER,
    );
    writer.add_buffer(-1, 51, 8, 0, constants::DESCRIPTOR_TYPE_STORAGE_BUFFER);
    assert!(writer.writes().iter().all(|write| write.dst_set == 0));
    writer.update_descriptor_set(700);
    assert_eq!(
        writer.writes(),
        &vec![
            WriteDescriptorSet {
                dst_set: 700,
                dst_binding: 0,
                dst_array_element: 0,
                descriptor_count: 1,
                descriptor_type: constants::DESCRIPTOR_TYPE_UNIFORM_BUFFER,
                info: DescriptorInfo::Buffer { buffer: 50, offset: 16, range: 240 },
            },
            WriteDescriptorSet {
                dst_set: 700,
                dst_binding: 1,
                dst_array_element: 0,
                descriptor_count: 1,
                descriptor_type: constants::DESCRIPTOR_TYPE_STORAGE_IMAGE,
                info: DescriptorInfo::Image {
                    sampler: 0,
                    image_view: 60,
                    image_layout: constants::IMAGE_LAYOUT_GENERAL,
                },
            },
            WriteDescriptorSet {
                dst_set: 700,
                dst_binding: 2,
                dst_array_element: 0,
                descriptor_count: 1,
                descriptor_type: constants::DESCRIPTOR_TYPE_COMBINED_IMAGE_SAMPLER,
                info: DescriptorInfo::Image {
                    sampler: 62,
                    image_view: 61,
                    image_layout: constants::IMAGE_LAYOUT_SHADER_READ_ONLY_OPTIMAL,
                },
            },
            WriteDescriptorSet {
                dst_set: 700,
                dst_binding: u32::MAX,
                dst_array_element: 0,
                descriptor_count: 1,
                descriptor_type: constants::DESCRIPTOR_TYPE_STORAGE_BUFFER,
                info: DescriptorInfo::Buffer { buffer: 51, offset: 0, range: 8 },
            },
        ]
    );
    writer.update_descriptor_set(701);
    assert!(writer.writes().iter().all(|write| write.dst_set == 701));
    writer.clear();
    assert!(writer.writes().is_empty());
}

#[test]
fn renderer_descriptors_are_one_pool_and_three_layouts() {
    let setup = VulkanRenderer::init_descriptors();
    assert_eq!(setup.pool.max_sets, 10);
    assert_eq!(setup.pool.pool_sizes.len(), 1);
    assert_eq!(setup.pool.pool_sizes[0].ty, constants::DESCRIPTOR_TYPE_STORAGE_IMAGE);
    assert_eq!(setup.pool.pool_sizes[0].descriptor_count, 10);
    let single = |descriptor_type: i32, stage_flags: u32| {
        vec![DescriptorSetLayoutBinding { binding: 0, descriptor_type, descriptor_count: 1, stage_flags }]
    };
    assert_eq!(
        setup.draw_image_layout.bindings,
        single(constants::DESCRIPTOR_TYPE_STORAGE_IMAGE, constants::SHADER_STAGE_COMPUTE)
    );
    assert_eq!(
        setup.scene_data_layout.bindings,
        single(constants::DESCRIPTOR_TYPE_UNIFORM_BUFFER, 0x11)
    );
    assert_eq!(
        setup.single_image_layout.bindings,
        single(constants::DESCRIPTOR_TYPE_COMBINED_IMAGE_SAMPLER, constants::SHADER_STAGE_FRAGMENT)
    );
    assert_eq!(setup.draw_image_layout.flags, 0);
    let writes = VulkanRenderer::draw_image_writes(80, 81);
    assert_eq!(writes.len(), 1);
    assert_eq!(writes[0].dst_set, 81);
    assert_eq!(writes[0].descriptor_type, constants::DESCRIPTOR_TYPE_STORAGE_IMAGE);
    assert_eq!(
        writes[0].info,
        DescriptorInfo::Image { sampler: 0, image_view: 80, image_layout: constants::IMAGE_LAYOUT_GENERAL }
    );
}
