use ash::vk;
use game_engine::constants;

#[test]
fn formats_and_color_spaces_are_the_devices_codes() {
    assert_eq!(constants::FORMAT_UNDEFINED, vk::Format::UNDEFINED.as_raw());
    assert_eq!(constants::FORMAT_B8G8R8_SRGB, vk::Format::B8G8R8_SRGB.as_raw());
    assert_eq!(constants::FORMAT_R8G8B8A8_UNORM, vk::Format::R8G8B8A8_UNORM.as_raw());
    assert_eq!(constants::FORMAT_R16G16B16A16_SFLOAT, vk::Format::R16G16B16A16_SFLOAT.as_raw());
    assert_eq!(constants::FORMAT_D32_SFLOAT, vk::Format::D32_SFLOAT.as_raw());
    assert_eq!(constants::COLOR_SPACE_SRGB_NONLINEAR, vk::ColorSpaceKHR::SRGB_NONLINEAR.as_raw());
    assert_eq!(constants::PRESENT_MODE_MAILBOX, vk::PresentModeKHR::MAILBOX.as_raw());
    assert_eq!(constants::PRESENT_MODE_FIFO, vk::PresentModeKHR::FIFO.as_raw());
}

#[test]
fn image_layouts_are_the_devices_codes() {
    assert_eq!(constants::IMAGE_LAYOUT_UNDEFINED, vk::ImageLayout::UNDEFINED.as_raw());
    assert_eq!(constants::IMAGE_LAYOUT_GENERAL, vk::ImageLayout::GENERAL.as_raw());
    assert_eq!(
        constants::IMAGE_LAYOUT_COLOR_ATTACHMENT_OPTIMAL,
        vk::ImageLayout::COLOR_ATTACHMENT_OPTIMAL.as_raw()
    );
    assert_eq!(
        constants::IMAGE_LAYOUT_SHADER_READ_ONLY_OPTIMAL,
        vk::ImageLayout::SHADER_READ_ONLY_OPTIMAL.as_raw()
    );
    assert_eq!(
        constants::IMAGE_LAYOUT_TRANSFER_SRC_OPTIMAL,
        vk::ImageLayout::TRANSFER_SRC_OPTIMAL.as_raw()
    );
    assert_eq!(
        constants::IMAGE_LAYOUT_TRANSFER_DST_OPTIMAL,
        vk::ImageLayout::TRANSFER_DST_OPTIMAL.as_raw()
    );
    assert_eq!(
        constants::IMAGE_LAYOUT_DEPTH_ATTACHMENT_OPTIMAL,
        vk::ImageLayout::DEPTH_ATTACHMENT_OPTIMAL.as_raw()
    );
    assert_eq!(constants::IMAGE_LAYOUT_PRESENT_SRC, vk::ImageLayout::PRESENT_SRC_KHR.as_raw());
}

#[test]
fn image_and_buffer_flags_are_the_devices_bits() {
    assert_eq!(constants::IMAGE_USAGE_TRANSFER_SRC, vk::ImageUsageFlags::TRANSFER_SRC.as_raw());
    assert_eq!(constants::IMAGE_USAGE_TRANSFER_DST, vk::ImageUsageFlags::TRANSFER_DST.as_raw());
    assert_eq!(constants::IMAGE_USAGE_SAMPLED, vk::ImageUsageFlags::SAMPLED.as_raw());
    assert_eq!(constants::IMAGE_USAGE_STORAGE, vk::ImageUsageFlags::STORAGE.as_raw());
    assert_eq!(
        constants::IMAGE_USAGE_COLOR_ATTACHMENT,
        vk::ImageUsageFlags::COLOR_ATTACHMENT.as_raw()
    );
    assert_eq!(
        constants::IMAGE_USAGE_DEPTH_STENCIL_ATTACHMENT,
        vk::ImageUsageFlags::DEPTH_STENCIL_ATTACHMENT.as_raw()
    );
    assert_eq!(constants::IMAGE_ASPECT_COLOR, vk::ImageAspectFlags::COLOR.as_raw());
    assert_eq!(constants::IMAGE_ASPECT_DEPTH, vk::ImageAspectFlags::DEPTH.as_raw());
    assert_eq!(constants::IMAGE_TYPE_2D, vk::ImageType::TYPE_2D.as_raw());
    assert_eq!(constants::IMAGE_VIEW_TYPE_2D, vk::ImageViewType::TYPE_2D.as_raw());
    assert_eq!(constants::IMAGE_TILING_OPTIMAL, vk::ImageTiling::OPTIMAL.as_raw());
    assert_eq!(constants::SAMPLE_COUNT_1, vk::SampleCountFlags::TYPE_1.as_raw());
    assert_eq!(constants::COMPONENT_SWIZZLE_IDENTITY, vk::ComponentSwizzle::IDENTITY.as_raw());
    assert_eq!(constants::BUFFER_USAGE_TRANSFER_SRC, vk::BufferUsageFlags::TRANSFER_SRC.as_raw());
    assert_eq!(constants::BUFFER_USAGE_TRANSFER_DST, vk::BufferUsageFlags::TRANSFER_DST.as_raw());
    assert_eq!(
        constants::BUFFER_USAGE_UNIFORM_BUFFER,
        vk::BufferUsageFlags::UNIFORM_BUFFER.as_raw()
    );
    assert_eq!(
        constants::BUFFER_USAGE_STORAGE_BUFFER,
        vk::BufferUsageFlags::STORAGE_BUFFER.as_raw()
    );
    assert_eq!(constants::BUFFER_USAGE_INDEX_BUFFER, vk::BufferUsageFlags::INDEX_BUFFER.as_raw());
    assert_eq!(
        constants::BUFFER_USAGE_SHADER_DEVICE_ADDRESS,
        vk::BufferUsageFlags::SHADER_DEVICE_ADDRESS.as_raw()
    );
    assert_eq!(constants::REMAINING_MIP_LEVELS, vk::REMAINING_MIP_LEVELS);
    assert_eq!(constants::REMAINING_ARRAY_LAYERS, vk::REMAINING_ARRAY_LAYERS);
}

#[test]
fn synchronization_flags_are_the_devices_bits() {
    assert_eq!(
        constants::PIPELINE_STAGE_COLOR_ATTACHMENT_OUTPUT,
        vk::PipelineStageFlags2::COLOR_ATTACHMENT_OUTPUT.as_raw()
    );
    assert_eq!(
        constants::PIPELINE_STAGE_ALL_GRAPHICS,
        vk::PipelineStageFlags2::ALL_GRAPHICS.as_raw()
    );
    assert_eq!(
        constants::PIPELINE_STAGE_ALL_COMMANDS,
        vk::PipelineStageFlags2::ALL_COMMANDS.as_raw()
    );
    assert_eq!(constants::ACCESS_MEMORY_READ, vk::AccessFlags2::MEMORY_READ.as_raw());
    assert_eq!(constants::ACCESS_MEMORY_WRITE, vk::AccessFlags2::MEMORY_WRITE.as_raw());
    assert_eq!(constants::FENCE_CREATE_SIGNALED, vk::FenceCreateFlags::SIGNALED.as_raw());
    assert_eq!(
        constants::COMMAND_BUFFER_USAGE_ONE_TIME_SUBMIT,
        vk::CommandBufferUsageFlags::ONE_TIME_SUBMIT.as_raw()
    );
    assert_eq!(
        constants::COMMAND_POOL_CREATE_RESET_COMMAND_BUFFER,
        vk::CommandPoolCreateFlags::RESET_COMMAND_BUFFER.as_raw()
    );
    assert_eq!(constants::COMMAND_BUFFER_LEVEL_PRIMARY, vk::CommandBufferLevel::PRIMARY.as_raw());
    assert_eq!(constants::QUEUE_GRAPHICS, vk::QueueFlags::GRAPHICS.as_raw());
}

#[test]
fn pipeline_codes_are_the_devices_codes() {
    assert_eq!(constants::SHADER_STAGE_VERTEX, vk::ShaderStageFlags::VERTEX.as_raw());
    assert_eq!(constants::SHADER_STAGE_FRAGMENT, vk::ShaderStageFlags::FRAGMENT.as_raw());
    assert_eq!(constants::SHADER_STAGE_COMPUTE, vk::ShaderStageFlags::COMPUTE.as_raw());
    assert_eq!(constants::PIPELINE_BIND_POINT_GRAPHICS, vk::PipelineBindPoint::GRAPHICS.as_raw());
    assert_eq!(constants::PIPELINE_BIND_POINT_COMPUTE, vk::PipelineBindPoint::COMPUTE.as_raw());
    assert_eq!(constants::ATTACHMENT_LOAD_OP_LOAD, vk::AttachmentLoadOp::LOAD.as_raw());
    assert_eq!(constants::ATTACHMENT_LOAD_OP_CLEAR, vk::AttachmentLoadOp::CLEAR.as_raw());
    assert_eq!(constants::ATTACHMENT_STORE_OP_STORE, vk::AttachmentStoreOp::STORE.as_raw());
    assert_eq!(constants::FILTER_NEAREST, vk::Filter::NEAREST.as_raw());
    assert_eq!(constants::FILTER_LINEAR, vk::Filter::LINEAR.as_raw());
    assert_eq!(
        constants::PRIMITIVE_TOPOLOGY_TRIANGLE_LIST,
        vk::PrimitiveTopology::TRIANGLE_LIST.as_raw()
    );
    assert_eq!(constants::POLYGON_MODE_FILL, vk::PolygonMode::FILL.as_raw());
    assert_eq!(constants::CULL_MODE_NONE, vk::CullModeFlags::NONE.as_raw());
    assert_eq!(constants::FRONT_FACE_CLOCKWISE, vk::FrontFace::CLOCKWISE.as_raw());
    assert_eq!(constants::COMPARE_OP_NEVER, vk::CompareOp::NEVER.as_raw());
    assert_eq!(constants::COMPARE_OP_GREATER_OR_EQUAL, vk::CompareOp::GREATER_OR_EQUAL.as_raw());
    assert_eq!(constants::BLEND_FACTOR_ZERO, vk::BlendFactor::ZERO.as_raw());
    assert_eq!(constants::BLEND_FACTOR_ONE, vk::BlendFactor::ONE.as_raw());
    assert_eq!(constants::BLEND_FACTOR_SRC_ALPHA, vk::BlendFactor::SRC_ALPHA.as_raw());
    assert_eq!(
        constants::BLEND_FACTOR_ONE_MINUS_SRC_ALPHA,
        vk::BlendFactor::ONE_MINUS_SRC_ALPHA.as_raw()
    );
    assert_eq!(constants::BLEND_OP_ADD, vk::BlendOp::ADD.as_raw());
    assert_eq!(constants::COLOR_COMPONENT_RGBA, vk::ColorComponentFlags::RGBA.as_raw());
    assert_eq!(constants::LOGIC_OP_COPY, vk::LogicOp::COPY.as_raw());
    assert_eq!(constants::DYNAMIC_STATE_VIEWPORT, vk::DynamicState::VIEWPORT.as_raw());
    assert_eq!(constants::DYNAMIC_STATE_SCISSOR, vk::DynamicState::SCISSOR.as_raw());
}

#[test]
fn swapchain_codes_are_the_devices_codes() {
    assert_eq!(constants::SHARING_MODE_EXCLUSIVE, vk::SharingMode::EXCLUSIVE.as_raw());
    assert_eq!(constants::SHARING_MODE_CONCURRENT, vk::SharingMode::CONCURRENT.as_raw());
    assert_eq!(constants::COMPOSITE_ALPHA_OPAQUE, vk::CompositeAlphaFlagsKHR::OPAQUE.as_raw());
}

#[test]
fn device_types_and_debug_bits_are_the_devices_codes() {
    assert_eq!(
        constants::PHYSICAL_DEVICE_TYPE_INTEGRATED_GPU,
        vk::PhysicalDeviceType::INTEGRATED_GPU.as_raw()
    );
    assert_eq!(
        constants::PHYSICAL_DEVICE_TYPE_DISCRETE_GPU,
        vk::PhysicalDeviceType::DISCRETE_GPU.as_raw()
    );
    assert_eq!(constants::PHYSICAL_DEVICE_TYPE_CPU, vk::PhysicalDeviceType::CPU.as_raw());
    assert_eq!(
        constants::DEBUG_SEVERITY_VERBOSE,
        vk::DebugUtilsMessageSeverityFlagsEXT::VERBOSE.as_raw()
    );
    assert_eq!(constants::DEBUG_SEVERITY_INFO, vk::DebugUtilsMessageSeverityFlagsEXT::INFO.as_raw());
    assert_eq!(
        constants::DEBUG_SEVERITY_WARNING,
        vk::DebugUtilsMessageSeverityFlagsEXT::WARNING.as_raw()
    );
    assert_eq!(
        constants::DEBUG_SEVERITY_ERROR,
        vk::DebugUtilsMessageSeverityFlagsEXT::ERROR.as_raw()
    );
    assert_eq!(constants::DEBUG_TYPE_GENERAL, vk::DebugUtilsMessageTypeFlagsEXT::GENERAL.as_raw());
    assert_eq!(
        constants::DEBUG_TYPE_VALIDATION,
        vk::DebugUtilsMessageTypeFlagsEXT::VALIDATION.as_raw()
    );
    assert_eq!(
        constants::DEBUG_TYPE_PERFORMANCE,
        vk::DebugUtilsMessageTypeFlagsEXT::PERFORMANCE.as_raw()
    );
}
