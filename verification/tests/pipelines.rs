use game_engine::allocation::AllocatedBuffer;
use game_engine::allocation::Allocation;
use game_engine::allocation::Allocator;
use game_engine::allocation::MemoryRequirements;
use game_engine::allocation::TeardownStep;
use game_engine::device::ClearColorValue;
use game_engine::device::ClearValue;
use game_engine::device::Device;
use game_engine::device::RenderingAttachmentInfo;
use game_engine::device::RenderingInfo;
use game_engine::device::Viewport;
use game_engine::instance::QueueFamilyIndices;
use game_engine::mesh::GPUMeshBuffers;
use game_engine::mesh::GeometricSurface;
use game_engine::mesh::MeshAsset;
use game_engine::pipelines::PushConstants;
use game_engine::constants;
use game_engine::debug::get_required_extensions;
use game_engine::debug::get_required_layers;
use game_engine::debug::vulkan_debug_callback;
use game_engine::debug::DebugMessenger;
use game_engine::debug::LogLevel;
use game_engine::device::Command;
use game_engine::device::Extent2D;
use game_engine::engine::new_events;
use game_engine::engine::window_event;
use game_engine::engine::EngineAction;
use game_engine::engine::Key;
use game_engine::engine::WindowEvent;
use game_engine::engine::WindowSettings;
use game_engine::pipelines::work_groups;
use game_engine::pipelines::BuildError;
use game_engine::pipelines::ComputePipeline;
use game_engine::pipelines::GraphicsPipeline;
use game_engine::pipelines::GraphicsPipelineBuilder;
use game_engine::pipelines::PUSH_CONSTANTS_SIZE;
use game_engine::shader::ShaderModule;
use game_engine::shader::SHADER_ENTRY_POINT;
use game_engine::vulkan_renderer::VulkanRenderer;
use game_engine::vulkan_renderer::GPU_DRAW_PUSH_CONSTANTS_SIZE;
use game_engine::window::LogicalSize;

#[test]
fn work_groups_cover_every_pixel() {
    assert_eq!(work_groups(0), 0);
    assert_eq!(work_groups(1), 1);
    assert_eq!(work_groups(15), 1);
    assert_eq!(work_groups(16), 1);
    assert_eq!(work_groups(17), 2);
    assert_eq!(work_groups(1800), 113);
    assert_eq!(work_groups(1000), 63);
    assert_eq!(work_groups(u32::MAX), 0x1000_0000);
    for pixels in 0..5000u32 {
        assert_eq!(work_groups(pixels), (pixels as f32 / 16.0).ceil() as u32);
    }
}

#[test]
fn compute_pass_binds_pushes_and_dispatches() {
    let pipeline = ComputePipeline::new(5, 6);
    assert_eq!(pipeline.pipeline(), 5);
    assert_eq!(pipeline.layout(), 6);
    let commands = pipeline.execute_compute(&[7], Extent2D { width: 1800, height: 1000 });
    assert_eq!(
        commands,
        vec![
            Command::BindPipeline { bind_point: constants::PIPELINE_BIND_POINT_COMPUTE, pipeline: 5 },
            Command::BindDescriptorSet {
                bind_point: constants::PIPELINE_BIND_POINT_COMPUTE,
                layout: 6,
                set_index: 0,
                descriptor_set: 7,
            },
            Command::PushConstants {
                layout: 6,
                stage_flags: constants::SHADER_STAGE_COMPUTE,
                data: PushConstants::gradient().data,
            },
            Command::Dispatch { x: 113, y: 63, z: 1 },
        ]
    );
    assert_eq!(pipeline.release(), (5, 6));
}

#[test]
fn compute_pipeline_is_described_with_its_shader() {
    let layout = ComputePipeline::layout_info(&[1, 2]);
    assert_eq!(layout.set_layouts, vec![1, 2]);
    assert_eq!(layout.push_constant_range.stage_flags, constants::SHADER_STAGE_COMPUTE);
    assert_eq!(layout.push_constant_range.offset, 0);
    assert_eq!(layout.push_constant_range.size, PUSH_CONSTANTS_SIZE);
    assert_eq!(PUSH_CONSTANTS_SIZE as usize, 16 * std::mem::size_of::<f32>());
    let shader = ShaderModule::new(44);
    assert_eq!(shader.module(), 44);
    let info = ComputePipeline::create_info(9, &shader);
    assert_eq!(info.layout, 9);
    assert_eq!(info.stage.stage, constants::SHADER_STAGE_COMPUTE);
    assert_eq!(info.stage.module, 44);
    assert_eq!(info.stage.entry_point, "main");
    assert_eq!(SHADER_ENTRY_POINT, "main");
}

#[test]
fn bytecode_is_a_whole_number_of_words() {
    assert!(!ShaderModule::is_bytecode_length(&Vec::new()));
    assert!(!ShaderModule::is_bytecode_length(&vec![0; 3]));
    assert!(ShaderModule::is_bytecode_length(&vec![0; 4]));
    assert!(!ShaderModule::is_bytecode_length(&vec![0; 5]));
    assert!(ShaderModule::is_bytecode_length(&vec![0; 1024]));
}

#[test]
fn drawing_keeps_or_clears_the_color_target() {
    let pipeline = GraphicsPipeline::new(5, 6);
    let extent = Extent2D { width: 64, height: 32 };
    let blue = ClearColorValue {
        red: 0.0f32.to_bits(),
        green: 0.25f32.to_bits(),
        blue: 1.0f32.to_bits(),
        alpha: 1.0f32.to_bits(),
    };
    for clear in [None, Some(blue)] {
        let commands = pipeline.begin_drawing(
            10,
            11,
            constants::IMAGE_LAYOUT_COLOR_ATTACHMENT_OPTIMAL,
            constants::IMAGE_LAYOUT_DEPTH_ATTACHMENT_OPTIMAL,
            extent,
            clear,
        );
        assert_eq!(commands.len(), 4);
        let (load_op, clear_value) = match clear {
            Some(color) => (constants::ATTACHMENT_LOAD_OP_CLEAR, ClearValue::Color(color)),
            None => (
                constants::ATTACHMENT_LOAD_OP_LOAD,
                ClearValue::Color(ClearColorValue { red: 0, green: 0, blue: 0, alpha: 0 }),
            ),
        };
        assert_eq!(
            commands[0],
            Command::BeginRendering(RenderingInfo {
                render_area: extent,
                layer_count: 1,
                color_attachment: RenderingAttachmentInfo {
                    image_view: 10,
                    image_layout: constants::IMAGE_LAYOUT_COLOR_ATTACHMENT_OPTIMAL,
                    load_op,
                    store_op: constants::ATTACHMENT_STORE_OP_STORE,
                    clear_value,
                },
                depth_attachment: RenderingAttachmentInfo {
                    image_view: 11,
                    image_layout: constants::IMAGE_LAYOUT_DEPTH_ATTACHMENT_OPTIMAL,
                    load_op: constants::ATTACHMENT_LOAD_OP_CLEAR,
                    store_op: constants::ATTACHMENT_STORE_OP_STORE,
                    clear_value: ClearValue::DepthStencil { depth: 0.0f32.to_bits(), stencil: 0 },
                },
            })
        );
        assert_eq!(
            commands[1],
            Command::BindPipeline { bind_point: constants::PIPELINE_BIND_POINT_GRAPHICS, pipeline: 5 }
        );
        assert_eq!(
            commands[2],
            Command::SetViewport(Viewport {
                width: 64,
                height: 32,
                min_depth: 0.0f32.to_bits(),
                max_depth: 1.0f32.to_bits(),
            })
        );
        assert_eq!(commands[3], Command::SetScissor(extent));
    }
    assert_eq!(pipeline.end_drawing(), Command::EndRendering);
    assert_eq!(pipeline.release(), (5, 6));
}

fn uploaded_buffer(mut buffer: AllocatedBuffer<'static>, handle: u64) -> AllocatedBuffer<'static> {
    let allocator = Allocator::new();
    buffer.buffer_created(handle);
    let _ = buffer.allocate(&allocator, MemoryRequirements { size: 256, alignment: 16, memory_type_bits: 1 });
    let _ = buffer.bind(&allocator, Allocation { memory: 3, offset: 0, size: 256 });
    buffer
}

#[test]
fn mesh_is_drawn_surface_by_surface() {
    let indices = QueueFamilyIndices { graphics_family: Some(0), presentation_family: Some(0) };
    let device = Device::new(1, &indices, 90, 91).expect("both families are there");
    let upload = GPUMeshBuffers::upload_mesh(&device, 12, 8).expect("the mesh is small");
    let buffers = GPUMeshBuffers::new(uploaded_buffer(upload.index, 40), uploaded_buffer(upload.vertex, 41), 0xBEEF);
    let surfaces = vec![GeometricSurface::new(0, 3), GeometricSurface::new(3, 6), GeometricSurface::new(9, 3)];
    let mesh = MeshAsset::new("three".to_string(), surfaces, buffers);
    let mut world = [0u32; 16];
    for (i, word) in world.iter_mut().enumerate() {
        *word = (i as f32 + 0.5).to_bits();
    }
    let pipeline = GraphicsPipeline::new(5, 6);
    let commands = pipeline.draw(Extent2D { width: 64, height: 32 }, &mesh, world);
    let indexed = |index_count: u32, first_index: u32| Command::DrawIndexed {
        index_count,
        instance_count: 1,
        first_index,
        vertex_offset: 0,
        first_instance: 0,
    };
    assert_eq!(
        commands,
        vec![
            Command::PushDrawConstants {
                layout: 6,
                stage_flags: constants::SHADER_STAGE_VERTEX,
                world_matrix: world,
                device_address: 0xBEEF,
            },
            Command::BindIndexBuffer { buffer: 40, offset: 0, index_type: constants::INDEX_TYPE_UINT32 },
            indexed(3, 0),
            indexed(6, 3),
            indexed(3, 9),
        ]
    );
    let other = GPUMeshBuffers::upload_mesh(&device, 0, 0).expect("the mesh is empty");
    let empty = MeshAsset::new(
        "none".to_string(),
        Vec::new(),
        GPUMeshBuffers::new(uploaded_buffer(other.index, 50), uploaded_buffer(other.vertex, 51), 7),
    );
    assert_eq!(pipeline.draw(Extent2D { width: 64, height: 32 }, &empty, world).len(), 2);
    let teardown = mesh.release();
    assert_eq!(
        teardown,
        vec![
            TeardownStep::FreeAllocation(Allocation { memory: 3, offset: 0, size: 256 }),
            TeardownStep::DestroyBuffer(40),
            TeardownStep::FreeAllocation(Allocation { memory: 3, offset: 0, size: 256 }),
            TeardownStep::DestroyBuffer(41),
        ]
    );
}

#[test]
fn builder_without_a_layout_is_refused() {
    let fragment = ShaderModule::new(1);
    let vertex = ShaderModule::new(2);
    let built = GraphicsPipelineBuilder::new().set_shaders(&fragment, &vertex).build_pipeline();
    assert_eq!(built.err(), Some(BuildError::MissingLayout));
    assert_eq!(GraphicsPipelineBuilder::new().build_pipeline().err(), Some(BuildError::MissingLayout));
}

#[test]
fn builder_without_shaders_is_refused() {
    let built = GraphicsPipelineBuilder::new().set_layout(3).build_pipeline();
    assert_eq!(built.err(), Some(BuildError::MissingShaders));
}

#[test]
fn builder_keeps_each_setting() {
    let fragment = ShaderModule::new(1);
    let vertex = ShaderModule::new(2);
    let info = GraphicsPipelineBuilder::new()
        .set_layout(3)
        .set_shaders(&fragment, &vertex)
        .set_input_topology(constants::PRIMITIVE_TOPOLOGY_TRIANGLE_LIST)
        .set_polygon_mode(constants::POLYGON_MODE_FILL)
        .set_cull_mode(2, constants::FRONT_FACE_CLOCKWISE)
        .disable_multisampling()
        .enable_blending_additive()
        .disable_depth_test()
        .set_color_attachment_format(97)
        .set_depth_format(126)
        .build_pipeline()
        .expect("layout and shaders are set");
    assert_eq!(info.layout, 3);
    assert_eq!(info.shader_stages.len(), 2);
    assert_eq!(info.shader_stages[0].stage, constants::SHADER_STAGE_FRAGMENT);
    assert_eq!(info.shader_stages[0].module, 1);
    assert_eq!(info.shader_stages[0].entry_point, "main");
    assert_eq!(info.shader_stages[1].stage, constants::SHADER_STAGE_VERTEX);
    assert_eq!(info.shader_stages[1].module, 2);
    assert_eq!(info.fixed.input_assembly.topology, constants::PRIMITIVE_TOPOLOGY_TRIANGLE_LIST);
    assert!(!info.fixed.input_assembly.primitive_restart_enable);
    assert_eq!(info.fixed.rasterizer.polygon_mode, constants::POLYGON_MODE_FILL);
    assert_eq!(info.fixed.rasterizer.cull_mode, 2);
    assert_eq!(info.fixed.rasterizer.front_face, constants::FRONT_FACE_CLOCKWISE);
    assert_eq!(info.fixed.multisampling.rasterization_samples, constants::SAMPLE_COUNT_1);
    assert!(!info.fixed.multisampling.sample_shading_enable);
    assert!(info.fixed.color_blend_attachment.blend_enable);
    assert_eq!(info.fixed.color_blend_attachment.src_color_blend_factor, constants::BLEND_FACTOR_SRC_ALPHA);
    assert_eq!(info.fixed.color_blend_attachment.dst_color_blend_factor, constants::BLEND_FACTOR_ONE);
    assert_eq!(info.fixed.color_blend_attachment.color_blend_op, constants::BLEND_OP_ADD);
    assert_eq!(info.fixed.color_blend_attachment.src_alpha_blend_factor, constants::BLEND_FACTOR_ONE);
    assert_eq!(info.fixed.color_blend_attachment.dst_alpha_blend_factor, constants::BLEND_FACTOR_ZERO);
    assert_eq!(info.fixed.color_blend_attachment.color_write_mask, 0xF);
    assert!(!info.fixed.depth_stencil.depth_test_enable);
    assert!(!info.fixed.depth_stencil.depth_write_enable);
    assert_eq!(info.fixed.depth_stencil.depth_compare_op, constants::COMPARE_OP_NEVER);
    assert_eq!(info.fixed.rendering.color_attachment_count, 1);
    assert_eq!(info.fixed.rendering.color_attachment_format, 97);
    assert_eq!(info.fixed.rendering.depth_attachment_format, 126);
    assert_eq!(info.viewport_count, 1);
    assert_eq!(info.scissor_count, 1);
    assert!(!info.logic_op_enable);
    assert_eq!(info.logic_op, constants::LOGIC_OP_COPY);
    assert_eq!(info.dynamic_states, vec![constants::DYNAMIC_STATE_VIEWPORT, constants::DYNAMIC_STATE_SCISSOR]);
}

#[test]
fn later_setting_replaces_the_earlier_one() {
    let fragment = ShaderModule::new(1);
    let vertex = ShaderModule::new(2);
    let info = GraphicsPipelineBuilder::new()
        .set_layout(3)
        .set_layout(4)
        .set_shaders(&fragment, &vertex)
        .enable_blending_additive()
        .enable_blending_alphablend()
        .disable_depth_test()
        .enable_depth_test(false, constants::COMPARE_OP_GREATER_OR_EQUAL)
        .build_pipeline()
        .expect("layout and shaders are set");
    assert_eq!(info.layout, 4);
    assert_eq!(
        info.fixed.color_blend_attachment.dst_color_blend_factor,
        constants::BLEND_FACTOR_ONE_MINUS_SRC_ALPHA
    );
    assert!(info.fixed.depth_stencil.depth_test_enable);
    assert!(!info.fixed.depth_stencil.depth_write_enable);
    assert_eq!(info.fixed.depth_stencil.depth_compare_op, constants::COMPARE_OP_GREATER_OR_EQUAL);
    let info = GraphicsPipelineBuilder::new()
        .set_layout(3)
        .set_shaders(&fragment, &vertex)
        .enable_blending_alphablend()
        .disable_blending()
        .build_pipeline()
        .expect("layout and shaders are set");
    assert!(!info.fixed.color_blend_attachment.blend_enable);
    assert_eq!(info.fixed.color_blend_attachment.color_write_mask, 0xF);
    assert_eq!(
        info.fixed.color_blend_attachment.dst_color_blend_factor,
        constants::BLEND_FACTOR_ONE_MINUS_SRC_ALPHA
    );
}

#[test]
fn mesh_pipeline_draws_filled_triangles_with_a_depth_test() {
    let layout = VulkanRenderer::mesh_pipeline_layout(8);
    assert_eq!(layout.set_layouts, vec![8]);
    assert_eq!(layout.push_constant_range.stage_flags, constants::SHADER_STAGE_VERTEX);
    assert_eq!(layout.push_constant_range.size, GPU_DRAW_PUSH_CONSTANTS_SIZE);
    assert_eq!(GPU_DRAW_PUSH_CONSTANTS_SIZE, 72);
    let info = VulkanRenderer::mesh_pipeline(9, &ShaderModule::new(1), &ShaderModule::new(2), 97, 126)
        .expect("layout and shaders are set");
    assert_eq!(info.layout, 9);
    assert_eq!(info.shader_stages.len(), 2);
    assert_eq!(info.fixed.input_assembly.topology, constants::PRIMITIVE_TOPOLOGY_TRIANGLE_LIST);
    assert_eq!(info.fixed.rasterizer.cull_mode, constants::CULL_MODE_NONE);
    assert_eq!(info.fixed.rasterizer.front_face, constants::FRONT_FACE_CLOCKWISE);
    assert!(!info.fixed.color_blend_attachment.blend_enable);
    assert!(info.fixed.depth_stencil.depth_test_enable);
    assert!(info.fixed.depth_stencil.depth_write_enable);
    assert_eq!(info.fixed.depth_stencil.depth_compare_op, constants::COMPARE_OP_GREATER_OR_EQUAL);
    assert_eq!(info.fixed.rendering.color_attachment_format, 97);
    assert_eq!(info.fixed.rendering.depth_attachment_format, 126);
}

#[test]
fn validation_messages_are_logged_by_severity() {
    let record = vulkan_debug_callback(constants::DEBUG_SEVERITY_VERBOSE, constants::DEBUG_TYPE_GENERAL);
    assert_eq!((record.level, record.unknown_severity, record.type_label), (LogLevel::Debug, false, "[General]"));
    let record = vulkan_debug_callback(constants::DEBUG_SEVERITY_INFO, constants::DEBUG_TYPE_VALIDATION);
    assert_eq!((record.level, record.unknown_severity, record.type_label), (LogLevel::Info, false, "[Validation]"));
    let record = vulkan_debug_callback(constants::DEBUG_SEVERITY_WARNING, constants::DEBUG_TYPE_PERFORMANCE);
    assert_eq!((record.level, record.unknown_severity, record.type_label), (LogLevel::Warn, false, "[Performance]"));
    let record = vulkan_debug_callback(constants::DEBUG_SEVERITY_ERROR, 0x8);
    assert_eq!((record.level, record.unknown_severity, record.type_label), (LogLevel::Error, false, "[Unknown]"));
    let record = vulkan_debug_callback(0x1100, constants::DEBUG_TYPE_GENERAL | constants::DEBUG_TYPE_VALIDATION);
    assert_eq!((record.level, record.unknown_severity, record.type_label), (LogLevel::Error, true, "[Unknown]"));
    let record = vulkan_debug_callback(0, 0);
    assert_eq!((record.level, record.unknown_severity, record.type_label), (LogLevel::Error, true, "[Unknown]"));
}

#[test]
fn messenger_passes_on_warnings_and_errors() {
    let info = DebugMessenger::fill_create_info();
    assert_eq!(info.message_severity, 0x1100);
    assert_eq!(info.message_type, 0x7);
    assert_eq!(DebugMessenger::new(4).messenger(), 4);
    assert_eq!(get_required_layers(), vec!["VK_LAYER_KHRONOS_validation".to_string()]);
    assert_eq!(
        get_required_extensions(),
        vec![ash::ext::debug_utils::NAME.to_str().unwrap().to_string()]
    );
}

#[test]
fn window_settings_keep_what_they_are_given() {
    let settings = WindowSettings::new("LexEngine", 1800, 1000);
    assert_eq!(settings.title, "LexEngine");
    assert_eq!(settings.width, 1800);
    assert_eq!(settings.height, 1000);
}

#[test]
fn events_call_for_their_actions() {
    let size = LogicalSize { width: 640, height: 480 };
    assert_eq!(window_event(true, WindowEvent::CloseRequested), EngineAction::Exit);
    assert_eq!(window_event(true, WindowEvent::RedrawRequested), EngineAction::Draw);
    assert_eq!(window_event(true, WindowEvent::Resized(size)), EngineAction::Resize(size));
    assert_eq!(window_event(true, WindowEvent::KeyReleased(Key::Escape)), EngineAction::Exit);
    assert_eq!(window_event(true, WindowEvent::KeyReleased(Key::W)), EngineAction::Nothing);
    assert_eq!(window_event(true, WindowEvent::KeyReleased(Key::Other)), EngineAction::Nothing);
    assert_eq!(window_event(true, WindowEvent::Other), EngineAction::Nothing);
    for event in [
        WindowEvent::CloseRequested,
        WindowEvent::RedrawRequested,
        WindowEvent::Resized(size),
        WindowEvent::KeyReleased(Key::Escape),
        WindowEvent::Other,
    ] {
        assert_eq!(window_event(false, event), EngineAction::Nothing);
    }
    assert!(new_events(true, true));
    assert!(!new_events(true, false));
    assert!(!new_events(false, true));
    assert!(!new_events(false, false));
}
