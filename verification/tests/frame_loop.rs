use game_engine::allocation::AllocatedBuffer;
use game_engine::allocation::AllocatedImage;
use game_engine::allocation::Allocation;
use game_engine::allocation::Allocator;
use game_engine::allocation::MemoryRequirements;
use game_engine::constants;
use game_engine::descriptor::AllocationPhase;
use game_engine::descriptor::AllocationStep;
use game_engine::descriptor::DescriptorInfo;
use game_engine::device::ClearColorValue;
use game_engine::device::ClearValue;
use game_engine::device::Command;
use game_engine::device::Device;
use game_engine::device::Extent2D;
use game_engine::device::QueueStep;
use game_engine::device::Viewport;
use game_engine::mesh::GPUMeshBuffers;
use game_engine::mesh::GeometricSurface;
use game_engine::mesh::MeshAsset;
use game_engine::allocation::TeardownStep;
use game_engine::instance::QueueFamilyIndices;
use game_engine::pipelines::ComputePipeline;
use game_engine::pipelines::GraphicsPipeline;
use game_engine::vulkan_renderer::FrameData;
use game_engine::vulkan_renderer::FrameHandles;
use game_engine::vulkan_renderer::FramePhase;
use game_engine::vulkan_renderer::FrameTeardown;
use game_engine::vulkan_renderer::GPUSceneData;
use game_engine::vulkan_renderer::RenderResources;
use game_engine::vulkan_renderer::VulkanRenderer;
use game_engine::vulkan_renderer::DRAWN_MESH;
use game_engine::vulkan_renderer::FRAME_TIMEOUT;
use game_engine::vulkan_renderer::GPU_SCENE_DATA_SIZE;
use game_engine::vulkan_renderer::MAX_FRAMES_IN_FLIGHT;
use game_engine::window::LogicalSize;
use game_engine::window::Surface;
use game_engine::window::SurfaceCapabilities;
use game_engine::window::SurfaceFormat;
use game_engine::window::SwapChainSupportDetails;
use game_engine::window::Swapchain;

const DRAW_IMAGE: u64 = 1000;
const DRAW_VIEW: u64 = 1001;
const DEPTH_IMAGE: u64 = 1002;
const DEPTH_VIEW: u64 = 1003;
const GRAPHICS_QUEUE: u64 = 90;
const PRESENT_QUEUE: u64 = 91;
const WORLD: [u32; 16] = [
    0x3F80_0000, 0, 0, 0, 0, 0x4000_0000, 0, 0, 0, 0, 0x3F80_0000, 0, 0x4040_0000, 0, 0, 0x3F80_0000,
];

/// A stand-in for the device that knows which fences guard work that is
/// not done, and hands out fresh handles.
struct SimGpu {
    next_handle: u64,
    busy_fences: Vec<u64>,
    sets_left: Vec<(u64, u32)>,
    pools_created: u32,
}

impl SimGpu {
    fn new() -> SimGpu {
        SimGpu { next_handle: 5000, busy_fences: Vec::new(), sets_left: Vec::new(), pools_created: 0 }
    }

    fn fresh(&mut self) -> u64 {
        self.next_handle += 1;
        self.next_handle
    }

    fn create_pool(&mut self, max_sets: u32) -> u64 {
        let pool = self.fresh();
        self.sets_left.push((pool, max_sets));
        self.pools_created += 1;
        pool
    }

    fn allocate_set(&mut self, pool: u64) -> Result<u64, i32> {
        let entry = self.sets_left.iter_mut().find(|entry| entry.0 == pool).expect("a known pool");
        if entry.1 == 0 {
            return Err(constants::ERROR_OUT_OF_POOL_MEMORY);
        }
        entry.1 -= 1;
        Ok(self.fresh())
    }
}

fn device() -> Device {
    let indices = QueueFamilyIndices { graphics_family: Some(0), presentation_family: Some(0) };
    Device::new(1, &indices, GRAPHICS_QUEUE, PRESENT_QUEUE).expect("both families are there")
}

fn ready_image(device: &Device, created: (AllocatedImage, game_engine::device::ImageCreateInfo), image: u64, view: u64) -> AllocatedImage {
    let (mut target, _) = created;
    let allocator = Allocator::new();
    target.image_created(image);
    let _ = target.allocate(&allocator, MemoryRequirements { size: 64, alignment: 16, memory_type_bits: 1 });
    let _ = target.bind(&allocator, Allocation { memory: image + 10_000, offset: 0, size: 64 });
    let _ = target.create_view(device);
    target.view_created(view);
    target
}

fn swapchain(device: &Device, handle: u64, width: u32, height: u32) -> Swapchain {
    let details = SwapChainSupportDetails {
        capabilities: SurfaceCapabilities {
            min_image_count: 2,
            max_image_count: 8,
            current_extent: Extent2D { width, height },
            min_image_extent: Extent2D { width: 1, height: 1 },
            max_image_extent: Extent2D { width: 4096, height: 4096 },
            current_transform: 1,
        },
        surface_formats: vec![SurfaceFormat { format: 44, color_space: 0 }],
        present_modes: vec![constants::PRESENT_MODE_FIFO],
    };
    let info = Surface::new(3)
        .create_swapchain(&details, device, LogicalSize { width, height })
        .expect("a format is offered");
    Swapchain::new(handle, vec![handle + 1, handle + 2, handle + 3], vec![handle + 4, handle + 5, handle + 6], &info, device)
}

fn ready_buffer(mut buffer: AllocatedBuffer<'static>, handle: u64) -> AllocatedBuffer<'static> {
    let allocator = Allocator::new();
    buffer.buffer_created(handle);
    let _ = buffer.allocate(&allocator, MemoryRequirements { size: 256, alignment: 16, memory_type_bits: 1 });
    let _ = buffer.bind(&allocator, Allocation { memory: handle + 20_000, offset: 0, size: 256 });
    buffer
}

/// A mesh of two surfaces whose buffers have the handles `800 + 10 * index`
/// and the one after it.
fn mesh(device: &Device, index: u64) -> MeshAsset {
    let upload = GPUMeshBuffers::upload_mesh(device, 9, 5).expect("the mesh is small");
    let index_buffer = ready_buffer(upload.index, 800 + 10 * index);
    let vertex_buffer = ready_buffer(upload.vertex, 801 + 10 * index);
    MeshAsset::new(
        format!("mesh {}", index),
        vec![GeometricSurface::new(0, 6), GeometricSurface::new(6, 3)],
        GPUMeshBuffers::new(index_buffer, vertex_buffer, 0xA000 + index),
    )
}

fn frame(device: &Device, gpu: &mut SimGpu, slot: u64) -> FrameData {
    let info = FrameData::create_info(device);
    assert_eq!(info.fence_flags, constants::FENCE_CREATE_SIGNALED);
    assert_eq!(info.descriptor_pool.max_sets, 1000);
    let pool = gpu.create_pool(info.descriptor_pool.max_sets);
    let (mut buffer, buffer_info): (AllocatedBuffer<'static>, _) = FrameData::scene_data_buffer(device);
    assert_eq!(buffer_info.size, GPU_SCENE_DATA_SIZE);
    assert_eq!(buffer_info.usage, constants::BUFFER_USAGE_UNIFORM_BUFFER);
    let allocator = Allocator::new();
    buffer.buffer_created(600 + slot);
    let _ = buffer.allocate(&allocator, MemoryRequirements { size: 256, alignment: 16, memory_type_bits: 1 });
    let _ = buffer.bind(&allocator, Allocation { memory: 9, offset: 256 * slot, size: 256 });
    FrameData::new(
        FrameHandles {
            command_pool: 100 + slot,
            command_buffer: 200 + slot,
            image_available_semaphore: 300 + slot,
            result_presentable_semaphore: 400 + slot,
            in_flight_fence: 500 + slot,
        },
        pool,
        buffer,
    )
}

fn renderer(gpu: &mut SimGpu) -> VulkanRenderer {
    let device = device();
    let (draw, depth) = VulkanRenderer::render_targets(&device, 1800, 1000);
    let draw_image = ready_image(&device, draw, DRAW_IMAGE, DRAW_VIEW);
    let depth_image = ready_image(&device, depth, DEPTH_IMAGE, DEPTH_VIEW);
    let mut frames = Vec::new();
    for slot in 0..MAX_FRAMES_IN_FLIGHT {
        frames.push(frame(&device, gpu, slot as u64));
    }
    let meshes = vec![mesh(&device, 0), mesh(&device, 1), mesh(&device, 2), mesh(&device, 3)];
    let resources = RenderResources {
        draw_image,
        depth_image,
        draw_image_descriptor: 70,
        gradient_pipeline: ComputePipeline::new(71, 72),
        mesh_pipeline: GraphicsPipeline::new(73, 74),
        scene_data_descriptor_layout: 75,
        single_image_descriptor_layout: 76,
        texture_view: 77,
        sampler: 78,
    };
    VulkanRenderer::new(device, swapchain(&device, 2000, 1600, 900), 1800, 1000, frames, resources, meshes)
}

fn allocate(renderer: &mut VulkanRenderer, gpu: &mut SimGpu, layout: u64) -> u64 {
    let mut step = renderer.allocate_descriptor(layout);
    loop {
        step = match step {
            AllocationStep::CreatePool(info) => {
                let pool = gpu.create_pool(info.max_sets);
                renderer.descriptor_pool_created(pool)
            }
            AllocationStep::AllocateSet(request) => {
                assert_eq!(request.set_layout, layout);
                let answer = gpu.allocate_set(request.descriptor_pool);
                renderer.descriptor_allocation_result(answer)
            }
            AllocationStep::Done(set) => return set,
            AllocationStep::Fatal(code) => panic!("allocation failed with {}", code),
        };
    }
}

/// Runs one frame as a caller with a device does, and returns the steps it
/// was told to take.
fn run_frame(renderer: &mut VulkanRenderer, gpu: &mut SimGpu, retire: bool) -> Vec<QueueStep> {
    let mut taken = Vec::new();
    let steps = renderer.draw();
    let steps = if steps.contains(&QueueStep::WaitIdle) {
        taken.extend(steps.iter().copied());
        gpu.busy_fences.clear();
        let size = match steps[1] {
            QueueStep::RecreateSwapchain(size) => size,
            other => panic!("expected the swapchain to be rebuilt, got {:?}", other),
        };
        assert_eq!(renderer.phase(), FramePhase::AwaitingSwapchain);
        let device = device();
        let (steps, replaced) =
            renderer.swapchain_recreated(swapchain(&device, 3000, size.width, size.height));
        assert_eq!(replaced.release().1, 2000);
        steps
    } else {
        steps
    };
    assert_eq!(renderer.phase(), FramePhase::AwaitingFence);
    assert_eq!(steps.len(), 1);
    let fence = match steps[0] {
        QueueStep::WaitForFence { fence, timeout } => {
            assert_eq!(timeout, FRAME_TIMEOUT);
            fence
        }
        other => panic!("expected a wait, got {:?}", other),
    };
    taken.extend(steps.iter().copied());
    // The wait returns when the work that the fence guards is done.
    if retire {
        gpu.busy_fences.retain(|busy| *busy != fence);
    }
    assert!(!gpu.busy_fences.contains(&fence));

    let steps = renderer.fence_signaled();
    assert_eq!(renderer.phase(), FramePhase::AwaitingImage);
    assert_eq!(steps[0], QueueStep::ResetFence(fence));
    let acquire = match steps[steps.len() - 1] {
        QueueStep::AcquireImage(acquire) => acquire,
        other => panic!("expected an image to be asked for, got {:?}", other),
    };
    assert_eq!(acquire.timeout, FRAME_TIMEOUT);
    assert_eq!(acquire.fence, 0);
    for step in &steps[1..steps.len() - 1] {
        match step {
            QueueStep::ResetDescriptorPool(pool) => {
                let entry = gpu.sets_left.iter_mut().find(|entry| entry.0 == *pool).unwrap();
                entry.1 = 1000;
            }
            other => panic!("expected a pool to be reset, got {:?}", other),
        }
    }
    taken.extend(steps.iter().copied());

    let image_index = (renderer.frame_index() % 3) as u32;
    let image = renderer.image_acquired(image_index).expect("the swapchain has three images");
    assert_eq!(renderer.phase(), FramePhase::Recording { image_index });
    let slot = renderer.get_current_frame();
    // The slot that is recorded into has no frame outstanding.
    assert_eq!(renderer.submitted(slot), None);

    let scene_layout = 75;
    let image_layout = 76;
    let scene_set = allocate(renderer, gpu, scene_layout);
    let scene_writes = renderer.scene_data_writes(scene_set);
    assert_eq!(scene_writes.len(), 1);
    assert_eq!(scene_writes[0].dst_set, scene_set);
    assert_eq!(
        scene_writes[0].info,
        DescriptorInfo::Buffer { buffer: 600 + slot as u64, offset: 0, range: GPU_SCENE_DATA_SIZE }
    );
    let image_set = allocate(renderer, gpu, image_layout);
    let texture_writes = renderer.texture_writes(image_set);
    assert_eq!(
        texture_writes[0].info,
        DescriptorInfo::Image {
            sampler: 78,
            image_view: 77,
            image_layout: constants::IMAGE_LAYOUT_SHADER_READ_ONLY_OPTIMAL
        }
    );
    assert_eq!(renderer.frame_descriptors(slot).phase(), AllocationPhase::Idle);

    let frame_number = renderer.frame_index();
    let steps = renderer.submit(image_set, WORLD);
    assert_eq!(renderer.phase(), FramePhase::Idle);
    assert_eq!(renderer.frame_index(), frame_number + 1);
    assert_eq!(renderer.submitted(slot), Some(frame_number));
    for step in steps.iter() {
        match step {
            QueueStep::BeginCommandBuffer { command_buffer, flags } => {
                assert_eq!(*command_buffer, 200 + slot as u64);
                assert_eq!(*flags, constants::COMMAND_BUFFER_USAGE_ONE_TIME_SUBMIT);
                // Nothing that was submitted from this slot is still running.
                assert!(!gpu.busy_fences.contains(&(500 + slot as u64)));
            }
            QueueStep::Submit(info) => {
                assert_eq!(info.fence, 500 + slot as u64);
                assert!(!gpu.busy_fences.contains(&info.fence));
                gpu.busy_fences.push(info.fence);
            }
            QueueStep::Present(info) => {
                assert_eq!(info.image_index, image_index);
                assert_eq!(renderer.swapchain().image(info.image_index), Some(image));
            }
            _ => {}
        }
    }
    taken.extend(steps.iter().copied());
    taken
}

#[test]
fn two_frame_slots_by_default() {
    assert_eq!(MAX_FRAMES_IN_FLIGHT, 2);
    assert_eq!(FRAME_TIMEOUT, 1_000_000_000);
    assert_eq!(FrameData::fence_flags(), constants::FENCE_CREATE_SIGNALED);
    let device = device();
    let requests = VulkanRenderer::frame_requests(&device);
    assert_eq!(requests.len(), 2);
    for request in requests.iter() {
        assert_eq!(request.fence_flags, constants::FENCE_CREATE_SIGNALED);
        assert_eq!(request.command_pool, device.create_command_pool());
        assert_eq!(request.descriptor_pool.max_sets, 1000);
        assert_eq!(request.descriptor_pool.pool_sizes.len(), 4);
    }
}

#[test]
fn frame_takes_its_steps_in_order() {
    let mut gpu = SimGpu::new();
    let mut renderer = renderer(&mut gpu);
    let steps = run_frame(&mut renderer, &mut gpu, true);
    let draw_extent = Extent2D { width: 1600, height: 900 };
    let kinds: Vec<&str> = steps
        .iter()
        .map(|step| match step {
            QueueStep::WaitIdle => "idle",
            QueueStep::RecreateSwapchain(_) => "recreate",
            QueueStep::WaitForFence { .. } => "wait",
            QueueStep::ResetFence(_) => "reset fence",
            QueueStep::ResetDescriptorPool(_) => "reset pool",
            QueueStep::AcquireImage(_) => "acquire",
            QueueStep::ResetCommandBuffer(_) => "reset buffer",
            QueueStep::BeginCommandBuffer { .. } => "begin",
            QueueStep::Record(_) => "record",
            QueueStep::EndCommandBuffer(_) => "end",
            QueueStep::Submit(_) => "submit",
            QueueStep::Present(_) => "present",
        })
        .collect();
    let mut expected = vec!["wait", "reset fence", "reset pool", "acquire", "reset buffer", "begin"];
    expected.extend(std::iter::repeat("record").take(21));
    expected.extend(["end", "submit", "present"]);
    assert_eq!(kinds, expected);

    let commands: Vec<Command> = steps
        .iter()
        .filter_map(|step| match step {
            QueueStep::Record(command) => Some(*command),
            _ => None,
        })
        .collect();
    let transition = |command: &Command| match command {
        Command::PipelineBarrier(barrier) => (barrier.image, barrier.old_layout, barrier.new_layout),
        other => panic!("expected a barrier, got {:?}", other),
    };
    assert_eq!(
        transition(&commands[0]),
        (DRAW_IMAGE, constants::IMAGE_LAYOUT_UNDEFINED, constants::IMAGE_LAYOUT_GENERAL)
    );
    assert_eq!(
        commands[1],
        Command::BindPipeline { bind_point: constants::PIPELINE_BIND_POINT_COMPUTE, pipeline: 71 }
    );
    assert_eq!(
        commands[2],
        Command::BindDescriptorSet {
            bind_point: constants::PIPELINE_BIND_POINT_COMPUTE,
            layout: 72,
            set_index: 0,
            descriptor_set: 70,
        }
    );
    assert_eq!(
        commands[3],
        Command::PushConstants {
            layout: 72,
            stage_flags: constants::SHADER_STAGE_COMPUTE,
            data: [
                1.0f32.to_bits(), 0, 0, 1.0f32.to_bits(),
                0, 0, 1.0f32.to_bits(), 1.0f32.to_bits(),
                0, 0, 0, 0,
                0, 0, 0, 0,
            ],
        }
    );
    assert_eq!(commands[4], Command::Dispatch { x: 100, y: 57, z: 1 });
    assert_eq!(
        transition(&commands[5]),
        (DRAW_IMAGE, constants::IMAGE_LAYOUT_GENERAL, constants::IMAGE_LAYOUT_COLOR_ATTACHMENT_OPTIMAL)
    );
    assert_eq!(
        transition(&commands[6]),
        (DEPTH_IMAGE, constants::IMAGE_LAYOUT_UNDEFINED, constants::IMAGE_LAYOUT_DEPTH_ATTACHMENT_OPTIMAL)
    );
    match commands[6] {
        Command::PipelineBarrier(barrier) => {
            assert_eq!(barrier.subresource_range.aspect_mask, constants::IMAGE_ASPECT_DEPTH)
        }
        _ => unreachable!(),
    }
    match commands[7] {
        Command::BeginRendering(info) => {
            assert_eq!(info.render_area, draw_extent);
            assert_eq!(info.color_attachment.image_view, DRAW_VIEW);
            assert_eq!(info.color_attachment.load_op, constants::ATTACHMENT_LOAD_OP_LOAD);
            assert_eq!(
                info.color_attachment.clear_value,
                ClearValue::Color(ClearColorValue { red: 0, green: 0, blue: 0, alpha: 0 })
            );
            assert_eq!(info.depth_attachment.image_view, DEPTH_VIEW);
            assert_eq!(info.depth_attachment.load_op, constants::ATTACHMENT_LOAD_OP_CLEAR);
            assert_eq!(
                info.depth_attachment.clear_value,
                ClearValue::DepthStencil { depth: 0.0f32.to_bits(), stencil: 0 }
            );
        }
        other => panic!("expected rendering to begin, got {:?}", other),
    }
    assert_eq!(
        commands[8],
        Command::BindPipeline { bind_point: constants::PIPELINE_BIND_POINT_GRAPHICS, pipeline: 73 }
    );
    assert_eq!(
        commands[9],
        Command::SetViewport(Viewport {
            width: 1600,
            height: 900,
            min_depth: 0.0f32.to_bits(),
            max_depth: 1.0f32.to_bits(),
        })
    );
    assert_eq!(commands[10], Command::SetScissor(draw_extent));
    match commands[11] {
        Command::BindDescriptorSet { bind_point, layout, set_index, .. } => {
            assert_eq!(bind_point, constants::PIPELINE_BIND_POINT_GRAPHICS);
            assert_eq!(layout, 74);
            assert_eq!(set_index, 0);
        }
        other => panic!("expected the texture to be bound, got {:?}", other),
    }
    assert_eq!(DRAWN_MESH, 2);
    assert_eq!(
        commands[12],
        Command::PushDrawConstants {
            layout: 74,
            stage_flags: constants::SHADER_STAGE_VERTEX,
            world_matrix: WORLD,
            device_address: 0xA002,
        }
    );
    assert_eq!(
        commands[13],
        Command::BindIndexBuffer { buffer: 820, offset: 0, index_type: constants::INDEX_TYPE_UINT32 }
    );
    assert_eq!(constants::INDEX_TYPE_UINT32, 1);
    assert_eq!(
        commands[14],
        Command::DrawIndexed { index_count: 6, instance_count: 1, first_index: 0, vertex_offset: 0, first_instance: 0 }
    );
    assert_eq!(
        commands[15],
        Command::DrawIndexed { index_count: 3, instance_count: 1, first_index: 6, vertex_offset: 0, first_instance: 0 }
    );
    assert_eq!(commands[16], Command::EndRendering);
    assert_eq!(
        transition(&commands[17]),
        (
            DRAW_IMAGE,
            constants::IMAGE_LAYOUT_COLOR_ATTACHMENT_OPTIMAL,
            constants::IMAGE_LAYOUT_TRANSFER_SRC_OPTIMAL
        )
    );
    assert_eq!(
        transition(&commands[18]),
        (2001, constants::IMAGE_LAYOUT_UNDEFINED, constants::IMAGE_LAYOUT_TRANSFER_DST_OPTIMAL)
    );
    match commands[19] {
        Command::BlitImage(blit) => {
            assert_eq!(blit.src_image, DRAW_IMAGE);
            assert_eq!(blit.dst_image, 2001);
            assert_eq!((blit.src_end.x, blit.src_end.y, blit.src_end.z), (1600, 900, 1));
            assert_eq!((blit.dst_end.x, blit.dst_end.y, blit.dst_end.z), (1600, 900, 1));
            assert_eq!(blit.filter, constants::FILTER_LINEAR);
        }
        other => panic!("expected a blit, got {:?}", other),
    }
    assert_eq!(
        transition(&commands[20]),
        (2001, constants::IMAGE_LAYOUT_TRANSFER_DST_OPTIMAL, constants::IMAGE_LAYOUT_PRESENT_SRC)
    );

    match steps[steps.len() - 2] {
        QueueStep::Submit(info) => {
            assert_eq!(info.queue, GRAPHICS_QUEUE);
            assert_eq!(info.command_buffer, 200);
            assert_eq!(info.fence, 500);
            let wait = info.wait_semaphore.expect("the submission waits for the image");
            assert_eq!(wait.semaphore, 300);
            assert_eq!(wait.stage_mask, constants::PIPELINE_STAGE_COLOR_ATTACHMENT_OUTPUT);
            assert_eq!(wait.value, 1);
            let signal = info.signal_semaphore.expect("the submission signals the result");
            assert_eq!(signal.semaphore, 400);
            assert_eq!(signal.stage_mask, constants::PIPELINE_STAGE_ALL_GRAPHICS);
        }
        other => panic!("expected a submission, got {:?}", other),
    }
    match steps[steps.len() - 1] {
        QueueStep::Present(info) => {
            assert_eq!(info.queue, PRESENT_QUEUE);
            assert_eq!(info.swapchain, 2000);
            assert_eq!(info.wait_semaphore, 400);
            assert_eq!(info.image_index, 0);
        }
        other => panic!("expected a presentation, got {:?}", other),
    }
}

#[test]
fn slot_is_never_recorded_into_while_its_last_frame_is_outstanding() {
    let slots = MAX_FRAMES_IN_FLIGHT;
    {
        let mut gpu = SimGpu::new();
        let mut renderer = renderer(&mut gpu);
        for frame in 0..40usize {
            assert_eq!(renderer.frame_index(), frame);
            assert_eq!(renderer.get_current_frame(), frame % slots);
            run_frame(&mut renderer, &mut gpu, true);
            // What is outstanding now are the last frames of each slot.
            for slot in 0..slots {
                match renderer.submitted(slot) {
                    Some(outstanding) => {
                        assert_eq!(outstanding % slots, slot);
                        assert!(outstanding <= frame);
                        assert!(frame + 1 - outstanding <= slots);
                    }
                    None => assert!(frame < slots),
                }
            }
            // A frame and the frame one round later are never outstanding together.
            let outstanding: Vec<usize> = (0..slots).filter_map(|slot| renderer.submitted(slot)).collect();
            for first in outstanding.iter() {
                assert!(!outstanding.contains(&(first + slots)));
            }
            assert!(gpu.busy_fences.len() <= slots);
        }
    }
}

#[test]
fn pending_resize_is_served_at_the_start_of_the_next_frame() {
    let mut gpu = SimGpu::new();
    let mut renderer = renderer(&mut gpu);
    run_frame(&mut renderer, &mut gpu, true);
    renderer.resize_swapchain(LogicalSize { width: 800, height: 600 });
    renderer.resize_swapchain(LogicalSize { width: 1024, height: 768 });
    assert_eq!(renderer.phase(), FramePhase::Idle);
    let steps = run_frame(&mut renderer, &mut gpu, true);
    assert_eq!(steps[0], QueueStep::WaitIdle);
    assert_eq!(steps[1], QueueStep::RecreateSwapchain(LogicalSize { width: 1024, height: 768 }));
    assert_eq!(steps[2], QueueStep::WaitForFence { fence: 501, timeout: FRAME_TIMEOUT });
    assert_eq!(renderer.draw_extent(), Extent2D { width: 1024, height: 768 });
    let presented = steps.iter().find_map(|step| match step {
        QueueStep::Present(info) => Some(info.swapchain),
        _ => None,
    });
    assert_eq!(presented, Some(3000));
    // The resize is served once.
    let steps = run_frame(&mut renderer, &mut gpu, true);
    assert!(!steps.contains(&QueueStep::WaitIdle));
}

#[test]
fn draw_extent_is_no_larger_than_either_image() {
    let mut gpu = SimGpu::new();
    let mut renderer = renderer(&mut gpu);
    assert_eq!(renderer.draw_extent(), Extent2D { width: 1600, height: 900 });
    renderer.resize_swapchain(LogicalSize { width: 4000, height: 500 });
    run_frame(&mut renderer, &mut gpu, true);
    assert_eq!(renderer.draw_extent(), Extent2D { width: 1800, height: 500 });
}

#[test]
fn image_index_beyond_the_swapchain_is_refused() {
    let mut gpu = SimGpu::new();
    let mut renderer = renderer(&mut gpu);
    let _ = renderer.draw();
    let _ = renderer.fence_signaled();
    assert_eq!(renderer.image_acquired(3), None);
    assert_eq!(renderer.phase(), FramePhase::AwaitingImage);
    assert_eq!(renderer.image_acquired(2), Some(2003));
    assert_eq!(renderer.phase(), FramePhase::Recording { image_index: 2 });
}

#[test]
fn frame_descriptors_grow_and_are_reset_every_frame() {
    let mut gpu = SimGpu::new();
    let mut renderer = renderer(&mut gpu);
    assert_eq!(gpu.pools_created, 2);
    // Leave slot 0 a pool with a single set.
    gpu.sets_left[0].1 = 1;
    let _ = renderer.draw();
    let steps = renderer.fence_signaled();
    assert_eq!(steps.len(), 3);
    let _ = renderer.image_acquired(0);
    gpu.sets_left[0].1 = 1;
    let first = allocate(&mut renderer, &mut gpu, 75);
    let second = allocate(&mut renderer, &mut gpu, 76);
    assert!(first != second);
    assert_eq!(gpu.pools_created, 3);
    assert_eq!(renderer.frame_descriptors(0).full_pools().len(), 1);
    assert_eq!(renderer.frame_descriptors(0).ready_pools().len(), 1);
    assert_eq!(renderer.frame_descriptors(0).sets_per_pool(), 2250);
    assert_eq!(renderer.frame_descriptors(1).ready_pools().len(), 1);
    let _ = renderer.submit(second, WORLD);
    // Slot 1 is untouched by the frame of slot 0.
    run_frame(&mut renderer, &mut gpu, true);
    // Back in slot 0: both pools are reset and ready again.
    let _ = renderer.draw();
    let steps = renderer.fence_signaled();
    let resets = steps.iter().filter(|step| matches!(step, QueueStep::ResetDescriptorPool(_))).count();
    assert_eq!(resets, 2);
    assert_eq!(renderer.frame_descriptors(0).ready_pools().len(), 2);
    assert!(renderer.frame_descriptors(0).full_pools().is_empty());
}

#[test]
fn frame_slot_is_torn_down_in_order() {
    let mut gpu = SimGpu::new();
    let device = device();
    let slot = frame(&device, &mut gpu, 4);
    let pool = slot.frame_descriptors().ready_pools()[0];
    assert_eq!(slot.scene_buffer().buffer(), 604);
    let steps = slot.release();
    assert_eq!(
        steps,
        vec![
            FrameTeardown::DestroyCommandPool(104),
            FrameTeardown::DestroySemaphore(304),
            FrameTeardown::DestroySemaphore(404),
            FrameTeardown::DestroyFence(504),
            FrameTeardown::DestroyDescriptorPool(pool),
            FrameTeardown::Resource(TeardownStep::FreeAllocation(Allocation {
                memory: 9,
                offset: 256 * 4,
                size: 256
            })),
            FrameTeardown::Resource(TeardownStep::DestroyBuffer(604)),
        ]
    );
}

#[test]
fn frame_slot_starts_with_one_ready_pool_and_a_uniform_buffer() {
    let mut gpu = SimGpu::new();
    let device = device();
    let slot = frame(&device, &mut gpu, 1);
    let descriptors = slot.frame_descriptors();
    assert_eq!(descriptors.ready_pools().len(), 1);
    assert!(descriptors.full_pools().is_empty());
    assert_eq!(descriptors.sets_per_pool(), 1500);
    assert_eq!(descriptors.phase(), AllocationPhase::Idle);
    let info = FrameData::create_info(&device);
    assert_eq!(info.command_pool, device.create_command_pool());
    let sizes: Vec<(i32, u32)> =
        info.descriptor_pool.pool_sizes.iter().map(|size| (size.ty, size.descriptor_count)).collect();
    assert_eq!(
        sizes,
        vec![
            (constants::DESCRIPTOR_TYPE_STORAGE_IMAGE, 3000),
            (constants::DESCRIPTOR_TYPE_STORAGE_BUFFER, 3000),
            (constants::DESCRIPTOR_TYPE_UNIFORM_BUFFER, 3000),
            (constants::DESCRIPTOR_TYPE_COMBINED_IMAGE_SAMPLER, 4000),
        ]
    );
    assert!(slot.scene_buffer().cpu_accessible());
    assert_eq!(slot.scene_buffer().size(), 240);
}

#[test]
fn renderer_starts_with_two_slots_and_targets_of_the_window() {
    let mut gpu = SimGpu::new();
    let renderer = renderer(&mut gpu);
    assert_eq!(renderer.frame_index(), 0);
    assert_eq!(renderer.phase(), FramePhase::Idle);
    assert_eq!(renderer.submitted(0), None);
    assert_eq!(renderer.submitted(1), None);
    let extent = game_engine::device::Extent3D { width: 1800, height: 1000, depth: 1 };
    assert_eq!(renderer.resources().draw_image.extent(), extent);
    assert_eq!(renderer.resources().depth_image.extent(), extent);
    assert_eq!(renderer.resources().draw_image.format(), constants::FORMAT_R16G16B16A16_SFLOAT);
    assert_eq!(renderer.resources().depth_image.format(), constants::FORMAT_D32_SFLOAT);
    assert_eq!(renderer.meshes().len(), 4);
    let (_, frames, _, meshes) = renderer.release();
    assert_eq!(frames.len(), MAX_FRAMES_IN_FLIGHT);
    assert_eq!(meshes.len(), 4);
}

#[test]
fn default_scene_is_seen_without_transformation() {
    let scene = GPUSceneData::default();
    let one = 1.0f32.to_bits();
    for matrix in [scene.view, scene.proj, scene.view_proj] {
        for row in 0..4 {
            for column in 0..4 {
                let expected = if row == column { one } else { 0 };
                assert_eq!(matrix[4 * row + column], expected);
            }
        }
    }
    let fifth = 0.2f32.to_bits();
    assert_eq!(
        (scene.ambient_color.x, scene.ambient_color.y, scene.ambient_color.z, scene.ambient_color.w),
        (fifth, fifth, fifth, one)
    );
    assert_eq!(
        (scene.sunlight_dir.x, scene.sunlight_dir.y, scene.sunlight_dir.z, scene.sunlight_dir.w),
        (0, 0, (-1.0f32).to_bits(), 10.0f32.to_bits())
    );
    assert_eq!(
        (scene.sunlight_color.x, scene.sunlight_color.y, scene.sunlight_color.z, scene.sunlight_color.w),
        (one, one, one, one)
    );
    let bytes = scene.as_bytes();
    assert_eq!(bytes.len() as u64, GPU_SCENE_DATA_SIZE);
    let mut expected: Vec<u8> = Vec::new();
    for matrix in [scene.view, scene.proj, scene.view_proj] {
        for word in matrix {
            expected.extend(f32::from_bits(word).to_ne_bytes());
        }
    }
    for float in [0.2f32, 0.2, 0.2, 1.0, 0.0, 0.0, -1.0, 10.0, 1.0, 1.0, 1.0, 1.0] {
        expected.extend(float.to_ne_bytes());
    }
    assert_eq!(bytes, expected);
}
