//! Core logic of a real-time renderer built on a low-level graphics API:
//! resource descriptions, the growable descriptor allocator, and the
//! frame-in-flight protocol, stated over plain values and proved.
//!
//! The library decides and describes; the caller talks to the device. Every
//! object is created from a description that a function here returns, every
//! handle that the device hands out is reported back as a plain number, and
//! where the next step depends on the device's answer, the answer is an
//! argument of the function that names the next step.

pub mod allocation;
pub mod bytes;
pub mod color;
pub mod constants;
pub mod debug;
pub mod descriptor;
pub mod device;
pub mod engine;
pub mod immediate_submit;
pub mod instance;
pub mod mesh;
pub mod physical_device;
pub mod pipelines;
pub mod shader;
pub mod vulkan_renderer;
pub mod window;

pub use allocation::AllocatedBuffer;
pub use allocation::AllocatedImage;
pub use allocation::Allocator;
pub use descriptor::DescriptorAllocator;
pub use descriptor::DescriptorAllocatorGrowable;
pub use descriptor::DescriptorLayoutBuilder;
pub use descriptor::DescriptorSetLayout;
pub use descriptor::DescriptorWriter;
pub use descriptor::PoolSizeRatio;
pub use device::Device;
pub use immediate_submit::ImmediateCommandData;
pub use instance::AppInfo;
pub use instance::EngineInfo;
pub use instance::Instance;
pub use instance::Version;
pub use mesh::GPUDrawPushConstants;
pub use mesh::MeshAsset;
pub use physical_device::PhysicalDeviceSelector;
pub use pipelines::ComputePipeline;
pub use pipelines::GraphicsPipeline;
pub use pipelines::GraphicsPipelineBuilder;
pub use shader::ShaderModule;
pub use vulkan_renderer::VulkanRenderer;
pub use window::Surface;
pub use window::Swapchain;
