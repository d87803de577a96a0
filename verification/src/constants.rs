//! Codes and flag bits of the graphics API, as the numbers it is handed.

use vstd::prelude::*;

verus! {

pub const FORMAT_UNDEFINED: i32 = 0;

pub const FORMAT_B8G8R8_SRGB: i32 = 36;

pub const FORMAT_R8G8B8A8_UNORM: i32 = 37;

pub const FORMAT_R16G16B16A16_SFLOAT: i32 = 97;

pub const FORMAT_D32_SFLOAT: i32 = 126;

pub const COLOR_SPACE_SRGB_NONLINEAR: i32 = 0;

pub const PRESENT_MODE_MAILBOX: i32 = 1;

pub const PRESENT_MODE_FIFO: i32 = 2;

pub const IMAGE_LAYOUT_UNDEFINED: i32 = 0;

pub const IMAGE_LAYOUT_GENERAL: i32 = 1;

pub const IMAGE_LAYOUT_COLOR_ATTACHMENT_OPTIMAL: i32 = 2;

pub const IMAGE_LAYOUT_SHADER_READ_ONLY_OPTIMAL: i32 = 5;

pub const IMAGE_LAYOUT_TRANSFER_SRC_OPTIMAL: i32 = 6;

pub const IMAGE_LAYOUT_TRANSFER_DST_OPTIMAL: i32 = 7;

pub const IMAGE_LAYOUT_DEPTH_ATTACHMENT_OPTIMAL: i32 = 1_000_241_000;

pub const IMAGE_LAYOUT_PRESENT_SRC: i32 = 1_000_001_002;

pub const IMAGE_USAGE_TRANSFER_SRC: u32 = 0x1;

pub const IMAGE_USAGE_TRANSFER_DST: u32 = 0x2;

pub const IMAGE_USAGE_SAMPLED: u32 = 0x4;

pub const IMAGE_USAGE_STORAGE: u32 = 0x8;

pub const IMAGE_USAGE_COLOR_ATTACHMENT: u32 = 0x10;

pub const IMAGE_USAGE_DEPTH_STENCIL_ATTACHMENT: u32 = 0x20;

pub const IMAGE_ASPECT_COLOR: u32 = 0x1;

pub const IMAGE_ASPECT_DEPTH: u32 = 0x2;

pub const IMAGE_TYPE_2D: i32 = 1;

pub const IMAGE_VIEW_TYPE_2D: i32 = 1;

pub const IMAGE_TILING_OPTIMAL: i32 = 0;

pub const SAMPLE_COUNT_1: u32 = 0x1;

pub const COMPONENT_SWIZZLE_IDENTITY: i32 = 0;

pub const BUFFER_USAGE_TRANSFER_SRC: u32 = 0x1;

pub const BUFFER_USAGE_TRANSFER_DST: u32 = 0x2;

pub const BUFFER_USAGE_UNIFORM_BUFFER: u32 = 0x10;

pub const BUFFER_USAGE_STORAGE_BUFFER: u32 = 0x20;

pub const BUFFER_USAGE_INDEX_BUFFER: u32 = 0x40;

pub const BUFFER_USAGE_SHADER_DEVICE_ADDRESS: u32 = 0x2_0000;

pub const PIPELINE_STAGE_COLOR_ATTACHMENT_OUTPUT: u64 = 0x400;

pub const PIPELINE_STAGE_ALL_GRAPHICS: u64 = 0x8000;

pub const PIPELINE_STAGE_ALL_COMMANDS: u64 = 0x1_0000;

pub const ACCESS_MEMORY_READ: u64 = 0x8000;

pub const ACCESS_MEMORY_WRITE: u64 = 0x1_0000;

pub const SHADER_STAGE_VERTEX: u32 = 0x1;

pub const SHADER_STAGE_FRAGMENT: u32 = 0x10;

pub const SHADER_STAGE_COMPUTE: u32 = 0x20;

pub const COMMAND_BUFFER_USAGE_ONE_TIME_SUBMIT: u32 = 0x1;

pub const COMMAND_POOL_CREATE_RESET_COMMAND_BUFFER: u32 = 0x2;

pub const COMMAND_BUFFER_LEVEL_PRIMARY: i32 = 0;

pub const FENCE_CREATE_SIGNALED: u32 = 0x1;

pub const SHARING_MODE_EXCLUSIVE: i32 = 0;

pub const SHARING_MODE_CONCURRENT: i32 = 1;

pub const COMPOSITE_ALPHA_OPAQUE: u32 = 0x1;

pub const ATTACHMENT_LOAD_OP_LOAD: i32 = 0;

pub const ATTACHMENT_LOAD_OP_CLEAR: i32 = 1;

pub const ATTACHMENT_STORE_OP_STORE: i32 = 0;

/// Indices of thirty-two bits.
pub const INDEX_TYPE_UINT32: i32 = 1;

pub const FILTER_NEAREST: i32 = 0;

pub const FILTER_LINEAR: i32 = 1;

pub const PIPELINE_BIND_POINT_GRAPHICS: i32 = 0;

pub const PIPELINE_BIND_POINT_COMPUTE: i32 = 1;

/// Stands for every mip level from the base level on.
pub const REMAINING_MIP_LEVELS: u32 = 0xFFFF_FFFF;

/// Stands for every array layer from the base layer on.
pub const REMAINING_ARRAY_LAYERS: u32 = 0xFFFF_FFFF;

pub const DESCRIPTOR_TYPE_COMBINED_IMAGE_SAMPLER: i32 = 1;

pub const DESCRIPTOR_TYPE_STORAGE_IMAGE: i32 = 3;

pub const DESCRIPTOR_TYPE_UNIFORM_BUFFER: i32 = 6;

pub const DESCRIPTOR_TYPE_STORAGE_BUFFER: i32 = 7;

/// Result codes with which the device reports that a descriptor pool has no
/// room left.
pub const ERROR_FRAGMENTED_POOL: i32 = -12;

pub const ERROR_OUT_OF_POOL_MEMORY: i32 = -1_000_069_000;

pub const PHYSICAL_DEVICE_TYPE_INTEGRATED_GPU: i32 = 1;

pub const PHYSICAL_DEVICE_TYPE_DISCRETE_GPU: i32 = 2;

pub const PHYSICAL_DEVICE_TYPE_CPU: i32 = 4;

/// The queue capability bit that marks a family as taking graphics work.
pub const QUEUE_GRAPHICS: u32 = 0x1;

pub const DEBUG_SEVERITY_VERBOSE: u32 = 0x1;

pub const DEBUG_SEVERITY_INFO: u32 = 0x10;

pub const DEBUG_SEVERITY_WARNING: u32 = 0x100;

pub const DEBUG_SEVERITY_ERROR: u32 = 0x1000;

pub const DEBUG_TYPE_GENERAL: u32 = 0x1;

pub const DEBUG_TYPE_VALIDATION: u32 = 0x2;

pub const DEBUG_TYPE_PERFORMANCE: u32 = 0x4;

pub const PRIMITIVE_TOPOLOGY_TRIANGLE_LIST: i32 = 3;

pub const POLYGON_MODE_FILL: i32 = 0;

pub const CULL_MODE_NONE: u32 = 0;

pub const FRONT_FACE_CLOCKWISE: i32 = 1;

pub const COMPARE_OP_NEVER: i32 = 0;

pub const COMPARE_OP_GREATER_OR_EQUAL: i32 = 6;

pub const BLEND_FACTOR_ZERO: i32 = 0;

pub const BLEND_FACTOR_ONE: i32 = 1;

pub const BLEND_FACTOR_SRC_ALPHA: i32 = 6;

pub const BLEND_FACTOR_ONE_MINUS_SRC_ALPHA: i32 = 7;

pub const BLEND_OP_ADD: i32 = 0;

pub const COLOR_COMPONENT_RGBA: u32 = 0xF;

pub const LOGIC_OP_COPY: i32 = 3;

pub const DYNAMIC_STATE_VIEWPORT: i32 = 0;

pub const DYNAMIC_STATE_SCISSOR: i32 = 1;

} // verus!
