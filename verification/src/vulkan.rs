//! The Vulkan vocabulary the layer decides over, as plain values: a handle is its raw
//! `u64`, a flag set its raw `u32` bits, an enumerant its raw `i32`. The set operations on
//! flags and the reading of a `VkResult` are `ash`'s own; each is reached through one
//! trusted function below.
use ash::vk;
use vstd::prelude::*;

verus! {

/// The null handle.
pub const NULL_HANDLE: u64 = 0;

/// `VK_SUCCESS`.
pub const SUCCESS: i32 = 0;

/// `VK_ERROR_INITIALIZATION_FAILED`.
pub const ERROR_INITIALIZATION_FAILED: i32 = -3;

/// `VK_ERROR_DEVICE_LOST`.
pub const ERROR_DEVICE_LOST: i32 = -4;

/// `VK_QUEUE_FAMILY_IGNORED`: a barrier that transfers no ownership.
pub const QUEUE_FAMILY_IGNORED: u32 = 0xffff_ffff;

/// `VK_IMAGE_USAGE_TRANSFER_SRC_BIT`.
pub const USAGE_TRANSFER_SRC: u32 = 0x1;

/// `VK_IMAGE_USAGE_TRANSFER_DST_BIT`.
pub const USAGE_TRANSFER_DST: u32 = 0x2;

/// `VK_SWAPCHAIN_CREATE_SPLIT_INSTANCE_BIND_REGIONS_BIT_KHR`.
pub const SWAPCHAIN_SPLIT_INSTANCE_BIND_REGIONS: u32 = 0x1;

/// `VK_SWAPCHAIN_CREATE_PROTECTED_BIT_KHR`.
pub const SWAPCHAIN_PROTECTED: u32 = 0x2;

/// `VK_SWAPCHAIN_CREATE_MUTABLE_FORMAT_BIT_KHR`.
pub const SWAPCHAIN_MUTABLE_FORMAT: u32 = 0x4;

/// `VK_SAMPLE_COUNT_1_BIT`.
pub const SAMPLE_COUNT_1: u32 = 0x1;

/// `VK_MEMORY_PROPERTY_HOST_VISIBLE_BIT`.
pub const MEMORY_HOST_VISIBLE: u32 = 0x2;

/// `VK_MEMORY_PROPERTY_HOST_COHERENT_BIT`.
pub const MEMORY_HOST_COHERENT: u32 = 0x4;

/// `VK_PRESENT_MODE_IMMEDIATE_KHR`.
pub const PRESENT_MODE_IMMEDIATE: i32 = 0;

/// `VK_PRESENT_MODE_MAILBOX_KHR`.
pub const PRESENT_MODE_MAILBOX: i32 = 1;

/// `VK_PRESENT_MODE_FIFO_KHR`.
pub const PRESENT_MODE_FIFO: i32 = 2;

/// `VK_PRESENT_MODE_FIFO_RELAXED_KHR`.
pub const PRESENT_MODE_FIFO_RELAXED: i32 = 3;

/// `VK_STRUCTURE_TYPE_LOADER_DEVICE_CREATE_INFO`.
pub const TYPE_LOADER_DEVICE_CREATE_INFO: i32 = 48;

/// `VK_STRUCTURE_TYPE_DEVICE_GROUP_SWAPCHAIN_CREATE_INFO_KHR`.
pub const TYPE_DEVICE_GROUP_SWAPCHAIN_CREATE_INFO: i32 = 1_000_060_012;

/// `VK_STRUCTURE_TYPE_IMAGE_FORMAT_LIST_CREATE_INFO`.
pub const TYPE_IMAGE_FORMAT_LIST_CREATE_INFO: i32 = 1_000_147_000;

/// `VK_STRUCTURE_TYPE_SURFACE_FULL_SCREEN_EXCLUSIVE_INFO_EXT`.
pub const TYPE_SURFACE_FULL_SCREEN_EXCLUSIVE_INFO: i32 = 1_000_255_000;

/// `VK_IMAGE_LAYOUT_GENERAL`.
pub const LAYOUT_GENERAL: i32 = 1;

/// `VK_IMAGE_LAYOUT_TRANSFER_SRC_OPTIMAL`.
pub const LAYOUT_TRANSFER_SRC: i32 = 6;

/// `VK_IMAGE_LAYOUT_TRANSFER_DST_OPTIMAL`.
pub const LAYOUT_TRANSFER_DST: i32 = 7;

/// `VK_IMAGE_LAYOUT_PRESENT_SRC_KHR`.
pub const LAYOUT_PRESENT_SRC: i32 = 1_000_001_002;

/// No access at all.
pub const ACCESS_NONE: u32 = 0;

/// `VK_ACCESS_TRANSFER_READ_BIT`.
pub const ACCESS_TRANSFER_READ: u32 = 0x800;

/// `VK_ACCESS_TRANSFER_WRITE_BIT`.
pub const ACCESS_TRANSFER_WRITE: u32 = 0x1000;

/// `VK_PIPELINE_STAGE_TRANSFER_BIT`.
pub const STAGE_TRANSFER: u32 = 0x1000;

/// `VK_PIPELINE_STAGE_ALL_COMMANDS_BIT`.
pub const STAGE_ALL_COMMANDS: u32 = 0x1_0000;

/// `VK_IMAGE_ASPECT_COLOR_BIT`.
pub const ASPECT_COLOR: u32 = 0x1;

/// `VK_COMMAND_POOL_CREATE_RESET_COMMAND_BUFFER_BIT`.
pub const POOL_RESET_COMMAND_BUFFER: u32 = 0x2;

/// `VK_COMMAND_BUFFER_LEVEL_PRIMARY`.
pub const COMMAND_BUFFER_PRIMARY: i32 = 0;

/// `VK_FENCE_CREATE_SIGNALED_BIT`.
pub const FENCE_SIGNALED: u32 = 0x1;

/// `VK_BUFFER_USAGE_TRANSFER_SRC_BIT`.
pub const BUFFER_TRANSFER_SRC: u32 = 0x1;

/// `VK_BUFFER_USAGE_TRANSFER_DST_BIT`.
pub const BUFFER_TRANSFER_DST: u32 = 0x2;

/// `VK_SHARING_MODE_EXCLUSIVE`.
pub const SHARING_EXCLUSIVE: i32 = 0;

/// `VK_EXTERNAL_MEMORY_HANDLE_TYPE_HOST_ALLOCATION_BIT_EXT`.
pub const HANDLE_HOST_ALLOCATION: u32 = 0x80;

/// `VK_WHOLE_SIZE`.
pub const WHOLE_SIZE: u64 = 0xffff_ffff_ffff_ffff;

/// Every bit of `wanted` is set in `set`.
pub open spec fn has_all(set: u32, wanted: u32) -> bool {
    set & wanted == wanted
}

/// Some bit of `probe` is set in `set`.
pub open spec fn has_any(set: u32, probe: u32) -> bool {
    set & probe != 0
}

/// `ash::vk::ImageUsageFlags` `|`: the bits of either operand.
#[verifier::external_body]
pub(crate) fn usage_union(a: u32, b: u32) -> (r: u32)
    ensures
        r == a | b,
{
    (vk::ImageUsageFlags::from_raw(a) | vk::ImageUsageFlags::from_raw(b)).as_raw()
}

/// `ash::vk::ImageUsageFlags::contains`: whether `wanted` is a subset of `set`.
#[verifier::external_body]
pub(crate) fn usage_contains(set: u32, wanted: u32) -> (r: bool)
    ensures
        r == has_all(set, wanted),
{
    vk::ImageUsageFlags::from_raw(set).contains(vk::ImageUsageFlags::from_raw(wanted))
}

/// `ash::vk::SwapchainCreateFlagsKHR::intersects`: whether the two share a bit.
#[verifier::external_body]
pub(crate) fn swapchain_flags_intersect(set: u32, probe: u32) -> (r: bool)
    ensures
        r == has_any(set, probe),
{
    vk::SwapchainCreateFlagsKHR::from_raw(set).intersects(vk::SwapchainCreateFlagsKHR::from_raw(probe))
}

/// `ash::vk::MemoryPropertyFlags::contains`: whether `wanted` is a subset of `set`.
#[verifier::external_body]
pub(crate) fn memory_flags_contain(set: u32, wanted: u32) -> (r: bool)
    ensures
        r == has_all(set, wanted),
{
    vk::MemoryPropertyFlags::from_raw(set).contains(vk::MemoryPropertyFlags::from_raw(wanted))
}

/// `ash::vk::SampleCountFlags::contains`: whether `wanted` is a subset of `set`.
#[verifier::external_body]
pub(crate) fn sample_counts_contain(set: u32, wanted: u32) -> (r: bool)
    ensures
        r == has_all(set, wanted),
{
    vk::SampleCountFlags::from_raw(set).contains(vk::SampleCountFlags::from_raw(wanted))
}

/// `ash::vk::Result::result`: `VK_SUCCESS` is `Ok`, and every other code, the positive
/// ones too, is an error that carries the code itself.
#[verifier::external_body]
pub(crate) fn vk_result(code: i32) -> (r: Result<(), i32>)
    ensures
        r == (if code == SUCCESS { Ok::<(), i32>(()) } else { Err::<(), i32>(code) }),
{
    vk::Result::from_raw(code).result().map_err(vk::Result::as_raw)
}

} // verus!
