//! The constants are Vulkan's own.
use ash::vk;
use neuralforge::vulkan;

#[test]
fn constants_are_vulkans() {
    assert_eq!(vulkan::SUCCESS, vk::Result::SUCCESS.as_raw());
    assert_eq!(vulkan::ERROR_INITIALIZATION_FAILED, vk::Result::ERROR_INITIALIZATION_FAILED.as_raw());
    assert_eq!(vulkan::ERROR_DEVICE_LOST, vk::Result::ERROR_DEVICE_LOST.as_raw());
    assert_eq!(vulkan::QUEUE_FAMILY_IGNORED, vk::QUEUE_FAMILY_IGNORED);
    assert_eq!(vulkan::USAGE_TRANSFER_SRC, vk::ImageUsageFlags::TRANSFER_SRC.as_raw());
    assert_eq!(vulkan::USAGE_TRANSFER_DST, vk::ImageUsageFlags::TRANSFER_DST.as_raw());
    assert_eq!(vulkan::SAMPLE_COUNT_1, vk::SampleCountFlags::TYPE_1.as_raw());
    assert_eq!(vulkan::MEMORY_HOST_VISIBLE, vk::MemoryPropertyFlags::HOST_VISIBLE.as_raw());
    assert_eq!(vulkan::MEMORY_HOST_COHERENT, vk::MemoryPropertyFlags::HOST_COHERENT.as_raw());
    assert_eq!(vulkan::ACCESS_NONE, vk::AccessFlags::empty().as_raw());
    assert_eq!(vulkan::ACCESS_TRANSFER_READ, vk::AccessFlags::TRANSFER_READ.as_raw());
    assert_eq!(vulkan::ACCESS_TRANSFER_WRITE, vk::AccessFlags::TRANSFER_WRITE.as_raw());
    assert_eq!(vulkan::STAGE_TRANSFER, vk::PipelineStageFlags::TRANSFER.as_raw());
    assert_eq!(vulkan::STAGE_ALL_COMMANDS, vk::PipelineStageFlags::ALL_COMMANDS.as_raw());
    assert_eq!(vulkan::ASPECT_COLOR, vk::ImageAspectFlags::COLOR.as_raw());
    assert_eq!(neuralforge::layer::API_VERSION_1_1, vk::API_VERSION_1_1);
}

#[test]
fn swapchain_constants_are_vulkans() {
    let flags = vk::SwapchainCreateFlagsKHR::SPLIT_INSTANCE_BIND_REGIONS;
    assert_eq!(vulkan::SWAPCHAIN_SPLIT_INSTANCE_BIND_REGIONS, flags.as_raw());
    assert_eq!(vulkan::SWAPCHAIN_PROTECTED, vk::SwapchainCreateFlagsKHR::PROTECTED.as_raw());
    assert_eq!(vulkan::SWAPCHAIN_MUTABLE_FORMAT, vk::SwapchainCreateFlagsKHR::MUTABLE_FORMAT.as_raw());
    assert_eq!(vulkan::PRESENT_MODE_IMMEDIATE, vk::PresentModeKHR::IMMEDIATE.as_raw());
    assert_eq!(vulkan::PRESENT_MODE_MAILBOX, vk::PresentModeKHR::MAILBOX.as_raw());
    assert_eq!(vulkan::PRESENT_MODE_FIFO, vk::PresentModeKHR::FIFO.as_raw());
    assert_eq!(vulkan::PRESENT_MODE_FIFO_RELAXED, vk::PresentModeKHR::FIFO_RELAXED.as_raw());
}

#[test]
fn layouts_and_structure_types_are_vulkans() {
    assert_eq!(vulkan::LAYOUT_GENERAL, vk::ImageLayout::GENERAL.as_raw());
    assert_eq!(vulkan::LAYOUT_TRANSFER_SRC, vk::ImageLayout::TRANSFER_SRC_OPTIMAL.as_raw());
    assert_eq!(vulkan::LAYOUT_TRANSFER_DST, vk::ImageLayout::TRANSFER_DST_OPTIMAL.as_raw());
    assert_eq!(vulkan::LAYOUT_PRESENT_SRC, vk::ImageLayout::PRESENT_SRC_KHR.as_raw());
    assert_eq!(
        vulkan::TYPE_LOADER_DEVICE_CREATE_INFO,
        vk::StructureType::LOADER_DEVICE_CREATE_INFO.as_raw()
    );
    assert_eq!(
        vulkan::TYPE_DEVICE_GROUP_SWAPCHAIN_CREATE_INFO,
        vk::StructureType::DEVICE_GROUP_SWAPCHAIN_CREATE_INFO_KHR.as_raw()
    );
    assert_eq!(
        vulkan::TYPE_IMAGE_FORMAT_LIST_CREATE_INFO,
        vk::StructureType::IMAGE_FORMAT_LIST_CREATE_INFO.as_raw()
    );
    assert_eq!(
        vulkan::TYPE_SURFACE_FULL_SCREEN_EXCLUSIVE_INFO,
        vk::StructureType::SURFACE_FULL_SCREEN_EXCLUSIVE_INFO_EXT.as_raw()
    );
}
