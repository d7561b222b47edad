//! Which swapchains are admitted for capture.
use ash::vk;
use neuralforge::surface_usage::{
    candidate, chain_is_understood, prepare, requested_usage, usage_to_query, FormatLimits,
    SwapchainRequest,
};

fn request() -> SwapchainRequest {
    SwapchainRequest {
        flags: 0,
        chain: Vec::new(),
        image_format: vk::Format::B8G8R8A8_UNORM.as_raw(),
        width: 1920,
        height: 1080,
        image_array_layers: 1,
        image_usage: vk::ImageUsageFlags::COLOR_ATTACHMENT.as_raw(),
        present_mode: vk::PresentModeKHR::FIFO.as_raw(),
    }
}

fn limits() -> FormatLimits {
    FormatLimits {
        max_width: 16384,
        max_height: 16384,
        max_array_layers: 1,
        sample_counts: vk::SampleCountFlags::TYPE_1.as_raw(),
    }
}

const ALL_USAGE: u32 = 0xff;

#[test]
fn transfer_admission_preserves_application_usage() {
    let original = vk::ImageUsageFlags::COLOR_ATTACHMENT | vk::ImageUsageFlags::SAMPLED;
    let supported = original | vk::ImageUsageFlags::TRANSFER_SRC | vk::ImageUsageFlags::TRANSFER_DST;
    let requested = |supported: vk::ImageUsageFlags| requested_usage(original.as_raw(), supported.as_raw());
    assert_eq!(requested(supported), Some(supported.as_raw()));
    assert_eq!(requested(supported & !vk::ImageUsageFlags::TRANSFER_SRC), None);
    assert_eq!(requested(supported & !vk::ImageUsageFlags::TRANSFER_DST), None);
    assert_eq!(requested(supported & !vk::ImageUsageFlags::SAMPLED), None);
}

#[test]
fn swapchains_that_redefine_their_own_images_are_not_captured() {
    let mut info = request();
    assert!(candidate(&info));
    // A present mode whose images are shared with the presentation engine.
    info.present_mode = vk::PresentModeKHR::SHARED_DEMAND_REFRESH.as_raw();
    assert!(!candidate(&info));
    info.present_mode = vk::PresentModeKHR::FIFO.as_raw();
    // Stereo.
    info.image_array_layers = 2;
    assert!(!candidate(&info));
    info.image_array_layers = 1;
    // Protected images cannot be read back at all.
    info.flags = vk::SwapchainCreateFlagsKHR::PROTECTED.as_raw();
    assert!(!candidate(&info));
    // A mutable format needs the format list that is itself refused below.
    info.flags = vk::SwapchainCreateFlagsKHR::MUTABLE_FORMAT.as_raw();
    assert!(!candidate(&info));
    info.flags = vk::SwapchainCreateFlagsKHR::SPLIT_INSTANCE_BIND_REGIONS.as_raw();
    assert!(!candidate(&info));
    // A bit that no extension known here defines.
    info.flags = 0x4000;
    assert!(candidate(&info));
}

#[test]
fn an_unknown_extension_in_the_chain_no_longer_makes_the_layer_inert() {
    let mut info = request();
    info.chain = vec![1_000_505_007];
    assert!(candidate(&info), "an unknown pNext struct must not disqualify capture");
}

#[test]
fn structures_that_change_what_the_images_are_still_disqualify_the_chain() {
    let mut info = request();
    for s_type in [
        vk::StructureType::IMAGE_FORMAT_LIST_CREATE_INFO,
        vk::StructureType::DEVICE_GROUP_SWAPCHAIN_CREATE_INFO_KHR,
        vk::StructureType::SURFACE_FULL_SCREEN_EXCLUSIVE_INFO_EXT,
    ] {
        info.chain = vec![s_type.as_raw()];
        assert!(!candidate(&info), "{s_type:?} should not be admitted");
    }
}

#[test]
fn the_whole_chain_is_walked_not_just_its_first_link() {
    let mut info = request();
    info.chain = vec![1_000_505_007, vk::StructureType::IMAGE_FORMAT_LIST_CREATE_INFO.as_raw()];
    assert!(!candidate(&info), "a refused struct deeper in the chain was missed");
    assert!(chain_is_understood(&Vec::new()));
}

#[test]
fn every_private_present_mode_is_admitted() {
    let mut info = request();
    for mode in [
        vk::PresentModeKHR::FIFO,
        vk::PresentModeKHR::FIFO_RELAXED,
        vk::PresentModeKHR::IMMEDIATE,
        vk::PresentModeKHR::MAILBOX,
    ] {
        info.present_mode = mode.as_raw();
        assert!(candidate(&info));
    }
}

#[test]
fn an_admitted_request_differs_in_its_usage_alone() {
    let info = request();
    let adjusted = prepare(&info, Some(ALL_USAGE), Some(limits())).unwrap();
    assert_eq!(adjusted.image_usage, 0x10 | 0x1 | 0x2);
    assert_eq!(adjusted.flags, info.flags);
    assert_eq!(adjusted.chain, info.chain);
    assert_eq!(adjusted.image_format, info.image_format);
    assert_eq!((adjusted.width, adjusted.height), (1920, 1080));
    assert_eq!(adjusted.image_array_layers, 1);
    assert_eq!(adjusted.present_mode, info.present_mode);
    assert_eq!(info.image_usage, 0x10);
}

#[test]
fn what_the_driver_refuses_is_created_unmodified() {
    let info = request();
    assert_eq!(usage_to_query(&info, Some(ALL_USAGE)), Some(0x13));
    assert_eq!(usage_to_query(&info, None), None);
    assert_eq!(usage_to_query(&info, Some(0x10)), None);
    assert!(prepare(&info, None, Some(limits())).is_none());
    assert!(prepare(&info, Some(ALL_USAGE), None).is_none());
    assert!(prepare(&info, Some(ALL_USAGE), Some(FormatLimits { max_width: 1919, ..limits() })).is_none());
    assert!(prepare(&info, Some(ALL_USAGE), Some(FormatLimits { max_height: 1079, ..limits() })).is_none());
    assert!(prepare(&info, Some(ALL_USAGE), Some(FormatLimits { max_array_layers: 0, ..limits() })).is_none());
    assert!(prepare(&info, Some(ALL_USAGE), Some(FormatLimits { sample_counts: 2, ..limits() })).is_none());
    let exact = FormatLimits { max_width: 1920, max_height: 1080, ..limits() };
    assert!(prepare(&info, Some(ALL_USAGE), Some(exact)).is_some());
    let stereo = SwapchainRequest { image_array_layers: 2, ..request() };
    assert_eq!(usage_to_query(&stereo, Some(ALL_USAGE)), None);
}
