//! The hooks on one device.
use neuralforge::capture_buffer::CaptureBuffer;
use neuralforge::device::{
    fetch_swapchain_images, hooked_commands, present_result, swapchain_entry, wait_semaphores,
    Admission, LayerResult, NeuralForgeDeviceInfo, NextCommands, PresentReply, PresentStep,
    PresentTarget, VulkanCommand,
};
use neuralforge::pipeline::{CapturePool, DirectCapture, PipelineSlot};
use neuralforge::primary::{claim_primary, release_device, release_primary, Claim, Primary};
use neuralforge::staging::CaptureResources;
use neuralforge::state::LayoutChange;
use neuralforge::surface_usage::{FormatLimits, SwapchainRequest};
use neuralforge::vulkan::{LAYOUT_GENERAL, LAYOUT_PRESENT_SRC};

const DEVICE: u64 = 1;
const QUEUE: u64 = 2;

const ALL: NextCommands = NextCommands {
    create_swapchain_khr: true,
    destroy_swapchain_khr: true,
    queue_present_khr: true,
    get_swapchain_images_khr: true,
    get_device_queue: true,
    get_device_queue2: true,
};

fn device() -> NeuralForgeDeviceInfo {
    NeuralForgeDeviceInfo::new(DEVICE, true, true, ALL, false)
}

/// Records a swapchain that was created as asked for, or enlarged.
fn create(info: &mut NeuralForgeDeviceInfo, swapchain: u64, enlarged: bool, images: Vec<u64>) -> bool {
    let adjusted = if enlarged { Some(request()) } else { None };
    info.swapchain_created(0, swapchain, &request(), &adjusted, 0, images).unwrap()
}

fn claim(swapchain: u64, width: u32, height: u32) -> Claim {
    Claim { device: DEVICE, swapchain, width, height }
}

#[test]
fn the_largest_swapchain_gets_the_channel() {
    let mut primary = None;
    assert!(claim_primary(&mut primary, &claim(10, 100, 100)));
    assert!(!claim_primary(&mut primary, &claim(11, 100, 100)));
    assert!(claim_primary(&mut primary, &claim(10, 1, 1)));
    assert!(claim_primary(&mut primary, &claim(11, 101, 100)));
    assert_eq!(primary, Some(Primary { device: DEVICE, swapchain: 11, area: 10_100 }));
    assert!(!claim_primary(&mut primary, &claim(10, 100, 100)));
    release_primary(&mut primary, DEVICE, 10);
    assert!(primary.is_some());
    release_primary(&mut primary, DEVICE, 11);
    assert_eq!(primary, None);
    assert!(claim_primary(&mut primary, &claim(10, u32::MAX, u32::MAX)));
    release_device(&mut primary, 9);
    assert!(primary.is_some());
    release_device(&mut primary, DEVICE);
    assert_eq!(primary, None);
}

fn request() -> SwapchainRequest {
    SwapchainRequest {
        flags: 0,
        chain: Vec::new(),
        image_format: 44,
        width: 1920,
        height: 1080,
        image_array_layers: 1,
        image_usage: 0x10,
        present_mode: 2,
    }
}

const ADMISSION: Admission = Admission {
    layer_enabled: true,
    owner: true,
    supported_format: true,
    plausible_size: true,
    max_width: 3840,
    max_height: 2160,
};

const LIMITS: FormatLimits =
    FormatLimits { max_width: 4096, max_height: 4096, max_array_layers: 1, sample_counts: 1 };

fn usage(info: &NeuralForgeDeviceInfo, admission: Admission) -> Option<u32> {
    match info.create_swapchain_khr(&request(), &admission, Some(0xff), Some(LIMITS)) {
        LayerResult::Handled(adjusted) => adjusted.map(|request| request.image_usage),
        LayerResult::Unhandled => panic!("the command exists"),
    }
}

#[test]
fn a_swapchain_is_enlarged_only_where_everything_allows_it() {
    let info = device();
    assert_eq!(usage(&info, ADMISSION), Some(0x13));
    assert_eq!(usage(&info, Admission { layer_enabled: false, ..ADMISSION }), None);
    assert_eq!(usage(&info, Admission { owner: false, ..ADMISSION }), None);
    assert_eq!(usage(&info, Admission { supported_format: false, ..ADMISSION }), None);
    assert_eq!(usage(&info, Admission { plausible_size: false, ..ADMISSION }), None);
    assert_eq!(usage(&info, Admission { max_width: 1919, ..ADMISSION }), None);
    assert_eq!(usage(&info, Admission { max_height: 1079, ..ADMISSION }), None);
    assert_eq!(usage(&NeuralForgeDeviceInfo::new(DEVICE, false, true, ALL, false), ADMISSION), None);
    assert_eq!(usage(&NeuralForgeDeviceInfo::new(DEVICE, true, false, ALL, false), ADMISSION), None);
    let none = NextCommands { create_swapchain_khr: false, ..ALL };
    let bare = NeuralForgeDeviceInfo::new(DEVICE, true, true, none, false);
    assert!(matches!(
        bare.create_swapchain_khr(&request(), &ADMISSION, Some(0xff), Some(LIMITS)),
        LayerResult::Unhandled
    ));
}

#[test]
fn created_swapchains_are_recorded() {
    let mut info = device();
    let enlarged = Some(SwapchainRequest { image_usage: 0x13, ..request() });
    assert_eq!(info.swapchain_created(-3, 10, &request(), &enlarged, 2, vec![20]), Err(-3));
    assert!(info.state.swapchains.is_empty());
    assert_eq!(info.swapchain_created(0, 10, &request(), &enlarged, 2, vec![21, 20]), Ok(true));
    assert_eq!(info.swapchain_created(0, 11, &request(), &None, 0, vec![30]), Ok(false));
    let kept = &info.state.swapchains[&10];
    assert_eq!((kept.format, kept.width, kept.height, kept.hdr_kind), (44, 1920, 1080, 2));
    assert!(!kept.pass_through);
    assert_eq!(kept.images, vec![21, 20]);
    assert!(info.state.swapchains[&11].pass_through);
    let mut bare = NeuralForgeDeviceInfo::new(DEVICE, false, true, ALL, false);
    assert_eq!(bare.swapchain_created(0, 10, &request(), &enlarged, 0, Vec::new()), Ok(false));
    let entry = swapchain_entry(&request(), false, 1, vec![7, 8]);
    assert_eq!((entry.format, entry.width, entry.height), (44, 1920, 1080));
    assert_eq!((entry.hdr_kind, entry.pass_through, entry.images), (1, true, vec![7, 8]));
    assert_eq!(fetch_swapchain_images(0, 0, vec![20, 21]), vec![20, 21]);
    assert!(fetch_swapchain_images(-1, 0, vec![20]).is_empty());
    assert!(fetch_swapchain_images(0, 5, vec![20]).is_empty());
}

fn present(info: &NeuralForgeDeviceInfo, swapchains: Vec<u64>, indices: Vec<u32>, primary: &mut Option<Primary>) -> Option<PresentTarget> {
    match info.queue_present_khr(true, QUEUE, &swapchains, &indices, primary) {
        LayerResult::Handled(PresentStep::PollHotkey(target)) => Some(target),
        LayerResult::Handled(PresentStep::Forward(None)) => None,
        other => panic!("unexpected {other:?}"),
    }
}

#[test]
fn the_first_swapchain_that_can_be_captured_is() {
    let mut info = device();
    info.get_device_queue(3, Some(QUEUE));
    create(&mut info, 10, false, vec![20]);
    create(&mut info, 11, true, vec![30, 31]);
    let mut primary = None;
    // Unknown ones and pass-through ones are skipped.
    let target = present(&info, vec![99, 10, 11], vec![0, 0, 1], &mut primary).unwrap();
    let expected = PresentTarget {
        swapchain: 11,
        image: 31,
        capture_image: 31,
        capture_layout: LAYOUT_PRESENT_SRC,
        width: 1920,
        height: 1080,
        format: 44,
        queue_family: 3,
    };
    assert_eq!(target, expected);
    assert_eq!(primary.unwrap().swapchain, 11);
    // An image index out of range ends the search.
    assert_eq!(present(&info, vec![11, 11], vec![2, 0], &mut primary), None);
    // So does a swapchain that does not get the channel.
    create(&mut info, 12, true, vec![40]);
    assert_eq!(present(&info, vec![12, 11], vec![0, 0], &mut primary), None);
}

#[test]
fn a_queue_that_was_never_seen_is_not_captured_on() {
    let mut info = device();
    create(&mut info, 11, true, vec![30]);
    let mut primary = None;
    assert_eq!(present(&info, vec![11], vec![0], &mut primary), None);
    assert!(primary.is_some());
    info.get_device_queue2(5, Some(QUEUE));
    assert_eq!(present(&info, vec![11], vec![0], &mut primary).unwrap().queue_family, 5);
    assert!(matches!(info.get_device_queue(0, None), LayerResult::Unhandled));
    assert!(matches!(info.get_device_queue(0, Some(8)), LayerResult::Handled(8)));
    assert_eq!(info.state.queue_families[&8], 0);
}

#[test]
fn a_pass_through_swapchain_is_captured_at_its_source() {
    let mut info = device();
    info.get_device_queue(3, Some(QUEUE));
    create(&mut info, 10, false, vec![20]);
    assert!(matches!(info.cmd_blit_image(50, 6, 20), LayerResult::Unhandled));
    let mut primary = None;
    // Not in the general layout yet.
    assert_eq!(present(&info, vec![10], vec![0], &mut primary), None);
    assert_eq!(primary, None);
    let change = vec![LayoutChange { image: 50, new_layout: LAYOUT_GENERAL }];
    assert!(matches!(info.cmd_pipeline_barrier(&change), LayerResult::Unhandled));
    let target = present(&info, vec![10], vec![0], &mut primary).unwrap();
    assert_eq!((target.image, target.capture_image, target.capture_layout), (20, 50, LAYOUT_GENERAL));
    // The game destroys its render target.
    assert!(matches!(info.destroy_image(50), LayerResult::Unhandled));
    assert_eq!(present(&info, vec![10], vec![0], &mut primary), None);
    // A copy into an admitted swapchain is captured in the source's own layout.
    create(&mut info, 11, true, vec![30]);
    assert!(matches!(info.cmd_copy_image(51, 6, 30), LayerResult::Unhandled));
    let back = vec![LayoutChange { image: 51, new_layout: 7 }];
    assert!(matches!(info.cmd_pipeline_barrier2(&back), LayerResult::Unhandled));
    primary = None;
    let target = present(&info, vec![11], vec![0], &mut primary).unwrap();
    assert_eq!((target.capture_image, target.capture_layout), (51, 7));
}

#[test]
fn a_disabled_layer_forwards_untouched() {
    let mut info = device();
    info.get_device_queue(3, Some(QUEUE));
    create(&mut info, 11, true, vec![30]);
    let mut primary = None;
    let step = info.queue_present_khr(false, QUEUE, &vec![11], &vec![0], &mut primary);
    assert!(matches!(step, LayerResult::Handled(PresentStep::Forward(None))));
    assert_eq!(primary, None);
    let none = NextCommands { queue_present_khr: false, ..ALL };
    let bare = NeuralForgeDeviceInfo::new(DEVICE, true, true, none, false);
    let step = bare.queue_present_khr(true, QUEUE, &vec![11], &vec![0], &mut primary);
    assert!(matches!(step, LayerResult::Unhandled));
}

#[test]
fn a_present_is_captured_only_with_a_model_and_an_instance() {
    let target = PresentTarget {
        swapchain: 1,
        image: 2,
        capture_image: 2,
        capture_layout: 3,
        width: 4,
        height: 5,
        format: 6,
        queue_family: 7,
    };
    let asked = PresentStep::PollHotkey(target).advance(true, PresentReply::Performed);
    assert_eq!(asked, PresentStep::AskModel(target));
    assert_eq!(asked.advance(true, PresentReply::Flag(true)), PresentStep::Forward(None));
    assert_eq!(asked.advance(false, PresentReply::Flag(false)), PresentStep::Forward(None));
    let capture = asked.advance(true, PresentReply::Flag(false));
    assert_eq!(capture, PresentStep::Capture(target));
    assert_eq!(capture.advance(true, PresentReply::Semaphore(Some(8))), PresentStep::Forward(Some(8)));
    assert_eq!(capture.advance(true, PresentReply::Semaphore(None)), PresentStep::Forward(None));
}

#[test]
fn the_applications_semaphores_are_kept() {
    assert_eq!(wait_semaphores(&vec![1, 2], Some(3)), vec![1, 2, 3]);
    assert_eq!(wait_semaphores(&vec![1, 2], None), vec![1, 2]);
    assert_eq!(wait_semaphores(&Vec::new(), Some(3)), vec![3]);
    assert_eq!(present_result(0), Ok(()));
    assert_eq!(present_result(1_000_001_003), Err(1_000_001_003));
    assert_eq!(present_result(-4), Err(-4));
}

#[test]
fn a_destroyed_swapchain_is_forgotten() {
    let mut info = device();
    info.get_device_queue(3, Some(QUEUE));
    create(&mut info, 11, true, vec![30]);
    let mut primary = None;
    present(&info, vec![11], vec![0], &mut primary).unwrap();
    match info.destroy_swapchain_khr(11, &mut primary) {
        LayerResult::Handled(images) => assert_eq!(images, Some(vec![30])),
        LayerResult::Unhandled => panic!("the command exists"),
    }
    assert_eq!(primary, None);
    assert!(info.state.swapchains.is_empty());
    assert!(matches!(info.destroy_swapchain_khr(11, &mut primary), LayerResult::Handled(None)));
    let none = NextCommands { destroy_swapchain_khr: false, ..ALL };
    let mut bare = NeuralForgeDeviceInfo::new(DEVICE, true, true, none, false);
    assert!(matches!(bare.destroy_swapchain_khr(11, &mut primary), LayerResult::Unhandled));
}

fn buffer(id: u64) -> CaptureBuffer {
    CaptureBuffer { pool: id, cmd: id + 1, fence: id + 2, buffer: id + 3, memory: id + 4, ptr: 0, capacity: 1 }
}

fn loaded() -> NeuralForgeDeviceInfo {
    let mut info = device();
    info.capture = Some(CaptureResources { queue_family: 0, buf: buffer(100) });
    info.pool.direct =
        Some(DirectCapture { queue_family: 0, slot: PipelineSlot { buf: buffer(200), pending: None } });
    create(&mut info, 11, true, vec![30]);
    info
}

#[test]
fn an_idle_or_lost_device_is_torn_down_once() {
    for waited in [0, -4] {
        let mut info = loaded();
        let mut primary = Some(Primary { device: DEVICE, swapchain: 11, area: 1 });
        assert!(info.holds_resources(false));
        let teardown = info.destroy_private_resources(true, waited, &mut primary);
        let mut expected = buffer(100).destroy();
        expected.extend(buffer(200).destroy());
        assert_eq!(teardown.destroy, expected);
        assert!(teardown.compositor);
        assert_eq!(primary, None);
        assert!(info.state.swapchains.is_empty());
        assert!(!info.holds_resources(false));
        assert!(info.destroy_private_resources(false, 0, &mut primary).destroy.is_empty());
    }
}

#[test]
fn nothing_is_freed_while_work_may_be_pending() {
    let mut info = loaded();
    let mut primary = Some(Primary { device: 9, swapchain: 11, area: 1 });
    let teardown = info.destroy_private_resources(true, -1, &mut primary);
    assert!(teardown.destroy.is_empty());
    assert!(!teardown.compositor);
    assert!(info.capture.is_some());
    assert!(info.pool.direct.is_some());
    assert!(info.state.swapchains.is_empty());
    // Another device's swapchain keeps the channel.
    assert!(primary.is_some());
}

#[test]
fn a_new_device_starts_out_empty() {
    let info = NeuralForgeDeviceInfo::new(DEVICE, true, false, ALL, true);
    assert_eq!((info.device, info.instance, info.surface_caps), (DEVICE, true, false));
    assert!(info.external_memory_host);
    assert_eq!(info.pool, CapturePool { pipeline: None, direct: None });
    assert!(!info.holds_resources(false));
    assert!(info.holds_resources(true));
    let hooked = hooked_commands();
    assert_eq!(hooked.len(), 10);
    assert!(hooked.contains(&VulkanCommand::QueuePresentKhr));
    assert!(hooked.contains(&VulkanCommand::DestroyImage));
}

#[test]
fn each_condition_of_admission_counts() {
    assert!(ADMISSION.eligible(3840, 2160));
    assert!(!ADMISSION.eligible(3841, 2160));
    assert!(!ADMISSION.eligible(3840, 2161));
    assert!(!Admission { layer_enabled: false, ..ADMISSION }.eligible(1, 1));
    assert!(!Admission { owner: false, ..ADMISSION }.eligible(1, 1));
    assert!(!Admission { supported_format: false, ..ADMISSION }.eligible(1, 1));
    assert!(!Admission { plausible_size: false, ..ADMISSION }.eligible(1, 1));
}
