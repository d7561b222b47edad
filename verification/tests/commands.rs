//! What the layer records on its command buffers, and how large frames are.
use neuralforge::commands::{
    awaited_capture, barrier, capture_submission, record_capture_commands, subresource,
    write_back, write_bytes_to_image, Command, CopyRegion,
};
use neuralforge::frame::{carried_bytes, frame_bytes, FrameDims, ProxyFormat};
use neuralforge::vulkan::{
    ACCESS_NONE, ACCESS_TRANSFER_READ, ACCESS_TRANSFER_WRITE, LAYOUT_GENERAL, LAYOUT_PRESENT_SRC,
    LAYOUT_TRANSFER_DST, LAYOUT_TRANSFER_SRC, STAGE_ALL_COMMANDS, STAGE_TRANSFER,
};

const IMAGE: u64 = 11;
const BUFFER: u64 = 12;
const FENCE: u64 = 13;

fn region() -> CopyRegion {
    CopyRegion { aspect: 1, width: 8, height: 4 }
}

#[test]
fn a_capture_leaves_the_image_in_the_layout_it_was_found_in() {
    let commands = record_capture_commands(IMAGE, LAYOUT_GENERAL, BUFFER, 8, 4);
    let to_source = barrier(IMAGE, LAYOUT_GENERAL, LAYOUT_TRANSFER_SRC, ACCESS_NONE, ACCESS_TRANSFER_READ);
    let back = barrier(IMAGE, LAYOUT_TRANSFER_SRC, LAYOUT_GENERAL, ACCESS_TRANSFER_READ, ACCESS_NONE);
    assert_eq!(
        commands,
        vec![
            Command::Reset,
            Command::Begin,
            Command::Barrier { src_stage: STAGE_ALL_COMMANDS, dst_stage: STAGE_TRANSFER, barrier: to_source },
            Command::CopyImageToBuffer { image: IMAGE, buffer: BUFFER, region: region() },
            Command::Barrier { src_stage: STAGE_TRANSFER, dst_stage: STAGE_ALL_COMMANDS, barrier: back },
            Command::End,
        ]
    );
    let mut submitted = commands;
    submitted.push(Command::ResetFence { fence: FENCE });
    submitted.push(Command::Submit { fence: FENCE });
    assert_eq!(capture_submission(IMAGE, LAYOUT_GENERAL, BUFFER, 8, 4, FENCE), submitted);
}

#[test]
fn only_the_synchronous_capture_waits() {
    let awaited = awaited_capture(IMAGE, BUFFER, 8, 4, FENCE);
    let submitted = capture_submission(IMAGE, LAYOUT_PRESENT_SRC, BUFFER, 8, 4, FENCE);
    assert_eq!(awaited[..submitted.len()], submitted[..]);
    assert_eq!(awaited[submitted.len()..], [Command::Wait { fence: FENCE }]);
    assert!(!submitted.contains(&Command::Wait { fence: FENCE }));
}

#[test]
fn a_write_back_leaves_the_image_presentable() {
    let commands = write_back(IMAGE, BUFFER, 8, 4, FENCE);
    let to_destination = barrier(IMAGE, LAYOUT_PRESENT_SRC, LAYOUT_TRANSFER_DST, ACCESS_NONE, ACCESS_TRANSFER_WRITE);
    let back = barrier(IMAGE, LAYOUT_TRANSFER_DST, LAYOUT_PRESENT_SRC, ACCESS_TRANSFER_WRITE, ACCESS_NONE);
    assert_eq!(
        commands,
        vec![
            Command::Reset,
            Command::Begin,
            Command::Barrier { src_stage: STAGE_ALL_COMMANDS, dst_stage: STAGE_TRANSFER, barrier: to_destination },
            Command::CopyBufferToImage { buffer: BUFFER, image: IMAGE, region: region() },
            Command::Barrier { src_stage: STAGE_TRANSFER, dst_stage: STAGE_ALL_COMMANDS, barrier: back },
            Command::End,
            Command::ResetFence { fence: FENCE },
            Command::Submit { fence: FENCE },
            Command::Wait { fence: FENCE },
        ]
    );
    assert_eq!(write_bytes_to_image(8 * 4 * 4, IMAGE, BUFFER, 8, 4, FENCE), Some(commands));
    assert_eq!(write_bytes_to_image(8 * 4 * 4 - 1, IMAGE, BUFFER, 8, 4, FENCE), None);
    assert_eq!(write_bytes_to_image(8 * 4 * 8, IMAGE, BUFFER, 8, 4, FENCE), None);
}

#[test]
fn barriers_cover_the_one_colour_plane() {
    let range = subresource();
    assert_eq!((range.aspect, range.base_mip_level, range.level_count), (1, 0, 1));
    assert_eq!((range.base_array_layer, range.layer_count), (0, 1));
    let b = barrier(1, 2, 3, 4, 5);
    assert_eq!((b.image, b.old_layout, b.new_layout, b.src_access, b.dst_access), (1, 2, 3, 4, 5));
    assert_eq!((b.src_queue_family, b.dst_queue_family), (u32::MAX, u32::MAX));
    assert_eq!(b.range, range);
}

#[test]
fn frames_are_counted_without_overflow() {
    let dims = |width, height, bytes_per_pixel| FrameDims {
        width,
        height,
        format: ProxyFormat { code: 0, bytes_per_pixel, eight_bit: true },
    };
    assert_eq!(frame_bytes(&dims(1920, 1080, 4)), Some(8_294_400));
    assert_eq!(frame_bytes(&dims(0, 1080, 4)), Some(0));
    assert_eq!(frame_bytes(&dims(u32::MAX, u32::MAX, 4)), None);
    assert_eq!(carried_bytes(&dims(8, 8, 4), 256), Some(256));
    assert_eq!(carried_bytes(&dims(8, 8, 4), 255), None);
    assert_eq!(carried_bytes(&dims(0, 8, 4), 255), None);
    assert_eq!(carried_bytes(&dims(u32::MAX, u32::MAX, 8), u64::MAX), None);
}
