//! The command sequences the layer records on its own command buffers, as data.
//!
//! A sequence is carried out in order and abandoned at the first command that fails. The
//! queue sees nothing of it before [`Command::Submit`], so what an image goes through is
//! decided by the commands recorded before that point.
use vstd::prelude::*;

use crate::vulkan::{
    ACCESS_NONE, ACCESS_TRANSFER_READ, ACCESS_TRANSFER_WRITE, ASPECT_COLOR, LAYOUT_PRESENT_SRC,
    LAYOUT_TRANSFER_DST, LAYOUT_TRANSFER_SRC, QUEUE_FAMILY_IGNORED, STAGE_ALL_COMMANDS,
    STAGE_TRANSFER,
};

verus! {

/// A `VkImageSubresourceRange`.
#[derive(Clone, Copy, Debug, PartialEq, Eq, Structural)]
pub struct SubresourceRange {
    pub aspect: u32,
    pub base_mip_level: u32,
    pub level_count: u32,
    pub base_array_layer: u32,
    pub layer_count: u32,
}

/// A `VkImageMemoryBarrier`.
#[derive(Clone, Copy, Debug, PartialEq, Eq, Structural)]
pub struct ImageBarrier {
    pub image: u64,
    pub old_layout: i32,
    pub new_layout: i32,
    pub src_access: u32,
    pub dst_access: u32,
    pub src_queue_family: u32,
    pub dst_queue_family: u32,
    pub range: SubresourceRange,
}

/// A tightly packed copy between a buffer, from its start, and the whole colour plane of
/// an image (`VkBufferImageCopy`).
#[derive(Clone, Copy, Debug, PartialEq, Eq, Structural)]
pub struct CopyRegion {
    pub aspect: u32,
    pub width: u32,
    pub height: u32,
}

/// One step against a command buffer, its fence or the queue.
#[derive(Clone, Copy, Debug, PartialEq, Eq, Structural)]
pub enum Command {
    /// Reset the command buffer.
    Reset,
    /// Begin recording, for one submission.
    Begin,
    Barrier { src_stage: u32, dst_stage: u32, barrier: ImageBarrier },
    /// Copy `image`, in the transfer-source layout, into `buffer`.
    CopyImageToBuffer { image: u64, buffer: u64, region: CopyRegion },
    /// Copy `buffer` into `image`, in the transfer-destination layout.
    CopyBufferToImage { buffer: u64, image: u64, region: CopyRegion },
    /// End recording.
    End,
    ResetFence { fence: u64 },
    /// Submit the command buffer, to signal `fence`.
    Submit { fence: u64 },
    /// Wait for `fence`, without a timeout.
    Wait { fence: u64 },
}

/// The one mip level and layer of a swapchain image's colour plane.
pub open spec fn colour_plane() -> SubresourceRange {
    SubresourceRange {
        aspect: ASPECT_COLOR,
        base_mip_level: 0,
        level_count: 1,
        base_array_layer: 0,
        layer_count: 1,
    }
}

/// A layout transition of the colour plane that moves no queue ownership.
pub open spec fn transition(image: u64, old_layout: i32, new_layout: i32, src: u32, dst: u32) -> ImageBarrier {
    ImageBarrier {
        image,
        old_layout,
        new_layout,
        src_access: src,
        dst_access: dst,
        src_queue_family: QUEUE_FAMILY_IGNORED,
        dst_queue_family: QUEUE_FAMILY_IGNORED,
        range: colour_plane(),
    }
}

/// The whole image, once.
pub open spec fn whole(width: u32, height: u32) -> CopyRegion {
    CopyRegion { aspect: ASPECT_COLOR, width, height }
}

/// Copy `image` out into `buffer` and give it back in the layout it was found in.
pub open spec fn capture_recording(image: u64, layout: i32, buffer: u64, width: u32, height: u32) -> Seq<Command> {
    seq![
        Command::Reset,
        Command::Begin,
        Command::Barrier {
            src_stage: STAGE_ALL_COMMANDS,
            dst_stage: STAGE_TRANSFER,
            barrier: transition(image, layout, LAYOUT_TRANSFER_SRC, ACCESS_NONE, ACCESS_TRANSFER_READ),
        },
        Command::CopyImageToBuffer { image, buffer, region: whole(width, height) },
        Command::Barrier {
            src_stage: STAGE_TRANSFER,
            dst_stage: STAGE_ALL_COMMANDS,
            barrier: transition(image, LAYOUT_TRANSFER_SRC, layout, ACCESS_TRANSFER_READ, ACCESS_NONE),
        },
        Command::End,
    ]
}

/// Copy `buffer` into a presentable `image` and leave it presentable.
pub open spec fn write_back_recording(image: u64, buffer: u64, width: u32, height: u32) -> Seq<Command> {
    seq![
        Command::Reset,
        Command::Begin,
        Command::Barrier {
            src_stage: STAGE_ALL_COMMANDS,
            dst_stage: STAGE_TRANSFER,
            barrier: transition(image, LAYOUT_PRESENT_SRC, LAYOUT_TRANSFER_DST, ACCESS_NONE, ACCESS_TRANSFER_WRITE),
        },
        Command::CopyBufferToImage { buffer, image, region: whole(width, height) },
        Command::Barrier {
            src_stage: STAGE_TRANSFER,
            dst_stage: STAGE_ALL_COMMANDS,
            barrier: transition(image, LAYOUT_TRANSFER_DST, LAYOUT_PRESENT_SRC, ACCESS_TRANSFER_WRITE, ACCESS_NONE),
        },
        Command::End,
    ]
}

/// Hand a finished recording to the queue.
pub open spec fn submission(fence: u64) -> Seq<Command> {
    seq![Command::ResetFence { fence }, Command::Submit { fence }]
}

/// Hand a finished recording to the queue and wait for it.
pub open spec fn awaited_submission(fence: u64) -> Seq<Command> {
    seq![Command::ResetFence { fence }, Command::Submit { fence }, Command::Wait { fence }]
}

/// The layout `image` is in after one recorded command, if it was in `layout` before; none
/// where the command assumes another layout than that.
pub open spec fn layout_after(command: Command, image: u64, layout: Option<i32>) -> Option<i32> {
    match (command, layout) {
        (Command::Barrier { barrier, .. }, Some(now)) if barrier.image == image => if barrier.old_layout
            == now {
            Some(barrier.new_layout)
        } else {
            None
        },
        (Command::CopyImageToBuffer { image: from, .. }, Some(now)) if from == image => if now
            == LAYOUT_TRANSFER_SRC {
            Some(now)
        } else {
            None
        },
        (Command::CopyBufferToImage { image: to, .. }, Some(now)) if to == image => if now
            == LAYOUT_TRANSFER_DST {
            Some(now)
        } else {
            None
        },
        (_, layout) => layout,
    }
}

/// The layout the recorded commands leave `image` in, each of them finding it as it
/// assumes; none where one does not.
pub open spec fn recorded_layout(commands: Seq<Command>, image: u64, layout: i32) -> Option<i32>
    decreases commands.len(),
{
    if commands.len() == 0 {
        Some(layout)
    } else {
        layout_after(
            commands.last(),
            image,
            recorded_layout(commands.drop_last(), image, layout),
        )
    }
}

/// The commands were handed to the queue.
pub open spec fn submitted(commands: Seq<Command>) -> bool {
    exists|i: int| 0 <= i < commands.len() && #[trigger] commands[i] is Submit
}

/// The layout `image` is in once the queue has carried out whatever was handed to it.
pub open spec fn layout_on_queue(commands: Seq<Command>, image: u64, layout: i32) -> Option<i32> {
    if submitted(commands) {
        recorded_layout(commands, image, layout)
    } else {
        Some(layout)
    }
}

/// The queue was handed a command that writes `image`.
pub open spec fn written_on_queue(commands: Seq<Command>, image: u64) -> bool {
    &&& submitted(commands)
    &&& exists|i: int|
        0 <= i < commands.len() && (#[trigger] commands[i] matches Command::CopyBufferToImage {
            image: to,
            ..
        } && to == image)
}

/// The range every barrier covers.
pub fn subresource() -> (r: SubresourceRange)
    ensures
        r == colour_plane(),
{
    SubresourceRange {
        aspect: ASPECT_COLOR,
        base_mip_level: 0,
        level_count: 1,
        base_array_layer: 0,
        layer_count: 1,
    }
}

/// A layout transition of `image`'s colour plane.
pub fn barrier(image: u64, old: i32, new: i32, src: u32, dst: u32) -> (r: ImageBarrier)
    ensures
        r == transition(image, old, new, src, dst),
{
    ImageBarrier {
        image,
        old_layout: old,
        new_layout: new,
        src_access: src,
        dst_access: dst,
        src_queue_family: QUEUE_FAMILY_IGNORED,
        dst_queue_family: QUEUE_FAMILY_IGNORED,
        range: subresource(),
    }
}

/// The commands that copy `image`, found in `initial_layout`, into `buffer` and restore
/// that layout. Nothing is promised to touch the image again this frame, so it may not be
/// left in a transfer layout.
pub fn record_capture_commands(image: u64, initial_layout: i32, buffer: u64, width: u32, height: u32) -> (r: Vec<Command>)
    ensures
        r@ == capture_recording(image, initial_layout, buffer, width, height),
{
    let to_transfer_src = barrier(
        image,
        initial_layout,
        LAYOUT_TRANSFER_SRC,
        ACCESS_NONE,
        ACCESS_TRANSFER_READ,
    );
    let restore = barrier(
        image,
        LAYOUT_TRANSFER_SRC,
        initial_layout,
        ACCESS_TRANSFER_READ,
        ACCESS_NONE,
    );
    vec![
        Command::Reset,
        Command::Begin,
        Command::Barrier {
            src_stage: STAGE_ALL_COMMANDS,
            dst_stage: STAGE_TRANSFER,
            barrier: to_transfer_src,
        },
        Command::CopyImageToBuffer {
            image,
            buffer,
            region: CopyRegion { aspect: ASPECT_COLOR, width, height },
        },
        Command::Barrier {
            src_stage: STAGE_TRANSFER,
            dst_stage: STAGE_ALL_COMMANDS,
            barrier: restore,
        },
        Command::End,
    ]
}

/// The commands of a capture that is submitted and not waited for.
pub fn capture_submission(image: u64, initial_layout: i32, buffer: u64, width: u32, height: u32, fence: u64) -> (r: Vec<Command>)
    ensures
        r@ == capture_recording(image, initial_layout, buffer, width, height) + submission(fence),
{
    let mut commands = record_capture_commands(image, initial_layout, buffer, width, height);
    commands.push(Command::ResetFence { fence });
    commands.push(Command::Submit { fence });
    commands
}

/// The commands of a capture of a presentable image that is waited for.
pub fn awaited_capture(image: u64, buffer: u64, width: u32, height: u32, fence: u64) -> (r: Vec<Command>)
    ensures
        r@ == capture_recording(image, LAYOUT_PRESENT_SRC, buffer, width, height)
            + awaited_submission(fence),
{
    let mut commands = record_capture_commands(image, LAYOUT_PRESENT_SRC, buffer, width, height);
    commands.push(Command::ResetFence { fence });
    commands.push(Command::Submit { fence });
    commands.push(Command::Wait { fence });
    commands
}

/// The commands that copy `buffer` into a presentable image, waited for.
pub fn write_back(image: u64, buffer: u64, width: u32, height: u32, fence: u64) -> (r: Vec<Command>)
    ensures
        r@ == write_back_recording(image, buffer, width, height) + awaited_submission(fence),
{
    let to_dst = barrier(
        image,
        LAYOUT_PRESENT_SRC,
        LAYOUT_TRANSFER_DST,
        ACCESS_NONE,
        ACCESS_TRANSFER_WRITE,
    );
    let to_present = barrier(
        image,
        LAYOUT_TRANSFER_DST,
        LAYOUT_PRESENT_SRC,
        ACCESS_TRANSFER_WRITE,
        ACCESS_NONE,
    );
    vec![
        Command::Reset,
        Command::Begin,
        Command::Barrier {
            src_stage: STAGE_ALL_COMMANDS,
            dst_stage: STAGE_TRANSFER,
            barrier: to_dst,
        },
        Command::CopyBufferToImage {
            buffer,
            image,
            region: CopyRegion { aspect: ASPECT_COLOR, width, height },
        },
        Command::Barrier {
            src_stage: STAGE_TRANSFER,
            dst_stage: STAGE_ALL_COMMANDS,
            barrier: to_present,
        },
        Command::End,
        Command::ResetFence { fence },
        Command::Submit { fence },
        Command::Wait { fence },
    ]
}

/// The commands that put `length` staged bytes into `image`, or none where they are not
/// exactly the image's four bytes per pixel: a frame of another size is not written.
pub fn write_bytes_to_image(length: usize, image: u64, buffer: u64, width: u32, height: u32, fence: u64) -> (r: Option<Vec<Command>>)
    ensures
        r is Some == (length == width * height * 4),
        r matches Some(commands) ==> commands@ == write_back_recording(image, buffer, width, height)
            + awaited_submission(fence),
{
    let width_wide = width as u128;
    let height_wide = height as u128;
    assert(0 <= width_wide * height_wide <= 0xffff_ffff * 0xffff_ffff) by (nonlinear_arith)
        requires
            0 <= width_wide <= 0xffff_ffff,
            0 <= height_wide <= 0xffff_ffff,
    ;
    let frame_bytes: u128 = width_wide * height_wide * 4;
    if length as u128 != frame_bytes {
        return None;
    }
    Some(write_back(image, buffer, width, height, fence))
}

/// However far a capture of `image` gets, the queue leaves the image in the layout it was
/// found in and never writes it; and each command finds the layout it needs.
pub proof fn capture_gives_the_image_back(
    image: u64,
    layout: i32,
    buffer: u64,
    width: u32,
    height: u32,
    fence: u64,
    done: int,
)
    requires
        0 <= done <= 9,
    ensures
        ({
            let commands = capture_recording(image, layout, buffer, width, height)
                + awaited_submission(fence);
            &&& commands.len() == 9
            &&& layout_on_queue(commands.take(done), image, layout) == Some(layout)
            &&& !written_on_queue(commands.take(done), image)
            &&& recorded_layout(commands, image, layout) == Some(layout)
        }),
{
    let commands = capture_recording(image, layout, buffer, width, height) + awaited_submission(
        fence,
    );
    lemma_restoring(commands, image, layout);
    lemma_prefixes(commands, image, layout, done);
    assert(commands.take(9) =~= commands);
}

/// However far a write-back into a presentable `image` gets, the queue leaves the image
/// presentable, and nothing is written before the submission.
pub proof fn write_back_leaves_the_image_presentable(
    image: u64,
    buffer: u64,
    width: u32,
    height: u32,
    fence: u64,
    done: int,
)
    requires
        0 <= done <= 9,
    ensures
        ({
            let commands = write_back_recording(image, buffer, width, height)
                + awaited_submission(fence);
            &&& commands.len() == 9
            &&& layout_on_queue(commands.take(done), image, LAYOUT_PRESENT_SRC) == Some(
                LAYOUT_PRESENT_SRC,
            )
            &&& recorded_layout(commands, image, LAYOUT_PRESENT_SRC) == Some(LAYOUT_PRESENT_SRC)
            &&& written_on_queue(commands.take(done), image) == (done >= 8)
        }),
{
    let commands = write_back_recording(image, buffer, width, height) + awaited_submission(fence);
    lemma_restoring(commands, image, LAYOUT_PRESENT_SRC);
    lemma_prefixes(commands, image, LAYOUT_PRESENT_SRC, done);
    assert(commands.take(9) =~= commands);
    if done >= 8 {
        assert(commands.take(done)[7] is Submit);
        assert(commands.take(done)[3] is CopyBufferToImage);
    }
}

/// The two sequences above, as far as the proofs about them need them told apart.
spec fn restoring(commands: Seq<Command>, image: u64, layout: i32) -> bool {
    &&& commands.len() == 9
    &&& recorded_layout(commands.take(8), image, layout) == Some(layout)
    &&& recorded_layout(commands.take(9), image, layout) == Some(layout)
    &&& forall|i: int| 0 <= i < 9 ==> ((#[trigger] commands[i]) is Submit <==> i == 7)
}

proof fn lemma_restoring(commands: Seq<Command>, image: u64, layout: i32)
    requires
        (exists|buffer: u64, width: u32, height: u32, fence: u64|
            commands == #[trigger] capture_recording(image, layout, buffer, width, height)
                + #[trigger] awaited_submission(fence)) || (layout == LAYOUT_PRESENT_SRC && exists|
            buffer: u64,
            width: u32,
            height: u32,
            fence: u64,
        |
            commands == #[trigger] write_back_recording(image, buffer, width, height)
                + #[trigger] awaited_submission(fence)),
    ensures
        restoring(commands, image, layout),
{
    lemma_one_more(commands, image, layout, 1);
    lemma_one_more(commands, image, layout, 2);
    lemma_one_more(commands, image, layout, 3);
    lemma_one_more(commands, image, layout, 4);
    lemma_one_more(commands, image, layout, 5);
    lemma_one_more(commands, image, layout, 6);
    lemma_one_more(commands, image, layout, 7);
    lemma_one_more(commands, image, layout, 8);
    lemma_one_more(commands, image, layout, 9);
    assert(recorded_layout(commands.take(0), image, layout) == Some(layout));
}

proof fn lemma_one_more(commands: Seq<Command>, image: u64, layout: i32, n: int)
    requires
        0 < n <= commands.len(),
    ensures
        recorded_layout(commands.take(n), image, layout) == layout_after(
            commands[n - 1],
            image,
            recorded_layout(commands.take(n - 1), image, layout),
        ),
{
    assert(commands.take(n).drop_last() =~= commands.take(n - 1));
    assert(commands.take(n).last() == commands[n - 1]);
}

proof fn lemma_prefixes(commands: Seq<Command>, image: u64, layout: i32, done: int)
    requires
        restoring(commands, image, layout),
        0 <= done <= 9,
    ensures
        layout_on_queue(commands.take(done), image, layout) == Some(layout),
        submitted(commands.take(done)) == (done >= 8),
{
    if done < 8 {
        assert forall|i: int| 0 <= i < done implies !((#[trigger] commands.take(done)[i]) is Submit) by {
            assert(commands.take(done)[i] == commands[i]);
        }
    } else {
        assert(commands.take(done)[7] == commands[7]);
    }
}

/// The one copy among the commands takes the whole of `image`, and of no other, out into
/// `buffer`.
pub open spec fn copies_out(commands: Seq<Command>, image: u64, buffer: u64, width: u32, height: u32) -> bool {
    let copy = Command::CopyImageToBuffer {
        image,
        buffer,
        region: CopyRegion { aspect: 1, width, height },
    };
    &&& commands.contains(copy)
    &&& forall|i: int|
        0 <= i < commands.len() && ((#[trigger] commands[i]) is CopyImageToBuffer || commands[i]
            is CopyBufferToImage) ==> commands[i] == copy
}

/// The one copy among the commands puts `buffer` into the whole of `image`, and of no other.
pub open spec fn copies_in(commands: Seq<Command>, image: u64, buffer: u64, width: u32, height: u32) -> bool {
    let copy = Command::CopyBufferToImage {
        buffer,
        image,
        region: CopyRegion { aspect: 1, width, height },
    };
    &&& commands.contains(copy)
    &&& forall|i: int|
        0 <= i < commands.len() && ((#[trigger] commands[i]) is CopyImageToBuffer || commands[i]
            is CopyBufferToImage) ==> commands[i] == copy
}

/// Every barrier is on the colour plane of `image` and moves no ownership; and each side of it
/// waits for, or holds back, exactly what the copy needs: the transfer that reads the image
/// while it is a source, the one that writes it while it is a destination, and everything
/// else where the image is handed over.
pub open spec fn guarded(commands: Seq<Command>, image: u64) -> bool {
    forall|i: int|
        0 <= i < commands.len() ==> (#[trigger] commands[i] matches Command::Barrier {
            src_stage,
            dst_stage,
            barrier,
        } ==> {
            &&& barrier.image == image
            &&& barrier.src_queue_family == u32::MAX
            &&& barrier.dst_queue_family == u32::MAX
            &&& barrier.range == (SubresourceRange {
                aspect: 1,
                base_mip_level: 0,
                level_count: 1,
                base_array_layer: 0,
                layer_count: 1,
            })
            &&& i < 3 ==> {
                &&& src_stage == 0x1_0000
                &&& barrier.src_access == 0
                &&& dst_stage == 0x1000
                &&& barrier.new_layout == LAYOUT_TRANSFER_SRC ==> barrier.dst_access == 0x800
                &&& barrier.new_layout == LAYOUT_TRANSFER_DST ==> barrier.dst_access == 0x1000
            }
            &&& i > 3 ==> {
                &&& src_stage == 0x1000
                &&& barrier.old_layout == LAYOUT_TRANSFER_SRC ==> barrier.src_access == 0x800
                &&& barrier.old_layout == LAYOUT_TRANSFER_DST ==> barrier.src_access == 0x1000
                &&& dst_stage == 0x1_0000
                &&& barrier.dst_access == 0
            }
        })
}

/// The commands are recorded from a fresh start, ended, and handed to the queue once, with
/// this fence reset for it.
pub open spec fn handed_over(commands: Seq<Command>, fence: u64) -> bool {
    &&& commands.len() >= 8
    &&& commands[0] is Reset
    &&& commands[1] is Begin
    &&& commands[5] is End
    &&& commands[6] == (Command::ResetFence { fence })
    &&& commands[7] == (Command::Submit { fence })
    &&& forall|i: int| 0 <= i < commands.len() && (#[trigger] commands[i]) is Submit ==> i == 7
}

/// A capture takes the whole image out into the buffer, between two barriers, and is handed to
/// the queue under its fence; only the one that is awaited waits, and for that fence.
pub proof fn captures_take_the_whole_image(image: u64, layout: i32, buffer: u64, width: u32, height: u32, fence: u64)
    ensures
        ({
            let recording = capture_recording(image, layout, buffer, width, height);
            let commands = recording + submission(fence);
            let awaited = recording + awaited_submission(fence);
            &&& copies_out(commands, image, buffer, width, height)
            &&& copies_out(awaited, image, buffer, width, height)
            &&& guarded(commands, image)
            &&& guarded(awaited, image)
            &&& handed_over(commands, fence)
            &&& handed_over(awaited, fence)
            &&& forall|i: int| 0 <= i < commands.len() ==> !((#[trigger] commands[i]) is Wait)
            &&& awaited.last() == (Command::Wait { fence })
            &&& recording[2] matches Command::Barrier { barrier, .. } && barrier.old_layout
                == layout && barrier.new_layout == LAYOUT_TRANSFER_SRC
            &&& recording[4] matches Command::Barrier { barrier, .. } && barrier.old_layout
                == LAYOUT_TRANSFER_SRC && barrier.new_layout == layout
        }),
{
    let recording = capture_recording(image, layout, buffer, width, height);
    let commands = recording + submission(fence);
    let awaited = recording + awaited_submission(fence);
    assert(commands[3] == recording[3] && awaited[3] == recording[3]);
}

/// A write-back puts the buffer into the whole image, between two barriers, is handed to the
/// queue under its fence, and is waited for.
pub proof fn write_backs_fill_the_whole_image(image: u64, buffer: u64, width: u32, height: u32, fence: u64)
    ensures
        ({
            let commands = write_back_recording(image, buffer, width, height)
                + awaited_submission(fence);
            &&& copies_in(commands, image, buffer, width, height)
            &&& guarded(commands, image)
            &&& handed_over(commands, fence)
            &&& commands.last() == (Command::Wait { fence })
        }),
{
    let recording = write_back_recording(image, buffer, width, height);
    let commands = recording + awaited_submission(fence);
    assert(commands[3] == recording[3]);
}

} // verus!
