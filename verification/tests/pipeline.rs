//! Captures that are submitted in one call and collected in a later one.
use neuralforge::capture_buffer::{BufferRequest, CaptureBuffer, Resource};
use neuralforge::commands::capture_submission;
use neuralforge::frame::{FrameDims, ProxyFormat};
use neuralforge::pipeline::{
    destroy_direct_capture, destroy_pipeline, poll_or_submit_capture, CaptureCall, CapturePipeline,
    CapturePool, CaptureReply, CaptureStep, DirectCapture, PipelineSlot, SharedRegion, SlotId,
};

const RGBA8: ProxyFormat = ProxyFormat { code: 0, bytes_per_pixel: 4, eight_bit: true };
const SMALL: FrameDims = FrameDims { width: 8, height: 8, format: RGBA8 };
const LARGE: FrameDims = FrameDims { width: 16, height: 8, format: RGBA8 };

fn buffer(id: u64, capacity: u64) -> CaptureBuffer {
    CaptureBuffer { pool: id, cmd: id + 1, fence: id + 2, buffer: id + 3, memory: id + 4, ptr: id + 5, capacity }
}

fn slot(id: u64, pending: Option<FrameDims>) -> PipelineSlot {
    PipelineSlot { buf: buffer(id, 256), pending }
}

fn pool(first: Option<FrameDims>, second: Option<FrameDims>) -> CapturePool {
    CapturePool {
        pipeline: Some(CapturePipeline { queue_family: 0, first: slot(10, first), second: slot(20, second) }),
        direct: None,
    }
}

fn staged(dims: FrameDims) -> CaptureCall {
    CaptureCall { use_direct: false, region: None, queue_family: 0, image: 7, layout: 1, dims }
}

fn direct(dims: FrameDims) -> CaptureCall {
    let region = Some(SharedRegion { ptr: 0x7000, capacity: 4096 });
    CaptureCall { use_direct: true, region, ..staged(dims) }
}

/// One call's capture, with the answers it gets.
struct Run {
    call: CaptureCall,
    pool: CapturePool,
    scratch: Vec<u8>,
    step: CaptureStep,
}

impl Run {
    fn start(call: CaptureCall, pool: CapturePool) -> Run {
        let mut pool = pool;
        let scratch = Vec::new();
        let step = poll_or_submit_capture(&call, &mut pool, &scratch);
        Run { call, pool, scratch, step }
    }

    fn answer(&mut self, reply: CaptureReply) -> CaptureStep {
        self.step = self.step.advance(&self.call, &mut self.pool, &mut self.scratch, reply);
        self.step
    }

    fn pending(&self) -> (Option<FrameDims>, Option<FrameDims>) {
        let pipeline = self.pool.pipeline.unwrap();
        (pipeline.first.pending, pipeline.second.pending)
    }
}

#[test]
fn the_first_call_builds_both_slots_and_submits() {
    let mut run = Run::start(staged(SMALL), CapturePool { pipeline: None, direct: None });
    let request = BufferRequest { queue_family: 0, bytes: 256, host_ptr: None };
    assert_eq!(run.step, CaptureStep::BuildFirst { request });
    run.answer(CaptureReply::Built(Some(buffer(10, 256))));
    assert_eq!(run.step, CaptureStep::BuildSecond { request, first: buffer(10, 256) });
    run.answer(CaptureReply::Built(Some(buffer(20, 256))));
    assert_eq!(run.step, CaptureStep::Submit { slot: SlotId::First, buf: buffer(10, 256) });
    assert_eq!(run.answer(CaptureReply::Succeeded(true)), CaptureStep::Finished(false));
    assert_eq!(run.pending(), (Some(SMALL), None));
}

#[test]
fn a_second_buffer_that_fails_takes_the_first_with_it() {
    let mut run = Run::start(staged(SMALL), CapturePool { pipeline: None, direct: None });
    run.answer(CaptureReply::Built(Some(buffer(10, 256))));
    assert_eq!(run.answer(CaptureReply::Built(None)), CaptureStep::Discard { first: buffer(10, 256) });
    assert_eq!(run.answer(CaptureReply::Done), CaptureStep::Finished(false));
    assert_eq!(run.pool.pipeline, None);
    let mut run = Run::start(staged(SMALL), CapturePool { pipeline: None, direct: None });
    assert_eq!(run.answer(CaptureReply::Built(None)), CaptureStep::Finished(false));
}

#[test]
fn a_finished_capture_is_collected_and_nothing_is_submitted() {
    let mut run = Run::start(staged(SMALL), pool(Some(SMALL), None));
    assert_eq!(run.step, CaptureStep::Query { slot: SlotId::First, fence: 12 });
    assert_eq!(run.answer(CaptureReply::Signalled), CaptureStep::ReadStaging { ptr: 15, bytes: 256, dims: SMALL });
    assert_eq!(run.answer(CaptureReply::Bytes(vec![9; 256])), CaptureStep::Publish { dims: SMALL });
    assert_eq!(run.answer(CaptureReply::Done), CaptureStep::Finished(true));
    assert_eq!(run.scratch, vec![9; 256]);
    assert_eq!(run.pending(), (None, None));
}

#[test]
fn every_slot_is_asked_before_a_new_capture_is_submitted() {
    // The first slot is free, the second has finished.
    let mut run = Run::start(staged(SMALL), pool(None, Some(SMALL)));
    assert_eq!(run.step, CaptureStep::Query { slot: SlotId::Second, fence: 22 });
    run.answer(CaptureReply::Signalled);
    assert_eq!(run.step, CaptureStep::ReadStaging { ptr: 25, bytes: 256, dims: SMALL });
    // The first slot reports an error, the second is asked all the same.
    let mut run = Run::start(staged(SMALL), pool(Some(SMALL), Some(SMALL)));
    assert_eq!(run.answer(CaptureReply::NotSignalled), CaptureStep::Query { slot: SlotId::Second, fence: 22 });
    assert_eq!(run.answer(CaptureReply::NotSignalled), CaptureStep::Finished(false));
    assert_eq!(run.pending(), (Some(SMALL), Some(SMALL)));
}

#[test]
fn a_capture_goes_into_the_free_slot() {
    let mut run = Run::start(staged(SMALL), pool(Some(SMALL), None));
    assert_eq!(run.answer(CaptureReply::NotSignalled), CaptureStep::Submit { slot: SlotId::Second, buf: buffer(20, 256) });
    run.answer(CaptureReply::Succeeded(true));
    assert_eq!(run.pending(), (Some(SMALL), Some(SMALL)));
    // A submission that failed leaves the slot free.
    let mut run = Run::start(staged(SMALL), pool(Some(SMALL), None));
    run.answer(CaptureReply::NotSignalled);
    run.answer(CaptureReply::Succeeded(false));
    assert_eq!(run.pending(), (Some(SMALL), None));
}

#[test]
fn a_capture_of_another_size_is_dropped() {
    let narrow = FrameDims { width: 4, height: 8, format: RGBA8 };
    let mut run = Run::start(staged(narrow), pool(Some(SMALL), None));
    run.answer(CaptureReply::Signalled);
    assert_eq!(run.answer(CaptureReply::Bytes(vec![9; 256])), CaptureStep::Finished(false));
    assert_eq!(run.pending(), (None, None));
}

#[test]
fn a_larger_frame_drains_and_rebuilds_the_pipeline() {
    let mut run = Run::start(staged(LARGE), pool(Some(SMALL), Some(SMALL)));
    assert_eq!(run.step, CaptureStep::Drain { slot: SlotId::First, fence: 12 });
    assert_eq!(run.answer(CaptureReply::Succeeded(true)), CaptureStep::Drain { slot: SlotId::Second, fence: 22 });
    assert_eq!(
        run.answer(CaptureReply::Succeeded(true)),
        CaptureStep::DestroyPipeline { first: buffer(10, 256), second: buffer(20, 256) }
    );
    assert_eq!(run.pool.pipeline, None);
    let request = BufferRequest { queue_family: 0, bytes: 512, host_ptr: None };
    assert_eq!(run.answer(CaptureReply::Done), CaptureStep::BuildFirst { request });
    // A wait that fails leaves everything as it was.
    let mut run = Run::start(staged(LARGE), pool(Some(SMALL), None));
    assert_eq!(run.answer(CaptureReply::Succeeded(false)), CaptureStep::Finished(false));
    assert_eq!(run.pool, pool(Some(SMALL), None));
    // Another queue family rebuilds too; with nothing in flight there is nothing to drain.
    let run = Run::start(CaptureCall { queue_family: 1, ..staged(SMALL) }, pool(None, None));
    assert!(matches!(run.step, CaptureStep::DestroyPipeline { .. }));
}

#[test]
fn a_buffer_that_came_out_too_small_is_not_submitted_to() {
    let mut run = Run::start(staged(SMALL), CapturePool { pipeline: None, direct: None });
    run.answer(CaptureReply::Built(Some(buffer(10, 100))));
    assert_eq!(run.answer(CaptureReply::Built(Some(buffer(20, 100)))), CaptureStep::Finished(false));
    let huge = FrameDims { width: u32::MAX, height: u32::MAX, format: RGBA8 };
    assert_eq!(Run::start(staged(huge), pool(None, None)).step, CaptureStep::Finished(false));
}

#[test]
fn a_direct_capture_imports_the_region_and_has_one_in_flight() {
    let mut run = Run::start(direct(SMALL), CapturePool { pipeline: None, direct: None });
    let request = BufferRequest { queue_family: 0, bytes: 4096, host_ptr: Some(0x7000) };
    assert_eq!(run.step, CaptureStep::BuildDirect { request });
    let imported = CaptureBuffer { ptr: 0x7000, ..buffer(30, 4096) };
    assert_eq!(run.answer(CaptureReply::Built(Some(imported))), CaptureStep::SubmitDirect { buf: imported });
    run.answer(CaptureReply::Succeeded(true));
    let mut again = Run::start(direct(SMALL), run.pool);
    assert_eq!(again.step, CaptureStep::QueryDirect { fence: 32 });
    assert_eq!(again.answer(CaptureReply::NotSignalled), CaptureStep::Finished(false));
    let mut collected = Run::start(direct(SMALL), again.pool);
    assert_eq!(
        collected.answer(CaptureReply::Signalled),
        CaptureStep::ReadRegion { ptr: 0x7000, bytes: 256, dims: SMALL }
    );
    assert_eq!(collected.answer(CaptureReply::Bytes(vec![5; 256])), CaptureStep::Announce { dims: SMALL });
    assert_eq!(collected.answer(CaptureReply::Done), CaptureStep::Finished(true));
    assert_eq!(collected.pool.direct.unwrap().slot.pending, None);
}

#[test]
fn a_direct_capture_is_rebuilt_for_another_region_or_family() {
    let imported = CaptureBuffer { ptr: 0x7000, ..buffer(30, 4096) };
    let idle = CapturePool {
        pipeline: None,
        direct: Some(DirectCapture { queue_family: 0, slot: PipelineSlot { buf: imported, pending: None } }),
    };
    let busy = CapturePool {
        pipeline: None,
        direct: Some(DirectCapture { queue_family: 0, slot: PipelineSlot { buf: imported, pending: Some(SMALL) } }),
    };
    let moved = CaptureCall { region: Some(SharedRegion { ptr: 0x8000, capacity: 4096 }), ..direct(SMALL) };
    assert_eq!(Run::start(moved, idle).step, CaptureStep::DestroyDirect { buf: imported });
    let grown = CaptureCall { region: Some(SharedRegion { ptr: 0x7000, capacity: 8192 }), ..direct(SMALL) };
    let mut run = Run::start(grown, busy);
    assert_eq!(run.step, CaptureStep::DrainDirect { fence: 32 });
    assert_eq!(run.answer(CaptureReply::Succeeded(true)), CaptureStep::DestroyDirect { buf: imported });
    assert_eq!(run.pool.direct, None);
    let mut run = Run::start(grown, busy);
    assert_eq!(run.answer(CaptureReply::Succeeded(false)), CaptureStep::Finished(false));
    assert_eq!(run.pool, busy);
    let other_family = CaptureCall { queue_family: 1, ..direct(SMALL) };
    assert_eq!(Run::start(other_family, idle).step, CaptureStep::DestroyDirect { buf: imported });
    let closed = CaptureCall { region: None, ..direct(SMALL) };
    assert_eq!(Run::start(closed, idle).step, CaptureStep::Finished(false));
}

#[test]
fn teardown_lists_every_object_once() {
    let list = destroy_pipeline(pool(None, None).pipeline);
    assert_eq!(list.len(), 8);
    assert_eq!(list[..4], [Resource::Fence(12), Resource::Buffer(13), Resource::Memory(14), Resource::Pool(10)]);
    assert!(destroy_pipeline(None).is_empty());
    let one = Some(DirectCapture { queue_family: 0, slot: slot(30, None) });
    assert_eq!(destroy_direct_capture(one), buffer(30, 256).destroy());
    assert!(destroy_direct_capture(None).is_empty());
}

#[test]
fn the_first_step_follows_from_what_is_in_flight() {
    let idle = pool(None, None).pipeline.unwrap();
    let submit = CaptureStep::Submit { slot: SlotId::First, buf: idle.first.buf };
    assert_eq!(idle.submit_pipeline_capture(&staged(SMALL)), submit);
    assert_eq!(idle.poll_pipeline_capture(&staged(SMALL), Some(SlotId::First)), submit);
    assert_eq!(idle.submit_pipeline_capture(&staged(LARGE)), CaptureStep::Finished(false));
    let busy = pool(Some(SMALL), Some(SMALL)).pipeline.unwrap();
    assert_eq!(busy.submit_pipeline_capture(&staged(SMALL)), CaptureStep::Finished(false));
    assert_eq!(
        busy.poll_pipeline_capture(&staged(SMALL), Some(SlotId::Second)),
        CaptureStep::Query { slot: SlotId::Second, fence: 22 }
    );
    assert_eq!(busy.poll_pipeline_capture(&staged(SMALL), None), CaptureStep::Finished(false));
    let free = DirectCapture { queue_family: 0, slot: slot(30, None) };
    assert_eq!(free.poll_direct_capture(&direct(SMALL)), CaptureStep::SubmitDirect { buf: free.slot.buf });
    let pending = DirectCapture { queue_family: 0, slot: slot(30, Some(SMALL)) };
    assert_eq!(pending.poll_direct_capture(&direct(SMALL)), CaptureStep::QueryDirect { fence: 32 });
}

#[test]
fn a_submission_is_recorded_on_the_buffer_of_its_slot() {
    let mut run = Run::start(staged(SMALL), pool(None, None));
    assert_eq!(run.step.commands(&run.call), Some(capture_submission(7, 1, 13, 8, 8, 12)));
    assert_eq!(run.answer(CaptureReply::Succeeded(true)).commands(&run.call), None);
    let run = Run::start(staged(SMALL), pool(Some(SMALL), None));
    assert_eq!(run.step, CaptureStep::Query { slot: SlotId::First, fence: 12 });
    assert_eq!(run.step.commands(&run.call), None);
}

#[test]
fn the_second_slot_is_collected_while_the_first_is_busy() {
    let mut run = Run::start(staged(SMALL), pool(Some(SMALL), Some(SMALL)));
    run.answer(CaptureReply::NotSignalled);
    assert_eq!(run.step, CaptureStep::Query { slot: SlotId::Second, fence: 22 });
    run.answer(CaptureReply::Signalled);
    run.answer(CaptureReply::Bytes(vec![9; 256]));
    assert_eq!(run.answer(CaptureReply::Done), CaptureStep::Finished(true));
    assert_eq!(run.pending(), (Some(SMALL), None));
    assert_eq!(run.scratch, vec![9; 256]);
}
