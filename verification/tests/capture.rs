//! Whole present calls, against a driver and a helper that run on a clock of their own.
use neuralforge::capture::{
    min_imported_host_pointer_alignment, run, use_direct, ChannelState, Frames, Inflight, RunCall,
    RunReply, RunStep, Settings, WarmUp,
};
use neuralforge::capture_buffer::{BufferRequest, BuildReply, BuildStep, CaptureBuffer};
use neuralforge::commands::{capture_submission, write_back, Command};
use neuralforge::frame::{FrameDims, ProxyFormat};
use neuralforge::pipeline::{
    poll_or_submit_capture, CaptureCall, CapturePool, CaptureReply, CaptureStep, SharedRegion,
};
use neuralforge::vulkan::LAYOUT_PRESENT_SRC;

const RGBA8: ProxyFormat = ProxyFormat { code: 0, bytes_per_pixel: 4, eight_bit: true };
const RGBA16F: ProxyFormat = ProxyFormat { code: 1, bytes_per_pixel: 8, eight_bit: false };
const DIMS: FrameDims = FrameDims { width: 8, height: 8, format: RGBA8 };
const MAX_FRAME: u64 = 1 << 20;
const IMAGE: u64 = 77;
/// How long the helper takes to answer, in milliseconds.
const HELPER_DELAY: u64 = 250;
/// How long the GPU takes to copy an image.
const GPU_DELAY: u64 = 3;

/// The driver and the helper, with the memory they share.
struct World {
    now: u64,
    next_handle: u64,
    /// The pixels of the presented image.
    pixels: Vec<u8>,
    /// Each fence with the time it signals at.
    fences: Vec<(u64, u64)>,
    /// Each mapped address with its bytes.
    memory: Vec<(u64, Vec<u8>)>,
    region: Option<SharedRegion>,
    alignment: Option<u64>,
    external_memory_host: bool,
    proxy: Vec<u8>,
    announced: Option<FrameDims>,
    request_at: Option<u64>,
    requests: u32,
    /// The GPU compositor is available.
    compositor: bool,
    /// The helper gives every request up.
    gives_up: bool,
    warm_up: WarmUp,
    written: Vec<Vec<u8>>,
    waits: u32,
}

impl World {
    fn new() -> World {
        World {
            now: 0,
            next_handle: 100,
            pixels: vec![1; 256],
            fences: Vec::new(),
            memory: Vec::new(),
            region: None,
            alignment: None,
            external_memory_host: false,
            proxy: Vec::new(),
            announced: None,
            request_at: None,
            requests: 0,
            compositor: true,
            gives_up: false,
            warm_up: WarmUp::new(),
            written: Vec::new(),
            waits: 0,
        }
    }

    fn handle(&mut self) -> u64 {
        self.next_handle += 1;
        self.next_handle
    }

    fn build(&mut self, request: BufferRequest) -> Option<CaptureBuffer> {
        let mut step = BuildStep::start();
        loop {
            let reply = match step {
                BuildStep::Ready(buffer) => return Some(buffer),
                BuildStep::Abandoned(_) => return None,
                BuildStep::QueryHostPointer { .. } => BuildReply::HostTypes(0b11),
                BuildStep::QueryMemory { .. } => {
                    BuildReply::Memory { size: request.bytes, type_bits: 0b10, types: vec![1, 6] }
                }
                BuildStep::BindMemory { .. } => BuildReply::Done,
                BuildStep::MapMemory { .. } => {
                    let ptr = self.handle();
                    self.memory.push((ptr, vec![0; request.bytes as usize]));
                    BuildReply::Created(ptr)
                }
                _ => BuildReply::Created(self.handle()),
            };
            step = step.advance(&request, &reply);
        }
    }

    fn memory_at(&mut self, ptr: u64) -> &mut Vec<u8> {
        &mut self.memory.iter_mut().find(|(address, _)| *address == ptr).unwrap().1
    }

    fn submit(&mut self, call: &CaptureCall, step: CaptureStep, buf: CaptureBuffer) {
        let commands = step.commands(call).expect("a submission has commands");
        assert_eq!(
            commands,
            capture_submission(call.image, call.layout, buf.buffer, call.dims.width, call.dims.height, buf.fence)
        );
        assert!(commands.contains(&Command::Submit { fence: buf.fence }));
        assert!(!commands.contains(&Command::Wait { fence: buf.fence }));
        let pixels = self.pixels.clone();
        self.memory_at(buf.ptr)[..pixels.len()].copy_from_slice(&pixels);
        let at = self.now + GPU_DELAY;
        self.fences.retain(|(fence, _)| *fence != buf.fence);
        self.fences.push((buf.fence, at));
    }

    fn signalled(&self, fence: u64) -> CaptureReply {
        if self.fences.iter().any(|(f, at)| *f == fence && *at <= self.now) {
            CaptureReply::Signalled
        } else {
            CaptureReply::NotSignalled
        }
    }

    fn capture(&mut self, pool: &mut CapturePool, call: &CaptureCall) -> Option<Vec<u8>> {
        let mut scratch = Vec::new();
        let mut step = poll_or_submit_capture(call, pool, &scratch);
        loop {
            let reply = match step {
                CaptureStep::Finished(done) => return if done { Some(scratch) } else { None },
                CaptureStep::Drain { .. } | CaptureStep::DrainDirect { .. } => {
                    self.waits += 1;
                    self.now += GPU_DELAY;
                    CaptureReply::Succeeded(true)
                }
                CaptureStep::BuildFirst { request }
                | CaptureStep::BuildSecond { request, .. }
                | CaptureStep::BuildDirect { request } => CaptureReply::Built(self.build(request)),
                CaptureStep::Query { fence, .. } | CaptureStep::QueryDirect { fence } => self.signalled(fence),
                CaptureStep::ReadStaging { ptr, bytes, .. } | CaptureStep::ReadRegion { ptr, bytes, .. } => {
                    CaptureReply::Bytes(self.memory_at(ptr)[..bytes as usize].to_vec())
                }
                CaptureStep::Publish { dims } => {
                    self.announced = Some(dims);
                    self.proxy = scratch.clone();
                    CaptureReply::Done
                }
                CaptureStep::Announce { dims } => {
                    self.announced = Some(dims);
                    CaptureReply::Done
                }
                CaptureStep::Submit { buf, .. } | CaptureStep::SubmitDirect { buf } => {
                    self.submit(call, step, buf);
                    CaptureReply::Succeeded(true)
                }
                _ => CaptureReply::Done,
            };
            step = step.advance(call, pool, &mut scratch, reply);
        }
    }

    /// One present call.
    fn present(&mut self, frames: &mut Frames, pool: &mut CapturePool, dims: FrameDims, channel: ChannelState) -> Option<u64> {
        let call = RunCall { capture_image: IMAGE, image: IMAGE, dims, max_frame: MAX_FRAME };
        let direct = use_direct(self.external_memory_host, self.region, self.alignment);
        let capture = CaptureCall {
            use_direct: direct,
            region: self.region,
            queue_family: 0,
            image: IMAGE,
            layout: LAYOUT_PRESENT_SRC,
            dims,
        };
        let mut step = run(frames, &call, &channel);
        loop {
            let reply = match step {
                RunStep::Done(semaphore) => return semaphore,
                RunStep::Synchronous => panic!("nothing asked for a synchronous frame"),
                RunStep::AskBootstrap | RunStep::AskPending | RunStep::AskFree { .. } => {
                    RunReply::Flag(self.request_at.is_some())
                }
                RunStep::PollBootstrap | RunStep::PollRequest => {
                    let answered = self.request_at.is_some_and(|at| self.now >= at + HELPER_DELAY);
                    if answered {
                        self.request_at = None;
                    }
                    RunReply::Polled(answered.then_some(!self.gives_up))
                }
                RunStep::ReadAnswer { bytes } => RunReply::Answer(vec![200; bytes as usize]),
                RunStep::CaptureBootstrap | RunStep::Capture { .. } => {
                    RunReply::Captured(self.capture(pool, &capture))
                }
                RunStep::BeginBootstrap | RunStep::Begin { .. } => {
                    assert!(self.request_at.is_none(), "a request was sent while another was outstanding");
                    self.request_at = Some(self.now);
                    self.requests += 1;
                    RunReply::Flag(true)
                }
                RunStep::EnsureCompose => RunReply::Flag(self.compositor),
                RunStep::PresentHeld { .. } => {
                    self.written.push(frames.last_answer.clone());
                    RunReply::Semaphore(Some(9))
                }
                RunStep::EnsureBuffers { .. } => RunReply::Flag(true),
                RunStep::WriteBack => {
                    self.written.push(frames.last_answer.clone());
                    self.waits += 1;
                    RunReply::Performed
                }
                _ => RunReply::Performed,
            };
            step = step.advance(frames, &mut self.warm_up, &call, reply);
        }
    }
}

fn channel(enabled: bool) -> ChannelState {
    ChannelState {
        settings: Some(Settings { apply_model: true, neural_enabled: enabled, debug_view: 0 }),
        capture_request: false,
        model_unavailable: false,
    }
}

fn empty_pool() -> CapturePool {
    CapturePool { pipeline: None, direct: None }
}

#[test]
fn run_never_blocks_on_a_slow_helper_and_eventually_composites() {
    let mut world = World::new();
    let (mut frames, mut pool) = (Frames::new(), empty_pool());
    let deadline = 5_000;
    let mut got_semaphore = false;
    while world.now < deadline {
        let call_start = world.now;
        let semaphore = world.present(&mut frames, &mut pool, DIMS, channel(true));
        let call_time = world.now - call_start;
        assert!(
            call_time < HELPER_DELAY / 2,
            "a single run() call took {call_time} ms -- must never approach the helper's own {HELPER_DELAY} ms answer delay"
        );
        if semaphore.is_some() {
            got_semaphore = true;
            break;
        }
        world.now += 5;
    }
    assert!(got_semaphore, "the pipeline must eventually composite a real answer within 5s, not just avoid blocking forever");
    assert_eq!(world.waits, 0);
    assert_eq!(frames.last_answer, vec![200; 256]);
    assert_eq!(frames.inflight.raw_answer_generation, 1);
    assert_eq!(frames.inflight.raw_answer_base, vec![1; 256]);
    assert_eq!(world.announced, Some(DIMS));
    assert_eq!(world.proxy, vec![1; 256]);
}

#[test]
fn direct_capture_writes_straight_into_imported_host_memory() {
    let mut world = World::new();
    let alignment = min_imported_host_pointer_alignment(4096).unwrap();
    let host_ptr = 0x10_0000;
    let frame_bytes = 8 * 8 * 4u64;
    let region_len = frame_bytes.max(alignment).div_ceil(alignment) * alignment;
    assert_eq!(host_ptr % alignment, 0);
    world.memory.push((host_ptr, vec![0; region_len as usize]));
    world.region = Some(SharedRegion { ptr: host_ptr, capacity: region_len });
    world.alignment = Some(alignment);
    world.external_memory_host = true;
    let color = [100.0 / 255.0, 150.0 / 255.0, 200.0 / 255.0, 1.0f32];
    let expected: Vec<u8> = color.iter().map(|channel| (channel * 255.0).round() as u8).collect();
    assert_eq!(expected, vec![100, 150, 200, 255]);
    world.pixels = expected.repeat(64);

    let call = CaptureCall {
        use_direct: use_direct(true, world.region, world.alignment),
        region: world.region,
        queue_family: 0,
        image: IMAGE,
        layout: LAYOUT_PRESENT_SRC,
        dims: DIMS,
    };
    assert!(call.use_direct);
    let mut pool = empty_pool();
    // Built and submitted in one call.
    assert_eq!(world.capture(&mut pool, &call), None);
    assert_eq!(pool.direct.unwrap().slot.pending, Some(DIMS));
    assert_eq!(pool.direct.unwrap().slot.buf.ptr, host_ptr);
    world.now += GPU_DELAY;
    let captured = world.capture(&mut pool, &call).expect("the capture's fence has signalled");
    assert_eq!(pool.direct.unwrap().slot.pending, None);
    for pixel in captured.chunks_exact(4) {
        assert_eq!(pixel, expected, "every captured pixel must match the source image's own fill color");
    }
    assert_eq!(world.memory_at(host_ptr)[..frame_bytes as usize], captured[..]);
    assert_eq!(world.announced, Some(DIMS));
    // The bytes went through no staging copy.
    assert!(world.proxy.is_empty());
}

#[test]
fn the_held_answer_is_shown_on_every_present() {
    let mut world = World::new();
    let (mut frames, mut pool) = (Frames::new(), empty_pool());
    frames.last_answer = vec![3; 256];
    for _ in 0..10 {
        assert_eq!(world.present(&mut frames, &mut pool, DIMS, channel(true)), Some(9));
        world.now += 1;
    }
    assert_eq!(world.written, vec![vec![3; 256]; 10]);
    // Without a compositor the CPU writes it, and there is no semaphore.
    world.compositor = false;
    assert_eq!(world.present(&mut frames, &mut pool, DIMS, channel(true)), None);
    assert_eq!(world.written.len(), 11);
    assert_eq!(world.waits, 1);
}

#[test]
fn switched_off_sends_one_request_and_shows_nothing() {
    let mut world = World::new();
    let (mut frames, mut pool) = (Frames::new(), empty_pool());
    for _ in 0..200 {
        assert_eq!(world.present(&mut frames, &mut pool, DIMS, channel(false)), None);
        world.now += 5;
    }
    assert_eq!(world.requests, 1);
    assert!(frames.inflight.bootstrap_complete);
    assert!(frames.last_answer.is_empty());
    assert!(world.written.is_empty());
}

#[test]
fn switching_on_during_the_warm_up_discards_its_answer() {
    let mut world = World::new();
    let (mut frames, mut pool) = (Frames::new(), empty_pool());
    while world.requests == 0 {
        world.present(&mut frames, &mut pool, DIMS, channel(false));
        world.now += 5;
    }
    assert!(frames.inflight.bootstrap);
    while world.requests == 1 {
        assert_eq!(world.present(&mut frames, &mut pool, DIMS, channel(true)), None);
        world.now += 5;
    }
    // Its answer came and was dropped; the next request is an ordinary one.
    assert!(frames.inflight.bootstrap_complete);
    assert!(!frames.inflight.bootstrap);
    assert!(frames.last_answer.is_empty());
    world.now += HELPER_DELAY;
    assert_eq!(world.present(&mut frames, &mut pool, DIMS, channel(true)), Some(9));
    assert_eq!(frames.inflight.raw_answer_base, vec![1; 256]);
}

/// Runs a call over given answers.
fn answered(frames: &mut Frames, call: &RunCall, channel: &ChannelState, replies: Vec<RunReply>) -> RunStep {
    let mut step = run(frames, call, channel);
    let mut warm_up = WarmUp::new();
    for reply in replies {
        step = step.advance(frames, &mut warm_up, call, reply);
    }
    step
}

const CALL: RunCall = RunCall { capture_image: IMAGE, image: IMAGE, dims: DIMS, max_frame: MAX_FRAME };

#[test]
fn an_answer_to_a_frame_of_another_size_is_discarded() {
    let mut frames = Frames::new();
    frames.inflight.dims = Some(FrameDims { width: 4, ..DIMS });
    frames.inflight.original = vec![4; 128];
    frames.inflight.raw_answer_base = vec![5; 256];
    frames.last_answer = vec![6; 256];
    frames.inflight.raw_answer_generation = 3;
    let step = answered(
        &mut frames,
        &CALL,
        &channel(true),
        vec![
            RunReply::Flag(true),
            RunReply::Polled(Some(true)),
            RunReply::Answer(vec![7; 256]),
            RunReply::Flag(false),
            RunReply::Captured(Some(vec![8; 256])),
            RunReply::Performed,
            RunReply::Flag(true),
        ],
    );
    // The new request took over, but the stale pair is not shown.
    assert_eq!(step, RunStep::EnsureCompose);
    assert_eq!(frames.inflight.dims, Some(DIMS));
    assert_eq!(frames.inflight.original, vec![8; 256]);
    assert_eq!(frames.last_answer, vec![6; 256]);
    assert_eq!(frames.inflight.raw_answer_base, vec![5; 256]);
    assert_eq!(frames.inflight.raw_answer_generation, 3);
}

#[test]
fn a_fresh_answer_is_held_with_the_frame_it_was_computed_from() {
    let mut frames = Frames::new();
    frames.inflight.dims = Some(DIMS);
    frames.inflight.original = vec![4; 256];
    frames.inflight.raw_answer_generation = u64::MAX;
    let step = answered(
        &mut frames,
        &CALL,
        &channel(true),
        vec![
            RunReply::Flag(true),
            RunReply::Polled(Some(true)),
            RunReply::Answer(vec![7; 256]),
            RunReply::Flag(false),
            RunReply::Captured(Some(vec![8; 256])),
            RunReply::Performed,
            RunReply::Flag(true),
            RunReply::Flag(true),
        ],
    );
    // The generation starts over at 1, never at 0.
    assert_eq!(step, RunStep::PresentHeld { generation: 1 });
    assert_eq!(frames.last_answer, vec![7; 256]);
    assert_eq!(frames.inflight.raw_answer_base, vec![4; 256]);
    assert_eq!(frames.inflight.original, vec![8; 256]);
    assert_eq!(frames.original_scratch, vec![4; 256]);
}

#[test]
fn only_eight_bit_answers_are_held() {
    let mut frames = Frames::new();
    let dims = FrameDims { format: RGBA16F, ..DIMS };
    frames.inflight.dims = Some(dims);
    frames.inflight.original = vec![4; 512];
    frames.inflight.raw_answer_base = vec![5; 256];
    let call = RunCall { dims, ..CALL };
    let replies = vec![
        RunReply::Flag(true),
        RunReply::Polled(Some(true)),
        RunReply::Answer(vec![7; 512]),
        RunReply::Flag(true),
    ];
    assert_eq!(answered(&mut frames, &call, &channel(true), replies), RunStep::Done(None));
    assert!(frames.last_answer.is_empty());
    assert_eq!(frames.inflight.raw_answer_generation, 0);
    // Nor does its frame take the place of the one that belongs to the held answer.
    assert_eq!(frames.inflight.raw_answer_base, vec![5; 256]);
}

#[test]
fn the_warm_up_is_not_sent_again_when_the_helper_gives_it_up() {
    let mut world = World::new();
    world.gives_up = true;
    let (mut frames, mut pool) = (Frames::new(), empty_pool());
    for _ in 0..300 {
        assert_eq!(world.present(&mut frames, &mut pool, DIMS, channel(false)), None);
        world.now += 5;
    }
    assert_eq!(world.requests, 1);
    assert_eq!(world.request_at, None);
    assert!(world.warm_up.begun);
}

#[test]
fn one_device_warms_up_for_the_whole_process() {
    let mut world = World::new();
    let (mut frames, mut pool) = (Frames::new(), empty_pool());
    while world.requests == 0 {
        world.present(&mut frames, &mut pool, DIMS, channel(false));
        world.now += 5;
    }
    world.now += HELPER_DELAY;
    world.request_at = None;
    let (mut other, mut other_pool) = (Frames::new(), empty_pool());
    for _ in 0..100 {
        assert_eq!(world.present(&mut other, &mut other_pool, DIMS, channel(false)), None);
        world.now += 5;
    }
    assert_eq!(world.requests, 1);
    assert_eq!(other_pool.pipeline, None);
}

#[test]
fn a_frame_that_is_sent_and_answered_is_held_with_its_answer() {
    let mut world = World::new();
    let (mut frames, mut pool) = (Frames::new(), empty_pool());
    world.pixels = vec![42; 256];
    while world.requests == 0 {
        world.present(&mut frames, &mut pool, DIMS, channel(true));
        world.now += 5;
    }
    // Other frames are captured before the answer comes.
    world.pixels = vec![43; 256];
    while frames.last_answer.is_empty() {
        world.present(&mut frames, &mut pool, DIMS, channel(true));
        world.now += 5;
    }
    assert_eq!(frames.last_answer, vec![200; 256]);
    assert_eq!(frames.inflight.raw_answer_base, vec![42; 256]);
    assert_eq!(frames.inflight.raw_answer_generation, 1);
    assert_eq!(world.written.last(), Some(&vec![200; 256]));
}

#[test]
fn the_cpu_writes_an_answer_of_the_images_size_only() {
    let buf = CaptureBuffer { pool: 1, cmd: 2, fence: 3, buffer: 4, memory: 5, ptr: 6, capacity: 256 };
    let mut frames = Frames::new();
    frames.last_answer = vec![7; 256];
    assert_eq!(RunStep::WriteBack.commands(&frames, &CALL, &buf), Some(write_back(IMAGE, 4, 8, 8, 3)));
    assert_eq!(RunStep::EnsureCompose.commands(&frames, &CALL, &buf), None);
    frames.last_answer.pop();
    assert_eq!(RunStep::WriteBack.commands(&frames, &CALL, &buf), None);
}

#[test]
fn a_request_that_is_still_out_or_given_up_holds_nothing() {
    for polled in [None, Some(false)] {
        let mut frames = Frames::new();
        frames.inflight.dims = Some(DIMS);
        let replies = vec![RunReply::Flag(true), RunReply::Polled(polled)];
        assert_eq!(answered(&mut frames, &CALL, &channel(true), replies), RunStep::AskFree { fresh: false });
    }
}

#[test]
fn comparison_views_and_dumps_are_processed_on_the_spot() {
    let frames = Frames::new();
    let view = ChannelState {
        settings: Some(Settings { apply_model: true, neural_enabled: true, debug_view: 2 }),
        ..channel(true)
    };
    let dump = ChannelState { capture_request: true, ..channel(true) };
    assert_eq!(run(&frames, &CALL, &view), RunStep::Synchronous);
    assert_eq!(run(&frames, &CALL, &dump), RunStep::Synchronous);
    let tapped = RunCall { capture_image: 5, ..CALL };
    assert_eq!(run(&frames, &tapped, &view), RunStep::Done(None));
    assert_eq!(run(&frames, &tapped, &dump), RunStep::Done(None));
    assert_eq!(run(&frames, &tapped, &channel(true)), RunStep::AskPending);
}

#[test]
fn a_closed_channel_or_an_unfit_frame_ends_the_call() {
    let frames = Frames::new();
    let closed = ChannelState { settings: None, ..channel(true) };
    assert_eq!(run(&frames, &CALL, &closed), RunStep::Done(None));
    let small = RunCall { max_frame: 255, ..CALL };
    assert_eq!(run(&frames, &small, &channel(true)), RunStep::Done(None));
    let hopeless = ChannelState { model_unavailable: true, ..channel(true) };
    assert_eq!(run(&frames, &CALL, &hopeless), RunStep::AskBootstrap);
    let off = ChannelState {
        settings: Some(Settings { apply_model: false, neural_enabled: true, debug_view: 0 }),
        ..channel(true)
    };
    assert_eq!(run(&frames, &CALL, &off), RunStep::AskBootstrap);
}

#[test]
fn a_new_device_has_nothing_in_flight() {
    let inflight = Inflight::default();
    assert!(inflight.original.is_empty());
    assert_eq!(inflight.dims, None);
    assert!(!inflight.bootstrap_complete);
    assert!(!inflight.bootstrap);
    assert_eq!(inflight.raw_answer_generation, 0);
    assert!(inflight.raw_answer_base.is_empty());
}

#[test]
fn the_region_is_imported_only_where_it_is_aligned() {
    let region = Some(SharedRegion { ptr: 0x2000, capacity: 0x3000 });
    assert!(use_direct(true, region, Some(0x1000)));
    assert!(!use_direct(false, region, Some(0x1000)));
    assert!(!use_direct(true, None, Some(0x1000)));
    assert!(!use_direct(true, region, None));
    assert!(!use_direct(true, region, Some(0)));
    assert!(!use_direct(true, region, Some(0x2000)));
    assert!(!use_direct(true, Some(SharedRegion { ptr: 0x2010, capacity: 0x3000 }), Some(0x1000)));
    assert_eq!(min_imported_host_pointer_alignment(0), None);
    assert_eq!(min_imported_host_pointer_alignment(64), Some(64));
}
