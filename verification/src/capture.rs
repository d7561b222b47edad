//! What happens to an image on its way to the screen.
//!
//! The helper that processes frames answers far more slowly than a game presents them. So a
//! present call never waits for it: it sends a captured frame when no request is
//! outstanding, picks up an answer when one has arrived, and puts the answer held last on
//! every image until the next one comes. [`RunStep`] says what to do next.
use vstd::prelude::*;

use crate::capture_buffer::CaptureBuffer;
use crate::commands::{
    awaited_submission, copies_in, handed_over, layout_on_queue,
    write_back_leaves_the_image_presentable, write_back_recording,
    write_backs_fill_the_whole_image, write_bytes_to_image, Command,
};
use crate::frame::{carried_bytes, frame_bytes, FrameDims};
use crate::pipeline::SharedRegion;
use crate::vulkan::LAYOUT_PRESENT_SRC;

verus! {

/// What is carried from the request sent last, over as many present calls as the helper
/// takes: the exact pixels that were sent and the size and format they were captured at.
#[derive(Debug)]
pub struct Inflight {
    pub original: Vec<u8>,
    pub dims: Option<FrameDims>,
    /// The helper has been warmed up: a request of this device was answered while processing
    /// was off, or the warm-up was answered after it was switched on.
    pub bootstrap_complete: bool,
    /// The request sent last is the warm-up. `original` is not its frame, and its answer is
    /// discarded.
    pub bootstrap: bool,
    /// The identity of the answer held; 0 before there is one.
    pub raw_answer_generation: u64,
    /// The frame the answer held was computed from.
    pub raw_answer_base: Vec<u8>,
}

impl Default for Inflight {
    fn default() -> (r: Self)
        ensures
            r.original@ == Seq::<u8>::empty(),
            r.dims is None,
            !r.bootstrap_complete,
            !r.bootstrap,
            r.raw_answer_generation == 0,
            r.raw_answer_base@ == Seq::<u8>::empty(),
    {
        Inflight {
            original: Vec::new(),
            dims: None,
            bootstrap_complete: false,
            bootstrap: false,
            raw_answer_generation: 0,
            raw_answer_base: Vec::new(),
        }
    }
}

/// The frames one device keeps between present calls.
#[derive(Debug)]
pub struct Frames {
    pub inflight: Inflight,
    /// The capture collected last.
    pub original_scratch: Vec<u8>,
    /// The answer read last.
    pub answer_scratch: Vec<u8>,
    /// The answer held, which is put on every image.
    pub last_answer: Vec<u8>,
}

/// The contents of [`Frames`].
#[verifier::ext_equal]
pub struct FramesView {
    pub original: Seq<u8>,
    pub dims: Option<FrameDims>,
    pub bootstrap_complete: bool,
    pub bootstrap: bool,
    pub generation: u64,
    pub base: Seq<u8>,
    pub original_scratch: Seq<u8>,
    pub answer_scratch: Seq<u8>,
    pub last_answer: Seq<u8>,
}

impl View for Frames {
    type V = FramesView;

    open spec fn view(&self) -> FramesView {
        FramesView {
            original: self.inflight.original@,
            dims: self.inflight.dims,
            bootstrap_complete: self.inflight.bootstrap_complete,
            bootstrap: self.inflight.bootstrap,
            generation: self.inflight.raw_answer_generation,
            base: self.inflight.raw_answer_base@,
            original_scratch: self.original_scratch@,
            answer_scratch: self.answer_scratch@,
            last_answer: self.last_answer@,
        }
    }
}

impl Frames {
    /// Before the first present.
    pub fn new() -> (r: Self)
        ensures
            r@ == FramesView::empty(),
    {
        Frames {
            inflight: Inflight::default(),
            original_scratch: Vec::new(),
            answer_scratch: Vec::new(),
            last_answer: Vec::new(),
        }
    }
}

/// The warm-up of the helper: one frame that is sent while processing is off. There is one
/// for the whole process, whichever of its devices sends it.
#[derive(Clone, Copy, Debug, PartialEq, Eq, Structural)]
pub struct WarmUp {
    /// The request was sent.
    pub begun: bool,
}

impl WarmUp {
    /// Before any device has sent it.
    pub fn new() -> (r: Self)
        ensures
            r == (WarmUp { begun: false }),
    {
        WarmUp { begun: false }
    }
}

/// The settings a present call goes by.
#[derive(Clone, Copy, Debug, PartialEq, Eq, Structural)]
pub struct Settings {
    pub apply_model: bool,
    pub neural_enabled: bool,
    /// Which comparison view is shown; 0 is none.
    pub debug_view: u32,
}

/// One present call.
#[derive(Clone, Copy, Debug, PartialEq, Eq, Structural)]
pub struct RunCall {
    /// The image that is captured: the presented one, or one that the game copied into it.
    pub capture_image: u64,
    /// The image that is presented.
    pub image: u64,
    pub dims: FrameDims,
    /// The largest frame the channel carries.
    pub max_frame: u64,
}

/// What the channel says at the start of a call. There are no settings while it is closed.
#[derive(Clone, Copy, Debug, PartialEq, Eq, Structural)]
pub struct ChannelState {
    pub settings: Option<Settings>,
    /// A dump of a frame and its result was asked for.
    pub capture_request: bool,
    /// The model will never be available.
    pub model_unavailable: bool,
}

/// What to do next.
#[derive(Clone, Copy, Debug, PartialEq, Eq, Structural)]
pub enum RunStep {
    /// Process this very frame, waiting for the helper: see [`crate::synchronous`].
    Synchronous,
    /// While processing is off: is a request outstanding?
    AskBootstrap,
    PollBootstrap,
    /// Collect or submit a capture: see [`crate::pipeline`].
    CaptureBootstrap,
    MotionBootstrap,
    BeginBootstrap,
    /// Is a request outstanding?
    AskPending,
    /// Has it been answered? Without waiting.
    PollRequest,
    ReadAnswer { bytes: u64 },
    /// Is a request outstanding now? `fresh` says that an answer was read that belongs to
    /// frames of this size.
    AskFree { fresh: bool },
    /// Collect or submit a capture: see [`crate::pipeline`].
    Capture { fresh: bool },
    /// Work out the motion of the captured frame.
    PrepareMotion { fresh: bool },
    /// Send the captured frame.
    Begin { fresh: bool },
    /// Set the compositor up, unless it is.
    EnsureCompose,
    /// Put the answer held on the image, on the GPU and without waiting.
    PresentHeld { generation: u64 },
    /// Make sure of a staging buffer: see [`crate::staging`].
    EnsureBuffers { bytes: u64 },
    /// Write the answer held to the image from the CPU.
    WriteBack,
    /// Report the frame's timing, then return this semaphore.
    Publish { semaphore: Option<u64> },
    /// Return, with the semaphore the presentation has to wait for.
    Done(Option<u64>),
}

/// What came back.
#[derive(Debug)]
pub enum RunReply {
    Performed,
    Flag(bool),
    /// `Some(true)` for an answer, `Some(false)` for a request that was given up, `None`
    /// while there is neither.
    Polled(Option<bool>),
    /// The frame, where a capture was collected.
    Captured(Option<Vec<u8>>),
    Answer(Vec<u8>),
    Semaphore(Option<u64>),
}

/// Whether captures go straight into the shared region: the device imports host memory, and
/// the region meets the device's alignment.
pub open spec fn imports_region(external_memory_host: bool, region: Option<SharedRegion>, alignment: Option<u64>) -> bool {
    &&& external_memory_host
    &&& region matches Some(region)
    &&& alignment matches Some(alignment)
    &&& alignment != 0
    &&& region.ptr % alignment == 0
    &&& region.capacity % alignment == 0
}

/// The alignment a device asks of imported host memory; 0 where it said nothing.
pub fn min_imported_host_pointer_alignment(reported: u64) -> (r: Option<u64>)
    ensures
        r == (if reported > 0 {
            Some(reported)
        } else {
            None
        }),
{
    if reported > 0 {
        Some(reported)
    } else {
        None
    }
}

/// Decides how this call captures, see [`imports_region`].
pub fn use_direct(external_memory_host: bool, region: Option<SharedRegion>, alignment: Option<u64>) -> (r: bool)
    ensures
        r == imports_region(external_memory_host, region, alignment),
{
    match (region, alignment) {
        (Some(region), Some(alignment)) => external_memory_host && alignment != 0 && region.ptr
            % alignment == 0 && region.capacity % alignment == 0,
        _ => false,
    }
}

/// The generation after this one. It never becomes 0 again.
pub open spec fn generation_after(generation: u64) -> u64 {
    if generation == u64::MAX {
        1
    } else {
        (generation + 1) as u64
    }
}

impl ChannelState {
    /// This frame has to be processed on the spot: a comparison view or a dump needs the
    /// frame and its own answer.
    pub open spec fn wants_synchronous(&self) -> bool {
        self.settings matches Some(s) && (s.debug_view != 0 || self.capture_request)
    }

    /// No one will use a captured frame.
    pub open spec fn disabled(&self) -> bool {
        self.settings matches Some(s) && (!s.apply_model || !s.neural_enabled
            || self.model_unavailable)
    }
}

impl FramesView {
    pub open spec fn empty() -> FramesView {
        FramesView {
            original: seq![],
            dims: None,
            bootstrap_complete: false,
            bootstrap: false,
            generation: 0,
            base: seq![],
            original_scratch: seq![],
            answer_scratch: seq![],
            last_answer: seq![],
        }
    }

    /// The answer read last becomes the one held.
    pub open spec fn held(self) -> FramesView {
        FramesView {
            last_answer: self.answer_scratch,
            generation: generation_after(self.generation),
            ..self
        }
    }

    /// A request was sent for the capture collected last.
    pub open spec fn sent(self, dims: FrameDims) -> FramesView {
        FramesView {
            original: self.original_scratch,
            original_scratch: self.original,
            dims: Some(dims),
            bootstrap: false,
            ..self
        }
    }

    /// An answer was read. Where the request was of another size or format, or of one that is
    /// not held, its frame and the answer are not kept either.
    pub open spec fn answered(self, answer: Seq<u8>, dims: FrameDims) -> FramesView {
        FramesView {
            answer_scratch: answer,
            base: if self.dims == Some(dims) && dims.format.eight_bit {
                self.original
            } else {
                self.base
            },
            ..self
        }
    }
}

impl FramesView {
    /// Sending is over: hold a fresh answer, then put what is held on the image.
    pub open spec fn presenting(self, call: RunCall, fresh: bool) -> (RunStep, FramesView) {
        let frames = if fresh && call.dims.format.eight_bit {
            self.held()
        } else {
            self
        };
        (
            if frames.last_answer.len() == 0 {
                RunStep::Done(None)
            } else {
                RunStep::EnsureCompose
            },
            frames,
        )
    }

    /// The first step of a call.
    pub open spec fn first_step(self, call: RunCall, channel: ChannelState) -> RunStep {
        if channel.settings is None {
            RunStep::Done(None)
        } else if channel.wants_synchronous() {
            if call.capture_image == call.image {
                RunStep::Synchronous
            } else {
                RunStep::Done(None)
            }
        } else if !call.dims.carried_by(call.max_frame) {
            RunStep::Done(None)
        } else if channel.disabled() {
            if self.bootstrap_complete {
                RunStep::Done(None)
            } else {
                RunStep::AskBootstrap
            }
        } else {
            RunStep::AskPending
        }
    }
}

/// Where a present call stands.
#[verifier::ext_equal]
pub struct RunState {
    pub step: RunStep,
    pub frames: FramesView,
    pub warm_up: WarmUp,
}

impl RunState {
    pub open spec fn at(self, step: RunStep) -> RunState {
        RunState { step, ..self }
    }

    /// Sending is over.
    pub open spec fn presenting(self, call: RunCall, fresh: bool) -> RunState {
        let (step, frames) = self.frames.presenting(call, fresh);
        RunState { step, frames, ..self }
    }

    /// The first step of a call.
    pub open spec fn start(frames: FramesView, warm_up: WarmUp, call: RunCall, channel: ChannelState) -> RunState {
        RunState { step: frames.first_step(call, channel), frames, warm_up }
    }

    /// The state once the pending step has been answered. What a step did not ask for
    /// counts as a failure.
    pub open spec fn after(self, call: RunCall, reply: RunReply) -> RunState {
        let done = self.at(RunStep::Done(None));
        match self.step {
            RunStep::Done(_) => self,
            RunStep::Synchronous => match reply {
                RunReply::Semaphore(semaphore) => self.at(RunStep::Done(semaphore)),
                _ => done,
            },
            RunStep::AskBootstrap => match reply {
                RunReply::Flag(true) => self.at(RunStep::PollBootstrap),
                RunReply::Flag(false) => if self.warm_up.begun {
                    done
                } else {
                    self.at(RunStep::CaptureBootstrap)
                },
                _ => done,
            },
            RunStep::PollBootstrap => match reply {
                RunReply::Polled(Some(true)) => RunState {
                    step: RunStep::Done(None),
                    frames: FramesView { bootstrap_complete: true, ..self.frames },
                    ..self
                },
                _ => done,
            },
            RunStep::CaptureBootstrap => match reply {
                RunReply::Captured(Some(bytes)) => RunState {
                    step: RunStep::MotionBootstrap,
                    frames: FramesView { original_scratch: bytes@, ..self.frames },
                    ..self
                },
                _ => done,
            },
            RunStep::MotionBootstrap => self.at(RunStep::BeginBootstrap),
            RunStep::BeginBootstrap => match reply {
                RunReply::Flag(true) => RunState {
                    step: RunStep::Done(None),
                    frames: FramesView { dims: Some(call.dims), bootstrap: true, ..self.frames },
                    warm_up: WarmUp { begun: true },
                },
                _ => done,
            },
            RunStep::AskPending => match reply {
                RunReply::Flag(true) => self.at(RunStep::PollRequest),
                _ => self.at(RunStep::AskFree { fresh: false }),
            },
            RunStep::PollRequest => match reply {
                RunReply::Polled(Some(true)) => if self.frames.bootstrap {
                    RunState {
                        step: RunStep::AskFree { fresh: false },
                        frames: FramesView { bootstrap_complete: true, ..self.frames },
                        ..self
                    }
                } else {
                    self.at(RunStep::ReadAnswer { bytes: call.dims.bytes() as u64 })
                },
                _ => self.at(RunStep::AskFree { fresh: false }),
            },
            RunStep::ReadAnswer { .. } => match reply {
                RunReply::Answer(answer) => RunState {
                    step: RunStep::AskFree { fresh: self.frames.dims == Some(call.dims) },
                    frames: self.frames.answered(answer@, call.dims),
                    ..self
                },
                _ => self.at(RunStep::AskFree { fresh: false }),
            },
            RunStep::AskFree { fresh } => match reply {
                RunReply::Flag(false) => self.at(RunStep::Capture { fresh }),
                _ => self.presenting(call, fresh),
            },
            RunStep::Capture { fresh } => match reply {
                RunReply::Captured(Some(bytes)) => RunState {
                    step: RunStep::PrepareMotion { fresh },
                    frames: FramesView { original_scratch: bytes@, ..self.frames },
                    ..self
                },
                _ => self.presenting(call, fresh),
            },
            RunStep::PrepareMotion { fresh } => self.at(RunStep::Begin { fresh }),
            RunStep::Begin { fresh } => match reply {
                RunReply::Flag(true) => (RunState {
                    frames: self.frames.sent(call.dims),
                    ..self
                }).presenting(call, fresh),
                _ => self.presenting(call, fresh),
            },
            RunStep::EnsureCompose => match reply {
                RunReply::Flag(true) => self.at(
                    RunStep::PresentHeld { generation: self.frames.generation },
                ),
                _ => self.at(RunStep::EnsureBuffers { bytes: call.dims.bytes() as u64 }),
            },
            RunStep::PresentHeld { .. } => match reply {
                RunReply::Semaphore(Some(semaphore)) => self.at(
                    RunStep::Publish { semaphore: Some(semaphore) },
                ),
                _ => self.at(RunStep::EnsureBuffers { bytes: call.dims.bytes() as u64 }),
            },
            RunStep::EnsureBuffers { .. } => match reply {
                RunReply::Flag(true) => self.at(RunStep::WriteBack),
                _ => done,
            },
            RunStep::WriteBack => self.at(RunStep::Publish { semaphore: None }),
            RunStep::Publish { semaphore } => self.at(RunStep::Done(semaphore)),
        }
    }
}

impl Frames {
    /// Sending is over: hold a fresh answer, then put what is held on the image.
    fn present(&mut self, call: &RunCall, fresh: bool) -> (r: RunStep)
        ensures
            (r, final(self)@) == old(self)@.presenting(*call, fresh),
    {
        if fresh && call.dims.format.eight_bit {
            self.last_answer = self.answer_scratch.clone();
            self.inflight.raw_answer_generation = if self.inflight.raw_answer_generation
                == u64::MAX {
                1
            } else {
                self.inflight.raw_answer_generation + 1
            };
        }
        if self.last_answer.len() == 0 {
            RunStep::Done(None)
        } else {
            RunStep::EnsureCompose
        }
    }
}

/// The first step of a present call.
pub fn run(frames: &Frames, call: &RunCall, channel: &ChannelState) -> (r: RunStep)
    ensures
        r == frames@.first_step(*call, *channel),
{
    let settings = match channel.settings {
        Some(settings) => settings,
        None => return RunStep::Done(None),
    };
    if settings.debug_view != 0 || channel.capture_request {
        return if call.capture_image == call.image {
            RunStep::Synchronous
        } else {
            RunStep::Done(None)
        };
    }
    if carried_bytes(&call.dims, call.max_frame).is_none() {
        return RunStep::Done(None);
    }
    if !settings.apply_model || !settings.neural_enabled || channel.model_unavailable {
        if frames.inflight.bootstrap_complete {
            RunStep::Done(None)
        } else {
            RunStep::AskBootstrap
        }
    } else {
        RunStep::AskPending
    }
}

impl RunStep {
    /// The commands that a step stands for, on the staging buffer: the write from the CPU of
    /// an answer that has exactly the image's four bytes per pixel. One of another size is
    /// not written, and no other step records anything.
    pub open spec fn recorded(self, frames: FramesView, call: RunCall, buf: CaptureBuffer) -> Option<
        Seq<Command>,
    > {
        let (width, height) = (call.dims.width, call.dims.height);
        if self is WriteBack && frames.last_answer.len() == width * height * 4 {
            Some(
                write_back_recording(call.image, buf.buffer, width, height) + awaited_submission(
                    buf.fence,
                ),
            )
        } else {
            None
        }
    }

    /// The commands that this step stands for.
    pub fn commands(&self, frames: &Frames, call: &RunCall, buf: &CaptureBuffer) -> (r: Option<
        Vec<Command>,
    >)
        ensures
            (match r {
                Some(commands) => Some(commands@),
                None => None,
            }) == self.recorded(frames@, *call, *buf),
    {
        match *self {
            RunStep::WriteBack => write_bytes_to_image(
                frames.last_answer.len(),
                call.image,
                buf.buffer,
                call.dims.width,
                call.dims.height,
                buf.fence,
            ),
            _ => None,
        }
    }

    /// The next step, from the answer to this one.
    pub fn advance(self, frames: &mut Frames, warm_up: &mut WarmUp, call: &RunCall, reply: RunReply) -> (r: RunStep)
        requires
            call.dims.bytes() <= u64::MAX,
        ensures
            (RunState { step: r, frames: final(frames)@, warm_up: *final(warm_up) }) == (RunState {
                step: self,
                frames: old(frames)@,
                warm_up: *old(warm_up),
            }).after(*call, reply),
    {
        let bytes = match frame_bytes(&call.dims) {
            Some(bytes) => bytes,
            None => 0,
        };
        match self {
            RunStep::Done(_) => self,
            RunStep::Synchronous => match reply {
                RunReply::Semaphore(semaphore) => RunStep::Done(semaphore),
                _ => RunStep::Done(None),
            },
            RunStep::AskBootstrap => match reply {
                RunReply::Flag(true) => RunStep::PollBootstrap,
                RunReply::Flag(false) => if warm_up.begun {
                    RunStep::Done(None)
                } else {
                    RunStep::CaptureBootstrap
                },
                _ => RunStep::Done(None),
            },
            RunStep::PollBootstrap => {
                if let RunReply::Polled(Some(true)) = reply {
                    frames.inflight.bootstrap_complete = true;
                }
                RunStep::Done(None)
            },
            RunStep::CaptureBootstrap => match reply {
                RunReply::Captured(Some(captured)) => {
                    frames.original_scratch = captured;
                    RunStep::MotionBootstrap
                },
                _ => RunStep::Done(None),
            },
            RunStep::MotionBootstrap => RunStep::BeginBootstrap,
            RunStep::BeginBootstrap => {
                if let RunReply::Flag(true) = reply {
                    frames.inflight.dims = Some(call.dims);
                    frames.inflight.bootstrap = true;
                    warm_up.begun = true;
                }
                RunStep::Done(None)
            },
            RunStep::AskPending => match reply {
                RunReply::Flag(true) => RunStep::PollRequest,
                _ => RunStep::AskFree { fresh: false },
            },
            RunStep::PollRequest => match reply {
                RunReply::Polled(Some(true)) => if frames.inflight.bootstrap {
                    frames.inflight.bootstrap_complete = true;
                    RunStep::AskFree { fresh: false }
                } else {
                    RunStep::ReadAnswer { bytes }
                },
                _ => RunStep::AskFree { fresh: false },
            },
            RunStep::ReadAnswer { .. } => match reply {
                RunReply::Answer(answer) => {
                    frames.answer_scratch = answer;
                    let fresh = match frames.inflight.dims {
                        Some(dims) => dims == call.dims,
                        None => false,
                    };
                    if fresh && call.dims.format.eight_bit {
                        frames.inflight.raw_answer_base = frames.inflight.original.clone();
                    }
                    RunStep::AskFree { fresh }
                },
                _ => RunStep::AskFree { fresh: false },
            },
            RunStep::AskFree { fresh } => match reply {
                RunReply::Flag(false) => RunStep::Capture { fresh },
                _ => frames.present(call, fresh),
            },
            RunStep::Capture { fresh } => match reply {
                RunReply::Captured(Some(captured)) => {
                    frames.original_scratch = captured;
                    RunStep::PrepareMotion { fresh }
                },
                _ => frames.present(call, fresh),
            },
            RunStep::PrepareMotion { fresh } => RunStep::Begin { fresh },
            RunStep::Begin { fresh } => {
                if let RunReply::Flag(true) = reply {
                    std::mem::swap(&mut frames.inflight.original, &mut frames.original_scratch);
                    frames.inflight.dims = Some(call.dims);
                    frames.inflight.bootstrap = false;
                }
                frames.present(call, fresh)
            },
            RunStep::EnsureCompose => match reply {
                RunReply::Flag(true) => RunStep::PresentHeld {
                    generation: frames.inflight.raw_answer_generation,
                },
                _ => RunStep::EnsureBuffers { bytes },
            },
            RunStep::PresentHeld { .. } => match reply {
                RunReply::Semaphore(Some(semaphore)) => RunStep::Publish {
                    semaphore: Some(semaphore),
                },
                _ => RunStep::EnsureBuffers { bytes },
            },
            RunStep::EnsureBuffers { .. } => match reply {
                RunReply::Flag(true) => RunStep::WriteBack,
                _ => RunStep::Done(None),
            },
            RunStep::WriteBack => RunStep::Publish { semaphore: None },
            RunStep::Publish { semaphore } => RunStep::Done(semaphore),
        }
    }
}

/// Where a present call stands after a run of answers.
pub open spec fn presented(frames: FramesView, warm_up: WarmUp, call: RunCall, channel: ChannelState, replies: Seq<RunReply>) -> RunState
    decreases replies.len(),
{
    if replies.len() == 0 {
        RunState::start(frames, warm_up, call, channel)
    } else {
        presented(frames, warm_up, call, channel, replies.drop_last()).after(call, replies.last())
    }
}

/// Any twelve answers bring a present call to its end.
pub proof fn present_finishes(frames: FramesView, warm_up: WarmUp, call: RunCall, channel: ChannelState, replies: Seq<RunReply>)
    requires
        replies.len() >= 12,
    ensures
        presented(frames, warm_up, call, channel, replies).step is Done,
{
    lemma_steps_left(frames, warm_up, call, channel, replies);
}

/// How many answers are left at most.
spec fn steps_left(step: RunStep) -> int {
    match step {
        RunStep::AskPending => 12,
        RunStep::PollRequest => 11,
        RunStep::ReadAnswer { .. } => 10,
        RunStep::AskFree { .. } => 9,
        RunStep::Capture { .. } => 8,
        RunStep::PrepareMotion { .. } => 7,
        RunStep::Begin { .. } => 6,
        RunStep::EnsureCompose => 5,
        RunStep::PresentHeld { .. } => 4,
        RunStep::EnsureBuffers { .. } => 3,
        RunStep::WriteBack => 2,
        RunStep::Publish { .. } => 1,
        RunStep::AskBootstrap => 4,
        RunStep::PollBootstrap => 1,
        RunStep::CaptureBootstrap => 3,
        RunStep::MotionBootstrap => 2,
        RunStep::BeginBootstrap => 1,
        RunStep::Synchronous => 1,
        RunStep::Done(_) => 0,
    }
}

proof fn lemma_one_step(state: RunState, call: RunCall, reply: RunReply)
    ensures
        state.step is Done ==> state.after(call, reply) == state,
        !(state.step is Done) ==> steps_left(state.after(call, reply).step) < steps_left(
            state.step,
        ),
{
}

proof fn lemma_steps_left(frames: FramesView, warm_up: WarmUp, call: RunCall, channel: ChannelState, replies: Seq<RunReply>)
    ensures
        steps_left(presented(frames, warm_up, call, channel, replies).step) <= 12 - replies.len()
            || presented(frames, warm_up, call, channel, replies).step is Done,
    decreases replies.len(),
{
    if replies.len() > 0 {
        let front = replies.drop_last();
        lemma_steps_left(frames, warm_up, call, channel, front);
        lemma_one_step(presented(frames, warm_up, call, channel, front), call, replies.last());
    }
}

/// A step that reaches the image itself, to write it.
pub open spec fn touches_image(step: RunStep) -> bool {
    step is Synchronous || step is PresentHeld || step is WriteBack
}

/// A step that looks at the image, to capture it.
pub open spec fn captures_image(step: RunStep) -> bool {
    step is Capture || step is CaptureBootstrap
}

/// A step that sends a request.
pub open spec fn sends_request(step: RunStep) -> bool {
    step is Begin || step is BeginBootstrap
}

/// A present call waits for the helper only where a comparison view or a dump was asked
/// for, and then only if the presented image is the one captured.
pub proof fn present_never_waits_for_the_helper(
    frames: FramesView,
    warm_up: WarmUp,
    call: RunCall,
    channel: ChannelState,
    replies: Seq<RunReply>,
)
    ensures
        presented(frames, warm_up, call, channel, replies).step is Synchronous ==> channel.wants_synchronous()
            && call.capture_image == call.image && replies.len() == 0,
    decreases replies.len(),
{
    if replies.len() > 0 {
        present_never_waits_for_the_helper(frames, warm_up, call, channel, replies.drop_last());
    }
}

/// A frame is captured before anything is put on the image: once a call has written the
/// image, it captures nothing, so no capture ever holds the layer's own output.
pub proof fn captures_precede_writes(
    frames: FramesView,
    warm_up: WarmUp,
    call: RunCall,
    channel: ChannelState,
    replies: Seq<RunReply>,
    written: int,
)
    requires
        0 <= written <= replies.len(),
        touches_image(presented(frames, warm_up, call, channel, replies.take(written)).step),
    ensures
        !captures_image(presented(frames, warm_up, call, channel, replies).step),
{
    lemma_writing_goes_on(frames, warm_up, call, channel, replies, written);
}

/// The steps from the first one that prepares a write on.
spec fn writing(step: RunStep) -> bool {
    touches_image(step) || step is EnsureBuffers || step is Publish || step is Done
}

proof fn lemma_writing_goes_on(
    frames: FramesView,
    warm_up: WarmUp,
    call: RunCall,
    channel: ChannelState,
    replies: Seq<RunReply>,
    written: int,
)
    requires
        0 <= written <= replies.len(),
        writing(presented(frames, warm_up, call, channel, replies.take(written)).step),
    ensures
        writing(presented(frames, warm_up, call, channel, replies).step),
    decreases replies.len(),
{
    if written == replies.len() {
        assert(replies.take(written) =~= replies);
    } else {
        assert(replies.drop_last().take(written) =~= replies.take(written));
        lemma_writing_goes_on(frames, warm_up, call, channel, replies.drop_last(), written);
    }
}

/// A write from the CPU that fails leaves an image that can be presented: however far its
/// commands get, the queue leaves the image in the layout it is presented in.
pub proof fn cpu_writes_leave_the_image_presentable(
    step: RunStep,
    frames: FramesView,
    call: RunCall,
    buf: CaptureBuffer,
    done: int,
)
    requires
        step.recorded(frames, call, buf) matches Some(commands) && 0 <= done <= commands.len(),
    ensures
        step.recorded(frames, call, buf) matches Some(commands) && layout_on_queue(
            commands.take(done),
            call.image,
            LAYOUT_PRESENT_SRC,
        ) == Some(LAYOUT_PRESENT_SRC),
{
    write_back_leaves_the_image_presentable(
        call.image,
        buf.buffer,
        call.dims.width,
        call.dims.height,
        buf.fence,
        done,
    );
}

/// Answer number `j` says that no request is outstanding.
pub open spec fn found_free(
    frames: FramesView,
    warm_up: WarmUp,
    call: RunCall,
    channel: ChannelState,
    replies: Seq<RunReply>,
    j: int,
) -> bool {
    let step = presented(frames, warm_up, call, channel, replies.take(j)).step;
    &&& 0 <= j < replies.len()
    &&& step is AskFree || step is AskBootstrap
    &&& replies[j] == RunReply::Flag(false)
}

/// At most one request is outstanding: a call captures for, and sends, a request only after
/// the channel has said in this call that there is none.
pub proof fn requests_are_sent_one_at_a_time(
    frames: FramesView,
    warm_up: WarmUp,
    call: RunCall,
    channel: ChannelState,
    replies: Seq<RunReply>,
)
    ensures
        ({
            let step = presented(frames, warm_up, call, channel, replies).step;
            captures_image(step) || sends_request(step) ==> exists|j: int| #[trigger]
                found_free(frames, warm_up, call, channel, replies, j)
        }),
{
    lemma_free(frames, warm_up, call, channel, replies);
}

proof fn lemma_free(frames: FramesView, warm_up: WarmUp, call: RunCall, channel: ChannelState, replies: Seq<RunReply>)
    ensures
        ({
            let step = presented(frames, warm_up, call, channel, replies).step;
            captures_image(step) || step is PrepareMotion || step is MotionBootstrap
                || sends_request(step) ==> exists|j: int| #[trigger]
                found_free(frames, warm_up, call, channel, replies, j)
        }),
    decreases replies.len(),
{
    if replies.len() > 0 {
        let n = replies.len() - 1;
        let front = replies.drop_last();
        lemma_free(frames, warm_up, call, channel, front);
        assert(replies.take(n) =~= front);
        let step = presented(frames, warm_up, call, channel, replies).step;
        if captures_image(step) {
            assert(found_free(frames, warm_up, call, channel, replies, n));
        } else if step is PrepareMotion || step is MotionBootstrap || sends_request(step) {
            let j = choose|j: int| #[trigger] found_free(frames, warm_up, call, channel, front, j);
            assert(replies.take(j) =~= front.take(j));
            assert(found_free(frames, warm_up, call, channel, replies, j));
        }
    }
}

/// While processing is off, a present call leaves the image alone, holds no answer and
/// returns no semaphore. It keeps the generation, the answer held and the frame that
/// belongs to it.
pub proof fn disabled_leaves_the_image_alone(
    frames: FramesView,
    warm_up: WarmUp,
    call: RunCall,
    channel: ChannelState,
    replies: Seq<RunReply>,
)
    requires
        channel.disabled(),
        !channel.wants_synchronous(),
    ensures
        ({
            let now = presented(frames, warm_up, call, channel, replies);
            &&& !touches_image(now.step)
            &&& now.step matches RunStep::Done(semaphore) ==> semaphore is None
            &&& now.frames.last_answer == frames.last_answer
            &&& now.frames.generation == frames.generation
            &&& now.frames.base == frames.base
            &&& now.frames.original == frames.original
        }),
{
    lemma_disabled(frames, warm_up, call, channel, replies);
}

/// The steps of a call while processing is off.
spec fn bootstrapping(step: RunStep) -> bool {
    step is AskBootstrap || step is PollBootstrap || step is CaptureBootstrap
        || step is MotionBootstrap || step is BeginBootstrap || step == RunStep::Done(None)
}

proof fn lemma_disabled(frames: FramesView, warm_up: WarmUp, call: RunCall, channel: ChannelState, replies: Seq<RunReply>)
    requires
        channel.disabled(),
        !channel.wants_synchronous(),
    ensures
        ({
            let now = presented(frames, warm_up, call, channel, replies);
            &&& bootstrapping(now.step)
            &&& now.frames.last_answer == frames.last_answer
            &&& now.frames.generation == frames.generation
            &&& now.frames.base == frames.base
            &&& now.frames.original == frames.original
        }),
    decreases replies.len(),
{
    if replies.len() > 0 {
        lemma_disabled(frames, warm_up, call, channel, replies.drop_last());
    }
}

/// The warm-up is over once it has been answered: after that, a call with processing off
/// captures nothing, sends nothing and changes nothing; and nothing ever takes the answer
/// back.
pub proof fn warm_up_happens_once(
    frames: FramesView,
    warm_up: WarmUp,
    call: RunCall,
    channel: ChannelState,
    replies: Seq<RunReply>,
)
    requires
        frames.bootstrap_complete,
    ensures
        presented(frames, warm_up, call, channel, replies).frames.bootstrap_complete,
        channel.disabled() && !channel.wants_synchronous() ==> presented(
            frames,
            warm_up,
            call,
            channel,
            replies,
        ) == (RunState { step: RunStep::Done(None), frames, warm_up }),
    decreases replies.len(),
{
    if replies.len() > 0 {
        warm_up_happens_once(frames, warm_up, call, channel, replies.drop_last());
    }
}

/// Answer number `j` is an answer of the helper with these bytes, to a request of this
/// call's own size and format that was no warm-up.
pub open spec fn matching_answer(
    frames: FramesView,
    warm_up: WarmUp,
    call: RunCall,
    channel: ChannelState,
    replies: Seq<RunReply>,
    j: int,
    answer: Seq<u8>,
) -> bool {
    &&& 0 <= j < replies.len()
    &&& presented(frames, warm_up, call, channel, replies.take(j)).step is ReadAnswer
    &&& replies[j] matches RunReply::Answer(a)
    &&& a@ == answer
    &&& frames.dims == Some(call.dims)
    &&& !frames.bootstrap
    &&& call.dims.format.eight_bit
}

/// The answer held changes only for a new one that fits: an eight-bit answer to a request
/// of this call's size and format that was no warm-up. It then comes with the next
/// generation and with the frame that was sent for it; otherwise all three are as they were
/// when the call ends. A resize between request and answer thus never mixes frames of two
/// sizes.
pub proof fn held_answers_match_their_frames(
    frames: FramesView,
    warm_up: WarmUp,
    call: RunCall,
    channel: ChannelState,
    replies: Seq<RunReply>,
)
    ensures
        ({
            let state = presented(frames, warm_up, call, channel, replies);
            let now = state.frames;
            ||| {
                &&& now.last_answer == frames.last_answer
                &&& now.generation == frames.generation
                &&& state.step is Done ==> now.base == frames.base
            }
            ||| {
                &&& exists|j: int| #[trigger]
                    matching_answer(frames, warm_up, call, channel, replies, j, now.last_answer)
                &&& now.generation == generation_after(frames.generation)
                &&& now.base == frames.original
            }
        }),
        frames.dims != Some(call.dims) || frames.bootstrap ==> presented(
            frames,
            warm_up,
            call,
            channel,
            replies,
        ).frames.base == frames.base,
{
    lemma_held(frames, warm_up, call, channel, replies);
}

/// What holds of the frames on the way to the write.
spec fn on_the_way(
    frames: FramesView,
    warm_up: WarmUp,
    call: RunCall,
    channel: ChannelState,
    replies: Seq<RunReply>,
    fresh: bool,
) -> bool {
    let now = presented(frames, warm_up, call, channel, replies).frames;
    &&& now.last_answer == frames.last_answer
    &&& now.generation == frames.generation
    &&& fresh ==> frames.dims == Some(call.dims) && !frames.bootstrap
    &&& if fresh && call.dims.format.eight_bit {
        &&& now.base == frames.original
        &&& exists|j: int| #[trigger]
            matching_answer(frames, warm_up, call, channel, replies, j, now.answer_scratch)
    } else {
        now.base == frames.base
    }
}

/// The answer held, its number and its frame are as they were, or all three are new.
spec fn kept_or_replaced(
    frames: FramesView,
    warm_up: WarmUp,
    call: RunCall,
    channel: ChannelState,
    replies: Seq<RunReply>,
) -> bool {
    let now = presented(frames, warm_up, call, channel, replies).frames;
    ||| now.last_answer == frames.last_answer && now.generation == frames.generation && now.base
        == frames.base
    ||| {
        &&& exists|j: int| #[trigger]
            matching_answer(frames, warm_up, call, channel, replies, j, now.last_answer)
        &&& now.generation == generation_after(frames.generation)
        &&& now.base == frames.original
    }
}

proof fn lemma_held(frames: FramesView, warm_up: WarmUp, call: RunCall, channel: ChannelState, replies: Seq<RunReply>)
    ensures
        ({
            let state = presented(frames, warm_up, call, channel, replies);
            let now = state.frames;
            &&& frames.dims != Some(call.dims) || frames.bootstrap ==> now.base == frames.base
            &&& match state.step {
                RunStep::AskPending | RunStep::PollRequest => now == frames,
                RunStep::ReadAnswer { .. } => now == frames && !frames.bootstrap,
                RunStep::AskFree { fresh }
                | RunStep::Capture { fresh }
                | RunStep::PrepareMotion { fresh }
                | RunStep::Begin { fresh } => on_the_way(frames, warm_up, call, channel, replies, fresh),
                _ => kept_or_replaced(frames, warm_up, call, channel, replies),
            }
        }),
    decreases replies.len(),
{
    if replies.len() > 0 {
        let n = replies.len() - 1;
        let front = replies.drop_last();
        let before = presented(frames, warm_up, call, channel, front);
        let now = presented(frames, warm_up, call, channel, replies);
        lemma_held(frames, warm_up, call, channel, front);
        assert(replies.take(n) =~= front);
        assert forall|j: int, answer: Seq<u8>| #[trigger]
            matching_answer(frames, warm_up, call, channel, front, j, answer) implies matching_answer(
            frames,
            warm_up,
            call,
            channel,
            replies,
            j,
            answer,
        ) by {
            assert(replies.take(j) =~= front.take(j));
        }
        if before.step is ReadAnswer && replies.last() is Answer && frames.dims == Some(call.dims)
            && call.dims.format.eight_bit {
            assert(matching_answer(
                frames,
                warm_up,
                call,
                channel,
                replies,
                n,
                now.frames.answer_scratch,
            ));
        }
        match before.step {
            RunStep::AskFree { fresh }
            | RunStep::Capture { fresh }
            | RunStep::PrepareMotion { fresh }
            | RunStep::Begin { fresh } => {
                assert(on_the_way(frames, warm_up, call, channel, front, fresh));
                if fresh && call.dims.format.eight_bit {
                    let j = choose|j: int| #[trigger]
                        matching_answer(
                            frames,
                            warm_up,
                            call,
                            channel,
                            front,
                            j,
                            before.frames.answer_scratch,
                        );
                    assert(matching_answer(
                        frames,
                        warm_up,
                        call,
                        channel,
                        replies,
                        j,
                        before.frames.answer_scratch,
                    ));
                    assert(now.frames.answer_scratch == before.frames.answer_scratch);
                    assert(matching_answer(
                        frames,
                        warm_up,
                        call,
                        channel,
                        replies,
                        j,
                        now.frames.answer_scratch,
                    ));
                    if !(now.step is Capture || now.step is PrepareMotion || now.step is Begin) {
                        assert(now.frames.last_answer == now.frames.answer_scratch);
                    }
                }
            },
            _ => {},
        }
        match now.step {
            RunStep::AskFree { fresh }
            | RunStep::Capture { fresh }
            | RunStep::PrepareMotion { fresh }
            | RunStep::Begin { fresh } => {
                assert(on_the_way(frames, warm_up, call, channel, replies, fresh));
            },
            RunStep::AskPending | RunStep::PollRequest | RunStep::ReadAnswer { .. } => {},
            _ => {
                assert(kept_or_replaced(frames, warm_up, call, channel, replies));
            },
        }
    }
}

/// The answer to the warm-up is discarded: whether processing is still off when it comes or
/// was switched on meanwhile, it is never held and never shown. The calls after the warm-up
/// was sent keep the answer held and its frame, until a request of their own is answered.
pub proof fn warm_up_answers_are_discarded(
    frames: FramesView,
    warm_up: WarmUp,
    call: RunCall,
    channel: ChannelState,
    replies: Seq<RunReply>,
    later_warm_up: WarmUp,
    later: RunCall,
    later_channel: ChannelState,
    later_replies: Seq<RunReply>,
)
    requires
        presented(frames, warm_up, call, channel, replies).step is BeginBootstrap,
    ensures
        ({
            let sent = presented(frames, warm_up, call, channel, replies.push(RunReply::Flag(true)));
            let now = presented(
                sent.frames,
                later_warm_up,
                later,
                later_channel,
                later_replies,
            ).frames;
            &&& sent.step == RunStep::Done(None)
            &&& now.last_answer == sent.frames.last_answer
            &&& now.generation == sent.frames.generation
            &&& now.base == sent.frames.base
        }),
{
    let all = replies.push(RunReply::Flag(true));
    assert(all.drop_last() =~= replies);
    let sent = presented(frames, warm_up, call, channel, all).frames;
    assert(sent.bootstrap);
    held_answers_match_their_frames(sent, later_warm_up, later, later_channel, later_replies);
}

/// What is kept of a request belongs to it: once a frame was sent, the frame kept is the one
/// captured for the request, in this call's size and format.
pub proof fn sent_frames_are_kept(
    frames: FramesView,
    warm_up: WarmUp,
    call: RunCall,
    channel: ChannelState,
    replies: Seq<RunReply>,
)
    requires
        presented(frames, warm_up, call, channel, replies).step is Begin,
    ensures
        ({
            let before = presented(frames, warm_up, call, channel, replies).frames;
            let sent = presented(frames, warm_up, call, channel, replies.push(RunReply::Flag(true))).frames;
            &&& sent.original == before.original_scratch
            &&& sent.dims == Some(call.dims)
            &&& !sent.bootstrap
        }),
{
    assert(replies.push(RunReply::Flag(true)).drop_last() =~= replies);
}

/// The presentation has to wait for a semaphore exactly where the GPU gave one: a call that
/// returns a semaphore was given it by the compositor or by the synchronous path, and a
/// call that was given one returns it.
pub proof fn semaphores_come_from_the_gpu(
    frames: FramesView,
    warm_up: WarmUp,
    call: RunCall,
    channel: ChannelState,
    replies: Seq<RunReply>,
)
    ensures
        presented(frames, warm_up, call, channel, replies).step matches RunStep::Done(Some(semaphore))
            ==> exists|j: int| #[trigger]
            gave_semaphore(frames, warm_up, call, channel, replies, j, semaphore),
        forall|j: int, semaphore: u64| #[trigger]
            gave_semaphore(frames, warm_up, call, channel, replies, j, semaphore) && presented(
                frames,
                warm_up,
                call,
                channel,
                replies,
            ).step is Done ==> presented(frames, warm_up, call, channel, replies).step == RunStep::Done(
                Some(semaphore),
            ),
{
    lemma_semaphore(frames, warm_up, call, channel, replies);
    assert forall|j: int, semaphore: u64| #[trigger]
        gave_semaphore(frames, warm_up, call, channel, replies, j, semaphore) && presented(
            frames,
            warm_up,
            call,
            channel,
            replies,
        ).step is Done implies presented(frames, warm_up, call, channel, replies).step == RunStep::Done(
        Some(semaphore),
    ) by {
        lemma_semaphore_kept(frames, warm_up, call, channel, replies, j, semaphore);
    }
}

/// Answer number `j` is the semaphore of a composition that was submitted.
pub open spec fn gave_semaphore(
    frames: FramesView,
    warm_up: WarmUp,
    call: RunCall,
    channel: ChannelState,
    replies: Seq<RunReply>,
    j: int,
    semaphore: u64,
) -> bool {
    let step = presented(frames, warm_up, call, channel, replies.take(j)).step;
    &&& 0 <= j < replies.len()
    &&& step is PresentHeld || step is Synchronous
    &&& replies[j] == RunReply::Semaphore(Some(semaphore))
}

proof fn lemma_semaphore_kept(
    frames: FramesView,
    warm_up: WarmUp,
    call: RunCall,
    channel: ChannelState,
    replies: Seq<RunReply>,
    j: int,
    semaphore: u64,
)
    requires
        gave_semaphore(frames, warm_up, call, channel, replies, j, semaphore),
    ensures
        ({
            let step = presented(frames, warm_up, call, channel, replies).step;
            step == RunStep::Done(Some(semaphore)) || step == (RunStep::Publish {
                semaphore: Some(semaphore),
            })
        }),
    decreases replies.len(),
{
    let front = replies.drop_last();
    if j == replies.len() - 1 {
        assert(replies.take(j) =~= front);
    } else {
        assert(replies.take(j) =~= front.take(j));
        lemma_semaphore_kept(frames, warm_up, call, channel, front, j, semaphore);
    }
}

proof fn lemma_semaphore(frames: FramesView, warm_up: WarmUp, call: RunCall, channel: ChannelState, replies: Seq<RunReply>)
    ensures
        match presented(frames, warm_up, call, channel, replies).step {
            RunStep::Done(Some(semaphore)) => exists|j: int| #[trigger]
                gave_semaphore(frames, warm_up, call, channel, replies, j, semaphore),
            RunStep::Publish { semaphore: Some(semaphore) } => exists|j: int| #[trigger]
                gave_semaphore(frames, warm_up, call, channel, replies, j, semaphore),
            _ => true,
        },
    decreases replies.len(),
{
    if replies.len() > 0 {
        let n = replies.len() - 1;
        let front = replies.drop_last();
        let before = presented(frames, warm_up, call, channel, front).step;
        lemma_semaphore(frames, warm_up, call, channel, front);
        assert(replies.take(n) =~= front);
        assert forall|j: int, semaphore: u64| #[trigger]
            gave_semaphore(frames, warm_up, call, channel, front, j, semaphore) implies gave_semaphore(
            frames,
            warm_up,
            call,
            channel,
            replies,
            j,
            semaphore,
        ) by {
            assert(replies.take(j) =~= front.take(j));
        }
        match replies.last() {
            RunReply::Semaphore(Some(semaphore)) => {
                if before is PresentHeld || before is Synchronous {
                    assert(gave_semaphore(frames, warm_up, call, channel, replies, n, semaphore));
                }
            },
            _ => {},
        }
    }
}

/// The answer held is put on every image: with processing on, a call that ends without
/// having gone as far as the compositor had nothing to show.
pub proof fn held_answers_are_shown_on_every_present(
    frames: FramesView,
    warm_up: WarmUp,
    call: RunCall,
    channel: ChannelState,
    replies: Seq<RunReply>,
)
    requires
        channel.settings is Some,
        !channel.wants_synchronous(),
        !channel.disabled(),
        call.dims.carried_by(call.max_frame),
        presented(frames, warm_up, call, channel, replies).step is Done,
        presented(frames, warm_up, call, channel, replies).frames.last_answer.len() > 0,
    ensures
        exists|j: int|
            0 <= j <= replies.len() && #[trigger] presented(
                frames,
                warm_up,
                call,
                channel,
                replies.take(j),
            ).step is EnsureCompose,
    decreases replies.len(),
{
    let front = replies.drop_last();
    assert(replies.len() > 0);
    assert(replies.take(replies.len() - 1) =~= front);
    lemma_enabled(frames, warm_up, call, channel, front);
    let before = presented(frames, warm_up, call, channel, front);
    match before.step {
        RunStep::EnsureCompose => {},
        RunStep::Done(_)
        | RunStep::PresentHeld { .. }
        | RunStep::EnsureBuffers { .. }
        | RunStep::WriteBack
        | RunStep::Publish { .. } => {
            lemma_composed(frames, warm_up, call, channel, front);
            let j = choose|j: int|
                0 <= j <= front.len() && #[trigger] presented(
                    frames,
                    warm_up,
                    call,
                    channel,
                    front.take(j),
                ).step is EnsureCompose;
            assert(replies.take(j) =~= front.take(j));
        },
        _ => {},
    }
}

/// With processing on, the warm-up is never entered.
proof fn lemma_enabled(frames: FramesView, warm_up: WarmUp, call: RunCall, channel: ChannelState, replies: Seq<RunReply>)
    requires
        channel.settings is Some,
        !channel.wants_synchronous(),
        !channel.disabled(),
        call.dims.carried_by(call.max_frame),
    ensures
        ({
            let step = presented(frames, warm_up, call, channel, replies).step;
            !(step is Synchronous) && (bootstrapping(step) ==> step is Done)
        }),
    decreases replies.len(),
{
    if replies.len() > 0 {
        lemma_enabled(frames, warm_up, call, channel, replies.drop_last());
    }
}

/// The steps after the compositor come after it.
proof fn lemma_composed(frames: FramesView, warm_up: WarmUp, call: RunCall, channel: ChannelState, replies: Seq<RunReply>)
    requires
        channel.settings is Some,
        !channel.wants_synchronous(),
        !channel.disabled(),
        call.dims.carried_by(call.max_frame),
        ({
            let now = presented(frames, warm_up, call, channel, replies);
            now.step is PresentHeld || now.step is EnsureBuffers || now.step is WriteBack
                || now.step is Publish || (now.step is Done && now.frames.last_answer.len() > 0)
        }),
    ensures
        exists|j: int|
            0 <= j <= replies.len() && #[trigger] presented(
                frames,
                warm_up,
                call,
                channel,
                replies.take(j),
            ).step is EnsureCompose,
    decreases replies.len(),
{
    let front = replies.drop_last();
    assert(replies.len() > 0);
    assert(replies.take(replies.len() - 1) =~= front);
    lemma_enabled(frames, warm_up, call, channel, front);
    if !(presented(frames, warm_up, call, channel, front).step is EnsureCompose) {
        lemma_composed(frames, warm_up, call, channel, front);
        let j = choose|j: int|
            0 <= j <= front.len() && #[trigger] presented(
                frames,
                warm_up,
                call,
                channel,
                front.take(j),
            ).step is EnsureCompose;
        assert(replies.take(j) =~= front.take(j));
    }
}

/// An answer that is held has a number: as long as the generation is 0, none is held, and
/// no later call makes it 0 again.
pub proof fn held_answers_are_numbered(
    frames: FramesView,
    warm_up: WarmUp,
    call: RunCall,
    channel: ChannelState,
    replies: Seq<RunReply>,
)
    requires
        frames.generation == 0 ==> frames.last_answer.len() == 0,
    ensures
        ({
            let now = presented(frames, warm_up, call, channel, replies).frames;
            &&& now.generation == 0 ==> now.last_answer.len() == 0
            &&& frames.generation != 0 ==> now.generation != 0
        }),
{
    held_answers_match_their_frames(frames, warm_up, call, channel, replies);
}

/// The CPU writes the answer held, and writes it where it belongs: an answer of exactly the
/// image's four bytes per pixel goes from the staging buffer into the whole of the presented
/// image, under the buffer's own fence and waited for. Nothing else is written.
pub proof fn cpu_writes_fill_the_presented_image(step: RunStep, frames: FramesView, call: RunCall, buf: CaptureBuffer)
    ensures
        step.recorded(frames, call, buf) is Some <==> step is WriteBack && frames.last_answer.len()
            == call.dims.width * call.dims.height * 4,
        step.recorded(frames, call, buf) matches Some(commands) ==> {
            &&& copies_in(commands, call.image, buf.buffer, call.dims.width, call.dims.height)
            &&& handed_over(commands, buf.fence)
            &&& commands.last() == (Command::Wait { fence: buf.fence })
        },
{
    write_backs_fill_the_whole_image(
        call.image,
        buf.buffer,
        call.dims.width,
        call.dims.height,
        buf.fence,
    );
}

/// The shared region is imported only where the device can and where it starts and ends on the
/// device's alignment; and there it is.
pub proof fn aligned_regions_are_imported(region: SharedRegion, alignment: u64, first: nat, count: nat)
    requires
        alignment > 0,
        region.ptr == first * alignment,
        region.capacity == count * alignment,
    ensures
        imports_region(true, Some(region), Some(alignment)),
        !imports_region(false, Some(region), Some(alignment)),
        !imports_region(true, None, Some(alignment)),
        !imports_region(true, Some(region), None),
        !imports_region(true, Some(region), Some(0)),
        forall|other: SharedRegion| #[trigger]
            imports_region(true, Some(other), Some(alignment)) ==> other.ptr % alignment == 0
                && other.capacity % alignment == 0,
{
    vstd::arithmetic::div_mod::lemma_mod_multiples_basic(first as int, alignment as int);
    vstd::arithmetic::div_mod::lemma_mod_multiples_basic(count as int, alignment as int);
}

} // verus!
