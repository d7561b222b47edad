//! Processing one frame on the spot.
//!
//! A comparison view and a requested dump need a frame and its own answer. So this frame is
//! captured, sent, answered, composed and written back before it is presented, waiting at
//! each stage. Every failure leaves an image that can be presented as it is: see
//! [`crate::commands`] for what capture and write-back do to it.
use vstd::prelude::*;

use crate::capture::Settings;
use crate::capture_buffer::CaptureBuffer;
use crate::commands::{
    awaited_capture, awaited_submission, capture_gives_the_image_back, capture_recording,
    captures_take_the_whole_image, copies_in, copies_out, handed_over, layout_on_queue, write_back,
    write_back_leaves_the_image_presentable, write_back_recording,
    write_backs_fill_the_whole_image, written_on_queue, Command,
};
use crate::frame::{carried_bytes, frame_bytes, FrameDims};
use crate::vulkan::LAYOUT_PRESENT_SRC;

verus! {

/// What to do next.
#[derive(Clone, Copy, Debug, PartialEq, Eq, Structural)]
pub enum SyncStep {
    /// Make sure of a staging buffer: see [`crate::staging`].
    EnsureBuffers { bytes: u64 },
    /// Capture the image into the staging buffer, wait for it, and read it.
    CaptureFrame { bytes: u64 },
    /// Announce the captured frame, copy it into the shared region and work out its motion.
    SendFrame,
    /// Ask for an answer and wait for it.
    RoundTrip,
    ReadAnswer { bytes: u64 },
    /// Ask for the settings as they are now.
    AskSettings,
    /// Set the compositor up, unless it is.
    EnsureCompose,
    /// Compose frame and answer on the GPU.
    ComposeGpu,
    /// Compose frame and answer on the CPU, in this view.
    ComposeCpu { debug_view: u32 },
    /// Was a dump asked for? It is not asked for any more after this.
    TakeRequest { answered: bool },
    /// Dump the frame and what will be shown.
    Dump { answered: bool },
    /// Write what will be shown to the image, and wait for it.
    WriteBack { answered: bool },
    /// Report the frame's timing.
    Publish { answered: bool },
    Done,
}

/// What came back.
#[derive(Debug)]
pub enum SyncReply {
    Performed,
    Failed,
    Flag(bool),
    /// The captured frame, the answer or the composed frame.
    Frame(Vec<u8>),
    Settings(Option<Settings>),
}

/// Where the processing stands: the step due, the frame that was captured, and the bytes
/// that the write-back will show.
#[verifier::ext_equal]
pub struct SyncState {
    pub step: SyncStep,
    pub original: Seq<u8>,
    pub shown: Seq<u8>,
}

impl SyncState {
    pub open spec fn at(self, step: SyncStep) -> SyncState {
        SyncState { step, ..self }
    }

    /// These bytes will be shown.
    pub open spec fn showing(self, shown: Seq<u8>, step: SyncStep) -> SyncState {
        SyncState { step, shown, ..self }
    }

    /// The first step.
    pub open spec fn start(original: Seq<u8>, shown: Seq<u8>, dims: FrameDims, max_frame: u64) -> SyncState {
        SyncState {
            step: if dims.carried_by(max_frame) {
                SyncStep::EnsureBuffers { bytes: dims.bytes() as u64 }
            } else {
                SyncStep::Done
            },
            original,
            shown,
        }
    }

    /// The state once the pending step has been answered. What a step did not ask for
    /// counts as a failure.
    pub open spec fn after(self, dims: FrameDims, reply: SyncReply) -> SyncState {
        let composed = SyncStep::TakeRequest { answered: true };
        match self.step {
            SyncStep::Done => self,
            SyncStep::EnsureBuffers { bytes } => match reply {
                SyncReply::Flag(true) => self.at(SyncStep::CaptureFrame { bytes }),
                _ => self.at(SyncStep::Done),
            },
            SyncStep::CaptureFrame { .. } => match reply {
                SyncReply::Frame(frame) => SyncState {
                    step: SyncStep::SendFrame,
                    original: frame@,
                    shown: frame@,
                },
                _ => self.at(SyncStep::Done),
            },
            SyncStep::SendFrame => self.at(SyncStep::RoundTrip),
            SyncStep::RoundTrip => match reply {
                SyncReply::Flag(true) => self.at(
                    SyncStep::ReadAnswer { bytes: dims.bytes() as u64 },
                ),
                _ => self.at(SyncStep::TakeRequest { answered: false }),
            },
            SyncStep::ReadAnswer { .. } => match reply {
                SyncReply::Frame(answer) => self.showing(
                    answer@,
                    if dims.format.eight_bit {
                        SyncStep::AskSettings
                    } else {
                        composed
                    },
                ),
                _ => self.at(composed),
            },
            SyncStep::AskSettings => match reply {
                SyncReply::Settings(Some(settings)) => if !settings.apply_model
                    || !settings.neural_enabled {
                    self.showing(self.original, composed)
                } else if settings.debug_view == 0 {
                    self.at(SyncStep::EnsureCompose)
                } else {
                    self.at(SyncStep::ComposeCpu { debug_view: settings.debug_view })
                },
                _ => self.at(composed),
            },
            SyncStep::EnsureCompose => match reply {
                SyncReply::Flag(true) => self.at(SyncStep::ComposeGpu),
                _ => self.at(SyncStep::ComposeCpu { debug_view: 0 }),
            },
            SyncStep::ComposeGpu => match reply {
                SyncReply::Frame(frame) => self.showing(frame@, composed),
                _ => self.at(SyncStep::ComposeCpu { debug_view: 0 }),
            },
            SyncStep::ComposeCpu { .. } => match reply {
                SyncReply::Frame(frame) => self.showing(frame@, composed),
                _ => self.at(composed),
            },
            SyncStep::TakeRequest { answered } => match reply {
                SyncReply::Flag(true) if dims.format.eight_bit => self.at(
                    SyncStep::Dump { answered },
                ),
                _ => self.at(SyncStep::WriteBack { answered }),
            },
            SyncStep::Dump { answered } => self.at(SyncStep::WriteBack { answered }),
            SyncStep::WriteBack { answered } => match reply {
                SyncReply::Flag(true) => self.at(SyncStep::Publish { answered }),
                _ => self.at(SyncStep::Done),
            },
            SyncStep::Publish { .. } => self.at(SyncStep::Done),
        }
    }
}

/// The first step of processing a frame on the spot.
pub fn run_sync(dims: &FrameDims, max_frame: u64) -> (r: SyncStep)
    ensures
        forall|original: Seq<u8>, shown: Seq<u8>|
            r == #[trigger] SyncState::start(original, shown, *dims, max_frame).step,
{
    match carried_bytes(dims, max_frame) {
        Some(bytes) => SyncStep::EnsureBuffers { bytes },
        None => SyncStep::Done,
    }
}

impl SyncStep {
    /// The commands that a step stands for, on the staging buffer: the capture and the
    /// write-back are each recorded, submitted and waited for. No other step records
    /// anything.
    pub open spec fn recorded(self, image: u64, dims: FrameDims, buf: CaptureBuffer) -> Option<Seq<Command>> {
        match self {
            SyncStep::CaptureFrame { .. } => Some(
                capture_recording(image, LAYOUT_PRESENT_SRC, buf.buffer, dims.width, dims.height)
                    + awaited_submission(buf.fence),
            ),
            SyncStep::WriteBack { .. } => Some(
                write_back_recording(image, buf.buffer, dims.width, dims.height)
                    + awaited_submission(buf.fence),
            ),
            _ => None,
        }
    }

    /// The commands that this step stands for.
    pub fn commands(&self, image: u64, dims: &FrameDims, buf: &CaptureBuffer) -> (r: Option<
        Vec<Command>,
    >)
        ensures
            (match r {
                Some(commands) => Some(commands@),
                None => None,
            }) == self.recorded(image, *dims, *buf),
    {
        match *self {
            SyncStep::CaptureFrame { .. } => Some(
                awaited_capture(image, buf.buffer, dims.width, dims.height, buf.fence),
            ),
            SyncStep::WriteBack { .. } => Some(
                write_back(image, buf.buffer, dims.width, dims.height, buf.fence),
            ),
            _ => None,
        }
    }

    /// The next step, from the answer to this one.
    pub fn advance(self, original: &mut Vec<u8>, shown: &mut Vec<u8>, dims: &FrameDims, reply: SyncReply) -> (r: SyncStep)
        requires
            dims.bytes() <= u64::MAX,
        ensures
            (SyncState { step: r, original: final(original)@, shown: final(shown)@ }) == (SyncState {
                step: self,
                original: old(original)@,
                shown: old(shown)@,
            }).after(*dims, reply),
    {
        let composed = SyncStep::TakeRequest { answered: true };
        match self {
            SyncStep::Done => self,
            SyncStep::EnsureBuffers { bytes } => match reply {
                SyncReply::Flag(true) => SyncStep::CaptureFrame { bytes },
                _ => SyncStep::Done,
            },
            SyncStep::CaptureFrame { .. } => match reply {
                SyncReply::Frame(frame) => {
                    *shown = frame.clone();
                    *original = frame;
                    SyncStep::SendFrame
                },
                _ => SyncStep::Done,
            },
            SyncStep::SendFrame => SyncStep::RoundTrip,
            SyncStep::RoundTrip => match reply {
                SyncReply::Flag(true) => match frame_bytes(dims) {
                    Some(bytes) => SyncStep::ReadAnswer { bytes },
                    None => SyncStep::Done,
                },
                _ => SyncStep::TakeRequest { answered: false },
            },
            SyncStep::ReadAnswer { .. } => match reply {
                SyncReply::Frame(answer) => {
                    *shown = answer;
                    if dims.format.eight_bit {
                        SyncStep::AskSettings
                    } else {
                        composed
                    }
                },
                _ => composed,
            },
            SyncStep::AskSettings => match reply {
                SyncReply::Settings(Some(settings)) => if !settings.apply_model
                    || !settings.neural_enabled {
                    *shown = original.clone();
                    composed
                } else if settings.debug_view == 0 {
                    SyncStep::EnsureCompose
                } else {
                    SyncStep::ComposeCpu { debug_view: settings.debug_view }
                },
                _ => composed,
            },
            SyncStep::EnsureCompose => match reply {
                SyncReply::Flag(true) => SyncStep::ComposeGpu,
                _ => SyncStep::ComposeCpu { debug_view: 0 },
            },
            SyncStep::ComposeGpu => match reply {
                SyncReply::Frame(frame) => {
                    *shown = frame;
                    composed
                },
                _ => SyncStep::ComposeCpu { debug_view: 0 },
            },
            SyncStep::ComposeCpu { .. } => match reply {
                SyncReply::Frame(frame) => {
                    *shown = frame;
                    composed
                },
                _ => composed,
            },
            SyncStep::TakeRequest { answered } => match reply {
                SyncReply::Flag(true) if dims.format.eight_bit => SyncStep::Dump { answered },
                _ => SyncStep::WriteBack { answered },
            },
            SyncStep::Dump { answered } => SyncStep::WriteBack { answered },
            SyncStep::WriteBack { answered } => match reply {
                SyncReply::Flag(true) => SyncStep::Publish { answered },
                _ => SyncStep::Done,
            },
            SyncStep::Publish { .. } => SyncStep::Done,
        }
    }
}

/// Where the processing stands after a run of answers.
pub open spec fn processed(dims: FrameDims, max_frame: u64, original: Seq<u8>, shown: Seq<u8>, replies: Seq<SyncReply>) -> SyncState
    decreases replies.len(),
{
    if replies.len() == 0 {
        SyncState::start(original, shown, dims, max_frame)
    } else {
        processed(dims, max_frame, original, shown, replies.drop_last()).after(dims, replies.last())
    }
}

/// Any thirteen answers bring the processing to its end.
pub proof fn processing_finishes(dims: FrameDims, max_frame: u64, original: Seq<u8>, shown: Seq<u8>, replies: Seq<SyncReply>)
    requires
        replies.len() >= 13,
    ensures
        processed(dims, max_frame, original, shown, replies).step is Done,
{
    lemma_steps_left(dims, max_frame, original, shown, replies);
}

/// How many answers are left at most.
spec fn steps_left(step: SyncStep) -> int {
    match step {
        SyncStep::EnsureBuffers { .. } => 13,
        SyncStep::CaptureFrame { .. } => 12,
        SyncStep::SendFrame => 11,
        SyncStep::RoundTrip => 10,
        SyncStep::ReadAnswer { .. } => 9,
        SyncStep::AskSettings => 8,
        SyncStep::EnsureCompose => 7,
        SyncStep::ComposeGpu => 6,
        SyncStep::ComposeCpu { .. } => 5,
        SyncStep::TakeRequest { .. } => 4,
        SyncStep::Dump { .. } => 3,
        SyncStep::WriteBack { .. } => 2,
        SyncStep::Publish { .. } => 1,
        SyncStep::Done => 0,
    }
}

proof fn lemma_steps_left(dims: FrameDims, max_frame: u64, original: Seq<u8>, shown: Seq<u8>, replies: Seq<SyncReply>)
    ensures
        steps_left(processed(dims, max_frame, original, shown, replies).step) <= 13 - replies.len()
            || processed(dims, max_frame, original, shown, replies).step is Done,
    decreases replies.len(),
{
    if replies.len() > 0 {
        lemma_steps_left(dims, max_frame, original, shown, replies.drop_last());
    }
}

/// A helper that does not answer changes nothing: the bytes written back are the very bytes
/// that were captured.
pub proof fn unanswered_frames_are_shown_unchanged(
    dims: FrameDims,
    max_frame: u64,
    original: Seq<u8>,
    shown: Seq<u8>,
    replies: Seq<SyncReply>,
)
    ensures
        ({
            let now = processed(dims, max_frame, original, shown, replies);
            (now.step matches SyncStep::WriteBack { answered } && !answered) ==> now.shown
                == now.original
        }),
{
    lemma_unanswered(dims, max_frame, original, shown, replies);
}

proof fn lemma_unanswered(dims: FrameDims, max_frame: u64, original: Seq<u8>, shown: Seq<u8>, replies: Seq<SyncReply>)
    ensures
        ({
            let now = processed(dims, max_frame, original, shown, replies);
            match now.step {
                SyncStep::SendFrame
                | SyncStep::RoundTrip
                | SyncStep::TakeRequest { answered: false }
                | SyncStep::Dump { answered: false }
                | SyncStep::WriteBack { answered: false } => now.shown == now.original,
                _ => true,
            }
        }),
    decreases replies.len(),
{
    if replies.len() > 0 {
        lemma_unanswered(dims, max_frame, original, shown, replies.drop_last());
    }
}

/// Every failure leaves an image that can be presented: however far the commands of a step
/// get, the queue leaves the image in the layout it is presented in; and it writes the image
/// only in the write-back, once that was submitted.
pub proof fn failures_leave_the_image_presentable(
    step: SyncStep,
    image: u64,
    dims: FrameDims,
    buf: CaptureBuffer,
    done: int,
)
    requires
        step.recorded(image, dims, buf) matches Some(commands) && 0 <= done <= commands.len(),
    ensures
        step.recorded(image, dims, buf) matches Some(commands) && {
            &&& layout_on_queue(commands.take(done), image, LAYOUT_PRESENT_SRC) == Some(
                LAYOUT_PRESENT_SRC,
            )
            &&& written_on_queue(commands.take(done), image) ==> step is WriteBack
        },
{
    match step {
        SyncStep::CaptureFrame { .. } => {
            capture_gives_the_image_back(
                image,
                LAYOUT_PRESENT_SRC,
                buf.buffer,
                dims.width,
                dims.height,
                buf.fence,
                done,
            );
        },
        SyncStep::WriteBack { .. } => {
            write_back_leaves_the_image_presentable(
                image,
                buf.buffer,
                dims.width,
                dims.height,
                buf.fence,
                done,
            );
        },
        _ => {},
    }
}

/// Answer number `j` says that processing is switched off.
pub open spec fn found_off(
    dims: FrameDims,
    max_frame: u64,
    original: Seq<u8>,
    shown: Seq<u8>,
    replies: Seq<SyncReply>,
    j: int,
) -> bool {
    &&& 0 <= j < replies.len()
    &&& processed(dims, max_frame, original, shown, replies.take(j)).step is AskSettings
    &&& replies[j] matches SyncReply::Settings(Some(settings))
    &&& !settings.apply_model || !settings.neural_enabled
}

/// With processing off the whole pass runs and shows the clean frame: what is written back
/// is what was captured, whatever the helper answered.
pub proof fn switched_off_frames_are_shown_unchanged(
    dims: FrameDims,
    max_frame: u64,
    original: Seq<u8>,
    shown: Seq<u8>,
    replies: Seq<SyncReply>,
    j: int,
)
    requires
        found_off(dims, max_frame, original, shown, replies, j),
    ensures
        processed(dims, max_frame, original, shown, replies).shown == processed(
            dims,
            max_frame,
            original,
            shown,
            replies,
        ).original,
{
    lemma_switched_off(dims, max_frame, original, shown, replies, j);
}

proof fn lemma_switched_off(
    dims: FrameDims,
    max_frame: u64,
    original: Seq<u8>,
    shown: Seq<u8>,
    replies: Seq<SyncReply>,
    j: int,
)
    requires
        found_off(dims, max_frame, original, shown, replies, j),
    ensures
        ({
            let now = processed(dims, max_frame, original, shown, replies);
            &&& now.shown == now.original
            &&& now.step is TakeRequest || now.step is Dump || now.step is WriteBack
                || now.step is Publish || now.step is Done
        }),
    decreases replies.len(),
{
    let front = replies.drop_last();
    if j == replies.len() - 1 {
        assert(replies.take(j) =~= front);
    } else {
        assert(replies.take(j) =~= front.take(j));
        lemma_switched_off(dims, max_frame, original, shown, front, j);
    }
}

/// Answer number `j` is the captured frame.
pub open spec fn captured_at(
    dims: FrameDims,
    max_frame: u64,
    original: Seq<u8>,
    shown: Seq<u8>,
    replies: Seq<SyncReply>,
    j: int,
    frame: Seq<u8>,
) -> bool {
    &&& 0 <= j < replies.len()
    &&& processed(dims, max_frame, original, shown, replies.take(j)).step is CaptureFrame
    &&& replies[j] matches SyncReply::Frame(f)
    &&& f@ == frame
}

/// The image is written only after it was captured, and the frame that a dump pairs with
/// what is shown is the captured one.
pub proof fn written_frames_were_captured(
    dims: FrameDims,
    max_frame: u64,
    original: Seq<u8>,
    shown: Seq<u8>,
    replies: Seq<SyncReply>,
)
    ensures
        ({
            let now = processed(dims, max_frame, original, shown, replies);
            now.step is Dump || now.step is WriteBack ==> exists|j: int| #[trigger]
                captured_at(dims, max_frame, original, shown, replies, j, now.original)
        }),
{
    lemma_captured(dims, max_frame, original, shown, replies);
}

proof fn lemma_captured(dims: FrameDims, max_frame: u64, original: Seq<u8>, shown: Seq<u8>, replies: Seq<SyncReply>)
    ensures
        ({
            let now = processed(dims, max_frame, original, shown, replies);
            now.step is EnsureBuffers || now.step is CaptureFrame || now.step is Done || exists|
                j: int,
            | #[trigger]
                captured_at(dims, max_frame, original, shown, replies, j, now.original)
        }),
    decreases replies.len(),
{
    if replies.len() > 0 {
        let n = replies.len() - 1;
        let front = replies.drop_last();
        let before = processed(dims, max_frame, original, shown, front);
        let now = processed(dims, max_frame, original, shown, replies);
        lemma_captured(dims, max_frame, original, shown, front);
        assert(replies.take(n) =~= front);
        if before.step is CaptureFrame {
            if replies.last() is Frame {
                assert(captured_at(dims, max_frame, original, shown, replies, n, now.original));
            }
        } else if !(before.step is EnsureBuffers || before.step is Done) {
            let j = choose|j: int| #[trigger]
                captured_at(dims, max_frame, original, shown, front, j, before.original);
            assert(replies.take(j) =~= front.take(j));
            assert(captured_at(dims, max_frame, original, shown, replies, j, now.original));
        }
    }
}

/// The processing of one frame: what it started from, and the answers it got.
pub struct Processing {
    pub dims: FrameDims,
    pub max_frame: u64,
    pub original: Seq<u8>,
    pub shown: Seq<u8>,
    pub replies: Seq<SyncReply>,
}

impl Processing {
    /// Where the processing stands after its first `j` answers.
    pub open spec fn at(self, j: int) -> SyncState {
        processed(self.dims, self.max_frame, self.original, self.shown, self.replies.take(j))
    }

    /// Where the processing stands after all of its answers.
    pub open spec fn end(self) -> SyncState {
        processed(self.dims, self.max_frame, self.original, self.shown, self.replies)
    }

    /// Answer number `j` is a frame, to a step that asked for one: the captured frame, the
    /// helper's answer, or the composition of both.
    pub open spec fn delivers_at(self, j: int) -> bool {
        let step = self.at(j).step;
        &&& 0 <= j < self.replies.len()
        &&& step is CaptureFrame || step is ReadAnswer || step is ComposeGpu || step is ComposeCpu
        &&& self.replies[j] is Frame
    }

    /// Answer number `j` is the settings, with processing on or off as they say.
    pub open spec fn reads_at(self, j: int, settings: Settings) -> bool {
        &&& 0 <= j < self.replies.len()
        &&& self.at(j).step is AskSettings
        &&& self.replies[j] == SyncReply::Settings(Some(settings))
    }

    /// Answer number `j` says that processing is off.
    pub open spec fn switched_off_at(self, j: int) -> bool {
        &&& 0 <= j < self.replies.len()
        &&& self.at(j).step is AskSettings
        &&& self.replies[j] matches SyncReply::Settings(Some(settings))
        &&& !settings.apply_model || !settings.neural_enabled
    }
}

proof fn lemma_next(run: Processing, j: int)
    requires
        0 <= j < run.replies.len(),
    ensures
        run.at(j + 1) == run.at(j).after(run.dims, run.replies[j]),
        run.at(run.replies.len() as int) == run.end(),
{
    assert(run.replies.take(j + 1).drop_last() =~= run.replies.take(j));
    assert(run.replies.take(run.replies.len() as int) =~= run.replies);
}

/// What is dumped and written back is the newest frame there is: from the moment a frame is
/// delivered (captured, answered, or composed on the GPU or the CPU) exactly its bytes are
/// shown, until another one is delivered or processing turns out to be off.
pub proof fn the_newest_frame_is_shown(run: Processing, j: int, now: int)
    requires
        run.delivers_at(j),
        j < now <= run.replies.len(),
        forall|k: int| j < k < now ==> !(#[trigger] run.delivers_at(k)) && !run.switched_off_at(k),
    ensures
        run.replies[j] matches SyncReply::Frame(frame) && run.at(now).shown == frame@,
    decreases now,
{
    if now == j + 1 {
        lemma_next(run, j);
    } else {
        the_newest_frame_is_shown(run, j, now - 1);
        lemma_next(run, now - 1);
        assert(!run.delivers_at(now - 1) && !run.switched_off_at(now - 1));
    }
}

/// A comparison is composed in the very view that was asked for: with processing on, a view
/// is composed on the CPU, and without one the compositor is tried first; and no step
/// composes in a view that the settings did not name.
pub proof fn views_are_composed_as_asked(run: Processing, j: int, settings: Settings)
    requires
        run.reads_at(j, settings),
        settings.apply_model,
        settings.neural_enabled,
    ensures
        settings.debug_view != 0 ==> run.at(j + 1).step == (SyncStep::ComposeCpu {
            debug_view: settings.debug_view,
        }),
        settings.debug_view == 0 ==> run.at(j + 1).step is EnsureCompose,
        forall|now: int| j < now <= run.replies.len() ==> match (#[trigger] run.at(now)).step {
            SyncStep::ComposeCpu { debug_view } => debug_view == settings.debug_view,
            SyncStep::EnsureCompose | SyncStep::ComposeGpu => settings.debug_view == 0,
            _ => true,
        },
{
    lemma_next(run, j);
    assert forall|now: int| j < now <= run.replies.len() implies match (#[trigger] run.at(
        now,
    )).step {
        SyncStep::ComposeCpu { debug_view } => debug_view == settings.debug_view,
        SyncStep::EnsureCompose | SyncStep::ComposeGpu => settings.debug_view == 0,
        _ => true,
    } by {
        lemma_view(run, j, settings, now);
    }
}

proof fn lemma_view(run: Processing, j: int, settings: Settings, now: int)
    requires
        run.reads_at(j, settings),
        settings.apply_model,
        settings.neural_enabled,
        j < now <= run.replies.len(),
    ensures
        match run.at(now).step {
            SyncStep::ComposeCpu { debug_view } => debug_view == settings.debug_view,
            SyncStep::EnsureCompose | SyncStep::ComposeGpu => settings.debug_view == 0,
            SyncStep::TakeRequest { .. }
            | SyncStep::Dump { .. }
            | SyncStep::WriteBack { .. }
            | SyncStep::Publish { .. }
            | SyncStep::Done => true,
            _ => false,
        },
    decreases now,
{
    lemma_next(run, now - 1);
    if now > j + 1 {
        lemma_view(run, j, settings, now - 1);
    }
}

/// A compositor that is missing or fails is no reason to give up: the CPU composes instead;
/// one that is there is used.
pub proof fn the_cpu_stands_in_for_the_compositor(run: Processing, j: int)
    requires
        0 <= j < run.replies.len(),
        run.at(j).step is EnsureCompose || run.at(j).step is ComposeGpu,
    ensures
        run.at(j).step is EnsureCompose && run.replies[j] == SyncReply::Flag(true) ==> run.at(
            j + 1,
        ).step is ComposeGpu,
        run.at(j).step is EnsureCompose && run.replies[j] != SyncReply::Flag(true) ==> run.at(
            j + 1,
        ).step == (SyncStep::ComposeCpu { debug_view: 0 }),
        run.at(j).step is ComposeGpu && !(run.replies[j] is Frame) ==> run.at(j + 1).step == (
        SyncStep::ComposeCpu { debug_view: 0 }),
{
    lemma_next(run, j);
}

/// The pass goes on as long as it can: a frame that the channel carries is captured once there
/// is a buffer, sent once it was captured, and an eight-bit answer is composed while one of
/// another format is shown as it is. Nothing is captured without a buffer, and nothing is
/// touched without a capture.
pub proof fn the_pass_takes_its_course(run: Processing, j: int)
    requires
        0 <= j < run.replies.len(),
    ensures
        run.at(0).step is EnsureBuffers <==> 0 < run.dims.width * run.dims.height
            * run.dims.format.bytes_per_pixel <= run.max_frame,
        !(run.at(0).step is EnsureBuffers) ==> run.at(0).step is Done,
        run.at(j).step is EnsureBuffers ==> (if run.replies[j] == SyncReply::Flag(true) {
            run.at(j + 1).step is CaptureFrame
        } else {
            run.at(j + 1).step is Done
        }),
        run.at(j).step is CaptureFrame ==> (if run.replies[j] is Frame {
            run.at(j + 1).step is SendFrame
        } else {
            run.at(j + 1).step is Done
        }),
        run.at(j).step is SendFrame ==> run.at(j + 1).step is RoundTrip,
        run.at(j).step is ReadAnswer && run.replies[j] is Frame ==> (
        if run.dims.format.eight_bit {
            run.at(j + 1).step is AskSettings
        } else {
            run.at(j + 1).step is TakeRequest
        }),
{
    lemma_next(run, j);
    assert(run.replies.take(0) =~= Seq::empty());
}

/// Buffers, captures and answers have the size of this very frame.
pub proof fn everything_has_the_size_of_the_frame(run: Processing, j: int)
    requires
        0 <= j <= run.replies.len(),
    ensures
        match run.at(j).step {
            SyncStep::EnsureBuffers { bytes }
            | SyncStep::CaptureFrame { bytes }
            | SyncStep::ReadAnswer { bytes } => bytes == run.dims.width * run.dims.height
                * run.dims.format.bytes_per_pixel,
            _ => true,
        },
{
    lemma_sizes(run, j);
}

proof fn lemma_sizes(run: Processing, j: int)
    requires
        0 <= j <= run.replies.len(),
    ensures
        run.at(j).step is Done || run.dims.carried_by(run.max_frame),
        match run.at(j).step {
            SyncStep::EnsureBuffers { bytes }
            | SyncStep::CaptureFrame { bytes }
            | SyncStep::ReadAnswer { bytes } => bytes == run.dims.bytes(),
            _ => true,
        },
    decreases j,
{
    if j > 0 {
        lemma_sizes(run, j - 1);
        lemma_next(run, j - 1);
    } else {
        assert(run.replies.take(0) =~= Seq::empty());
    }
}

/// A frame that was captured is written back whatever happens: no processing ends before
/// that was tried, and it is reported exactly where the image was written.
pub proof fn captured_frames_are_written_back(run: Processing, j: int, now: int)
    requires
        0 <= j < now <= run.replies.len(),
        run.at(j).step is CaptureFrame,
        run.replies[j] is Frame,
        run.at(now).step is Done || run.at(now).step is Publish,
    ensures
        exists|k: int|
            j < k < now && #[trigger] run.at(k).step is WriteBack && (run.at(now).step is Publish
                ==> run.replies[k] == SyncReply::Flag(true)) && (run.replies[k] == SyncReply::Flag(
                true,
            ) ==> run.at(k + 1).step is Publish),
{
    lemma_write_back(run, j, now);
}

spec fn wrote_back(run: Processing, k: int, now: int) -> bool {
    &&& run.at(k).step is WriteBack
    &&& run.at(now).step is Publish ==> run.replies[k] == SyncReply::Flag(true)
    &&& run.replies[k] == SyncReply::Flag(true) ==> run.at(k + 1).step is Publish
}

proof fn lemma_write_back(run: Processing, j: int, now: int)
    requires
        0 <= j < now <= run.replies.len(),
        run.at(j).step is CaptureFrame,
        run.replies[j] is Frame,
    ensures
        !(run.at(now).step is EnsureBuffers || run.at(now).step is CaptureFrame),
        run.at(now).step is Done || run.at(now).step is Publish ==> exists|k: int|
            j < k < now && #[trigger] run.at(k).step is WriteBack && wrote_back(run, k, now),
    decreases now,
{
    lemma_next(run, now - 1);
    if now > j + 1 {
        lemma_write_back(run, j, now - 1);
        let before = run.at(now - 1).step;
        if before is WriteBack {
            assert(wrote_back(run, now - 1, now));
        } else if before is Done || before is Publish {
            let k = choose|k: int|
                j < k < now - 1 && #[trigger] run.at(k).step is WriteBack && wrote_back(
                    run,
                    k,
                    now - 1,
                );
            assert(run.at(k).step is WriteBack && wrote_back(run, k, now));
        }
    }
}

/// A frame counts as answered exactly if the helper answered it, and only an answer that is
/// there is read.
pub proof fn answers_count_where_the_helper_gave_one(run: Processing, j: int, now: int)
    requires
        0 <= j < now <= run.replies.len(),
        run.at(j).step is RoundTrip,
    ensures
        run.at(j + 1).step is ReadAnswer <==> run.replies[j] == SyncReply::Flag(true),
        match run.at(now).step {
            SyncStep::TakeRequest { answered }
            | SyncStep::Dump { answered }
            | SyncStep::WriteBack { answered }
            | SyncStep::Publish { answered } => answered == (run.replies[j] == SyncReply::Flag(
                true,
            )),
            SyncStep::Done => true,
            SyncStep::ReadAnswer { .. }
            | SyncStep::AskSettings
            | SyncStep::EnsureCompose
            | SyncStep::ComposeGpu
            | SyncStep::ComposeCpu { .. } => run.replies[j] == SyncReply::Flag(true),
            _ => false,
        },
    decreases now,
{
    lemma_next(run, j);
    lemma_next(run, now - 1);
    if now > j + 1 {
        answers_count_where_the_helper_gave_one(run, j, now - 1);
    }
}

/// A dump is made exactly where one was asked for and the frame can be stored, and it takes
/// the place of nothing: the frame is written back after it as without it.
pub proof fn dumps_are_made_where_asked(run: Processing, j: int)
    requires
        0 <= j < run.replies.len(),
        run.at(j).step is TakeRequest || run.at(j).step is Dump,
    ensures
        run.at(j).step is TakeRequest ==> (run.at(j + 1).step is Dump <==> run.replies[j]
            == SyncReply::Flag(true) && run.dims.format.eight_bit),
        !(run.at(j + 1).step is Dump) ==> run.at(j + 1).step is WriteBack,
        run.at(j + 1).shown == run.at(j).shown,
        run.at(j + 1).original == run.at(j).original,
{
    lemma_next(run, j);
}

/// The two steps that reach the image do so on the staging buffer and under its fence, and
/// wait for it: the capture takes the whole image out, and the write-back puts the buffer into
/// all of it. No other step does anything to the image.
pub proof fn steps_copy_the_whole_image(step: SyncStep, image: u64, dims: FrameDims, buf: CaptureBuffer)
    ensures
        step.recorded(image, dims, buf) is Some <==> step is CaptureFrame || step is WriteBack,
        step.recorded(image, dims, buf) matches Some(commands) ==> {
            &&& handed_over(commands, buf.fence)
            &&& commands.last() == (Command::Wait { fence: buf.fence })
            &&& step is CaptureFrame ==> copies_out(
                commands,
                image,
                buf.buffer,
                dims.width,
                dims.height,
            )
            &&& step is WriteBack ==> copies_in(
                commands,
                image,
                buf.buffer,
                dims.width,
                dims.height,
            )
        },
{
    captures_take_the_whole_image(
        image,
        LAYOUT_PRESENT_SRC,
        buf.buffer,
        dims.width,
        dims.height,
        buf.fence,
    );
    write_backs_fill_the_whole_image(image, buf.buffer, dims.width, dims.height, buf.fence);
}

} // verus!
