//! What a run of present calls comes to: a frame that is sent and answered is shown, and
//! the warm-up is sent once.
use vstd::prelude::*;

use crate::capture::{
    generation_after, held_answers_are_shown_on_every_present, held_answers_match_their_frames,
    matching_answer, presented, ChannelState, FramesView, RunCall, RunReply, RunState, RunStep, WarmUp,
};

verus! {

/// One present call: what it started from, and the answers it got.
pub struct Present {
    pub frames: FramesView,
    pub warm_up: WarmUp,
    pub call: RunCall,
    pub channel: ChannelState,
    pub replies: Seq<RunReply>,
}

impl Present {
    /// Where the call stands after its first `j` answers.
    pub open spec fn at(self, j: int) -> RunState {
        presented(self.frames, self.warm_up, self.call, self.channel, self.replies.take(j))
    }

    /// Where the call stands after all of its answers.
    pub open spec fn end(self) -> RunState {
        presented(self.frames, self.warm_up, self.call, self.channel, self.replies)
    }

    /// Processing is on, and the channel carries the frame.
    pub open spec fn processes(self) -> bool {
        &&& self.channel.settings is Some
        &&& !self.channel.wants_synchronous()
        &&& !self.channel.disabled()
        &&& self.call.dims.carried_by(self.call.max_frame)
    }

    /// Answer number `j` says that the frame collected in this call was sent.
    pub open spec fn sends_at(self, j: int) -> bool {
        &&& 0 <= j < self.replies.len()
        &&& self.at(j).step is Begin
        &&& self.replies[j] == RunReply::Flag(true)
    }

    /// Answer number `j` says that the warm-up was sent.
    pub open spec fn warms_up_at(self, j: int) -> bool {
        &&& 0 <= j < self.replies.len()
        &&& self.at(j).step is BeginBootstrap
        &&& self.replies[j] == RunReply::Flag(true)
    }

    /// No request is sent in this call.
    pub open spec fn sends_nothing(self) -> bool {
        forall|j: int| !(#[trigger] self.sends_at(j)) && !self.warms_up_at(j)
    }

    /// Answer number `j` is the helper's answer, with these bytes.
    pub open spec fn answered_at(self, j: int, answer: Seq<u8>) -> bool {
        &&& 0 <= j < self.replies.len()
        &&& self.at(j).step is ReadAnswer
        &&& self.replies[j] matches RunReply::Answer(bytes)
        &&& bytes@ == answer
    }
}

/// Call number `i` starts from the frames that the one before it left.
pub open spec fn continues(calls: Seq<Present>, i: int) -> bool {
    calls[i].frames == calls[i - 1].end().frames
}

/// The calls are those of one device, in order.
pub open spec fn of_one_device(calls: Seq<Present>) -> bool {
    forall|i: int| 0 < i < calls.len() ==> #[trigger] continues(calls, i)
}

/// Call number `i` finds the warm-up as the one before it left it.
pub open spec fn passes_on(calls: Seq<Present>, i: int) -> bool {
    calls[i].warm_up == calls[i - 1].end().warm_up
}

/// The calls are those of one process, in order, on whichever devices.
pub open spec fn of_one_process(calls: Seq<Present>) -> bool {
    forall|i: int| 0 < i < calls.len() ==> #[trigger] passes_on(calls, i)
}

proof fn lemma_next(present: Present, j: int)
    requires
        0 <= j < present.replies.len(),
    ensures
        present.at(j + 1) == present.at(j).after(present.call, present.replies[j]),
        present.replies.take(present.replies.len() as int) == present.replies,
{
    assert(present.replies.take(j + 1).drop_last() =~= present.replies.take(j));
    assert(present.replies.take(present.replies.len() as int) =~= present.replies);
}

/// A step after which a call changes no frame any more.
spec fn settled(step: RunStep) -> bool {
    step is EnsureCompose || step is PresentHeld || step is EnsureBuffers || step is WriteBack
        || step is Publish || step is Done
}

proof fn lemma_settled(present: Present, j: int, k: int)
    requires
        0 <= j <= k <= present.replies.len(),
        settled(present.at(j).step),
    ensures
        settled(present.at(k).step),
        present.at(k).frames == present.at(j).frames,
        present.at(k).warm_up == present.at(j).warm_up,
    decreases k - j,
{
    if j < k {
        lemma_settled(present, j, k - 1);
        lemma_next(present, k - 1);
    }
}

/// A call that sends no request keeps what belongs to the request sent before.
proof fn lemma_quiet(present: Present, k: int)
    requires
        present.sends_nothing(),
        0 <= k <= present.replies.len(),
    ensures
        present.at(k).frames.original == present.frames.original,
        present.at(k).frames.dims == present.frames.dims,
        present.at(k).frames.bootstrap == present.frames.bootstrap,
    decreases k,
{
    if k > 0 {
        lemma_quiet(present, k - 1);
        lemma_next(present, k - 1);
        assert(!present.sends_at(k - 1) && !present.warms_up_at(k - 1));
    }
}

/// A call that sends a frame ends with that frame kept, in its size and format.
proof fn lemma_sent(present: Present, j: int)
    requires
        present.sends_at(j),
    ensures
        present.end().frames.original == present.at(j).frames.original_scratch,
        present.end().frames.dims == Some(present.call.dims),
        !present.end().frames.bootstrap,
{
    lemma_next(present, j);
    lemma_settled(present, j + 1, present.replies.len() as int);
}

/// The steps between the answer and the write, with a fresh answer.
spec fn fresh_on_the_way(step: RunStep) -> bool {
    match step {
        RunStep::AskFree { fresh }
        | RunStep::Capture { fresh }
        | RunStep::PrepareMotion { fresh }
        | RunStep::Begin { fresh } => fresh,
        _ => false,
    }
}

proof fn lemma_heard(present: Present, j: int, answer: Seq<u8>, k: int)
    requires
        present.answered_at(j, answer),
        j < k <= present.replies.len(),
        present.frames.dims == Some(present.call.dims),
        present.call.dims.format.eight_bit,
    ensures
        present.at(k).frames.base == present.frames.original,
        if fresh_on_the_way(present.at(k).step) {
            &&& present.at(k).frames.answer_scratch == answer
            &&& present.at(k).frames.generation == present.frames.generation
        } else {
            &&& settled(present.at(k).step)
            &&& present.at(k).frames.last_answer == answer
            &&& present.at(k).frames.generation == generation_after(present.frames.generation)
        },
    decreases k - j,
{
    lemma_next(present, k - 1);
    if k == j + 1 {
        lemma_reading(present, j);
    } else {
        lemma_heard(present, j, answer, k - 1);
    }
}

/// An answer is read before anything of the frames has changed.
proof fn lemma_reading(present: Present, j: int)
    requires
        0 <= j <= present.replies.len(),
        present.at(j).step is ReadAnswer || present.at(j).step is PollRequest || present.at(
            j,
        ).step is AskPending,
    ensures
        present.at(j).frames == present.frames,
    decreases j,
{
    if j > 0 {
        lemma_next(present, j - 1);
        let before = present.at(j - 1).step;
        if before is PollRequest || before is AskPending {
            lemma_reading(present, j - 1);
        }
    }
}

/// A slow helper's answer is shown in the end. Once a frame was collected and sent, and the
/// helper answers it however many calls later, while frames have the same eight-bit size,
/// that call ends with the answer held, together with the very frame that was sent and a
/// number of its own, and goes on to put it on the image.
pub proof fn answered_frames_are_shown(calls: Seq<Present>, sent: int, j: int, heard: int, k: int, answer: Seq<u8>)
    requires
        of_one_device(calls),
        0 <= sent < heard < calls.len(),
        calls[sent].sends_at(j),
        forall|i: int| sent < i < heard ==> (#[trigger] calls[i]).sends_nothing(),
        calls[heard].processes(),
        calls[heard].answered_at(k, answer),
        calls[heard].end().step is Done,
        calls[heard].call.dims == calls[sent].call.dims,
        calls[heard].call.dims.format.eight_bit,
    ensures
        calls[heard].end().frames.last_answer == answer,
        calls[heard].end().frames.base == calls[sent].at(j).frames.original_scratch,
        calls[heard].end().frames.generation == generation_after(calls[heard].frames.generation),
        answer.len() > 0 ==> exists|m: int|
            0 <= m <= calls[heard].replies.len() && #[trigger] calls[heard].at(m).step
                is EnsureCompose,
{
    let last = calls[heard];
    lemma_sent(calls[sent], j);
    lemma_kept(calls, sent, heard);
    let n = last.replies.len() as int;
    lemma_heard(last, k, answer, n);
    lemma_next(last, k);
    if answer.len() > 0 {
        held_answers_are_shown_on_every_present(
            last.frames,
            last.warm_up,
            last.call,
            last.channel,
            last.replies,
        );
        let m = choose|m: int|
            0 <= m <= last.replies.len() && #[trigger] presented(
                last.frames,
                last.warm_up,
                last.call,
                last.channel,
                last.replies.take(m),
            ).step is EnsureCompose;
        assert(last.at(m).step is EnsureCompose);
    }
}

proof fn lemma_kept(calls: Seq<Present>, sent: int, i: int)
    requires
        of_one_device(calls),
        0 <= sent < i < calls.len(),
        forall|m: int| sent < m < i ==> (#[trigger] calls[m]).sends_nothing(),
    ensures
        calls[i].frames.original == calls[sent].end().frames.original,
        calls[i].frames.dims == calls[sent].end().frames.dims,
        calls[i].frames.bootstrap == calls[sent].end().frames.bootstrap,
    decreases i,
{
    assert(continues(calls, i));
    if i - 1 > sent {
        let before = calls[i - 1];
        lemma_kept(calls, sent, i - 1);
        lemma_quiet(before, before.replies.len() as int);
        assert(before.replies.take(before.replies.len() as int) =~= before.replies);
    }
}

/// A frame is sent, and an answer is heard, as soon as they can be: with processing on and
/// no request outstanding, a call that is given a capture asks for it to be sent; and one
/// that learns that its request was answered reads the answer.
pub proof fn captures_are_sent_and_answers_are_read(
    frames: FramesView,
    warm_up: WarmUp,
    call: RunCall,
    channel: ChannelState,
    frame: Vec<u8>,
)
    requires
        channel.settings is Some,
        !channel.wants_synchronous(),
        !channel.disabled(),
        call.dims.carried_by(call.max_frame),
    ensures
        ({
            let free = seq![
                RunReply::Flag(false),
                RunReply::Flag(false),
                RunReply::Captured(Some(frame)),
                RunReply::Performed,
            ];
            let asked = presented(frames, warm_up, call, channel, free);
            &&& asked.step == (RunStep::Begin { fresh: false })
            &&& asked.frames.original_scratch == frame@
        }),
        !frames.bootstrap ==> presented(
            frames,
            warm_up,
            call,
            channel,
            seq![RunReply::Flag(true), RunReply::Polled(Some(true))],
        ).step == (RunStep::ReadAnswer { bytes: call.dims.bytes() as u64 }),
{
    let free = Present {
        frames,
        warm_up,
        call,
        channel,
        replies: seq![
            RunReply::Flag(false),
            RunReply::Flag(false),
            RunReply::Captured(Some(frame)),
            RunReply::Performed,
        ],
    };
    lemma_next(free, 0);
    lemma_next(free, 1);
    lemma_next(free, 2);
    lemma_next(free, 3);
    let heard = Present {
        frames,
        warm_up,
        call,
        channel,
        replies: seq![RunReply::Flag(true), RunReply::Polled(Some(true))],
    };
    lemma_next(heard, 0);
    lemma_next(heard, 1);
}

/// A step that belongs to the sending of the warm-up.
pub open spec fn warming_up(step: RunStep) -> bool {
    step is CaptureBootstrap || step is MotionBootstrap || step is BeginBootstrap
}

proof fn lemma_begun(present: Present, j: int, k: int)
    requires
        0 <= j <= k <= present.replies.len(),
        present.at(j).warm_up.begun,
        !warming_up(present.at(j).step),
    ensures
        present.at(k).warm_up.begun,
        !warming_up(present.at(k).step),
    decreases k - j,
{
    if j < k {
        lemma_begun(present, j, k - 1);
        lemma_next(present, k - 1);
    }
}

proof fn lemma_begun_for_good(calls: Seq<Present>, sent: int, i: int)
    requires
        of_one_process(calls),
        0 <= sent < i < calls.len(),
        calls[sent].end().warm_up.begun,
    ensures
        calls[i].warm_up.begun,
    decreases i,
{
    assert(passes_on(calls, i));
    if i - 1 > sent {
        let before = calls[i - 1];
        lemma_begun_for_good(calls, sent, i - 1);
        lemma_begun(before, 0, before.replies.len() as int);
        assert(before.replies.take(before.replies.len() as int) =~= before.replies);
    }
}

/// The warm-up is one request per process, and never a hidden loop: after the call that sent
/// it, no call on any device captures for it or sends it again, whether it was answered,
/// given up, or is still out.
pub proof fn the_warm_up_is_sent_once(calls: Seq<Present>, sent: int, j: int, later: int, k: int)
    requires
        of_one_process(calls),
        0 <= sent < later < calls.len(),
        calls[sent].warms_up_at(j),
        0 <= k <= calls[later].replies.len(),
    ensures
        !warming_up(calls[later].at(k).step),
        !calls[later].warms_up_at(k),
{
    let first = calls[sent];
    lemma_next(first, j);
    lemma_begun(first, j + 1, first.replies.len() as int);
    lemma_begun_for_good(calls, sent, later);
    lemma_begun(calls[later], 0, k);
}

/// Every answer is presented under its own number: whenever a call is to put the answer held
/// on the image, it names the number that belongs to that answer.
pub proof fn answers_are_presented_under_their_number(present: Present, k: int)
    requires
        0 <= k <= present.replies.len(),
    ensures
        present.at(k).step matches RunStep::PresentHeld { generation } ==> generation == present.at(
            k,
        ).frames.generation && generation == present.end().frames.generation,
{
    let n = present.replies.len() as int;
    if present.at(k).step is PresentHeld {
        lemma_started(present);
        assert(k > 0);
        lemma_next(present, k - 1);
        lemma_settled(present, k, n);
        assert(present.replies.take(n) =~= present.replies);
    }
}

/// A call begins with nothing answered.
proof fn lemma_started(present: Present)
    ensures
        present.at(0) == RunState::start(
            present.frames,
            present.warm_up,
            present.call,
            present.channel,
        ),
{
    assert(present.replies.take(0) =~= Seq::empty());
}

/// A new answer gets a new number, the one after the last: a call either keeps the number of
/// the answer held, and that answer with it, or takes a new answer and counts it. No answer
/// is ever numbered 0.
pub proof fn new_answers_get_the_next_number(present: Present)
    ensures
        ({
            let (before, now) = (present.frames, present.end().frames);
            ||| now.generation == before.generation && now.last_answer == before.last_answer
            ||| {
                &&& now.generation != before.generation
                &&& now.generation != 0
                &&& before.generation < u64::MAX ==> now.generation == before.generation + 1
                &&& exists|j: int| #[trigger] present.answered_at(j, now.last_answer)
            }
        }),
{
    held_answers_match_their_frames(
        present.frames,
        present.warm_up,
        present.call,
        present.channel,
        present.replies,
    );
    let (before, now) = (present.frames, present.end().frames);
    if !(now.generation == before.generation && now.last_answer == before.last_answer) {
        let j = choose|j: int| #[trigger]
            matching_answer(
                present.frames,
                present.warm_up,
                present.call,
                present.channel,
                present.replies,
                j,
                now.last_answer,
            );
        assert(present.answered_at(j, now.last_answer));
    }
}

/// Different answers are presented under different numbers: of two calls of one device, where
/// the later one presents another answer than the earlier one, and fewer answers were counted
/// in between than there are numbers, the numbers they present them under differ.
pub proof fn different_answers_are_told_apart(calls: Seq<Present>, a: int, b: int, j: int, k: int)
    requires
        of_one_device(calls),
        0 <= a < b < calls.len(),
        0 <= j <= calls[a].replies.len(),
        0 <= k <= calls[b].replies.len(),
        calls[a].at(j).step is PresentHeld,
        calls[b].at(k).step is PresentHeld,
        calls[a].end().frames.last_answer != calls[b].end().frames.last_answer,
        calls[a].frames.generation + calls.len() < u64::MAX,
    ensures
        calls[a].at(j).step->generation < calls[b].at(k).step->generation,
{
    answers_are_presented_under_their_number(calls[a], j);
    answers_are_presented_under_their_number(calls[b], k);
    new_answers_get_the_next_number(calls[a]);
    lemma_counted(calls, a, b);
}

proof fn lemma_counted(calls: Seq<Present>, a: int, b: int)
    requires
        of_one_device(calls),
        0 <= a <= b < calls.len(),
        calls[a].frames.generation + calls.len() < u64::MAX,
    ensures
        calls[a].end().frames.generation <= calls[b].end().frames.generation
            <= calls[a].frames.generation + (b - a) + 1,
        calls[a].end().frames.generation == calls[b].end().frames.generation
            ==> calls[a].end().frames.last_answer == calls[b].end().frames.last_answer,
    decreases b,
{
    if a == b {
        new_answers_get_the_next_number(calls[a]);
    } else {
        lemma_counted(calls, a, b - 1);
        assert(continues(calls, b));
        new_answers_get_the_next_number(calls[b]);
    }
}

/// An answer is read exactly where the helper gave one: in the call that first learnt that a
/// request is outstanding and then that it was answered, and not for the warm-up. What is
/// read has the size of the frame.
pub proof fn answers_are_read_where_the_helper_gave_one(present: Present, k: int)
    requires
        0 <= k <= present.replies.len(),
    ensures
        present.at(k).step matches RunStep::ReadAnswer { bytes } ==> {
            &&& k == 2
            &&& present.replies[0] == RunReply::Flag(true)
            &&& present.replies[1] == RunReply::Polled(Some(true))
            &&& !present.frames.bootstrap
            &&& bytes == present.call.dims.width * present.call.dims.height
                * present.call.dims.format.bytes_per_pixel
        },
{
    lemma_started(present);
    if k > 0 {
        lemma_next(present, k - 1);
    }
    if k > 1 {
        lemma_next(present, k - 2);
    }
    if k > 2 {
        lemma_next(present, k - 3);
    }
}

/// The channel is asked before it is used, and nothing is sent but what was captured: the
/// frame that a request is begun for is the one this very call was given.
pub proof fn requests_carry_the_frame_just_captured(present: Present, k: int)
    requires
        0 <= k <= present.replies.len(),
        present.at(k).step is Begin || present.at(k).step is BeginBootstrap,
    ensures
        k >= 2,
        present.replies[k - 2] matches RunReply::Captured(Some(frame)) && present.at(
            k,
        ).frames.original_scratch == frame@,
        present.at(k - 2).step is Capture || present.at(k - 2).step is CaptureBootstrap,
{
    lemma_started(present);
    lemma_next(present, k - 1);
    if k == 1 {
        assert(false);
    }
    lemma_next(present, k - 2);
}

/// A held answer reaches the image one way or the other: the compositor puts it there or,
/// where that is missing or fails, the CPU does; only a staging buffer that can not be had
/// stops it. A call that put it there reports it.
pub proof fn held_answers_reach_the_image(present: Present, k: int)
    requires
        0 <= k < present.replies.len(),
    ensures
        present.at(k).step is EnsureCompose ==> (if present.replies[k] == RunReply::Flag(true) {
            present.at(k + 1).step is PresentHeld
        } else {
            present.at(k + 1).step is EnsureBuffers
        }),
        present.at(k).step is PresentHeld ==> match present.replies[k] {
            RunReply::Semaphore(Some(semaphore)) => present.at(k + 1).step == (RunStep::Publish {
                semaphore: Some(semaphore),
            }),
            _ => present.at(k + 1).step is EnsureBuffers,
        },
        present.at(k).step is EnsureBuffers ==> (if present.replies[k] == RunReply::Flag(true) {
            present.at(k + 1).step is WriteBack
        } else {
            present.at(k + 1).step == RunStep::Done(None)
        }),
        present.at(k).step is WriteBack ==> present.at(k + 1).step == (RunStep::Publish {
            semaphore: None,
        }),
        present.at(k).step matches RunStep::Publish { semaphore } ==> present.at(k + 1).step
            == RunStep::Done(semaphore),
        present.at(k + 1).step matches RunStep::EnsureBuffers { bytes } ==> (
        present.call.dims.width * present.call.dims.height
            * present.call.dims.format.bytes_per_pixel <= u64::MAX ==> bytes
            == present.call.dims.width * present.call.dims.height
            * present.call.dims.format.bytes_per_pixel),
{
    lemma_next(present, k);
    let (w, h) = (present.call.dims.width as int, present.call.dims.height as int);
    let b = present.call.dims.format.bytes_per_pixel as int;
    assert((w * h) * b >= 0) by (nonlinear_arith)
        requires
            w >= 0,
            h >= 0,
            b >= 0,
    ;
}

/// What a call does first is for the settings to say: nothing while the channel is closed; a
/// comparison view or a dump is processed on the spot, if the image presented is the one
/// captured; a frame that the channel does not carry is left alone; with processing off only
/// the warm-up is left, until it is over; and otherwise the channel is asked for an answer.
pub proof fn the_settings_decide_what_a_call_does(present: Present)
    ensures
        ({
            let first = present.at(0).step;
            let size = present.call.dims.width * present.call.dims.height
                * present.call.dims.format.bytes_per_pixel;
            match present.channel.settings {
                None => first == RunStep::Done(None),
                Some(settings) => if settings.debug_view != 0 || present.channel.capture_request {
                    if present.call.capture_image == present.call.image {
                        first is Synchronous
                    } else {
                        first == RunStep::Done(None)
                    }
                } else if !(0 < size <= present.call.max_frame) {
                    first == RunStep::Done(None)
                } else if settings.apply_model && settings.neural_enabled
                    && !present.channel.model_unavailable {
                    first is AskPending
                } else if present.frames.bootstrap_complete {
                    first == RunStep::Done(None)
                } else {
                    first is AskBootstrap
                },
            }
        }),
{
    lemma_started(present);
}

/// The warm-up is sent: with processing off and nothing outstanding, the first frame that is
/// captured is sent for it, unless one was sent before. It is over once it has been answered,
/// whether processing is still off then or not.
pub proof fn the_warm_up_takes_its_course(present: Present, k: int)
    requires
        0 <= k < present.replies.len(),
    ensures
        present.at(k).step is AskBootstrap ==> match present.replies[k] {
            RunReply::Flag(true) => present.at(k + 1).step is PollBootstrap,
            RunReply::Flag(false) => if present.at(k).warm_up.begun {
                present.at(k + 1).step == RunStep::Done(None)
            } else {
                present.at(k + 1).step is CaptureBootstrap
            },
            _ => present.at(k + 1).step == RunStep::Done(None),
        },
        present.at(k).step is CaptureBootstrap ==> match present.replies[k] {
            RunReply::Captured(Some(_)) => present.at(k + 1).step is MotionBootstrap,
            _ => present.at(k + 1).step == RunStep::Done(None),
        },
        present.at(k).step is MotionBootstrap ==> present.at(k + 1).step is BeginBootstrap,
        present.at(k).step is BeginBootstrap ==> present.at(k + 1).step == RunStep::Done(None) && (
        if present.replies[k] == RunReply::Flag(true) {
            &&& present.at(k + 1).warm_up.begun
            &&& present.at(k + 1).frames.bootstrap
            &&& present.at(k + 1).frames.dims == Some(present.call.dims)
        } else {
            &&& present.at(k + 1).warm_up == present.at(k).warm_up
            &&& present.at(k + 1).frames == present.at(k).frames
        }),
        present.at(k).step is PollBootstrap || (present.at(k).step is PollRequest && present.at(
            k,
        ).frames.bootstrap) ==> (present.at(k + 1).frames.bootstrap_complete <==> present.at(
            k,
        ).frames.bootstrap_complete || present.replies[k] == RunReply::Polled(Some(true))),
        present.at(k + 1).frames.bootstrap_complete && !present.at(k).frames.bootstrap_complete
            ==> present.replies[k] == RunReply::Polled(Some(true)),
{
    lemma_next(present, k);
}

/// With processing on, a call does as much as it can: it asks for an answer where a request is
/// out, captures where none is, sends what was captured, and goes on to the image in any case.
pub proof fn a_call_takes_its_course(present: Present, k: int)
    requires
        0 <= k < present.replies.len(),
    ensures
        present.at(k).step is AskPending ==> (if present.replies[k] == RunReply::Flag(true) {
            present.at(k + 1).step is PollRequest
        } else {
            present.at(k + 1).step is AskFree
        }),
        present.at(k).step is PollRequest ==> (if present.replies[k] == RunReply::Polled(
            Some(true),
        ) && !present.at(k).frames.bootstrap {
            present.at(k + 1).step is ReadAnswer
        } else {
            present.at(k + 1).step == (RunStep::AskFree { fresh: false })
        }),
        present.at(k).step is ReadAnswer ==> present.at(k + 1).step == (RunStep::AskFree {
            fresh: present.replies[k] is Answer && present.at(k).frames.dims == Some(
                present.call.dims,
            ),
        }),
        present.at(k).step is AskFree && present.replies[k] == RunReply::Flag(false)
            ==> present.at(k + 1).step is Capture,
        present.at(k).step is Capture && (present.replies[k] matches RunReply::Captured(c)
            && c is Some) ==> present.at(k + 1).step is PrepareMotion,
        present.at(k).step is PrepareMotion ==> present.at(k + 1).step is Begin,
        ({
            let over = {
                ||| present.at(k).step is AskFree && present.replies[k] != RunReply::Flag(false)
                ||| present.at(k).step is Capture && !(present.replies[k] matches RunReply::Captured(c)
                    && c is Some)
                ||| present.at(k).step is Begin
            };
            over ==> (if present.at(k + 1).frames.last_answer.len() > 0 {
                present.at(k + 1).step is EnsureCompose
            } else {
                present.at(k + 1).step == RunStep::Done(None)
            })
        }),
{
    lemma_next(present, k);
}

} // verus!
