//! Processing one frame on the spot.
use neuralforge::capture::Settings;
use neuralforge::capture_buffer::CaptureBuffer;
use neuralforge::commands::{awaited_capture, write_back};
use neuralforge::frame::{FrameDims, ProxyFormat};
use neuralforge::synchronous::{run_sync, SyncReply, SyncStep};

const RGBA8: ProxyFormat = ProxyFormat { code: 0, bytes_per_pixel: 4, eight_bit: true };
const RGBA16F: ProxyFormat = ProxyFormat { code: 1, bytes_per_pixel: 8, eight_bit: false };
const MAX_FRAME: u64 = 1024;

fn dims(format: ProxyFormat) -> FrameDims {
    FrameDims { width: 2, height: 1, format }
}

fn on(debug_view: u32) -> SyncReply {
    SyncReply::Settings(Some(Settings { apply_model: true, neural_enabled: true, debug_view }))
}

/// Runs the answers, and gives back the last step with the captured and the shown bytes.
fn process(format: ProxyFormat, replies: Vec<SyncReply>) -> (SyncStep, Vec<u8>, Vec<u8>) {
    let dims = dims(format);
    let (mut original, mut shown) = (Vec::new(), Vec::new());
    let mut step = run_sync(&dims, MAX_FRAME);
    for reply in replies {
        step = step.advance(&mut original, &mut shown, &dims, reply);
    }
    (step, original, shown)
}

fn frame(byte: u8) -> SyncReply {
    SyncReply::Frame(vec![byte; 8])
}

fn until_round_trip() -> Vec<SyncReply> {
    vec![SyncReply::Flag(true), frame(1), SyncReply::Performed]
}

#[test]
fn a_frame_the_channel_can_not_carry_is_left_alone() {
    assert_eq!(run_sync(&dims(RGBA8), 7), SyncStep::Done);
    assert_eq!(run_sync(&dims(RGBA8), 8), SyncStep::EnsureBuffers { bytes: 8 });
    assert_eq!(run_sync(&FrameDims { width: 0, height: 1, format: RGBA8 }, 8), SyncStep::Done);
}

#[test]
fn an_unanswered_frame_is_written_back_as_it_was_captured() {
    let mut replies = until_round_trip();
    assert_eq!(process(RGBA8, until_round_trip()).0, SyncStep::RoundTrip);
    replies.push(SyncReply::Flag(false));
    replies.push(SyncReply::Flag(false));
    let (step, original, shown) = process(RGBA8, replies);
    assert_eq!(step, SyncStep::WriteBack { answered: false });
    assert_eq!(original, vec![1; 8]);
    assert_eq!(shown, original);
}

#[test]
fn a_composed_frame_is_shown_and_dumped() {
    let mut replies = until_round_trip();
    replies.extend([SyncReply::Flag(true), frame(2), on(0), SyncReply::Flag(true), frame(3), SyncReply::Flag(true)]);
    let (step, original, shown) = process(RGBA8, replies);
    assert_eq!(step, SyncStep::Dump { answered: true });
    assert_eq!(original, vec![1; 8]);
    assert_eq!(shown, vec![3; 8]);
}

#[test]
fn without_a_compositor_the_cpu_composes() {
    let mut replies = until_round_trip();
    replies.extend([SyncReply::Flag(true), frame(2), on(0), SyncReply::Flag(false)]);
    assert_eq!(process(RGBA8, replies).0, SyncStep::ComposeCpu { debug_view: 0 });
    let mut replies = until_round_trip();
    replies.extend([SyncReply::Flag(true), frame(2), on(0), SyncReply::Flag(true), SyncReply::Failed]);
    assert_eq!(process(RGBA8, replies).0, SyncStep::ComposeCpu { debug_view: 0 });
    // A comparison view is the CPU's alone.
    let mut replies = until_round_trip();
    replies.extend([SyncReply::Flag(true), frame(2), on(2)]);
    assert_eq!(process(RGBA8, replies).0, SyncStep::ComposeCpu { debug_view: 2 });
}

#[test]
fn switched_off_shows_the_clean_frame() {
    for (apply_model, neural_enabled) in [(false, true), (true, false), (false, false)] {
        let settings = Settings { apply_model, neural_enabled, debug_view: 1 };
        let mut replies = until_round_trip();
        replies.extend([SyncReply::Flag(true), frame(2), SyncReply::Settings(Some(settings)), SyncReply::Flag(false)]);
        let (step, original, shown) = process(RGBA8, replies);
        assert_eq!(step, SyncStep::WriteBack { answered: true });
        assert_eq!((original, shown), (vec![1; 8], vec![1; 8]));
    }
}

#[test]
fn other_formats_show_the_raw_answer_and_are_not_dumped() {
    let mut replies = vec![
        SyncReply::Flag(true),
        SyncReply::Frame(vec![1; 16]),
        SyncReply::Performed,
        SyncReply::Flag(true),
        SyncReply::Frame(vec![2; 16]),
    ];
    replies.push(SyncReply::Flag(true));
    let (step, _, shown) = process(RGBA16F, replies);
    assert_eq!(step, SyncStep::WriteBack { answered: true });
    assert_eq!(shown, vec![2; 16]);
}

#[test]
fn a_failed_stage_ends_the_processing() {
    assert_eq!(process(RGBA8, vec![SyncReply::Flag(false)]).0, SyncStep::Done);
    assert_eq!(process(RGBA8, vec![SyncReply::Flag(true), SyncReply::Failed]).0, SyncStep::Done);
    let mut replies = until_round_trip();
    replies.extend([SyncReply::Flag(false), SyncReply::Flag(false), SyncReply::Failed]);
    assert_eq!(process(RGBA8, replies).0, SyncStep::Done);
    let mut replies = until_round_trip();
    replies.extend([SyncReply::Flag(false), SyncReply::Flag(false), SyncReply::Flag(true)]);
    assert_eq!(process(RGBA8, replies).0, SyncStep::Publish { answered: false });
    // Settings that are gone leave the raw answer.
    let mut replies = until_round_trip();
    replies.extend([SyncReply::Flag(true), frame(2), SyncReply::Settings(None)]);
    let (step, _, shown) = process(RGBA8, replies);
    assert_eq!((step, shown), (SyncStep::TakeRequest { answered: true }, vec![2; 8]));
}

#[test]
fn only_the_capture_and_the_write_back_are_recorded() {
    let buf = CaptureBuffer { pool: 1, cmd: 2, fence: 3, buffer: 4, memory: 5, ptr: 6, capacity: 8 };
    let dims = dims(RGBA8);
    let capture = SyncStep::CaptureFrame { bytes: 8 }.commands(9, &dims, &buf);
    assert_eq!(capture, Some(awaited_capture(9, 4, 2, 1, 3)));
    for answered in [false, true] {
        let written = SyncStep::WriteBack { answered }.commands(9, &dims, &buf);
        assert_eq!(written, Some(write_back(9, 4, 2, 1, 3)));
    }
    assert_eq!(SyncStep::RoundTrip.commands(9, &dims, &buf), None);
}
