//! Capturing without waiting: two strategies that submit a copy of the presented image in
//! one call and collect it in a later one.
//!
//! A [`CapturePipeline`] copies into one of two staging buffers. A [`DirectCapture`] copies
//! straight into the shared region, imported as device memory; there is only one of it,
//! because two captures in flight would write the same bytes. [`CaptureStep`] says what to
//! ask of the driver next, for either.
use vstd::multiset::Multiset;
use vstd::prelude::*;

use crate::capture_buffer::{BufferRequest, CaptureBuffer, Resource};
use crate::commands::{
    awaited_submission, capture_gives_the_image_back, capture_recording, capture_submission,
    captures_take_the_whole_image, copies_out, handed_over, layout_on_queue, submission,
    written_on_queue, Command,
};
use crate::frame::{frame_bytes, FrameDims};

verus! {

/// A buffer, and what was submitted into it and is not known to be finished. While
/// `pending` is set, nothing of `buf` may be reset, reused or destroyed.
#[derive(Clone, Copy, Debug, PartialEq, Eq, Structural)]
pub struct PipelineSlot {
    pub buf: CaptureBuffer,
    pub pending: Option<FrameDims>,
}

/// Two slots, so that a new capture need not wait for the one before it.
#[derive(Clone, Copy, Debug, PartialEq, Eq, Structural)]
pub struct CapturePipeline {
    pub queue_family: u32,
    pub first: PipelineSlot,
    pub second: PipelineSlot,
}

/// The one slot on imported memory.
#[derive(Clone, Copy, Debug, PartialEq, Eq, Structural)]
pub struct DirectCapture {
    pub queue_family: u32,
    pub slot: PipelineSlot,
}

/// Which slot of a pipeline.
#[derive(Clone, Copy, Debug, PartialEq, Eq, Structural)]
pub enum SlotId {
    First,
    Second,
}

/// The capture objects of one device.
#[derive(Clone, Copy, Debug, PartialEq, Eq, Structural)]
pub struct CapturePool {
    pub pipeline: Option<CapturePipeline>,
    pub direct: Option<DirectCapture>,
}

/// The shared region: where it is mapped and how large it is.
#[derive(Clone, Copy, Debug, PartialEq, Eq, Structural)]
pub struct SharedRegion {
    pub ptr: u64,
    pub capacity: u64,
}

/// One present call's capture: what is captured, and how.
#[derive(Clone, Copy, Debug, PartialEq, Eq, Structural)]
pub struct CaptureCall {
    pub use_direct: bool,
    pub region: Option<SharedRegion>,
    pub queue_family: u32,
    pub image: u64,
    pub layout: i32,
    pub dims: FrameDims,
}

/// What to ask of the driver or the channel.
#[derive(Clone, Copy, Debug, PartialEq, Eq, Structural)]
pub enum CaptureStep {
    /// Wait for the fence of a pending slot, before its pipeline is rebuilt.
    Drain { slot: SlotId, fence: u64 },
    /// Destroy both buffers of a pipeline that was given up.
    DestroyPipeline { first: CaptureBuffer, second: CaptureBuffer },
    BuildFirst { request: BufferRequest },
    BuildSecond { request: BufferRequest, first: CaptureBuffer },
    /// Destroy the first buffer: there is no second one.
    Discard { first: CaptureBuffer },
    /// Ask, without waiting, whether a pending slot's fence has signalled.
    Query { slot: SlotId, fence: u64 },
    /// Read the capture out of a slot's mapping.
    ReadStaging { ptr: u64, bytes: u64, dims: FrameDims },
    /// Announce the frame and copy it into the shared region.
    Publish { dims: FrameDims },
    /// Record and submit the capture into a free slot, without waiting.
    Submit { slot: SlotId, buf: CaptureBuffer },
    /// Wait for the direct capture's fence, before it is rebuilt.
    DrainDirect { fence: u64 },
    DestroyDirect { buf: CaptureBuffer },
    BuildDirect { request: BufferRequest },
    QueryDirect { fence: u64 },
    /// Read the capture back out of the shared region, for a copy that later captures
    /// leave alone.
    ReadRegion { ptr: u64, bytes: u64, dims: FrameDims },
    /// Announce the frame; its bytes are in the shared region already.
    Announce { dims: FrameDims },
    SubmitDirect { buf: CaptureBuffer },
    /// Whether a capture of this call's frame was collected.
    Finished(bool),
}

/// What came back.
#[derive(Debug)]
pub enum CaptureReply {
    /// Done, where a step can not fail.
    Done,
    /// Whether the wait, or the recording and submission, succeeded.
    Succeeded(bool),
    /// The fence has signalled.
    Signalled,
    /// It has not, or the driver reported an error.
    NotSignalled,
    Built(Option<CaptureBuffer>),
    Bytes(Vec<u8>),
}

impl PipelineSlot {
    /// A capture in flight fits in the slot's buffer.
    pub open spec fn wf(&self) -> bool {
        self.pending matches Some(dims) ==> dims.bytes() <= self.buf.capacity
    }
}

impl CapturePipeline {
    pub open spec fn wf(&self) -> bool {
        self.first.wf() && self.second.wf()
    }

    pub open spec fn slot(&self, id: SlotId) -> PipelineSlot {
        match id {
            SlotId::First => self.first,
            SlotId::Second => self.second,
        }
    }

    /// The same pipeline with another `pending` in one slot.
    pub open spec fn marked(&self, id: SlotId, pending: Option<FrameDims>) -> CapturePipeline {
        match id {
            SlotId::First => CapturePipeline {
                first: PipelineSlot { pending, ..self.first },
                ..*self
            },
            SlotId::Second => CapturePipeline {
                second: PipelineSlot { pending, ..self.second },
                ..*self
            },
        }
    }

    /// Usable for frames of this size on this queue family.
    pub open spec fn fits(&self, queue_family: u32, dims: FrameDims) -> bool {
        &&& self.queue_family == queue_family
        &&& self.first.buf.capacity >= dims.bytes()
        &&& self.second.buf.capacity >= dims.bytes()
    }

    /// The first slot with a capture in flight, from `from` on; `None` is past the end.
    pub open spec fn pending_from(&self, from: Option<SlotId>) -> Option<SlotId> {
        if from == Some(SlotId::First) && self.first.pending is Some {
            Some(SlotId::First)
        } else if from is Some && self.second.pending is Some {
            Some(SlotId::Second)
        } else {
            None
        }
    }

    /// The first slot without a capture in flight.
    pub open spec fn free_slot(&self) -> Option<SlotId> {
        if self.first.pending is None {
            Some(SlotId::First)
        } else if self.second.pending is None {
            Some(SlotId::Second)
        } else {
            None
        }
    }

    /// Two fresh buffers.
    pub open spec fn of(queue_family: u32, first: CaptureBuffer, second: CaptureBuffer) -> CapturePipeline {
        CapturePipeline {
            queue_family,
            first: PipelineSlot { buf: first, pending: None },
            second: PipelineSlot { buf: second, pending: None },
        }
    }

    /// What is asked once the slots before `from` have been looked at: the next pending
    /// fence, or, with none left, a submission.
    pub open spec fn queried_from(&self, call: CaptureCall, from: Option<SlotId>) -> CaptureStep {
        match self.pending_from(from) {
            Some(slot) => CaptureStep::Query { slot, fence: self.slot(slot).buf.fence },
            None => self.submitting(call),
        }
    }

    /// A submission into the first free slot, if one is free and holds the frame.
    pub open spec fn submitting(&self, call: CaptureCall) -> CaptureStep {
        match self.free_slot() {
            Some(slot) if self.slot(slot).buf.capacity >= call.dims.bytes() => CaptureStep::Submit {
                slot,
                buf: self.slot(slot).buf,
            },
            _ => CaptureStep::Finished(false),
        }
    }
}

impl DirectCapture {
    pub open spec fn wf(&self) -> bool {
        self.slot.wf()
    }

    /// Built on this very region, and on this queue family.
    pub open spec fn fits(&self, queue_family: u32, region: SharedRegion) -> bool {
        &&& self.queue_family == queue_family
        &&& self.slot.buf.capacity >= region.capacity
        &&& self.slot.buf.ptr == region.ptr
    }

    /// The fence of the capture in flight, or else a submission.
    pub open spec fn queried(&self, call: CaptureCall) -> CaptureStep {
        if self.slot.pending is Some {
            CaptureStep::QueryDirect { fence: self.slot.buf.fence }
        } else if self.slot.buf.capacity >= call.dims.bytes() {
            CaptureStep::SubmitDirect { buf: self.slot.buf }
        } else {
            CaptureStep::Finished(false)
        }
    }
}

impl SlotId {
    /// The slot after this one.
    pub open spec fn next(&self) -> Option<SlotId> {
        match self {
            SlotId::First => Some(SlotId::Second),
            SlotId::Second => None,
        }
    }
}

impl CaptureCall {
    /// The buffer a pipeline slot is built as.
    pub open spec fn staging_request(&self) -> BufferRequest {
        BufferRequest {
            queue_family: self.queue_family,
            bytes: self.dims.bytes() as u64,
            host_ptr: None,
        }
    }

    /// The buffer a direct capture is built as.
    pub open spec fn import_request(&self, region: SharedRegion) -> BufferRequest {
        BufferRequest {
            queue_family: self.queue_family,
            bytes: region.capacity,
            host_ptr: Some(region.ptr),
        }
    }
}

/// Where a call's capture stands: the step due, the capture objects, and the bytes last
/// collected.
#[verifier::ext_equal]
pub struct CaptureState {
    pub step: CaptureStep,
    pub pool: CapturePool,
    pub scratch: Seq<u8>,
}

impl CapturePool {
    pub open spec fn wf(&self) -> bool {
        &&& self.pipeline matches Some(p) ==> p.wf()
        &&& self.direct matches Some(d) ==> d.wf()
    }

    /// The rebuilding of a pipeline, once the slots before `from` are drained: wait for the
    /// next pending slot, or give the pipeline up.
    pub open spec fn drained_from(self, from: Option<SlotId>) -> (CaptureStep, CapturePool) {
        match self.pipeline {
            Some(p) => match p.pending_from(from) {
                Some(slot) => (CaptureStep::Drain { slot, fence: p.slot(slot).buf.fence }, self),
                None => (
                    CaptureStep::DestroyPipeline { first: p.first.buf, second: p.second.buf },
                    CapturePool { pipeline: None, ..self },
                ),
            },
            None => (CaptureStep::Finished(false), self),
        }
    }

    /// The direct capture is given up.
    pub open spec fn direct_retired(self) -> (CaptureStep, CapturePool) {
        match self.direct {
            Some(d) => (
                CaptureStep::DestroyDirect { buf: d.slot.buf },
                CapturePool { direct: None, ..self },
            ),
            None => (CaptureStep::Finished(false), self),
        }
    }
}

impl CaptureState {
    /// The same capture at another step.
    pub open spec fn at(self, step: CaptureStep) -> CaptureState {
        CaptureState { step, ..self }
    }

    pub open spec fn with_pipeline(self, pipeline: Option<CapturePipeline>) -> CaptureState {
        CaptureState { pool: CapturePool { pipeline, ..self.pool }, ..self }
    }

    pub open spec fn with_direct(self, direct: Option<DirectCapture>) -> CaptureState {
        CaptureState { pool: CapturePool { direct, ..self.pool }, ..self }
    }

    /// The same bytes, at another step with other capture objects.
    pub open spec fn moved(self, to: (CaptureStep, CapturePool)) -> CaptureState {
        CaptureState { step: to.0, pool: to.1, ..self }
    }

    /// The capture objects are well formed, and the step due speaks of them: a submission
    /// goes to a buffer that is free and large enough, a fence that is asked or waited for
    /// belongs to a capture in flight, and what is being rebuilt is not held any more.
    pub open spec fn sound(self, call: CaptureCall) -> bool {
        &&& self.pool.wf()
        &&& call.dims.bytes() <= u64::MAX
        &&& match self.step {
            CaptureStep::Drain { slot, fence } | CaptureStep::Query { slot, fence } => {
                &&& self.pool.pipeline matches Some(p)
                &&& p.slot(slot).pending is Some
                &&& p.slot(slot).buf.fence == fence
            },
            CaptureStep::Submit { slot, buf } => {
                &&& self.pool.pipeline matches Some(p)
                &&& p.slot(slot).pending is None
                &&& p.slot(slot).buf == buf
                &&& buf.capacity >= call.dims.bytes()
            },
            CaptureStep::DestroyPipeline { .. }
            | CaptureStep::BuildFirst { .. }
            | CaptureStep::BuildSecond { .. }
            | CaptureStep::Discard { .. } => self.pool.pipeline is None,
            CaptureStep::ReadStaging { bytes, dims, .. } => bytes == dims.bytes(),
            CaptureStep::DrainDirect { fence } | CaptureStep::QueryDirect { fence } => {
                &&& call.region is Some
                &&& self.pool.direct matches Some(d)
                &&& d.slot.pending is Some
                &&& d.slot.buf.fence == fence
            },
            CaptureStep::DestroyDirect { .. } | CaptureStep::BuildDirect { .. } => {
                &&& call.region is Some
                &&& self.pool.direct is None
            },
            CaptureStep::ReadRegion { ptr, bytes, .. } => {
                &&& call.region matches Some(region)
                &&& ptr == region.ptr
                &&& bytes <= region.capacity
                &&& bytes <= call.dims.bytes()
            },
            CaptureStep::SubmitDirect { buf } => {
                &&& self.pool.direct matches Some(d)
                &&& d.slot.pending is None
                &&& d.slot.buf == buf
                &&& buf.capacity >= call.dims.bytes()
            },
            CaptureStep::Publish { .. }
            | CaptureStep::Announce { .. }
            | CaptureStep::Finished(_) => true,
        }
    }

    /// The first step of a call.
    pub open spec fn start(pool: CapturePool, scratch: Seq<u8>, call: CaptureCall) -> CaptureState {
        let idle = CaptureState { step: CaptureStep::Finished(false), pool, scratch };
        if call.dims.bytes() > u64::MAX {
            idle
        } else if call.use_direct {
            match (call.region, pool.direct) {
                (None, _) => idle,
                (Some(region), Some(d)) => if d.fits(call.queue_family, region) {
                    idle.at(d.queried(call))
                } else if d.slot.pending is Some {
                    idle.at(CaptureStep::DrainDirect { fence: d.slot.buf.fence })
                } else {
                    idle.moved(pool.direct_retired())
                },
                (Some(region), None) => idle.at(
                    CaptureStep::BuildDirect { request: call.import_request(region) },
                ),
            }
        } else {
            match pool.pipeline {
                Some(p) => if p.fits(call.queue_family, call.dims) {
                    idle.at(p.queried_from(call, Some(SlotId::First)))
                } else {
                    idle.moved(pool.drained_from(Some(SlotId::First)))
                },
                None => idle.at(CaptureStep::BuildFirst { request: call.staging_request() }),
            }
        }
    }

    /// The state once the pending step has been answered.
    pub open spec fn after(self, call: CaptureCall, reply: CaptureReply) -> CaptureState {
        match self.step {
            CaptureStep::Finished(_) => self,
            CaptureStep::Drain { slot, .. } => match reply {
                CaptureReply::Succeeded(true) => self.moved(self.pool.drained_from(slot.next())),
                _ => self.at(CaptureStep::Finished(false)),
            },
            CaptureStep::DestroyPipeline { .. } => self.at(
                CaptureStep::BuildFirst { request: call.staging_request() },
            ),
            CaptureStep::BuildFirst { request } => match reply {
                CaptureReply::Built(Some(first)) => self.at(
                    CaptureStep::BuildSecond { request, first },
                ),
                _ => self.at(CaptureStep::Finished(false)),
            },
            CaptureStep::BuildSecond { first, .. } => match reply {
                CaptureReply::Built(Some(second)) => {
                    let built = CapturePipeline::of(call.queue_family, first, second);
                    self.with_pipeline(Some(built)).at(built.submitting(call))
                },
                _ => self.at(CaptureStep::Discard { first }),
            },
            CaptureStep::Discard { .. } => self.at(CaptureStep::Finished(false)),
            CaptureStep::Query { slot, .. } => match (reply, self.pool.pipeline) {
                (CaptureReply::Signalled, Some(p)) => match p.slot(slot).pending {
                    Some(dims) => self.with_pipeline(Some(p.marked(slot, None))).at(
                        CaptureStep::ReadStaging {
                            ptr: p.slot(slot).buf.ptr,
                            bytes: dims.bytes() as u64,
                            dims,
                        },
                    ),
                    None => self.at(CaptureStep::Finished(false)),
                },
                (_, Some(p)) => self.at(p.queried_from(call, slot.next())),
                (_, None) => self.at(CaptureStep::Finished(false)),
            },
            CaptureStep::ReadStaging { dims, .. } => match reply {
                CaptureReply::Bytes(captured) => {
                    let kept = CaptureState { scratch: captured@, ..self };
                    if dims == call.dims {
                        kept.at(CaptureStep::Publish { dims })
                    } else {
                        kept.at(CaptureStep::Finished(false))
                    }
                },
                _ => self.at(CaptureStep::Finished(false)),
            },
            CaptureStep::Publish { .. } => self.at(CaptureStep::Finished(true)),
            CaptureStep::Submit { slot, .. } => match (reply, self.pool.pipeline) {
                (CaptureReply::Succeeded(true), Some(p)) => self.with_pipeline(
                    Some(p.marked(slot, Some(call.dims))),
                ).at(CaptureStep::Finished(false)),
                _ => self.at(CaptureStep::Finished(false)),
            },
            CaptureStep::DrainDirect { .. } => match reply {
                CaptureReply::Succeeded(true) => self.moved(self.pool.direct_retired()),
                _ => self.at(CaptureStep::Finished(false)),
            },
            CaptureStep::DestroyDirect { .. } => match call.region {
                Some(region) => self.at(
                    CaptureStep::BuildDirect { request: call.import_request(region) },
                ),
                None => self.at(CaptureStep::Finished(false)),
            },
            CaptureStep::BuildDirect { .. } => match reply {
                CaptureReply::Built(Some(buf)) => {
                    let built = DirectCapture {
                        queue_family: call.queue_family,
                        slot: PipelineSlot { buf, pending: None },
                    };
                    self.with_direct(Some(built)).at(built.queried(call))
                },
                _ => self.at(CaptureStep::Finished(false)),
            },
            CaptureStep::QueryDirect { .. } => match (reply, self.pool.direct, call.region) {
                (CaptureReply::Signalled, Some(d), Some(region)) => match d.slot.pending {
                    Some(dims) => self.with_direct(
                        Some(
                            DirectCapture { slot: PipelineSlot { pending: None, ..d.slot }, ..d },
                        ),
                    ).at(
                        CaptureStep::ReadRegion {
                            ptr: region.ptr,
                            bytes: if region.capacity < call.dims.bytes() {
                                region.capacity
                            } else {
                                call.dims.bytes() as u64
                            },
                            dims,
                        },
                    ),
                    None => self.at(CaptureStep::Finished(false)),
                },
                _ => self.at(CaptureStep::Finished(false)),
            },
            CaptureStep::ReadRegion { dims, .. } => match reply {
                CaptureReply::Bytes(captured) => {
                    let kept = CaptureState { scratch: captured@, ..self };
                    if dims == call.dims {
                        kept.at(CaptureStep::Announce { dims })
                    } else {
                        kept.at(CaptureStep::Finished(false))
                    }
                },
                _ => self.at(CaptureStep::Finished(false)),
            },
            CaptureStep::Announce { .. } => self.at(CaptureStep::Finished(true)),
            CaptureStep::SubmitDirect { .. } => match (reply, self.pool.direct) {
                (CaptureReply::Succeeded(true), Some(d)) => self.with_direct(
                    Some(
                        DirectCapture {
                            slot: PipelineSlot { pending: Some(call.dims), ..d.slot },
                            ..d
                        },
                    ),
                ).at(CaptureStep::Finished(false)),
                _ => self.at(CaptureStep::Finished(false)),
            },
        }
    }
}

/// Whether a buffer of this capacity holds the frame.
fn holds(capacity: u64, dims: &FrameDims) -> (r: bool)
    ensures
        r == (capacity >= dims.bytes()),
{
    match frame_bytes(dims) {
        Some(bytes) => capacity >= bytes,
        None => false,
    }
}

impl CapturePipeline {
    fn first_pending_from(&self, from: Option<SlotId>) -> (r: Option<SlotId>)
        ensures
            r == self.pending_from(from),
    {
        match from {
            Some(SlotId::First) => if self.first.pending.is_some() {
                Some(SlotId::First)
            } else if self.second.pending.is_some() {
                Some(SlotId::Second)
            } else {
                None
            },
            Some(SlotId::Second) => if self.second.pending.is_some() {
                Some(SlotId::Second)
            } else {
                None
            },
            None => None,
        }
    }

    fn get(&self, id: SlotId) -> (r: PipelineSlot)
        ensures
            r == self.slot(id),
    {
        match id {
            SlotId::First => self.first,
            SlotId::Second => self.second,
        }
    }

    fn with_pending(self, id: SlotId, pending: Option<FrameDims>) -> (r: CapturePipeline)
        ensures
            r == self.marked(id, pending),
    {
        match id {
            SlotId::First => CapturePipeline {
                first: PipelineSlot { pending, ..self.first },
                ..self
            },
            SlotId::Second => CapturePipeline {
                second: PipelineSlot { pending, ..self.second },
                ..self
            },
        }
    }

    /// The step that submits a new capture, into whichever slot is free. With both slots
    /// pending there is none: a pending slot is never touched.
    pub fn submit_pipeline_capture(&self, call: &CaptureCall) -> (r: CaptureStep)
        ensures
            r == self.submitting(*call),
    {
        let slot = if self.first.pending.is_none() {
            SlotId::First
        } else if self.second.pending.is_none() {
            SlotId::Second
        } else {
            return CaptureStep::Finished(false);
        };
        let buf = self.get(slot).buf;
        if holds(buf.capacity, &call.dims) {
            CaptureStep::Submit { slot, buf }
        } else {
            CaptureStep::Finished(false)
        }
    }

    /// The step that looks for a finished capture, from slot `from` on. Every pending slot
    /// is asked in turn; one whose fence reports an error stays pending and does not stop
    /// the other from being asked.
    pub fn poll_pipeline_capture(&self, call: &CaptureCall, from: Option<SlotId>) -> (r: CaptureStep)
        ensures
            r == self.queried_from(*call, from),
    {
        match self.first_pending_from(from) {
            Some(slot) => CaptureStep::Query { slot, fence: self.get(slot).buf.fence },
            None => self.submit_pipeline_capture(call),
        }
    }
}

impl DirectCapture {
    /// The step that looks for a finished capture or, with none in flight, submits one.
    pub fn poll_direct_capture(&self, call: &CaptureCall) -> (r: CaptureStep)
        ensures
            r == self.queried(*call),
    {
        if self.slot.pending.is_some() {
            CaptureStep::QueryDirect { fence: self.slot.buf.fence }
        } else if holds(self.slot.buf.capacity, &call.dims) {
            CaptureStep::SubmitDirect { buf: self.slot.buf }
        } else {
            CaptureStep::Finished(false)
        }
    }
}

fn staging(call: &CaptureCall, bytes: u64) -> (r: BufferRequest)
    requires
        bytes == call.dims.bytes(),
    ensures
        r == call.staging_request(),
{
    BufferRequest { queue_family: call.queue_family, bytes, host_ptr: None }
}

fn import(call: &CaptureCall, region: SharedRegion) -> (r: BufferRequest)
    ensures
        r == call.import_request(region),
{
    BufferRequest {
        queue_family: call.queue_family,
        bytes: region.capacity,
        host_ptr: Some(region.ptr),
    }
}

fn next_slot(slot: SlotId) -> (r: Option<SlotId>)
    ensures
        r == slot.next(),
{
    match slot {
        SlotId::First => Some(SlotId::Second),
        SlotId::Second => None,
    }
}

/// Rebuilds the pipeline: each pending slot from `from` on is drained first, then both
/// buffers are given up.
fn ensure_pipeline(pool: &mut CapturePool, from: Option<SlotId>) -> (r: CaptureStep)
    ensures
        (r, *final(pool)) == old(pool).drained_from(from),
{
    match pool.pipeline {
        Some(p) => match p.first_pending_from(from) {
            Some(slot) => CaptureStep::Drain { slot, fence: p.get(slot).buf.fence },
            None => {
                pool.pipeline = None;
                CaptureStep::DestroyPipeline { first: p.first.buf, second: p.second.buf }
            },
        },
        None => CaptureStep::Finished(false),
    }
}

/// Gives the direct capture up, for rebuilding.
fn retire_direct(pool: &mut CapturePool) -> (r: CaptureStep)
    ensures
        (r, *final(pool)) == old(pool).direct_retired(),
{
    match pool.direct {
        Some(d) => {
            pool.direct = None;
            CaptureStep::DestroyDirect { buf: d.slot.buf }
        },
        None => CaptureStep::Finished(false),
    }
}

/// Begins one call's capture: collects one that was submitted earlier if it has finished,
/// and otherwise submits a new one. Nothing here waits, except where the capture objects
/// have to be rebuilt.
pub fn poll_or_submit_capture(call: &CaptureCall, pool: &mut CapturePool, scratch: &Vec<u8>) -> (r: CaptureStep)
    ensures
        old(pool).wf() && call.dims.bytes() <= u64::MAX ==> (CaptureState {
            step: r,
            pool: *final(pool),
            scratch: scratch@,
        }).sound(*call),
        (CaptureState { step: r, pool: *final(pool), scratch: scratch@ }) == CaptureState::start(
            *old(pool),
            scratch@,
            *call,
        ),
{
    proof {
        if pool.wf() && call.dims.bytes() <= u64::MAX {
            lemma_start_is_sound(*pool, scratch@, *call);
        }
    }
    let bytes = match frame_bytes(&call.dims) {
        Some(bytes) => bytes,
        None => return CaptureStep::Finished(false),
    };
    if call.use_direct {
        let region = match call.region {
            Some(region) => region,
            None => return CaptureStep::Finished(false),
        };
        match pool.direct {
            Some(d) => if d.queue_family == call.queue_family && d.slot.buf.capacity
                >= region.capacity && d.slot.buf.ptr == region.ptr {
                d.poll_direct_capture(call)
            } else if d.slot.pending.is_some() {
                CaptureStep::DrainDirect { fence: d.slot.buf.fence }
            } else {
                retire_direct(pool)
            },
            None => CaptureStep::BuildDirect { request: import(call, region) },
        }
    } else {
        match pool.pipeline {
            Some(p) => if p.queue_family == call.queue_family && p.first.buf.capacity >= bytes
                && p.second.buf.capacity >= bytes {
                p.poll_pipeline_capture(call, Some(SlotId::First))
            } else {
                ensure_pipeline(pool, Some(SlotId::First))
            },
            None => CaptureStep::BuildFirst { request: staging(call, bytes) },
        }
    }
}

impl CaptureStep {
    /// The commands that a submission stands for: copy the call's image into the buffer and
    /// hand that to the queue, without waiting. No other step records anything.
    pub open spec fn recorded(self, call: CaptureCall) -> Option<Seq<Command>> {
        match self {
            CaptureStep::Submit { buf, .. } | CaptureStep::SubmitDirect { buf } => Some(
                capture_recording(
                    call.image,
                    call.layout,
                    buf.buffer,
                    call.dims.width,
                    call.dims.height,
                ) + submission(buf.fence),
            ),
            _ => None,
        }
    }

    /// The commands that this step stands for, on the command buffer of its capture buffer.
    pub fn commands(&self, call: &CaptureCall) -> (r: Option<Vec<Command>>)
        ensures
            (match r {
                Some(commands) => Some(commands@),
                None => None,
            }) == self.recorded(*call),
    {
        match *self {
            CaptureStep::Submit { buf, .. } | CaptureStep::SubmitDirect { buf } => Some(
                capture_submission(
                    call.image,
                    call.layout,
                    buf.buffer,
                    call.dims.width,
                    call.dims.height,
                    buf.fence,
                ),
            ),
            _ => None,
        }
    }

    /// The next step, from the answer to this one.
    pub fn advance(self, call: &CaptureCall, pool: &mut CapturePool, scratch: &mut Vec<u8>, reply: CaptureReply) -> (r: CaptureStep)
        requires
            (CaptureState { step: self, pool: *old(pool), scratch: old(scratch)@ }).sound(*call),
        ensures
            (CaptureState { step: r, pool: *final(pool), scratch: final(scratch)@ }) == (
            CaptureState { step: self, pool: *old(pool), scratch: old(scratch)@ }).after(
                *call,
                reply,
            ),
            (CaptureState { step: r, pool: *final(pool), scratch: final(scratch)@ }).sound(*call),
    {
        proof {
            lemma_after_is_sound(
                CaptureState { step: self, pool: *pool, scratch: scratch@ },
                *call,
                reply,
            );
        }
        let bytes = match frame_bytes(&call.dims) {
            Some(bytes) => bytes,
            None => 0,
        };
        match self {
            CaptureStep::Finished(_) => self,
            CaptureStep::Drain { slot, .. } => match reply {
                CaptureReply::Succeeded(true) => ensure_pipeline(pool, next_slot(slot)),
                _ => CaptureStep::Finished(false),
            },
            CaptureStep::DestroyPipeline { .. } => CaptureStep::BuildFirst {
                request: staging(call, bytes),
            },
            CaptureStep::BuildFirst { request } => match reply {
                CaptureReply::Built(Some(first)) => CaptureStep::BuildSecond { request, first },
                _ => CaptureStep::Finished(false),
            },
            CaptureStep::BuildSecond { first, .. } => match reply {
                CaptureReply::Built(Some(second)) => {
                    let built = CapturePipeline {
                        queue_family: call.queue_family,
                        first: PipelineSlot { buf: first, pending: None },
                        second: PipelineSlot { buf: second, pending: None },
                    };
                    pool.pipeline = Some(built);
                    built.submit_pipeline_capture(call)
                },
                _ => CaptureStep::Discard { first },
            },
            CaptureStep::Discard { .. } => CaptureStep::Finished(false),
            CaptureStep::Query { slot, .. } => match pool.pipeline {
                Some(p) => match reply {
                    CaptureReply::Signalled => {
                        let waiting = p.get(slot);
                        match waiting.pending {
                            Some(dims) => {
                                let taken = match frame_bytes(&dims) {
                                    Some(taken) => taken,
                                    None => 0,
                                };
                                pool.pipeline = Some(p.with_pending(slot, None));
                                CaptureStep::ReadStaging { ptr: waiting.buf.ptr, bytes: taken, dims }
                            },
                            None => CaptureStep::Finished(false),
                        }
                    },
                    _ => p.poll_pipeline_capture(call, next_slot(slot)),
                },
                None => CaptureStep::Finished(false),
            },
            CaptureStep::ReadStaging { dims, .. } => match reply {
                CaptureReply::Bytes(captured) => {
                    *scratch = captured;
                    if dims == call.dims {
                        CaptureStep::Publish { dims }
                    } else {
                        CaptureStep::Finished(false)
                    }
                },
                _ => CaptureStep::Finished(false),
            },
            CaptureStep::Publish { .. } => CaptureStep::Finished(true),
            CaptureStep::Submit { slot, .. } => {
                if let CaptureReply::Succeeded(true) = reply {
                    if let Some(p) = pool.pipeline {
                        pool.pipeline = Some(p.with_pending(slot, Some(call.dims)));
                    }
                }
                CaptureStep::Finished(false)
            },
            CaptureStep::DrainDirect { .. } => match reply {
                CaptureReply::Succeeded(true) => retire_direct(pool),
                _ => CaptureStep::Finished(false),
            },
            CaptureStep::DestroyDirect { .. } => match call.region {
                Some(region) => CaptureStep::BuildDirect { request: import(call, region) },
                None => CaptureStep::Finished(false),
            },
            CaptureStep::BuildDirect { .. } => match reply {
                CaptureReply::Built(Some(buf)) => {
                    let built = DirectCapture {
                        queue_family: call.queue_family,
                        slot: PipelineSlot { buf, pending: None },
                    };
                    pool.direct = Some(built);
                    built.poll_direct_capture(call)
                },
                _ => CaptureStep::Finished(false),
            },
            CaptureStep::QueryDirect { .. } => match (reply, pool.direct, call.region) {
                (CaptureReply::Signalled, Some(d), Some(region)) => match d.slot.pending {
                    Some(dims) => {
                        pool.direct = Some(
                            DirectCapture { slot: PipelineSlot { pending: None, ..d.slot }, ..d },
                        );
                        CaptureStep::ReadRegion {
                            ptr: region.ptr,
                            bytes: if region.capacity < bytes {
                                region.capacity
                            } else {
                                bytes
                            },
                            dims,
                        }
                    },
                    None => CaptureStep::Finished(false),
                },
                _ => CaptureStep::Finished(false),
            },
            CaptureStep::ReadRegion { dims, .. } => match reply {
                CaptureReply::Bytes(captured) => {
                    *scratch = captured;
                    if dims == call.dims {
                        CaptureStep::Announce { dims }
                    } else {
                        CaptureStep::Finished(false)
                    }
                },
                _ => CaptureStep::Finished(false),
            },
            CaptureStep::Announce { .. } => CaptureStep::Finished(true),
            CaptureStep::SubmitDirect { .. } => {
                if let CaptureReply::Succeeded(true) = reply {
                    if let Some(d) = pool.direct {
                        pool.direct = Some(
                            DirectCapture {
                                slot: PipelineSlot { pending: Some(call.dims), ..d.slot },
                                ..d
                            },
                        );
                    }
                }
                CaptureStep::Finished(false)
            },
        }
    }
}

proof fn lemma_bytes_not_negative(dims: FrameDims)
    ensures
        dims.bytes() >= 0,
{
    let (w, h, b) = (dims.width as int, dims.height as int, dims.format.bytes_per_pixel as int);
    assert((w * h) * b >= 0) by (nonlinear_arith)
        requires
            w >= 0,
            h >= 0,
            b >= 0,
    ;
}

proof fn lemma_start_is_sound(pool: CapturePool, scratch: Seq<u8>, call: CaptureCall)
    requires
        pool.wf(),
        call.dims.bytes() <= u64::MAX,
    ensures
        CaptureState::start(pool, scratch, call).sound(call),
{
}

proof fn lemma_after_is_sound(state: CaptureState, call: CaptureCall, reply: CaptureReply)
    requires
        state.sound(call),
    ensures
        state.after(call, reply).sound(call),
{
    lemma_bytes_not_negative(call.dims);
    match (state.step, state.pool.pipeline) {
        (CaptureStep::Query { slot, .. }, Some(p)) => match p.slot(slot).pending {
            Some(dims) => lemma_bytes_not_negative(dims),
            None => {},
        },
        _ => {},
    }
}

/// What stands behind an optional pipeline, in the order it is destroyed.
pub open spec fn pipeline_destruction(pipeline: Option<CapturePipeline>) -> Seq<Resource> {
    match pipeline {
        Some(p) => p.first.buf.destruction() + p.second.buf.destruction(),
        None => seq![],
    }
}

/// What stands behind an optional direct capture, in the order it is destroyed. The host
/// memory it was imported from is not among it.
pub open spec fn direct_destruction(direct: Option<DirectCapture>) -> Seq<Resource> {
    match direct {
        Some(d) => d.slot.buf.destruction(),
        None => seq![],
    }
}

/// What to destroy of a pipeline when the device goes away, in order.
pub fn destroy_pipeline(pipeline: Option<CapturePipeline>) -> (r: Vec<Resource>)
    ensures
        r@ == pipeline_destruction(pipeline),
{
    match pipeline {
        Some(p) => {
            let mut order = p.first.buf.destroy();
            let mut rest = p.second.buf.destroy();
            order.append(&mut rest);
            order
        },
        None => Vec::new(),
    }
}

/// What to destroy of a direct capture when the device goes away, in order.
pub fn destroy_direct_capture(direct: Option<DirectCapture>) -> (r: Vec<Resource>)
    ensures
        r@ == direct_destruction(direct),
{
    match direct {
        Some(d) => d.slot.buf.destroy(),
        None => Vec::new(),
    }
}

/// Where a call's capture stands after a run of answers.
pub open spec fn captured(call: CaptureCall, pool: CapturePool, scratch: Seq<u8>, replies: Seq<CaptureReply>) -> CaptureState
    decreases replies.len(),
{
    if replies.len() == 0 {
        CaptureState::start(pool, scratch, call)
    } else {
        captured(call, pool, scratch, replies.drop_last()).after(call, replies.last())
    }
}

/// Whatever is answered, a call's capture stays sound. In particular it never submits into
/// a slot that has a capture in flight, nor one that is too small for the frame.
pub proof fn capture_stays_sound(call: CaptureCall, pool: CapturePool, scratch: Seq<u8>, replies: Seq<CaptureReply>)
    requires
        pool.wf(),
        call.dims.bytes() <= u64::MAX,
    ensures
        captured(call, pool, scratch, replies).sound(call),
    decreases replies.len(),
{
    if replies.len() == 0 {
        lemma_start_is_sound(pool, scratch, call);
    } else {
        capture_stays_sound(call, pool, scratch, replies.drop_last());
        lemma_after_is_sound(
            captured(call, pool, scratch, replies.drop_last()),
            call,
            replies.last(),
        );
    }
}

/// A step that blocks on the GPU.
pub open spec fn blocks(step: CaptureStep) -> bool {
    step is Drain || step is DrainDirect
}

/// Nothing has to be rebuilt for the call.
pub open spec fn nothing_to_rebuild(call: CaptureCall, pool: CapturePool) -> bool {
    if call.use_direct {
        pool.direct matches Some(d) ==> (call.region matches Some(region) ==> d.fits(
            call.queue_family,
            region,
        ))
    } else {
        pool.pipeline matches Some(p) ==> p.fits(call.queue_family, call.dims)
    }
}

/// A present call does not wait for the GPU: only a rebuilding, after a change of size, of
/// queue family or of the region, ever waits for a fence.
pub proof fn capture_never_waits(call: CaptureCall, pool: CapturePool, scratch: Seq<u8>, replies: Seq<CaptureReply>)
    requires
        nothing_to_rebuild(call, pool),
    ensures
        !blocks(captured(call, pool, scratch, replies).step),
    decreases replies.len(),
{
    if replies.len() > 0 {
        capture_never_waits(call, pool, scratch, replies.drop_last());
    }
}

/// A step that reads or hands on a capture that has finished.
pub open spec fn collecting(step: CaptureStep) -> bool {
    step is ReadStaging || step is Publish || step is ReadRegion || step is Announce
}

/// The call that collects a capture does not submit another: once a finished capture has
/// been found, no later step of the call is a submission.
pub proof fn collecting_excludes_submitting(
    call: CaptureCall,
    pool: CapturePool,
    scratch: Seq<u8>,
    replies: Seq<CaptureReply>,
    found: int,
)
    requires
        0 <= found <= replies.len(),
        collecting(captured(call, pool, scratch, replies.take(found)).step),
    ensures
        collecting(captured(call, pool, scratch, replies).step) || captured(
            call,
            pool,
            scratch,
            replies,
        ).step is Finished,
    decreases replies.len(),
{
    if found == replies.len() {
        assert(replies.take(found) =~= replies);
    } else {
        assert(replies.drop_last().take(found) =~= replies.take(found));
        collecting_excludes_submitting(call, pool, scratch, replies.drop_last(), found);
    }
}

proof fn lemma_next(call: CaptureCall, pool: CapturePool, scratch: Seq<u8>, replies: Seq<CaptureReply>, reply: CaptureReply)
    ensures
        captured(call, pool, scratch, replies.push(reply)) == captured(
            call,
            pool,
            scratch,
            replies,
        ).after(call, reply),
{
    assert(replies.push(reply).drop_last() =~= replies);
}

/// A frame is captured as soon as it can be: with capture objects that fit and nothing in
/// flight, a call submits its frame, and a submission that succeeds is in flight afterwards.
pub proof fn frames_are_submitted(call: CaptureCall, pool: CapturePool, scratch: Seq<u8>)
    requires
        call.dims.bytes() <= u64::MAX,
    ensures
        !call.use_direct && (pool.pipeline matches Some(p) && p.fits(call.queue_family, call.dims)
            && p.first.pending is None && p.second.pending is None) ==> {
            let p = pool.pipeline->0;
            &&& captured(call, pool, scratch, seq![]).step == (CaptureStep::Submit {
                slot: SlotId::First,
                buf: p.first.buf,
            })
            &&& captured(call, pool, scratch, seq![CaptureReply::Succeeded(true)]).pool.pipeline
                == Some(p.marked(SlotId::First, Some(call.dims)))
        },
        call.use_direct && (call.region matches Some(region) && (pool.direct matches Some(d)
            && d.fits(call.queue_family, region) && d.slot.pending is None
            && d.slot.buf.capacity >= call.dims.bytes())) ==> {
            let d = pool.direct->0;
            &&& captured(call, pool, scratch, seq![]).step == (CaptureStep::SubmitDirect {
                buf: d.slot.buf,
            })
            &&& captured(call, pool, scratch, seq![CaptureReply::Succeeded(true)]).pool.direct
                == Some(
                DirectCapture {
                    slot: PipelineSlot { buf: d.slot.buf, pending: Some(call.dims) },
                    ..d
                },
            )
        },
{
    lemma_next(call, pool, scratch, seq![], CaptureReply::Succeeded(true));
    assert(Seq::<CaptureReply>::empty().push(CaptureReply::Succeeded(true)) =~= seq![
        CaptureReply::Succeeded(true),
    ]);
}

/// A capture in flight is collected by the first call of its size that finds its fence
/// signalled: the call reports it, with the bytes that were read, and the slot is free again.
/// A slot before it that is not done yet does not stand in its way.
pub proof fn finished_captures_are_collected(
    call: CaptureCall,
    pool: CapturePool,
    scratch: Seq<u8>,
    slot: SlotId,
    bytes: Vec<u8>,
)
    requires
        call.dims.bytes() <= u64::MAX,
        !call.use_direct,
        pool.pipeline matches Some(p) && p.fits(call.queue_family, call.dims) && p.slot(
            slot,
        ).pending == Some(call.dims),
    ensures
        ({
            let p = pool.pipeline->0;
            let asked_before = if slot is Second && p.first.pending is Some {
                seq![CaptureReply::NotSignalled]
            } else {
                seq![]
            };
            let end = captured(
                call,
                pool,
                scratch,
                asked_before.push(CaptureReply::Signalled).push(CaptureReply::Bytes(bytes)).push(
                    CaptureReply::Done,
                ),
            );
            &&& end.step == CaptureStep::Finished(true)
            &&& end.scratch == bytes@
            &&& end.pool.pipeline == Some(p.marked(slot, None))
        }),
{
    let p = pool.pipeline->0;
    let none = Seq::<CaptureReply>::empty();
    if slot is Second && p.first.pending is Some {
        lemma_next(call, pool, scratch, none, CaptureReply::NotSignalled);
        assert(none.push(CaptureReply::NotSignalled) =~= seq![CaptureReply::NotSignalled]);
        lemma_collected(call, pool, scratch, seq![CaptureReply::NotSignalled], bytes);
    } else {
        lemma_collected(call, pool, scratch, none, bytes);
    }
}

proof fn lemma_collected(call: CaptureCall, pool: CapturePool, scratch: Seq<u8>, asked_before: Seq<CaptureReply>, bytes: Vec<u8>)
    ensures
        ({
            let signalled = asked_before.push(CaptureReply::Signalled);
            let read = signalled.push(CaptureReply::Bytes(bytes));
            captured(call, pool, scratch, read.push(CaptureReply::Done)) == captured(
                call,
                pool,
                scratch,
                asked_before,
            ).after(call, CaptureReply::Signalled).after(call, CaptureReply::Bytes(bytes)).after(
                call,
                CaptureReply::Done,
            )
        }),
{
    let signalled = asked_before.push(CaptureReply::Signalled);
    let read = signalled.push(CaptureReply::Bytes(bytes));
    lemma_next(call, pool, scratch, asked_before, CaptureReply::Signalled);
    lemma_next(call, pool, scratch, signalled, CaptureReply::Bytes(bytes));
    lemma_next(call, pool, scratch, read, CaptureReply::Done);
}

/// The same of the capture on imported memory.
pub proof fn finished_direct_captures_are_collected(
    call: CaptureCall,
    pool: CapturePool,
    scratch: Seq<u8>,
    bytes: Vec<u8>,
)
    requires
        call.dims.bytes() <= u64::MAX,
        call.use_direct,
        call.region matches Some(region) && (pool.direct matches Some(d) && d.fits(
            call.queue_family,
            region,
        ) && d.slot.pending == Some(call.dims)),
    ensures
        ({
            let d = pool.direct->0;
            let end = captured(
                call,
                pool,
                scratch,
                Seq::<CaptureReply>::empty().push(CaptureReply::Signalled).push(
                    CaptureReply::Bytes(bytes),
                ).push(CaptureReply::Done),
            );
            &&& end.step == CaptureStep::Finished(true)
            &&& end.scratch == bytes@
            &&& end.pool.direct == Some(
                DirectCapture { slot: PipelineSlot { buf: d.slot.buf, pending: None }, ..d },
            )
        }),
{
    lemma_collected(call, pool, scratch, Seq::empty(), bytes);
}

/// The bytes that answer number `j` delivered for a read of a capture of these dimensions.
pub open spec fn delivered(
    call: CaptureCall,
    pool: CapturePool,
    scratch: Seq<u8>,
    replies: Seq<CaptureReply>,
    j: int,
    dims: FrameDims,
    bytes: Seq<u8>,
) -> bool {
    let step = captured(call, pool, scratch, replies.take(j)).step;
    &&& 0 <= j < replies.len()
    &&& (step matches CaptureStep::ReadStaging { dims: d, .. } && d == dims) || (
    step matches CaptureStep::ReadRegion { dims: d, .. } && d == dims)
    &&& replies[j] matches CaptureReply::Bytes(b)
    &&& b@ == bytes
}

/// A call that reports a capture has one of exactly this call's size and format, and the
/// scratch buffer holds the bytes that were read for it. A capture of other dimensions,
/// submitted before the swapchain changed, is dropped.
pub proof fn reported_captures_match_the_call(call: CaptureCall, pool: CapturePool, scratch: Seq<u8>, replies: Seq<CaptureReply>)
    ensures
        captured(call, pool, scratch, replies).step == CaptureStep::Finished(true) ==> exists|
            j: int,
        | #[trigger]
            delivered(
                call,
                pool,
                scratch,
                replies,
                j,
                call.dims,
                captured(call, pool, scratch, replies).scratch,
            ),
{
    lemma_reported(call, pool, scratch, replies);
}

proof fn lemma_reported(call: CaptureCall, pool: CapturePool, scratch: Seq<u8>, replies: Seq<CaptureReply>)
    ensures
        ({
            let now = captured(call, pool, scratch, replies);
            now.step is Publish || now.step is Announce || now.step == CaptureStep::Finished(true)
                ==> exists|j: int| #[trigger]
                delivered(call, pool, scratch, replies, j, call.dims, now.scratch)
        }),
    decreases replies.len(),
{
    if replies.len() > 0 {
        let n = replies.len() - 1;
        let front = replies.drop_last();
        let before = captured(call, pool, scratch, front);
        let now = captured(call, pool, scratch, replies);
        lemma_reported(call, pool, scratch, front);
        assert(replies.take(n) =~= front);
        if now.step is Publish || now.step is Announce {
            assert(delivered(call, pool, scratch, replies, n, call.dims, now.scratch));
        } else if now.step == CaptureStep::Finished(true) {
            let j = choose|j: int| #[trigger]
                delivered(call, pool, scratch, front, j, call.dims, before.scratch);
            assert(replies.take(j) =~= front.take(j));
            assert(delivered(call, pool, scratch, replies, j, call.dims, now.scratch));
        }
    }
}

/// Answer number `j` says that the wait for this slot succeeded.
pub open spec fn drained_at(
    call: CaptureCall,
    pool: CapturePool,
    scratch: Seq<u8>,
    replies: Seq<CaptureReply>,
    j: int,
    slot: SlotId,
) -> bool {
    &&& 0 <= j < replies.len()
    &&& captured(call, pool, scratch, replies.take(j)).step matches CaptureStep::Drain {
        slot: s,
        ..
    }
    &&& s == slot
    &&& replies[j] == CaptureReply::Succeeded(true)
}

/// The slot had no capture in flight, or its fence was waited for with success.
pub open spec fn settled(
    call: CaptureCall,
    pool: CapturePool,
    scratch: Seq<u8>,
    replies: Seq<CaptureReply>,
    slot: SlotId,
) -> bool {
    pool.pipeline matches Some(p) ==> (p.slot(slot).pending is Some ==> exists|j: int| #[trigger]
        drained_at(call, pool, scratch, replies, j, slot))
}

/// A pipeline is destroyed only once no capture can be running in it: each slot that was
/// pending has been waited for, and the buffers destroyed are the pipeline's own.
pub proof fn pipelines_are_drained_before_destruction(
    call: CaptureCall,
    pool: CapturePool,
    scratch: Seq<u8>,
    replies: Seq<CaptureReply>,
)
    ensures
        captured(call, pool, scratch, replies).step matches CaptureStep::DestroyPipeline {
            first,
            second,
        } ==> {
            &&& settled(call, pool, scratch, replies, SlotId::First)
            &&& settled(call, pool, scratch, replies, SlotId::Second)
            &&& pool.pipeline matches Some(p)
            &&& p.first.buf == first
            &&& p.second.buf == second
        },
{
    lemma_drained(call, pool, scratch, replies);
}

proof fn lemma_drained(call: CaptureCall, pool: CapturePool, scratch: Seq<u8>, replies: Seq<CaptureReply>)
    ensures
        ({
            let now = captured(call, pool, scratch, replies);
            match now.step {
                CaptureStep::Drain { slot, .. } => {
                    &&& now.pool.pipeline == pool.pipeline
                    &&& slot == SlotId::Second ==> settled(
                        call,
                        pool,
                        scratch,
                        replies,
                        SlotId::First,
                    )
                },
                CaptureStep::DestroyPipeline { first, second } => {
                    &&& settled(call, pool, scratch, replies, SlotId::First)
                    &&& settled(call, pool, scratch, replies, SlotId::Second)
                    &&& pool.pipeline matches Some(p)
                    &&& p.first.buf == first
                    &&& p.second.buf == second
                },
                _ => true,
            }
        }),
    decreases replies.len(),
{
    if replies.len() > 0 {
        let n = replies.len() - 1;
        let front = replies.drop_last();
        lemma_drained(call, pool, scratch, front);
        assert(replies.take(n) =~= front);
        assert forall|j: int, slot: SlotId| #[trigger]
            drained_at(call, pool, scratch, front, j, slot) implies drained_at(
            call,
            pool,
            scratch,
            replies,
            j,
            slot,
        ) by {
            assert(replies.take(j) =~= front.take(j));
        }
        match captured(call, pool, scratch, front).step {
            CaptureStep::Drain { slot, .. } => {
                if replies.last() == CaptureReply::Succeeded(true) {
                    assert(drained_at(call, pool, scratch, replies, n, slot));
                }
            },
            _ => {},
        }
    }
}

/// Answer number `j` says that the wait for the direct capture succeeded.
pub open spec fn direct_drained_at(
    call: CaptureCall,
    pool: CapturePool,
    scratch: Seq<u8>,
    replies: Seq<CaptureReply>,
    j: int,
) -> bool {
    &&& 0 <= j < replies.len()
    &&& captured(call, pool, scratch, replies.take(j)).step is DrainDirect
    &&& replies[j] == CaptureReply::Succeeded(true)
}

/// A direct capture is destroyed only once it can not be running any more: if it was
/// pending it has been waited for, and the buffer destroyed is its own. While it is waited
/// for, it stays in place.
pub proof fn direct_captures_are_drained_before_destruction(
    call: CaptureCall,
    pool: CapturePool,
    scratch: Seq<u8>,
    replies: Seq<CaptureReply>,
)
    ensures
        captured(call, pool, scratch, replies).step matches CaptureStep::DestroyDirect { buf } ==> {
            &&& pool.direct matches Some(d)
            &&& d.slot.buf == buf
            &&& d.slot.pending is Some ==> exists|j: int| #[trigger]
                direct_drained_at(call, pool, scratch, replies, j)
        },
        captured(call, pool, scratch, replies).step is DrainDirect ==> captured(
            call,
            pool,
            scratch,
            replies,
        ).pool.direct == pool.direct && pool.direct is Some,
    decreases replies.len(),
{
    if replies.len() > 0 {
        let n = replies.len() - 1;
        let front = replies.drop_last();
        direct_captures_are_drained_before_destruction(call, pool, scratch, front);
        assert(replies.take(n) =~= front);
        if captured(call, pool, scratch, front).step is DrainDirect && replies.last()
            == CaptureReply::Succeeded(true) {
            assert(direct_drained_at(call, pool, scratch, replies, n));
        }
    }
}

/// Any six answers finish a call's capture.
pub proof fn capture_finishes(call: CaptureCall, pool: CapturePool, scratch: Seq<u8>, replies: Seq<CaptureReply>)
    requires
        replies.len() >= 6,
    ensures
        captured(call, pool, scratch, replies).step is Finished,
{
    lemma_steps_left(call, pool, scratch, replies);
}

/// How many answers are left at most.
spec fn steps_left(step: CaptureStep) -> int {
    match step {
        CaptureStep::Drain { slot: SlotId::First, .. } => 6,
        CaptureStep::Drain { slot: SlotId::Second, .. } => 5,
        CaptureStep::DestroyPipeline { .. } => 4,
        CaptureStep::BuildFirst { .. } => 3,
        CaptureStep::BuildSecond { .. } => 2,
        CaptureStep::Query { slot: SlotId::First, .. } => 4,
        CaptureStep::Query { slot: SlotId::Second, .. } => 3,
        CaptureStep::ReadStaging { .. } => 2,
        CaptureStep::DrainDirect { .. } => 4,
        CaptureStep::DestroyDirect { .. } => 3,
        CaptureStep::BuildDirect { .. } => 2,
        CaptureStep::QueryDirect { .. } => 3,
        CaptureStep::ReadRegion { .. } => 2,
        CaptureStep::Finished(_) => 0,
        _ => 1,
    }
}

proof fn lemma_steps_left(call: CaptureCall, pool: CapturePool, scratch: Seq<u8>, replies: Seq<CaptureReply>)
    ensures
        steps_left(captured(call, pool, scratch, replies).step) <= 6 - replies.len() || captured(
            call,
            pool,
            scratch,
            replies,
        ).step is Finished,
    decreases replies.len(),
{
    if replies.len() > 0 {
        lemma_steps_left(call, pool, scratch, replies.drop_last());
        let before = captured(call, pool, scratch, replies.drop_last());
        lemma_one_step(before, call, replies.last());
    } else {
        lemma_start_steps(pool, scratch, call);
    }
}

proof fn lemma_start_steps(pool: CapturePool, scratch: Seq<u8>, call: CaptureCall)
    ensures
        steps_left(CaptureState::start(pool, scratch, call).step) <= 6,
{
}

proof fn lemma_one_step(state: CaptureState, call: CaptureCall, reply: CaptureReply)
    ensures
        state.step is Finished ==> state.after(call, reply) == state,
        !(state.step is Finished) ==> steps_left(state.after(call, reply).step) < steps_left(
            state.step,
        ),
{
}

/// The buffers of a pipeline.
pub open spec fn pipeline_buffers(pipeline: Option<CapturePipeline>) -> Multiset<CaptureBuffer> {
    match pipeline {
        Some(p) => Multiset::singleton(p.first.buf).insert(p.second.buf),
        None => Multiset::empty(),
    }
}

/// The buffer of a direct capture.
pub open spec fn direct_buffers(direct: Option<DirectCapture>) -> Multiset<CaptureBuffer> {
    match direct {
        Some(d) => Multiset::singleton(d.slot.buf),
        None => Multiset::empty(),
    }
}

/// The buffers that the step due destroys.
pub open spec fn doomed(step: CaptureStep) -> Multiset<CaptureBuffer> {
    match step {
        CaptureStep::DestroyPipeline { first, second } => Multiset::singleton(first).insert(second),
        CaptureStep::Discard { first } => Multiset::singleton(first),
        CaptureStep::DestroyDirect { buf } => Multiset::singleton(buf),
        _ => Multiset::empty(),
    }
}

/// Every buffer that is still to be used or destroyed.
pub open spec fn held_buffers(state: CaptureState) -> Multiset<CaptureBuffer> {
    pipeline_buffers(state.pool.pipeline).add(direct_buffers(state.pool.direct)).add(
        match state.step {
            CaptureStep::BuildSecond { first, .. } => Multiset::singleton(first),
            step => doomed(step),
        },
    )
}

/// The buffer that an answer delivers.
pub open spec fn built_by(step: CaptureStep, reply: CaptureReply) -> Multiset<CaptureBuffer> {
    match reply {
        CaptureReply::Built(Some(buf)) if step is BuildFirst || step is BuildSecond
            || step is BuildDirect => Multiset::singleton(buf),
        _ => Multiset::empty(),
    }
}

/// Every buffer that a run of answers delivered.
pub open spec fn all_built(call: CaptureCall, pool: CapturePool, scratch: Seq<u8>, replies: Seq<CaptureReply>) -> Multiset<CaptureBuffer>
    decreases replies.len(),
{
    if replies.len() == 0 {
        Multiset::empty()
    } else {
        all_built(call, pool, scratch, replies.drop_last()).add(
            built_by(captured(call, pool, scratch, replies.drop_last()).step, replies.last()),
        )
    }
}

/// Every buffer that was destroyed in a run of answers.
pub open spec fn all_destroyed(call: CaptureCall, pool: CapturePool, scratch: Seq<u8>, replies: Seq<CaptureReply>) -> Multiset<CaptureBuffer>
    decreases replies.len(),
{
    if replies.len() == 0 {
        Multiset::empty()
    } else {
        all_destroyed(call, pool, scratch, replies.drop_last()).add(
            doomed(captured(call, pool, scratch, replies.drop_last()).step),
        )
    }
}

/// No capture buffer is lost or destroyed twice: the buffers held before the call, with
/// those built in it, are the ones held after it with those destroyed in it.
pub proof fn buffers_are_conserved(call: CaptureCall, pool: CapturePool, scratch: Seq<u8>, replies: Seq<CaptureReply>)
    requires
        pool.wf(),
        call.dims.bytes() <= u64::MAX,
    ensures
        held_buffers(captured(call, pool, scratch, replies)).add(
            all_destroyed(call, pool, scratch, replies),
        ) == pipeline_buffers(pool.pipeline).add(direct_buffers(pool.direct)).add(
            all_built(call, pool, scratch, replies),
        ),
    decreases replies.len(),
{
    let before = pipeline_buffers(pool.pipeline).add(direct_buffers(pool.direct));
    if replies.len() == 0 {
        let start = CaptureState::start(pool, scratch, call);
        assert(held_buffers(start) =~= before);
    } else {
        let front = replies.drop_last();
        let state = captured(call, pool, scratch, front);
        buffers_are_conserved(call, pool, scratch, front);
        capture_stays_sound(call, pool, scratch, front);
        lemma_one_answer_conserves(state, call, replies.last());
        lemma_balance(
            held_buffers(state),
            held_buffers(captured(call, pool, scratch, replies)),
            doomed(state.step),
            built_by(state.step, replies.last()),
            all_destroyed(call, pool, scratch, front),
            all_built(call, pool, scratch, front),
            before,
        );
    }
}

/// One more balanced entry keeps the books balanced.
proof fn lemma_balance<A>(
    held: Multiset<A>,
    next: Multiset<A>,
    lost: Multiset<A>,
    gained: Multiset<A>,
    all_lost: Multiset<A>,
    all_gained: Multiset<A>,
    initial: Multiset<A>,
)
    requires
        next.add(lost) == held.add(gained),
        held.add(all_lost) == initial.add(all_gained),
    ensures
        next.add(all_lost.add(lost)) == initial.add(all_gained.add(gained)),
{
    broadcast use vstd::multiset::group_multiset_axioms;

    assert forall|a: A| #[trigger]
        next.add(all_lost.add(lost)).count(a) == initial.add(all_gained.add(gained)).count(a) by {
        assert(next.add(lost).count(a) == next.count(a) + lost.count(a));
        assert(held.add(gained).count(a) == held.count(a) + gained.count(a));
        assert(held.add(all_lost).count(a) == held.count(a) + all_lost.count(a));
        assert(initial.add(all_gained).count(a) == initial.count(a) + all_gained.count(a));
        assert(all_lost.add(lost).count(a) == all_lost.count(a) + lost.count(a));
        assert(all_gained.add(gained).count(a) == all_gained.count(a) + gained.count(a));
    }
    assert(next.add(all_lost.add(lost)) =~= initial.add(all_gained.add(gained)));
}

proof fn lemma_one_answer_conserves(state: CaptureState, call: CaptureCall, reply: CaptureReply)
    requires
        state.sound(call),
    ensures
        held_buffers(state.after(call, reply)).add(doomed(state.step)) == held_buffers(state).add(
            built_by(state.step, reply),
        ),
{
    assert(held_buffers(state.after(call, reply)).add(doomed(state.step)) =~= held_buffers(
        state,
    ).add(built_by(state.step, reply)));
}

/// However far the commands of a submission get, the queue leaves the captured image in the
/// layout it was found in and never writes it.
pub proof fn captures_leave_the_image_as_it_was(step: CaptureStep, call: CaptureCall, done: int)
    requires
        step.recorded(call) matches Some(commands) && 0 <= done <= commands.len(),
    ensures
        step.recorded(call) matches Some(commands) && {
            &&& layout_on_queue(commands.take(done), call.image, call.layout) == Some(call.layout)
            &&& !written_on_queue(commands.take(done), call.image)
        },
{
    match step {
        CaptureStep::Submit { buf, .. } | CaptureStep::SubmitDirect { buf } => {
            let (width, height) = (call.dims.width, call.dims.height);
            let recording = capture_recording(call.image, call.layout, buf.buffer, width, height);
            let whole = recording + awaited_submission(buf.fence);
            assert((recording + submission(buf.fence)).take(done) =~= whole.take(done));
            capture_gives_the_image_back(
                call.image,
                call.layout,
                buf.buffer,
                width,
                height,
                buf.fence,
                done,
            );
        },
        _ => {},
    }
}

/// The two strategies never mix: a call that captures through staging buffers leaves the
/// direct capture alone, and one that captures into the shared region leaves the staging
/// buffers alone.
pub proof fn strategies_do_not_mix(call: CaptureCall, pool: CapturePool, scratch: Seq<u8>, replies: Seq<CaptureReply>)
    ensures
        call.use_direct ==> captured(call, pool, scratch, replies).pool.pipeline == pool.pipeline,
        !call.use_direct ==> captured(call, pool, scratch, replies).pool.direct == pool.direct,
{
    lemma_strategy(call, pool, scratch, replies);
}

/// A step of the direct strategy.
spec fn is_direct(step: CaptureStep) -> bool {
    step is DrainDirect || step is DestroyDirect || step is BuildDirect || step is QueryDirect
        || step is ReadRegion || step is Announce || step is SubmitDirect
}

proof fn lemma_strategy(call: CaptureCall, pool: CapturePool, scratch: Seq<u8>, replies: Seq<CaptureReply>)
    ensures
        ({
            let now = captured(call, pool, scratch, replies);
            &&& now.step is Finished || is_direct(now.step) == call.use_direct
            &&& call.use_direct ==> now.pool.pipeline == pool.pipeline
            &&& !call.use_direct ==> now.pool.direct == pool.direct
        }),
    decreases replies.len(),
{
    if replies.len() > 0 {
        lemma_strategy(call, pool, scratch, replies.drop_last());
    }
}

/// A submission takes the whole of the call's image out into the buffer of its slot, found in
/// the layout the call says, and is handed to the queue under that buffer's fence without
/// waiting. No other step touches the image.
pub proof fn submissions_take_the_whole_image(step: CaptureStep, call: CaptureCall)
    ensures
        step.recorded(call) is Some <==> step is Submit || step is SubmitDirect,
        step.recorded(call) matches Some(commands) ==> {
            let buf = match step {
                CaptureStep::Submit { buf, .. } => buf,
                _ => step->SubmitDirect_buf,
            };
            &&& copies_out(
                commands,
                call.image,
                buf.buffer,
                call.dims.width,
                call.dims.height,
            )
            &&& handed_over(commands, buf.fence)
            &&& commands[2] matches Command::Barrier { barrier, .. } && barrier.old_layout
                == call.layout
            &&& forall|i: int| 0 <= i < commands.len() ==> !((#[trigger] commands[i]) is Wait)
        },
{
    match step {
        CaptureStep::Submit { buf, .. } | CaptureStep::SubmitDirect { buf } => {
            captures_take_the_whole_image(
                call.image,
                call.layout,
                buf.buffer,
                call.dims.width,
                call.dims.height,
                buf.fence,
            );
        },
        _ => {},
    }
}

/// Buffers, captures and the bytes collected have room for every pixel, each of as many bytes
/// as the frame's own format says. A staging buffer is asked for with exactly that room, on
/// the call's queue family; a direct one is the whole of the shared region. What is collected
/// from a slot is the whole frame that was submitted into it, and what is collected from the
/// region is this call's frame, from the region's start.
pub proof fn buffers_hold_every_pixel(call: CaptureCall, pool: CapturePool, scratch: Seq<u8>, replies: Seq<CaptureReply>)
    requires
        pool.wf(),
        call.dims.width * call.dims.height * call.dims.format.bytes_per_pixel <= u64::MAX,
    ensures
        ({
            let size = call.dims.width * call.dims.height * call.dims.format.bytes_per_pixel;
            match captured(call, pool, scratch, replies).step {
                CaptureStep::BuildFirst { request } | CaptureStep::BuildSecond { request, .. } => {
                    &&& request.bytes == size
                    &&& request.queue_family == call.queue_family
                    &&& request.host_ptr is None
                },
                CaptureStep::BuildDirect { request } => {
                    &&& call.region matches Some(region)
                    &&& request.bytes == region.capacity
                    &&& request.host_ptr == Some(region.ptr)
                    &&& request.queue_family == call.queue_family
                },
                CaptureStep::Submit { buf, .. } | CaptureStep::SubmitDirect { buf } => buf.capacity
                    >= size,
                CaptureStep::ReadStaging { bytes, dims, .. } => bytes == dims.width * dims.height
                    * dims.format.bytes_per_pixel,
                CaptureStep::ReadRegion { ptr, bytes, .. } => {
                    &&& call.region matches Some(region)
                    &&& ptr == region.ptr
                    &&& bytes <= region.capacity
                    &&& region.capacity >= size ==> bytes == size
                },
                CaptureStep::Publish { dims } | CaptureStep::Announce { dims } => dims
                    == call.dims,
                _ => true,
            }
        }),
{
    capture_stays_sound(call, pool, scratch, replies);
    lemma_requests(call, pool, scratch, replies);
}

proof fn lemma_requests(call: CaptureCall, pool: CapturePool, scratch: Seq<u8>, replies: Seq<CaptureReply>)
    requires
        call.dims.bytes() <= u64::MAX,
    ensures
        match captured(call, pool, scratch, replies).step {
            CaptureStep::BuildFirst { request } | CaptureStep::BuildSecond { request, .. } => request
                == call.staging_request(),
            CaptureStep::BuildDirect { request } => call.region matches Some(region) && request
                == call.import_request(region),
            CaptureStep::ReadRegion { bytes, .. } => call.region matches Some(region) && (
            region.capacity >= call.dims.bytes() ==> bytes == call.dims.bytes()),
            CaptureStep::Publish { dims } | CaptureStep::Announce { dims } => dims == call.dims,
            _ => true,
        },
    decreases replies.len(),
{
    lemma_bytes_not_negative(call.dims);
    if replies.len() > 0 {
        lemma_requests(call, pool, scratch, replies.drop_last());
    }
}

/// A step that gives capture objects up or makes new ones.
pub open spec fn rebuilds(step: CaptureStep) -> bool {
    step is Drain || step is DestroyPipeline || step is BuildFirst || step is BuildSecond
        || step is Discard || step is DrainDirect || step is DestroyDirect || step is BuildDirect
}

/// Capture objects that still serve are kept: slots of the call's queue family that hold every
/// pixel of its frame, and a direct capture of that family on this very region. The objects
/// themselves stay the same to the end of the call.
pub proof fn fitting_objects_are_kept(call: CaptureCall, pool: CapturePool, scratch: Seq<u8>, replies: Seq<CaptureReply>)
    requires
        !call.use_direct ==> (pool.pipeline matches Some(p) && {
            let size = call.dims.width * call.dims.height * call.dims.format.bytes_per_pixel;
            &&& p.queue_family == call.queue_family
            &&& p.first.buf.capacity >= size
            &&& p.second.buf.capacity >= size
        }),
        call.use_direct ==> (pool.direct matches Some(d) && {
            &&& call.region matches Some(region)
            &&& d.queue_family == call.queue_family
            &&& d.slot.buf.ptr == region.ptr
            &&& d.slot.buf.capacity >= region.capacity
        }),
    ensures
        ({
            let now = captured(call, pool, scratch, replies);
            &&& !rebuilds(now.step)
            &&& now.pool.pipeline is Some == pool.pipeline is Some
            &&& now.pool.direct is Some == pool.direct is Some
            &&& pool.pipeline matches Some(p) ==> {
                &&& now.pool.pipeline->0.queue_family == p.queue_family
                &&& now.pool.pipeline->0.first.buf == p.first.buf
                &&& now.pool.pipeline->0.second.buf == p.second.buf
            }
            &&& pool.direct matches Some(d) ==> {
                &&& now.pool.direct->0.queue_family == d.queue_family
                &&& now.pool.direct->0.slot.buf == d.slot.buf
            }
        }),
    decreases replies.len(),
{
    if replies.len() > 0 {
        fitting_objects_are_kept(call, pool, scratch, replies.drop_last());
    }
}

/// Capture objects that no longer serve are not used: where the queue family or the region
/// changed, or a slot is too small for the frame, nothing is submitted before they were given
/// up. Where there are none, they are built.
pub proof fn outgrown_objects_are_given_up(call: CaptureCall, pool: CapturePool, scratch: Seq<u8>)
    requires
        call.dims.width * call.dims.height * call.dims.format.bytes_per_pixel <= u64::MAX,
    ensures
        ({
            let size = call.dims.width * call.dims.height * call.dims.format.bytes_per_pixel;
            let first = captured(call, pool, scratch, seq![]).step;
            &&& !call.use_direct ==> match pool.pipeline {
                None => first is BuildFirst,
                Some(p) => (p.queue_family != call.queue_family || p.first.buf.capacity < size
                    || p.second.buf.capacity < size) ==> {
                    &&& p.first.pending is Some || p.second.pending is Some ==> first is Drain
                    &&& p.first.pending is None && p.second.pending is None ==> first == (
                    CaptureStep::DestroyPipeline { first: p.first.buf, second: p.second.buf })
                },
            }
            &&& call.use_direct ==> match (call.region, pool.direct) {
                (None, _) => first == CaptureStep::Finished(false),
                (Some(_), None) => first is BuildDirect,
                (Some(region), Some(d)) => (d.queue_family != call.queue_family || d.slot.buf.ptr
                    != region.ptr || d.slot.buf.capacity < region.capacity) ==> (
                if d.slot.pending is Some {
                    first == (CaptureStep::DrainDirect { fence: d.slot.buf.fence })
                } else {
                    first == (CaptureStep::DestroyDirect { buf: d.slot.buf })
                }),
            }
        }),
{
}

/// A slot is in flight from a submission that succeeded to the answer that its fence has
/// signalled, and for nothing else: a submission that fails and a fence that has not
/// signalled leave every slot as it was, and what becomes of one slot does not touch the
/// other. What is then collected is read from where that slot is mapped.
pub proof fn slots_follow_their_captures(state: CaptureState, call: CaptureCall, reply: CaptureReply)
    ensures
        ({
            let next = state.after(call, reply);
            match state.step {
                CaptureStep::Submit { slot, .. } => match state.pool.pipeline {
                    Some(p) => {
                        let accepted = reply == CaptureReply::Succeeded(true);
                        &&& next.step == CaptureStep::Finished(false)
                        &&& !accepted ==> next.pool == state.pool
                        &&& accepted ==> (next.pool.pipeline matches Some(q) && {
                            &&& q.slot(slot).pending == Some(call.dims)
                            &&& q.slot(slot).buf == p.slot(slot).buf
                            &&& slot is First ==> q.second == p.second
                            &&& slot is Second ==> q.first == p.first
                        })
                    },
                    None => true,
                },
                CaptureStep::Query { slot, .. } => match state.pool.pipeline {
                    Some(p) => {
                        &&& reply != CaptureReply::Signalled ==> next.pool == state.pool && !(
                        next.step is ReadStaging)
                        &&& reply == CaptureReply::Signalled && p.slot(slot).pending is Some ==> {
                            &&& next.step matches CaptureStep::ReadStaging { ptr, dims, .. }
                            &&& ptr == p.slot(slot).buf.ptr
                            &&& Some(dims) == p.slot(slot).pending
                            &&& next.pool.pipeline matches Some(q)
                            &&& q.slot(slot).pending is None
                            &&& q.slot(slot).buf == p.slot(slot).buf
                            &&& slot is First ==> q.second == p.second
                            &&& slot is Second ==> q.first == p.first
                        }
                    },
                    None => true,
                },
                CaptureStep::SubmitDirect { .. } => match state.pool.direct {
                    Some(d) => {
                        &&& next.step == CaptureStep::Finished(false)
                        &&& reply != CaptureReply::Succeeded(true) ==> next.pool == state.pool
                        &&& reply == CaptureReply::Succeeded(true) ==> (
                        next.pool.direct matches Some(e) && e.slot.pending == Some(call.dims)
                            && e.slot.buf == d.slot.buf)
                    },
                    None => true,
                },
                CaptureStep::QueryDirect { .. } => match state.pool.direct {
                    Some(d) => {
                        &&& reply != CaptureReply::Signalled ==> next.pool == state.pool
                            && next.step == CaptureStep::Finished(false)
                        &&& reply == CaptureReply::Signalled && d.slot.pending is Some
                            && call.region is Some ==> {
                            &&& next.step matches CaptureStep::ReadRegion { dims, .. }
                            &&& Some(dims) == d.slot.pending
                            &&& next.pool.direct matches Some(e)
                            &&& e.slot.pending is None
                            &&& e.slot.buf == d.slot.buf
                        }
                    },
                    None => true,
                },
                CaptureStep::ReadStaging { .. }
                | CaptureStep::ReadRegion { .. }
                | CaptureStep::Publish { .. }
                | CaptureStep::Announce { .. }
                | CaptureStep::Finished(_) => next.pool == state.pool,
                _ => true,
            }
        }),
{
}

/// New capture objects are those that were asked for last: a pipeline of the two buffers just
/// built, both free, and a direct capture of the one, on the call's queue family; and a
/// pipeline that is complete is used at once.
pub proof fn new_objects_are_those_just_built(state: CaptureState, call: CaptureCall, buf: CaptureBuffer)
    requires
        call.dims.width * call.dims.height * call.dims.format.bytes_per_pixel <= u64::MAX,
    ensures
        ({
            let next = state.after(call, CaptureReply::Built(Some(buf)));
            let size = call.dims.width * call.dims.height * call.dims.format.bytes_per_pixel;
            match state.step {
                CaptureStep::BuildFirst { .. } => next.step matches CaptureStep::BuildSecond {
                    first,
                    ..
                } && first == buf,
                CaptureStep::BuildSecond { first, .. } => {
                    &&& next.pool.pipeline matches Some(p)
                    &&& p.queue_family == call.queue_family
                    &&& p.first == (PipelineSlot { buf: first, pending: None })
                    &&& p.second == (PipelineSlot { buf, pending: None })
                    &&& first.capacity >= size ==> next.step == (CaptureStep::Submit {
                        slot: SlotId::First,
                        buf: first,
                    })
                },
                CaptureStep::BuildDirect { .. } => {
                    &&& next.pool.direct matches Some(d)
                    &&& d.queue_family == call.queue_family
                    &&& d.slot == (PipelineSlot { buf, pending: None })
                    &&& buf.capacity >= size ==> next.step == (CaptureStep::SubmitDirect { buf })
                },
                _ => true,
            }
        }),
        state.step matches CaptureStep::BuildSecond { first, .. } ==> state.after(
            call,
            CaptureReply::Built(None),
        ).step == (CaptureStep::Discard { first }),
{
}

/// Captures overlap: while one slot is in flight, the next frame goes into the other; and with
/// both in flight, a frame is let go rather than waited for.
pub proof fn captures_overlap(call: CaptureCall, pool: CapturePool, scratch: Seq<u8>)
    requires
        !call.use_direct,
        call.dims.bytes() <= u64::MAX,
        pool.pipeline matches Some(p) && p.fits(call.queue_family, call.dims),
    ensures
        ({
            let p = pool.pipeline->0;
            let none = Seq::<CaptureReply>::empty();
            let once = captured(call, pool, scratch, none.push(CaptureReply::NotSignalled));
            let twice = captured(
                call,
                pool,
                scratch,
                none.push(CaptureReply::NotSignalled).push(CaptureReply::NotSignalled),
            );
            &&& p.first.pending is Some && p.second.pending is None ==> once.step == (
            CaptureStep::Submit { slot: SlotId::Second, buf: p.second.buf })
            &&& p.first.pending is None && p.second.pending is Some ==> once.step == (
            CaptureStep::Submit { slot: SlotId::First, buf: p.first.buf })
            &&& p.first.pending is Some && p.second.pending is Some ==> twice.step
                == CaptureStep::Finished(false)
            &&& p.first.pending is Some || p.second.pending is Some ==> captured(
                call,
                pool,
                scratch,
                none,
            ).step is Query
        }),
{
    let none = Seq::<CaptureReply>::empty();
    lemma_next(call, pool, scratch, none, CaptureReply::NotSignalled);
    lemma_next(
        call,
        pool,
        scratch,
        none.push(CaptureReply::NotSignalled),
        CaptureReply::NotSignalled,
    );
}

/// What was given up is replaced in the same call: once the old objects are destroyed, new
/// ones are built; and only objects whose captures were waited for are destroyed. A wait that
/// fails leaves everything as it is.
pub proof fn rebuilding_takes_its_course(state: CaptureState, call: CaptureCall, reply: CaptureReply)
    ensures
        ({
            let next = state.after(call, reply);
            &&& state.step is DestroyPipeline ==> next.step is BuildFirst
            &&& state.step is DestroyDirect && call.region is Some ==> next.step is BuildDirect
            &&& (state.step is Drain || state.step is DrainDirect) && reply
                != CaptureReply::Succeeded(true) ==> {
                &&& next.step == CaptureStep::Finished(false)
                &&& next.pool == state.pool
            }
            &&& state.step == (CaptureStep::Drain {
                slot: SlotId::Second,
                fence: state.step->Drain_fence,
            }) && reply == CaptureReply::Succeeded(true) ==> match state.pool.pipeline {
                Some(p) => next.step == (CaptureStep::DestroyPipeline {
                    first: p.first.buf,
                    second: p.second.buf,
                }) && next.pool.pipeline is None,
                None => true,
            }
            &&& state.step is DrainDirect && reply == CaptureReply::Succeeded(true)
                ==> match state.pool.direct {
                Some(d) => next.step == (CaptureStep::DestroyDirect { buf: d.slot.buf })
                    && next.pool.direct is None,
                None => true,
            }
            &&& state.step is BuildFirst && !(reply matches CaptureReply::Built(built)
                && built is Some) ==> next.step == CaptureStep::Finished(false)
        }),
{
}

} // verus!
