//! The layer's hooks on one device: for each intercepted command, what is kept, what is
//! forwarded, and which image of a present is captured.
use vstd::prelude::*;

use crate::capture::Frames;
use crate::capture_buffer::{CaptureBuffer, Resource};
use crate::pipeline::{
    destroy_direct_capture, destroy_pipeline, direct_destruction, pipeline_destruction,
    CapturePool,
};
use crate::primary::{claim_primary, release_device, release_primary, Claim, Primary};
use crate::staging::{destroy, destruction_of, CaptureResources};
use crate::state::{
    forget_image, forget_swapchain, followed, is_swapchain_image, observe_swapchain_write,
    track_layouts, LayoutChange, State, StateView, SwapchainState,
};
use crate::surface_usage::{
    admission_preserves_application_usage, prepare, FormatLimits, SwapchainRequest,
};
use crate::vulkan::{
    has_all, vk_result, ERROR_DEVICE_LOST, LAYOUT_GENERAL, LAYOUT_PRESENT_SRC, SUCCESS,
    USAGE_TRANSFER_DST, USAGE_TRANSFER_SRC,
};

verus! {

broadcast use vstd::std_specs::hash::group_hash_axioms;

/// What a hook did: the whole call, or nothing that the next layer must not do itself.
#[derive(Debug)]
pub enum LayerResult<T> {
    Handled(T),
    Unhandled,
}

/// The commands the layer intercepts on a device.
#[derive(Clone, Copy, Debug, PartialEq, Eq, Structural)]
pub enum VulkanCommand {
    CreateSwapchainKhr,
    DestroySwapchainKhr,
    QueuePresentKhr,
    GetDeviceQueue,
    GetDeviceQueue2,
    CmdCopyImage,
    CmdBlitImage,
    CmdPipelineBarrier,
    CmdPipelineBarrier2,
    DestroyImage,
}

/// Which of the commands below the layer exist on this device. One made for compute alone
/// has no swapchain commands, and no one will call them.
#[derive(Clone, Copy, Debug, PartialEq, Eq, Structural)]
pub struct NextCommands {
    pub create_swapchain_khr: bool,
    pub destroy_swapchain_khr: bool,
    pub queue_present_khr: bool,
    pub get_swapchain_images_khr: bool,
    pub get_device_queue: bool,
    pub get_device_queue2: bool,
}

/// What decides whether a new swapchain may be captured, besides its own parameters.
#[derive(Clone, Copy, Debug, PartialEq, Eq, Structural)]
pub struct Admission {
    pub layer_enabled: bool,
    /// This process may use the channel.
    pub owner: bool,
    /// The channel knows the image format.
    pub supported_format: bool,
    /// The extent is that of a game rather than of an overlay.
    pub plausible_size: bool,
    pub max_width: u32,
    pub max_height: u32,
}

/// The present that is captured.
#[derive(Clone, Copy, Debug, PartialEq, Eq, Structural)]
pub struct PresentTarget {
    pub swapchain: u64,
    /// The image presented.
    pub image: u64,
    /// The image captured, in this layout: the presented one or its tap.
    pub capture_image: u64,
    pub capture_layout: i32,
    pub width: u32,
    pub height: u32,
    pub format: i32,
    pub queue_family: u32,
}

/// What a present call does next.
#[derive(Clone, Copy, Debug, PartialEq, Eq, Structural)]
pub enum PresentStep {
    PollHotkey(PresentTarget),
    /// Is the model known to be unavailable for good?
    AskModel(PresentTarget),
    /// Run the capture: see [`crate::capture`].
    Capture(PresentTarget),
    /// Forward the present, which has to wait for this semaphore too.
    Forward(Option<u64>),
}

/// What came back.
#[derive(Clone, Copy, Debug, PartialEq, Eq, Structural)]
pub enum PresentReply {
    Performed,
    Flag(bool),
    Semaphore(Option<u64>),
}

/// What is destroyed before the device is.
#[derive(Debug)]
pub struct Teardown {
    pub destroy: Vec<Resource>,
    pub compositor: bool,
}

/// The layer's side of one device.
#[derive(Debug)]
pub struct NeuralForgeDeviceInfo {
    pub device: u64,
    /// The instance the device was made from is known.
    pub instance: bool,
    /// The surface's capabilities can be asked for.
    pub surface_caps: bool,
    pub next: NextCommands,
    /// Host memory can be imported.
    pub external_memory_host: bool,
    pub state: State,
    pub capture: Option<CaptureResources>,
    pub pool: CapturePool,
    pub frames: Frames,
}

impl Admission {
    pub open spec fn admits(&self, width: u32, height: u32) -> bool {
        &&& self.layer_enabled
        &&& self.owner
        &&& self.supported_format
        &&& width <= self.max_width
        &&& height <= self.max_height
        &&& self.plausible_size
    }

    /// Whether a swapchain of this extent may be captured at all.
    pub fn eligible(&self, width: u32, height: u32) -> (r: bool)
        ensures
            r == self.admits(width, height),
    {
        self.layer_enabled && self.owner && self.supported_format && width <= self.max_width
            && height <= self.max_height && self.plausible_size
    }
}

/// The tap of a swapchain image, with its layout, where both are known.
pub open spec fn tap_of(state: StateView, image: u64) -> Option<(u64, i32)> {
    if state.taps.dom().contains(image) && state.layouts.dom().contains(state.taps[image]) {
        Some((state.taps[image], state.layouts[state.taps[image]]))
    } else {
        None
    }
}

/// What one entry of a present call comes to.
pub enum Candidate {
    /// Look at the next one.
    Skip,
    /// Capture nothing in this call.
    Stop,
    /// Capture this one, if it gets the channel and the queue is known.
    Take { swapchain: u64, image: u64, width: u32, height: u32, format: i32, tap: Option<(u64, i32)> },
}

/// A swapchain that is not known is skipped, as is one that can not be captured; one whose
/// image index is out of range ends the search. A swapchain that was created unmodified can
/// be captured only through a tap in the general layout.
pub open spec fn considered(state: StateView, swapchain: u64, index: u32) -> Candidate {
    if !state.swapchains.dom().contains(swapchain) {
        Candidate::Skip
    } else {
        let entry = state.swapchains[swapchain];
        if index >= entry.images@.len() {
            Candidate::Stop
        } else {
            let image = entry.images@[index as int];
            let tap = tap_of(state, image);
            if entry.pass_through && !(tap matches Some(found) && found.1 == LAYOUT_GENERAL) {
                Candidate::Skip
            } else {
                Candidate::Take {
                    swapchain,
                    image,
                    width: entry.width,
                    height: entry.height,
                    format: entry.format,
                    tap,
                }
            }
        }
    }
}

/// The present that is captured, from entry `i` of the call on, and who holds the channel
/// then. The first entry that can be captured decides: if it does not get the channel, or
/// the queue's family was never learnt, nothing is captured.
pub open spec fn chosen(
    state: StateView,
    device: u64,
    queue: u64,
    swapchains: Seq<u64>,
    indices: Seq<u32>,
    primary: Option<Primary>,
    i: int,
) -> (Option<PresentTarget>, Option<Primary>)
    decreases swapchains.len() - i,
{
    if i < 0 || i >= swapchains.len() || i >= indices.len() {
        (None, primary)
    } else {
        match considered(state, swapchains[i], indices[i]) {
            Candidate::Skip => chosen(state, device, queue, swapchains, indices, primary, i + 1),
            Candidate::Stop => (None, primary),
            Candidate::Take { swapchain, image, width, height, format, tap } => {
                let claim = Claim { device, swapchain, width, height };
                let target = if claim.granted(primary) && state.queue_families.dom().contains(
                    queue,
                ) {
                    Some(
                        PresentTarget {
                            swapchain,
                            image,
                            capture_image: match tap {
                                Some(found) => found.0,
                                None => image,
                            },
                            capture_layout: match tap {
                                Some(found) => found.1,
                                None => LAYOUT_PRESENT_SRC,
                            },
                            width,
                            height,
                            format,
                            queue_family: state.queue_families[queue],
                        },
                    )
                } else {
                    None
                };
                (target, claim.holder(primary))
            },
        }
    }
}

impl PresentStep {
    /// The step once this one has been answered.
    pub open spec fn after(self, instance: bool, reply: PresentReply) -> PresentStep {
        match self {
            PresentStep::PollHotkey(target) => PresentStep::AskModel(target),
            PresentStep::AskModel(target) => if reply == PresentReply::Flag(false) && instance {
                PresentStep::Capture(target)
            } else {
                PresentStep::Forward(None)
            },
            PresentStep::Capture(_) => match reply {
                PresentReply::Semaphore(semaphore) => PresentStep::Forward(semaphore),
                _ => PresentStep::Forward(None),
            },
            PresentStep::Forward(_) => self,
        }
    }

    /// The next step, from the answer to this one. With a model that will never answer, or
    /// without an instance, the present is forwarded untouched.
    pub fn advance(self, instance: bool, reply: PresentReply) -> (r: PresentStep)
        ensures
            r == self.after(instance, reply),
    {
        match self {
            PresentStep::PollHotkey(target) => PresentStep::AskModel(target),
            PresentStep::AskModel(target) => match reply {
                PresentReply::Flag(false) => if instance {
                    PresentStep::Capture(target)
                } else {
                    PresentStep::Forward(None)
                },
                _ => PresentStep::Forward(None),
            },
            PresentStep::Capture(_) => match reply {
                PresentReply::Semaphore(semaphore) => PresentStep::Forward(semaphore),
                _ => PresentStep::Forward(None),
            },
            PresentStep::Forward(_) => self,
        }
    }
}

/// The semaphores a forwarded present waits for: the application's own, and after them the
/// capture's.
pub fn wait_semaphores(application: &Vec<u64>, own: Option<u64>) -> (r: Vec<u64>)
    ensures
        r@ == (match own {
            Some(semaphore) => application@.push(semaphore),
            None => application@,
        }),
{
    let mut combined = application.clone();
    if let Some(semaphore) = own {
        combined.push(semaphore);
    }
    combined
}

/// What the application is told of the present it made.
pub fn present_result(code: i32) -> (r: Result<(), i32>)
    ensures
        r == (if code == SUCCESS {
            Ok::<(), i32>(())
        } else {
            Err::<(), i32>(code)
        }),
{
    vk_result(code)
}

/// The images of a swapchain, from the two calls that count and then list them: none where
/// either failed.
pub fn fetch_swapchain_images(counted: i32, listed: i32, images: Vec<u64>) -> (r: Vec<u64>)
    ensures
        r@ == (if counted == SUCCESS && listed == SUCCESS {
            images@
        } else {
            seq![]
        }),
{
    if counted == SUCCESS && listed == SUCCESS {
        images
    } else {
        Vec::new()
    }
}

impl SwapchainState {
    /// The entry is that of a swapchain the application asked for by `info`: its own format
    /// and extent, its images in the driver's order, and passed through unless a request of
    /// the layer's own was forwarded in its place.
    pub open spec fn records(
        &self,
        info: SwapchainRequest,
        adjusted: bool,
        hdr_kind: i32,
        images: Seq<u64>,
    ) -> bool {
        &&& self.format == info.image_format
        &&& self.width == info.width
        &&& self.height == info.height
        &&& self.hdr_kind == hdr_kind
        &&& self.pass_through == !adjusted
        &&& self.images@ == images
    }
}

/// What is kept of a swapchain that was created.
pub fn swapchain_entry(
    info: &SwapchainRequest,
    adjusted: bool,
    hdr_kind: i32,
    images: Vec<u64>,
) -> (r: SwapchainState)
    ensures
        r.records(*info, adjusted, hdr_kind, images@),
        r.format == info.image_format,
        r.width == info.width,
        r.height == info.height,
        r.hdr_kind == hdr_kind,
        r.pass_through == !adjusted,
        r.images@ == images@,
{
    SwapchainState {
        format: info.image_format,
        width: info.width,
        height: info.height,
        hdr_kind,
        pass_through: !adjusted,
        images,
    }
}

/// The commands the layer intercepts on a device.
pub fn hooked_commands() -> (r: Vec<VulkanCommand>)
    ensures
        r@ == seq![
            VulkanCommand::CreateSwapchainKhr,
            VulkanCommand::DestroySwapchainKhr,
            VulkanCommand::QueuePresentKhr,
            VulkanCommand::GetDeviceQueue,
            VulkanCommand::GetDeviceQueue2,
            VulkanCommand::CmdCopyImage,
            VulkanCommand::CmdBlitImage,
            VulkanCommand::CmdPipelineBarrier,
            VulkanCommand::CmdPipelineBarrier2,
            VulkanCommand::DestroyImage,
        ],
{
    vec![
        VulkanCommand::CreateSwapchainKhr,
        VulkanCommand::DestroySwapchainKhr,
        VulkanCommand::QueuePresentKhr,
        VulkanCommand::GetDeviceQueue,
        VulkanCommand::GetDeviceQueue2,
        VulkanCommand::CmdCopyImage,
        VulkanCommand::CmdBlitImage,
        VulkanCommand::CmdPipelineBarrier,
        VulkanCommand::CmdPipelineBarrier2,
        VulkanCommand::DestroyImage,
    ]
}

fn consider(state: &State, swapchain: u64, index: u32) -> (r: Candidate)
    ensures
        r == considered(state@, swapchain, index),
{
    let entry = match state.swapchains.get(&swapchain) {
        Some(entry) => entry,
        None => return Candidate::Skip,
    };
    if index as usize >= entry.images.len() {
        return Candidate::Stop;
    }
    let image = entry.images[index as usize];
    let tap = match state.tap_sources_by_destination.get(&image) {
        Some(source) => match state.tapped_source_layouts.get(source) {
            Some(layout) => Some((*source, *layout)),
            None => None,
        },
        None => None,
    };
    let general = match tap {
        Some((_, layout)) => layout == LAYOUT_GENERAL,
        None => false,
    };
    if entry.pass_through && !general {
        return Candidate::Skip;
    }
    Candidate::Take {
        swapchain,
        image,
        width: entry.width,
        height: entry.height,
        format: entry.format,
        tap,
    }
}

/// Finds the present that is captured, see [`chosen`].
fn choose_target(
    state: &State,
    device: u64,
    queue: u64,
    swapchains: &Vec<u64>,
    indices: &Vec<u32>,
    primary: &mut Option<Primary>,
) -> (r: Option<PresentTarget>)
    ensures
        (r, *final(primary)) == chosen(
            state@,
            device,
            queue,
            swapchains@,
            indices@,
            *old(primary),
            0,
        ),
{
    let mut i: usize = 0;
    while i < swapchains.len() && i < indices.len()
        invariant
            i <= swapchains@.len(),
            *primary == *old(primary),
            chosen(state@, device, queue, swapchains@, indices@, *old(primary), 0) == chosen(
                state@,
                device,
                queue,
                swapchains@,
                indices@,
                *old(primary),
                i as int,
            ),
        decreases swapchains@.len() - i,
    {
        match consider(state, swapchains[i], indices[i]) {
            Candidate::Skip => {},
            Candidate::Stop => {
                return None;
            },
            Candidate::Take { swapchain, image, width, height, format, tap } => {
                let claim = Claim { device, swapchain, width, height };
                if !claim_primary(primary, &claim) {
                    return None;
                }
                let queue_family = match state.queue_families.get(&queue) {
                    Some(family) => *family,
                    None => {
                        return None;
                    },
                };
                let (capture_image, capture_layout) = match tap {
                    Some(found) => found,
                    None => (image, LAYOUT_PRESENT_SRC),
                };
                return Some(
                    PresentTarget {
                        swapchain,
                        image,
                        capture_image,
                        capture_layout,
                        width,
                        height,
                        format,
                        queue_family,
                    },
                );
            },
        }
        i += 1;
    }
    None
}

/// Everything but the bookkeeping of `state` is as it was.
pub open spec fn only_state_changed(before: NeuralForgeDeviceInfo, after: NeuralForgeDeviceInfo) -> bool {
    after == (NeuralForgeDeviceInfo { state: after.state, ..before })
}

impl NeuralForgeDeviceInfo {
    /// The layer's side of a device that was just made.
    pub fn new(
        device: u64,
        instance: bool,
        surface_caps: bool,
        next: NextCommands,
        external_memory_host: bool,
    ) -> (r: Self)
        ensures
            r.device == device,
            r.instance == instance,
            r.surface_caps == surface_caps,
            r.next == next,
            r.external_memory_host == external_memory_host,
            r.state@ == StateView::empty(),
            r.state@.consistent(),
            r.capture is None,
            r.pool == (CapturePool { pipeline: None, direct: None }),
            r.pool.wf(),
            r.frames@ == crate::capture::FramesView::empty(),
    {
        NeuralForgeDeviceInfo {
            device,
            instance,
            surface_caps,
            next,
            external_memory_host,
            state: State::default(),
            capture: None,
            pool: CapturePool { pipeline: None, direct: None },
            frames: Frames::new(),
        }
    }

    /// The usage a new swapchain is created with, where that is not its own: the swapchain
    /// may be captured, the surface can be asked, and both surface and format allow it.
    pub open spec fn enlarged_usage(
        &self,
        info: SwapchainRequest,
        admission: Admission,
        supported: Option<u32>,
        limits: Option<FormatLimits>,
    ) -> Option<u32> {
        if admission.admits(info.width, info.height) && self.instance && self.surface_caps {
            info.admitted(supported, limits)
        } else {
            None
        }
    }

    /// Decides how a swapchain is created: with a private copy of the request whose usage
    /// is enlarged, or as it was asked for. The creation is forwarded exactly once.
    /// `supported` and `limits` are the driver's answers, `None` where it was not asked.
    pub fn create_swapchain_khr(
        &self,
        info: &SwapchainRequest,
        admission: &Admission,
        supported: Option<u32>,
        limits: Option<FormatLimits>,
    ) -> (r: LayerResult<Option<SwapchainRequest>>)
        ensures
            r is Unhandled == !self.next.create_swapchain_khr,
            r matches LayerResult::Handled(adjusted) ==> {
                let usage = self.enlarged_usage(*info, *admission, supported, limits);
                &&& adjusted is Some == usage is Some
                &&& adjusted matches Some(request) ==> usage == Some(request.image_usage)
                    && request.same_but_usage(info)
            },
    {
        if !self.next.create_swapchain_khr {
            return LayerResult::Unhandled;
        }
        if admission.eligible(info.width, info.height) && self.instance && self.surface_caps {
            LayerResult::Handled(prepare(info, supported, limits))
        } else {
            LayerResult::Handled(None)
        }
    }

    /// Records a swapchain that was created, with the driver's result: what the application
    /// asked for, and whether a request of the layer's own (`adjusted`) was forwarded in its
    /// place. On success, says whether motion resources have to be prepared for it; an error
    /// is handed on, and nothing is recorded.
    pub fn swapchain_created(
        &mut self,
        result: i32,
        swapchain: u64,
        info: &SwapchainRequest,
        adjusted: &Option<SwapchainRequest>,
        hdr_kind: i32,
        images: Vec<u64>,
    ) -> (r: Result<bool, i32>)
        ensures
            result != SUCCESS ==> r == Err::<bool, i32>(result) && *final(self) == *old(self),
            result == SUCCESS ==> {
                let entry = final(self).state@.swapchains[swapchain];
                &&& r == Ok::<bool, i32>(adjusted is Some && old(self).instance)
                &&& only_state_changed(*old(self), *final(self))
                &&& final(self).state@ == (StateView {
                    swapchains: old(self).state@.swapchains.insert(swapchain, entry),
                    ..old(self).state@
                })
                &&& entry.records(*info, adjusted is Some, hdr_kind, images@)
            },
    {
        if result != SUCCESS {
            return Err(result);
        }
        let entry = swapchain_entry(info, adjusted.is_some(), hdr_kind, images);
        self.state.swapchains.insert(swapchain, entry);
        Ok(adjusted.is_some() && self.instance)
    }

    /// Forgets a swapchain before its destruction is forwarded, gives the channel up if the
    /// swapchain held it, and hands back the images that the compositor has to retire.
    pub fn destroy_swapchain_khr(&mut self, swapchain: u64, primary: &mut Option<Primary>) -> (r: LayerResult<
        Option<Vec<u64>>,
    >)
        ensures
            r is Unhandled == !old(self).next.destroy_swapchain_khr,
            r is Unhandled ==> *final(self) == *old(self) && *final(primary) == *old(primary),
            r matches LayerResult::Handled(images) ==> {
                &&& only_state_changed(*old(self), *final(self))
                &&& final(self).state@ == old(self).state@.without_swapchain(swapchain)
                &&& *final(primary) == (match *old(primary) {
                    Some(p) if p.device == old(self).device && p.swapchain == swapchain => None,
                    kept => kept,
                })
                &&& images is Some == old(self).state@.swapchains.dom().contains(swapchain)
                &&& images matches Some(list) ==> list@
                    == old(self).state@.swapchains[swapchain].images@
            },
    {
        if !self.next.destroy_swapchain_khr {
            return LayerResult::Unhandled;
        }
        release_primary(primary, self.device, swapchain);
        LayerResult::Handled(forget_swapchain(&mut self.state, swapchain))
    }

    /// Learns a queue's family from the queue that the next layer handed out for it, if it
    /// has the command.
    pub fn get_device_queue(&mut self, queue_family: u32, queue: Option<u64>) -> (r: LayerResult<u64>)
        ensures
            only_state_changed(*old(self), *final(self)),
            match queue {
                Some(handle) => {
                    &&& r == LayerResult::Handled(handle)
                    &&& final(self).state@ == (StateView {
                        queue_families: old(self).state@.queue_families.insert(handle, queue_family),
                        ..old(self).state@
                    })
                },
                None => r is Unhandled && *final(self) == *old(self),
            },
    {
        match queue {
            Some(handle) => {
                self.state.queue_families.insert(handle, queue_family);
                LayerResult::Handled(handle)
            },
            None => LayerResult::Unhandled,
        }
    }

    /// The same for `vkGetDeviceQueue2`.
    pub fn get_device_queue2(&mut self, queue_family: u32, queue: Option<u64>) -> (r: LayerResult<u64>)
        ensures
            only_state_changed(*old(self), *final(self)),
            match queue {
                Some(handle) => {
                    &&& r == LayerResult::Handled(handle)
                    &&& final(self).state@ == (StateView {
                        queue_families: old(self).state@.queue_families.insert(handle, queue_family),
                        ..old(self).state@
                    })
                },
                None => r is Unhandled && *final(self) == *old(self),
            },
    {
        self.get_device_queue(queue_family, queue)
    }

    /// Watches a copy between images. The command is always forwarded.
    pub fn cmd_copy_image(&mut self, src: u64, src_layout: i32, dst: u64) -> (r: LayerResult<()>)
        ensures
            r is Unhandled,
            only_state_changed(*old(self), *final(self)),
            final(self).state@ == (if is_swapchain_image(old(self).state@.swapchains, dst) {
                old(self).state@.with_tap(src, src_layout, dst)
            } else {
                old(self).state@
            }),
    {
        observe_swapchain_write(&mut self.state, src, src_layout, dst);
        LayerResult::Unhandled
    }

    /// Watches a blit between images. The command is always forwarded.
    pub fn cmd_blit_image(&mut self, src: u64, src_layout: i32, dst: u64) -> (r: LayerResult<()>)
        ensures
            r is Unhandled,
            only_state_changed(*old(self), *final(self)),
            final(self).state@ == (if is_swapchain_image(old(self).state@.swapchains, dst) {
                old(self).state@.with_tap(src, src_layout, dst)
            } else {
                old(self).state@
            }),
    {
        observe_swapchain_write(&mut self.state, src, src_layout, dst);
        LayerResult::Unhandled
    }

    /// Follows the taps' layouts through a barrier. The command is always forwarded.
    pub fn cmd_pipeline_barrier(&mut self, changes: &Vec<LayoutChange>) -> (r: LayerResult<()>)
        ensures
            r is Unhandled,
            only_state_changed(*old(self), *final(self)),
            final(self).state@ == (StateView {
                layouts: followed(old(self).state@.layouts, changes@),
                ..old(self).state@
            }),
    {
        track_layouts(&mut self.state, changes);
        LayerResult::Unhandled
    }

    /// The same for `vkCmdPipelineBarrier2`.
    pub fn cmd_pipeline_barrier2(&mut self, changes: &Vec<LayoutChange>) -> (r: LayerResult<()>)
        ensures
            r is Unhandled,
            only_state_changed(*old(self), *final(self)),
            final(self).state@ == (StateView {
                layouts: followed(old(self).state@.layouts, changes@),
                ..old(self).state@
            }),
    {
        self.cmd_pipeline_barrier(changes)
    }

    /// Forgets an image that the game destroys. The command is always forwarded.
    pub fn destroy_image(&mut self, image: u64) -> (r: LayerResult<()>)
        ensures
            r is Unhandled,
            only_state_changed(*old(self), *final(self)),
            final(self).state@ == old(self).state@.without_source(image),
    {
        forget_image(&mut self.state, image);
        LayerResult::Unhandled
    }

    /// Begins a present of these swapchains' images: finds the one to capture, if the layer
    /// is enabled and there is one.
    pub fn queue_present_khr(
        &self,
        layer_enabled: bool,
        queue: u64,
        swapchains: &Vec<u64>,
        indices: &Vec<u32>,
        primary: &mut Option<Primary>,
    ) -> (r: LayerResult<PresentStep>)
        ensures
            r is Unhandled == !self.next.queue_present_khr,
            r is Unhandled || !layer_enabled ==> *final(primary) == *old(primary),
            r matches LayerResult::Handled(step) ==> {
                let found = chosen(
                    self.state@,
                    self.device,
                    queue,
                    swapchains@,
                    indices@,
                    *old(primary),
                    0,
                );
                if layer_enabled {
                    &&& *final(primary) == found.1
                    &&& step == (match found.0 {
                        Some(target) => PresentStep::PollHotkey(target),
                        None => PresentStep::Forward(None),
                    })
                } else {
                    step == PresentStep::Forward(None)
                }
            },
    {
        if !self.next.queue_present_khr {
            return LayerResult::Unhandled;
        }
        if !layer_enabled {
            return LayerResult::Handled(PresentStep::Forward(None));
        }
        match choose_target(&self.state, self.device, queue, swapchains, indices, primary) {
            Some(target) => LayerResult::Handled(PresentStep::PollHotkey(target)),
            None => LayerResult::Handled(PresentStep::Forward(None)),
        }
    }

    /// The device's own objects, in the order they are destroyed.
    pub open spec fn destruction(&self) -> Seq<Resource> {
        destruction_of(self.capture) + pipeline_destruction(self.pool.pipeline)
            + direct_destruction(self.pool.direct)
    }

    /// There is something to destroy, so the device has to be idle first.
    pub open spec fn holds(&self, compositor: bool) -> bool {
        ||| self.capture is Some
        ||| self.pool.pipeline is Some
        ||| self.pool.direct is Some
        ||| compositor
    }

    /// Whether the device has to be waited for before it is torn down.
    pub fn holds_resources(&self, compositor: bool) -> (r: bool)
        ensures
            r == self.holds(compositor),
    {
        self.capture.is_some() || self.pool.pipeline.is_some() || self.pool.direct.is_some()
            || compositor
    }

    /// Tears down what the layer made on the device, before the device itself goes.
    /// `waited` is the result of the wait for it, which is made only where
    /// [`Self::holds_resources`] says so. A lost device runs nothing any more; after any
    /// other failure, work may still be pending and nothing is freed.
    pub fn destroy_private_resources(&mut self, compositor: bool, waited: i32, primary: &mut Option<Primary>) -> (r: Teardown)
        ensures
            if old(self).holds(compositor) && (waited == SUCCESS || waited == ERROR_DEVICE_LOST) {
                &&& r.destroy@ == old(self).destruction()
                &&& r.compositor == compositor
                &&& final(self).capture is None
                &&& final(self).pool == (CapturePool { pipeline: None, direct: None })
            } else {
                &&& r.destroy@ == Seq::<Resource>::empty()
                &&& !r.compositor
                &&& final(self).capture == old(self).capture
                &&& final(self).pool == old(self).pool
            },
            final(self).state@ == (StateView { swapchains: Map::empty(), ..old(self).state@ }),
            *final(self) == (NeuralForgeDeviceInfo {
                state: final(self).state,
                capture: final(self).capture,
                pool: final(self).pool,
                ..*old(self)
            }),
            *final(primary) == (match *old(primary) {
                Some(p) if p.device == old(self).device => None,
                kept => kept,
            }),
    {
        let mut order: Vec<Resource> = Vec::new();
        let mut free_compositor = false;
        if self.holds_resources(compositor) && (waited == SUCCESS || waited == ERROR_DEVICE_LOST) {
            order = destroy(self.capture);
            let mut pipeline = destroy_pipeline(self.pool.pipeline);
            let mut direct = destroy_direct_capture(self.pool.direct);
            order.append(&mut pipeline);
            order.append(&mut direct);
            self.capture = None;
            self.pool = CapturePool { pipeline: None, direct: None };
            free_compositor = compositor;
        }
        self.state.swapchains.clear();
        release_device(primary, self.device);
        Teardown { destroy: order, compositor: free_compositor }
    }
}

/// A swapchain is only written where its creation was enlarged for that: whatever speaks
/// against it (the layer is disabled, another process owns the channel, the format is not
/// supported, the extent is too large or no game's, the driver can not be asked or refuses)
/// makes it pass through. One that does not pass through was created with both transfer
/// bits on top of the application's own usage, all of it supported by the surface.
pub proof fn only_enlarged_swapchains_are_written(
    device: NeuralForgeDeviceInfo,
    info: SwapchainRequest,
    admission: Admission,
    supported: Option<u32>,
    limits: Option<FormatLimits>,
    entry: SwapchainState,
    hdr_kind: i32,
    images: Seq<u64>,
)
    requires
        entry.records(
            info,
            device.enlarged_usage(info, admission, supported, limits) is Some,
            hdr_kind,
            images,
        ),
    ensures
        !admission.layer_enabled ==> entry.pass_through,
        !admission.owner ==> entry.pass_through,
        !admission.supported_format ==> entry.pass_through,
        info.width > admission.max_width || info.height > admission.max_height
            ==> entry.pass_through,
        !admission.plausible_size ==> entry.pass_through,
        !device.instance || !device.surface_caps ==> entry.pass_through,
        supported is None || limits is None ==> entry.pass_through,
        !info.is_candidate() ==> entry.pass_through,
        !entry.pass_through ==> {
            let usage = device.enlarged_usage(info, admission, supported, limits)->0;
            &&& has_all(usage, info.image_usage)
            &&& has_all(usage, USAGE_TRANSFER_SRC)
            &&& has_all(usage, USAGE_TRANSFER_DST)
            &&& has_all(supported->0, usage)
        },
{
    if !entry.pass_through {
        admission_preserves_application_usage(info, supported->0, limits);
    }
}

/// Only the swapchain that holds the channel is captured, and only one that the layer
/// knows: the image captured is the one presented, found under the index the application
/// gave, or the tap of it.
pub proof fn captured_presents_hold_the_channel(
    state: StateView,
    device: u64,
    queue: u64,
    swapchains: Seq<u64>,
    indices: Seq<u32>,
    primary: Option<Primary>,
    i: int,
)
    requires
        i >= 0,
    ensures
        chosen(state, device, queue, swapchains, indices, primary, i).0 matches Some(target) ==> {
            let holder = chosen(state, device, queue, swapchains, indices, primary, i).1;
            &&& holder matches Some(p)
            &&& p.device == device
            &&& p.swapchain == target.swapchain
            &&& state.swapchains.dom().contains(target.swapchain)
            &&& exists|k: int|
                i <= k < swapchains.len() && k < indices.len() && #[trigger] swapchains[k]
                    == target.swapchain && indices[k]
                    < state.swapchains[target.swapchain].images@.len()
                    && state.swapchains[target.swapchain].images@[indices[k] as int]
                    == target.image
            &&& target.capture_image == target.image || (state.taps.dom().contains(target.image)
                && state.taps[target.image] == target.capture_image)
            &&& state.swapchains[target.swapchain].pass_through ==> target.capture_layout
                == LAYOUT_GENERAL
        },
    decreases swapchains.len() - i,
{
    if i < swapchains.len() && i < indices.len() {
        match considered(state, swapchains[i], indices[i]) {
            Candidate::Skip => {
                captured_presents_hold_the_channel(
                    state,
                    device,
                    queue,
                    swapchains,
                    indices,
                    primary,
                    i + 1,
                );
            },
            _ => {},
        }
    }
}

/// A present goes through at most three answers before it is forwarded, and a model that
/// will never answer, or a missing instance, means that nothing is captured.
pub proof fn presents_are_forwarded(
    target: PresentTarget,
    instance: bool,
    first: PresentReply,
    second: PresentReply,
    third: PresentReply,
)
    ensures
        ({
            let asked = PresentStep::PollHotkey(target).after(instance, first).after(
                instance,
                second,
            );
            &&& asked.after(instance, third) is Forward
            &&& asked is Capture ==> instance && second == PresentReply::Flag(false)
        }),
{
}

/// The largest swapchain is the game: a swapchain that can be captured is captured whenever
/// no one holds the channel, it holds the channel itself, or it has more pixels than the
/// holder was recorded with; and it is then the holder, under the number of its own pixels.
/// One that is not larger is presented untouched, and the holder stays.
pub proof fn the_largest_swapchain_takes_the_channel(
    state: StateView,
    device: u64,
    queue: u64,
    swapchains: Seq<u64>,
    indices: Seq<u32>,
    primary: Option<Primary>,
    i: int,
)
    requires
        0 <= i < swapchains.len(),
        i < indices.len(),
        state.swapchains.dom().contains(swapchains[i]),
        indices[i] < state.swapchains[swapchains[i]].images@.len(),
        !state.swapchains[swapchains[i]].pass_through,
    ensures
        ({
            let entry = state.swapchains[swapchains[i]];
            let (target, holder) = chosen(state, device, queue, swapchains, indices, primary, i);
            let its_own = primary matches Some(p) && p.device == device && p.swapchain
                == swapchains[i];
            let beaten = primary matches Some(p) ==> entry.width * entry.height > p.area;
            &&& its_own || beaten ==> {
                &&& target is Some <==> state.queue_families.dom().contains(queue)
                &&& holder matches Some(p) && p.device == device && p.swapchain == swapchains[i]
                &&& its_own ==> holder == primary
                &&& !its_own ==> (holder matches Some(p) && p.area == entry.width * entry.height)
            }
            &&& !its_own && !beaten ==> target is None && holder == primary
        }),
{
    let entry = state.swapchains[swapchains[i]];
    lemma_pixels(entry.width, entry.height);
}

proof fn lemma_pixels(width: u32, height: u32)
    ensures
        0 <= width * height <= u64::MAX,
{
    let (w, h) = (width as int, height as int);
    assert(0 <= w * h <= 0xffff_ffff * 0xffff_ffff) by (nonlinear_arith)
        requires
            0 <= w <= 0xffff_ffff,
            0 <= h <= 0xffff_ffff,
    ;
}

/// Whatever a present comes to, a holder that is new is recorded with exactly the pixels of
/// the swapchain that took the channel, which is one of those presented, and no holder gives
/// way to a smaller one.
pub proof fn holders_are_recorded_with_their_pixels(
    state: StateView,
    device: u64,
    queue: u64,
    swapchains: Seq<u64>,
    indices: Seq<u32>,
    primary: Option<Primary>,
    i: int,
)
    requires
        0 <= i,
    ensures
        ({
            let holder = chosen(state, device, queue, swapchains, indices, primary, i).1;
            &&& primary is Some ==> holder is Some && holder->0.area >= primary->0.area
            &&& holder != primary ==> {
                &&& holder matches Some(p)
                &&& p.device == device
                &&& swapchains.contains(p.swapchain)
                &&& state.swapchains.dom().contains(p.swapchain)
                &&& p.area == state.swapchains[p.swapchain].width
                    * state.swapchains[p.swapchain].height
            }
        }),
    decreases swapchains.len() - i,
{
    if i < swapchains.len() && i < indices.len() {
        match considered(state, swapchains[i], indices[i]) {
            Candidate::Skip => {
                holders_are_recorded_with_their_pixels(
                    state,
                    device,
                    queue,
                    swapchains,
                    indices,
                    primary,
                    i + 1,
                );
            },
            Candidate::Take { width, height, .. } => {
                lemma_pixels(width, height);
                assert(swapchains.contains(swapchains[i]));
            },
            Candidate::Stop => {},
        }
    }
}

/// What is captured of a present is that very present: the extent and format the swapchain was
/// recorded with, the image under the application's index, and the family of the queue it is
/// presented on. The image captured is the one presented, as it is presented, unless a tap of
/// it is known, which is then captured in the layout it is in.
pub proof fn targets_describe_the_present(
    state: StateView,
    device: u64,
    queue: u64,
    swapchains: Seq<u64>,
    indices: Seq<u32>,
    primary: Option<Primary>,
    i: int,
)
    requires
        0 <= i < swapchains.len(),
        i < indices.len(),
        state.swapchains.dom().contains(swapchains[i]),
        indices[i] < state.swapchains[swapchains[i]].images@.len(),
        !state.swapchains[swapchains[i]].pass_through || {
            let image = state.swapchains[swapchains[i]].images@[indices[i] as int];
            &&& state.taps.dom().contains(image)
            &&& state.layouts.dom().contains(state.taps[image])
            &&& state.layouts[state.taps[image]] == LAYOUT_GENERAL
        },
    ensures
        chosen(state, device, queue, swapchains, indices, primary, i).0 matches Some(target) ==> {
            let entry = state.swapchains[swapchains[i]];
            let tapped = state.taps.dom().contains(target.image) && state.layouts.dom().contains(
                state.taps[target.image],
            );
            &&& target.swapchain == swapchains[i]
            &&& target.image == entry.images@[indices[i] as int]
            &&& target.width == entry.width
            &&& target.height == entry.height
            &&& target.format == entry.format
            &&& state.queue_families.dom().contains(queue)
            &&& target.queue_family == state.queue_families[queue]
            &&& !tapped ==> target.capture_image == target.image && target.capture_layout
                == LAYOUT_PRESENT_SRC
            &&& tapped ==> target.capture_image == state.taps[target.image]
                && target.capture_layout == state.layouts[state.taps[target.image]]
        },
        primary is None && state.queue_families.dom().contains(queue) ==> chosen(
            state,
            device,
            queue,
            swapchains,
            indices,
            primary,
            i,
        ).0 is Some,
{
}

/// An entry that can not be captured does not stand in the way of the next one: a swapchain
/// that is not known, and one that was created unmodified and has no tap in the general
/// layout. An image that the swapchain does not have ends the search.
pub proof fn other_swapchains_are_passed_over(
    state: StateView,
    device: u64,
    queue: u64,
    swapchains: Seq<u64>,
    indices: Seq<u32>,
    primary: Option<Primary>,
    i: int,
)
    requires
        0 <= i < swapchains.len(),
        i < indices.len(),
    ensures
        ({
            let here = chosen(state, device, queue, swapchains, indices, primary, i);
            let next = chosen(state, device, queue, swapchains, indices, primary, i + 1);
            let entry = state.swapchains[swapchains[i]];
            let image = entry.images@[indices[i] as int];
            let general = state.taps.dom().contains(image) && state.layouts.dom().contains(
                state.taps[image],
            ) && state.layouts[state.taps[image]] == LAYOUT_GENERAL;
            if !state.swapchains.dom().contains(swapchains[i]) {
                here == next
            } else if indices[i] >= entry.images@.len() {
                here == (None::<PresentTarget>, primary)
            } else {
                entry.pass_through && !general ==> here == next
            }
        }),
        chosen(
            state,
            device,
            queue,
            swapchains,
            indices,
            primary,
            if swapchains.len() < indices.len() {
                swapchains.len() as int
            } else {
                indices.len() as int
            },
        ) == (None::<PresentTarget>, primary),
{
}

/// A present that was chosen is captured: its target stays the same through the questions
/// before, is captured exactly if the instance is known and the model may still answer, and
/// the semaphore the capture gave is the one the presentation waits for.
pub proof fn chosen_presents_are_captured(
    target: PresentTarget,
    instance: bool,
    polled: PresentReply,
    model: PresentReply,
    outcome: PresentReply,
)
    ensures
        PresentStep::PollHotkey(target).after(instance, polled) == PresentStep::AskModel(target),
        ({
            let asked = PresentStep::AskModel(target).after(instance, model);
            if instance && model == PresentReply::Flag(false) {
                asked == PresentStep::Capture(target)
            } else {
                asked == PresentStep::Forward(None)
            }
        }),
        PresentStep::Capture(target).after(instance, outcome) == PresentStep::Forward(
            if outcome is Semaphore {
                outcome->Semaphore_0
            } else {
                None
            },
        ),
{
}

/// A swapchain that nothing speaks against is captured: where the layer is on, owns the
/// channel, knows the format, finds the extent that of a game and within its limits, and the
/// surface and the format support both transfers, it is created with both of them on top of
/// the application's own usage.
pub proof fn eligible_swapchains_are_enlarged(
    device: NeuralForgeDeviceInfo,
    info: SwapchainRequest,
    admission: Admission,
    supported: u32,
    limits: FormatLimits,
)
    requires
        admission.layer_enabled,
        admission.owner,
        admission.supported_format,
        admission.plausible_size,
        info.width <= admission.max_width,
        info.height <= admission.max_height,
        device.instance,
        device.surface_caps,
        info.is_candidate(),
        supported & (info.image_usage | 1u32 | 2u32) == info.image_usage | 1u32 | 2u32,
        info.width <= limits.max_width,
        info.height <= limits.max_height,
        limits.max_array_layers >= 1,
        limits.sample_counts & 1u32 == 1u32,
    ensures
        device.enlarged_usage(info, admission, Some(supported), Some(limits)) == Some(
            info.image_usage | 1u32 | 2u32,
        ),
{
}

/// What is torn down is everything the layer made on the device and nothing else: the staging
/// buffer's objects, those of both pipeline slots and those of the direct capture.
pub proof fn teardown_frees_every_object(device: NeuralForgeDeviceInfo, object: Resource)
    ensures
        device.destruction().contains(object) <==> {
            ||| device.capture matches Some(kept) && kept.buf.made().contains(object)
            ||| device.pool.pipeline matches Some(p) && p.first.buf.made().contains(object)
            ||| device.pool.pipeline matches Some(p) && p.second.buf.made().contains(object)
            ||| device.pool.direct matches Some(d) && d.slot.buf.made().contains(object)
        },
        device.destruction().len() == (if device.capture is Some {
            4int
        } else {
            0
        }) + (if device.pool.pipeline is Some {
            8int
        } else {
            0
        }) + (if device.pool.direct is Some {
            4int
        } else {
            0
        }),
        device.destruction().len() > 0 ==> device.holds(false),
        device.holds(true),
{
    let staged = destruction_of(device.capture);
    let piped = pipeline_destruction(device.pool.pipeline);
    let direct = direct_destruction(device.pool.direct);
    lemma_in_both(staged + piped, direct, object);
    lemma_in_both(staged, piped, object);
    if let Some(kept) = device.capture {
        lemma_same_objects(kept.buf, object);
    }
    if let Some(p) = device.pool.pipeline {
        lemma_in_both(p.first.buf.destruction(), p.second.buf.destruction(), object);
        lemma_same_objects(p.first.buf, object);
        lemma_same_objects(p.second.buf, object);
    }
    if let Some(d) = device.pool.direct {
        lemma_same_objects(d.slot.buf, object);
    }
}

proof fn lemma_in_both(a: Seq<Resource>, b: Seq<Resource>, object: Resource)
    ensures
        (a + b).contains(object) <==> a.contains(object) || b.contains(object),
{
    let both = a + b;
    if a.contains(object) {
        let i = a.index_of(object);
        assert(both[i] == object);
    }
    if b.contains(object) {
        let i = b.index_of(object);
        assert(both[a.len() + i] == object);
    }
}

proof fn lemma_same_objects(buf: CaptureBuffer, object: Resource)
    ensures
        buf.destruction().contains(object) <==> buf.made().contains(object),
        buf.destruction().len() == 4,
{
    let (order, made) = (buf.destruction(), buf.made());
    assert(made[0] == order[3] && made[1] == order[0] && made[2] == order[1] && made[3]
        == order[2]);
}

/// A hook that changes the bookkeeping changes nothing else of the device.
pub proof fn bookkeeping_touches_nothing_else(before: NeuralForgeDeviceInfo, after: NeuralForgeDeviceInfo)
    requires
        only_state_changed(before, after),
    ensures
        after.device == before.device,
        after.instance == before.instance,
        after.surface_caps == before.surface_caps,
        after.next == before.next,
        after.external_memory_host == before.external_memory_host,
        after.capture == before.capture,
        after.pool == before.pool,
        after.frames == before.frames,
{
}

/// What is kept of a swapchain is what the application asked for and the driver made: its
/// format and extent, the images in their order; and it is written exactly if a request of
/// the layer's own was forwarded for it.
pub proof fn entries_keep_what_was_asked_for(entry: SwapchainState, info: SwapchainRequest, adjusted: bool, hdr_kind: i32, images: Seq<u64>)
    ensures
        entry.records(info, adjusted, hdr_kind, images) <==> {
            &&& entry.format == info.image_format
            &&& entry.width == info.width
            &&& entry.height == info.height
            &&& entry.hdr_kind == hdr_kind
            &&& entry.pass_through != adjusted
            &&& entry.images@ == images
        },
{
}

} // verus!
