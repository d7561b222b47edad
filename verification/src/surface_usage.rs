//! Conservative admission for host capture. Swapchain creation is never retried: Vulkan
//! retires the old swapchain even when creation fails, so whether the image usage can be
//! enlarged is settled before the one creation call is forwarded.
use vstd::prelude::*;

use crate::vulkan::{
    has_all, has_any, sample_counts_contain, swapchain_flags_intersect, usage_contains,
    usage_union, PRESENT_MODE_FIFO, PRESENT_MODE_FIFO_RELAXED, PRESENT_MODE_IMMEDIATE,
    PRESENT_MODE_MAILBOX, SAMPLE_COUNT_1, SWAPCHAIN_MUTABLE_FORMAT, SWAPCHAIN_PROTECTED,
    SWAPCHAIN_SPLIT_INSTANCE_BIND_REGIONS, TYPE_DEVICE_GROUP_SWAPCHAIN_CREATE_INFO,
    TYPE_IMAGE_FORMAT_LIST_CREATE_INFO, TYPE_SURFACE_FULL_SCREEN_EXCLUSIVE_INFO,
    USAGE_TRANSFER_DST, USAGE_TRANSFER_SRC,
};

verus! {

/// The fields of a `VkSwapchainCreateInfoKHR` that admission reads, with the structure
/// types of its `pNext` chain in chain order.
#[derive(Debug)]
pub struct SwapchainRequest {
    pub flags: u32,
    pub chain: Vec<i32>,
    pub image_format: i32,
    pub width: u32,
    pub height: u32,
    pub image_array_layers: u32,
    pub image_usage: u32,
    pub present_mode: i32,
}

/// What the driver says of one image format with the usage that capture needs.
#[derive(Clone, Copy, Debug, PartialEq, Eq, Structural)]
pub struct FormatLimits {
    pub max_width: u32,
    pub max_height: u32,
    pub max_array_layers: u32,
    pub sample_counts: u32,
}

/// Structure types that change what the swapchain's images are. Stereo and multi-device
/// layouts, exclusive full screen and format lists all describe images whose creation
/// parameters interact with usage.
pub open spec fn redefines_images(s_type: i32) -> bool {
    ||| s_type == TYPE_IMAGE_FORMAT_LIST_CREATE_INFO
    ||| s_type == TYPE_DEVICE_GROUP_SWAPCHAIN_CREATE_INFO
    ||| s_type == TYPE_SURFACE_FULL_SCREEN_EXCLUSIVE_INFO
}

/// No link of the chain redefines the images.
pub open spec fn understood(chain: Seq<i32>) -> bool {
    forall|i: int| 0 <= i < chain.len() ==> !redefines_images(#[trigger] chain[i])
}

/// The creation flags that change the images themselves.
pub open spec fn refused_flags(flags: u32) -> bool {
    ||| has_any(flags, SWAPCHAIN_PROTECTED)
    ||| has_any(flags, SWAPCHAIN_MUTABLE_FORMAT)
    ||| has_any(flags, SWAPCHAIN_SPLIT_INSTANCE_BIND_REGIONS)
}

/// Present modes whose images are the application's alone between acquire and present.
pub open spec fn private_present_mode(mode: i32) -> bool {
    ||| mode == PRESENT_MODE_FIFO
    ||| mode == PRESENT_MODE_FIFO_RELAXED
    ||| mode == PRESENT_MODE_IMMEDIATE
    ||| mode == PRESENT_MODE_MAILBOX
}

/// The usage capture needs on top of the application's own.
pub open spec fn enlarged(original: u32) -> u32 {
    original | USAGE_TRANSFER_SRC | USAGE_TRANSFER_DST
}

impl SwapchainRequest {
    /// The request may be captured as far as its own fields say.
    pub open spec fn is_candidate(&self) -> bool {
        &&& !refused_flags(self.flags)
        &&& understood(self.chain@)
        &&& self.image_array_layers == 1
        &&& private_present_mode(self.present_mode)
    }

    /// The format, with the enlarged usage, can make images of the requested extent.
    pub open spec fn fits(&self, limits: FormatLimits) -> bool {
        &&& self.width <= limits.max_width
        &&& self.height <= limits.max_height
        &&& limits.max_array_layers >= 1
        &&& has_all(limits.sample_counts, SAMPLE_COUNT_1)
    }

    /// The usage that the format query is asked about: none where the request is no
    /// candidate, where the surface could not be queried (`supported` is `None`), or where
    /// the surface lacks some bit of the enlarged usage.
    pub open spec fn queried(&self, supported: Option<u32>) -> Option<u32> {
        match supported {
            Some(set) if self.is_candidate() && has_all(set, enlarged(self.image_usage)) => Some(
                enlarged(self.image_usage),
            ),
            _ => None,
        }
    }

    /// The usage the swapchain is created with, or none where it is created unmodified.
    pub open spec fn admitted(
        &self,
        supported: Option<u32>,
        limits: Option<FormatLimits>,
    ) -> Option<u32> {
        match (self.queried(supported), limits) {
            (Some(usage), Some(limits)) if self.fits(limits) => Some(usage),
            _ => None,
        }
    }

    /// Every field but the usage is `other`'s.
    pub open spec fn same_but_usage(&self, other: &SwapchainRequest) -> bool {
        &&& self.flags == other.flags
        &&& self.chain@ == other.chain@
        &&& self.image_format == other.image_format
        &&& self.width == other.width
        &&& self.height == other.height
        &&& self.image_array_layers == other.image_array_layers
        &&& self.present_mode == other.present_mode
    }
}

/// Whether every link of the chain leaves the images as they are. The whole chain is
/// walked: a refused structure may hide behind an unknown one, and an unknown one is no
/// reason to refuse.
pub fn chain_is_understood(chain: &Vec<i32>) -> (r: bool)
    ensures
        r == understood(chain@),
{
    let mut i: usize = 0;
    while i < chain.len()
        invariant
            i <= chain@.len(),
            forall|j: int| 0 <= j < i ==> !redefines_images(#[trigger] chain@[j]),
        decreases chain@.len() - i,
    {
        let s_type = chain[i];
        if s_type == TYPE_IMAGE_FORMAT_LIST_CREATE_INFO || s_type
            == TYPE_DEVICE_GROUP_SWAPCHAIN_CREATE_INFO || s_type
            == TYPE_SURFACE_FULL_SCREEN_EXCLUSIVE_INFO {
            assert(redefines_images(chain@[i as int]));
            return false;
        }
        i += 1;
    }
    true
}

/// Whether the swapchain's images may be captured, as far as the request itself says.
/// Unknown flag bits and unknown structures are allowed: only the usage is rewritten.
pub fn candidate(info: &SwapchainRequest) -> (r: bool)
    ensures
        r == info.is_candidate(),
{
    let refused = SWAPCHAIN_PROTECTED | SWAPCHAIN_MUTABLE_FORMAT
        | SWAPCHAIN_SPLIT_INSTANCE_BIND_REGIONS;
    let flags = info.flags;
    assert(has_any(flags, refused) == refused_flags(flags)) by {
        assert((flags & (2u32 | 4u32 | 1u32) != 0) == (flags & 2u32 != 0 || flags & 4u32 != 0
            || flags & 1u32 != 0)) by (bit_vector);
    }
    !swapchain_flags_intersect(flags, refused) && chain_is_understood(&info.chain)
        && info.image_array_layers == 1 && (info.present_mode == PRESENT_MODE_FIFO
        || info.present_mode == PRESENT_MODE_FIFO_RELAXED || info.present_mode
        == PRESENT_MODE_IMMEDIATE || info.present_mode == PRESENT_MODE_MAILBOX)
}

/// The application's usage with both transfer bits, if the surface supports all of it.
pub fn requested_usage(original: u32, supported: u32) -> (r: Option<u32>)
    ensures
        r == (if has_all(supported, enlarged(original)) {
            Some(enlarged(original))
        } else {
            None
        }),
{
    let required = usage_union(
        usage_union(original, USAGE_TRANSFER_SRC),
        USAGE_TRANSFER_DST,
    );
    if usage_contains(supported, required) {
        Some(required)
    } else {
        None
    }
}

/// The usage to ask the format query about, once the surface has been asked for its
/// capabilities; `supported` is `None` where that query failed.
pub fn usage_to_query(info: &SwapchainRequest, supported: Option<u32>) -> (r: Option<u32>)
    ensures
        r == info.queried(supported),
{
    match supported {
        Some(set) => if candidate(info) {
            requested_usage(info.image_usage, set)
        } else {
            None
        },
        None => None,
    }
}

/// A private copy of the request with the enlarged usage, or none where the swapchain has
/// to be created unmodified. Surface usage alone does not promise that the format's images
/// support the combination, so `limits` is the driver's answer for the format with the
/// enlarged usage (`None` where it refused).
pub fn prepare(
    info: &SwapchainRequest,
    supported: Option<u32>,
    limits: Option<FormatLimits>,
) -> (r: Option<SwapchainRequest>)
    ensures
        r is Some == info.admitted(supported, limits) is Some,
        r matches Some(adjusted) ==> {
            &&& info.admitted(supported, limits) == Some(adjusted.image_usage)
            &&& adjusted.same_but_usage(info)
        },
{
    let usage = match usage_to_query(info, supported) {
        Some(usage) => usage,
        None => {
            return None;
        },
    };
    let limits = match limits {
        Some(limits) => limits,
        None => {
            return None;
        },
    };
    if info.width > limits.max_width || info.height > limits.max_height
        || limits.max_array_layers < 1 || !sample_counts_contain(
        limits.sample_counts,
        SAMPLE_COUNT_1,
    ) {
        return None;
    }
    Some(
        SwapchainRequest {
            flags: info.flags,
            chain: info.chain.clone(),
            image_format: info.image_format,
            width: info.width,
            height: info.height,
            image_array_layers: info.image_array_layers,
            image_usage: usage,
            present_mode: info.present_mode,
        },
    )
}

/// An admitted swapchain keeps every usage bit the application asked for, gains both
/// transfer bits, and asks for nothing the surface does not support.
pub proof fn admission_preserves_application_usage(
    info: SwapchainRequest,
    supported: u32,
    limits: Option<FormatLimits>,
)
    requires
        info.admitted(Some(supported), limits) is Some,
    ensures
        has_all(info.admitted(Some(supported), limits)->0, info.image_usage),
        has_all(info.admitted(Some(supported), limits)->0, USAGE_TRANSFER_SRC),
        has_all(info.admitted(Some(supported), limits)->0, USAGE_TRANSFER_DST),
        has_all(supported, info.admitted(Some(supported), limits)->0),
        has_all(supported, info.image_usage),
{
    let usage = info.image_usage;
    assert((usage | 1u32 | 2u32) & usage == usage) by (bit_vector);
    assert((usage | 1u32 | 2u32) & 1u32 == 1u32) by (bit_vector);
    assert((usage | 1u32 | 2u32) & 2u32 == 2u32) by (bit_vector);
    assert(supported & (usage | 1u32 | 2u32) == usage | 1u32 | 2u32 ==> supported & usage == usage)
        by (bit_vector);
}

/// No link hides behind another: a chain is understood exactly when both halves of it are,
/// wherever it is cut.
pub proof fn every_link_is_examined(front: Seq<i32>, back: Seq<i32>)
    ensures
        understood(front + back) == (understood(front) && understood(back)),
{
    let whole = front + back;
    if understood(whole) {
        assert forall|i: int| 0 <= i < front.len() implies !redefines_images(#[trigger] front[i]) by {
            assert(whole[i] == front[i]);
        }
        assert forall|i: int| 0 <= i < back.len() implies !redefines_images(#[trigger] back[i]) by {
            assert(whole[front.len() + i] == back[i]);
        }
    }
}

/// Exactly the plain swapchains are admitted: none that is protected, of a mutable format or
/// split between devices, none whose chain redefines its images, none in stereo, none that
/// shares its images with the presentation engine; none where the surface lacks a usage that
/// the application or the capture needs, or the format can not make images of the extent.
pub proof fn plain_swapchains_are_admitted(info: SwapchainRequest, supported: Option<u32>, limits: Option<FormatLimits>)
    ensures
        info.admitted(supported, limits) is Some <==> {
            &&& info.flags & 1 == 0
            &&& info.flags & 2 == 0
            &&& info.flags & 4 == 0
            &&& forall|i: int|
                0 <= i < info.chain@.len() ==> #[trigger] info.chain@[i]
                    != TYPE_IMAGE_FORMAT_LIST_CREATE_INFO && info.chain@[i]
                    != TYPE_DEVICE_GROUP_SWAPCHAIN_CREATE_INFO && info.chain@[i]
                    != TYPE_SURFACE_FULL_SCREEN_EXCLUSIVE_INFO
            &&& info.image_array_layers == 1
            &&& 0 <= info.present_mode <= 3
            &&& supported matches Some(set)
            &&& set & info.image_usage == info.image_usage
            &&& set & 1 == 1
            &&& set & 2 == 2
            &&& limits matches Some(format)
            &&& info.width <= format.max_width
            &&& info.height <= format.max_height
            &&& format.max_array_layers >= 1
            &&& format.sample_counts & 1 == 1
        },
        info.admitted(supported, limits) matches Some(usage) ==> {
            &&& usage & info.image_usage == info.image_usage
            &&& usage & 3 == 3
            &&& usage & !3u32 & !info.image_usage == 0
        },
{
    let u = info.image_usage;
    let (s, f) = (supported->0, info.flags);
    assert(s & (u | 1u32 | 2u32) == (u | 1u32 | 2u32) <==> (s & u == u && s & 1u32 == 1u32 && s
        & 2u32 == 2u32)) by (bit_vector);
    assert((u | 1u32 | 2u32) & u == u && (u | 1u32 | 2u32) & 3u32 == 3u32 && (u | 1u32 | 2u32)
        & !3u32 & !u == 0) by (bit_vector);
    if info.admitted(supported, limits) is Some {
        assert forall|i: int| 0 <= i < info.chain@.len() implies #[trigger] info.chain@[i]
            != TYPE_IMAGE_FORMAT_LIST_CREATE_INFO && info.chain@[i]
            != TYPE_DEVICE_GROUP_SWAPCHAIN_CREATE_INFO && info.chain@[i]
            != TYPE_SURFACE_FULL_SCREEN_EXCLUSIVE_INFO by {
            assert(!redefines_images(info.chain@[i]));
        }
    }
}

/// The format is asked about exactly the usage that the swapchain would be created with, and
/// only where nothing before speaks against it.
pub proof fn the_query_asks_for_what_is_created(info: SwapchainRequest, supported: Option<u32>, limits: FormatLimits)
    ensures
        info.admitted(supported, Some(limits)) matches Some(usage) ==> info.queried(supported) == Some(
            usage,
        ),
        info.queried(supported) is None ==> info.admitted(supported, Some(limits)) is None,
        info.queried(supported) is Some ==> info.is_candidate() && supported is Some,
{
}

/// An admitted request differs from the application's in its usage alone: flags, chain, format,
/// extent, layers and present mode are the application's own.
pub proof fn only_the_usage_differs(adjusted: SwapchainRequest, info: SwapchainRequest)
    requires
        adjusted.same_but_usage(&info),
    ensures
        adjusted.flags == info.flags,
        adjusted.chain@ == info.chain@,
        adjusted.image_format == info.image_format,
        adjusted.width == info.width,
        adjusted.height == info.height,
        adjusted.image_array_layers == info.image_array_layers,
        adjusted.present_mode == info.present_mode,
{
}

} // verus!
