//! The one capture buffer the synchronous paths share, kept from frame to frame and rebuilt
//! when it no longer fits.
use vstd::prelude::*;

use crate::capture_buffer::{CaptureBuffer, Resource};

verus! {

/// A capture buffer and the queue family its command pool belongs to.
#[derive(Clone, Copy, Debug, PartialEq, Eq, Structural)]
pub struct CaptureResources {
    pub queue_family: u32,
    pub buf: CaptureBuffer,
}

/// What [`ensure`] found.
#[derive(Debug)]
pub enum Ensured {
    /// What is there can be used.
    Ready,
    /// Destroy `retired`, in order, then build a buffer and [`install`] it.
    Build { retired: Vec<Resource> },
}

impl CaptureResources {
    /// Usable for `bytes` on this queue family.
    pub open spec fn fits(&self, queue_family: u32, bytes: u64) -> bool {
        self.queue_family == queue_family && self.buf.capacity >= bytes
    }
}

/// What stands behind an optional bundle, in the order it is destroyed.
pub open spec fn destruction_of(resources: Option<CaptureResources>) -> Seq<Resource> {
    match resources {
        Some(r) => r.buf.destruction(),
        None => seq![],
    }
}

/// Keeps what is there if the family is the same and there is room for `bytes`; otherwise
/// gives it up and asks for a new one. Called between frames, when nothing that was
/// submitted against the old buffer can still be running.
pub fn ensure(existing: &mut Option<CaptureResources>, queue_family: u32, bytes: u64) -> (r: Ensured)
    ensures
        match *old(existing) {
            Some(kept) if kept.fits(queue_family, bytes) => r is Ready && *final(existing) == *old(
                existing,
            ),
            _ => {
                &&& *final(existing) is None
                &&& r matches Ensured::Build { retired }
                &&& retired@ == destruction_of(*old(existing))
            },
        },
{
    if let Some(kept) = *existing {
        if kept.queue_family == queue_family && kept.buf.capacity >= bytes {
            return Ensured::Ready;
        }
        *existing = None;
        return Ensured::Build { retired: kept.buf.destroy() };
    }
    Ensured::Build { retired: Vec::new() }
}

/// Takes over a freshly built buffer, if there is one, and says whether there was. A frame
/// without a buffer is presented unmodified; the next one tries again.
pub fn install(existing: &mut Option<CaptureResources>, queue_family: u32, built: Option<CaptureBuffer>) -> (r: bool)
    requires
        *old(existing) is None,
    ensures
        r == (built is Some),
        *final(existing) == (match built {
            Some(buf) => Some(CaptureResources { queue_family, buf }),
            None => None,
        }),
{
    match built {
        Some(buf) => {
            *existing = Some(CaptureResources { queue_family, buf });
            true
        },
        None => false,
    }
}

/// What to destroy when the device goes away, in order.
pub fn destroy(resources: Option<CaptureResources>) -> (r: Vec<Resource>)
    ensures
        r@ == destruction_of(resources),
{
    match resources {
        Some(r) => r.buf.destroy(),
        None => Vec::new(),
    }
}

/// A buffer serves its own queue family, up to its capacity: no other family, nothing larger,
/// and everything smaller.
pub proof fn buffers_serve_their_family_and_size(kept: CaptureResources, queue_family: u32, bytes: u64, smaller: u64)
    requires
        smaller <= bytes,
    ensures
        kept.fits(kept.queue_family, kept.buf.capacity),
        kept.fits(queue_family, bytes) ==> queue_family == kept.queue_family && bytes
            <= kept.buf.capacity && kept.fits(queue_family, smaller),
        bytes <= kept.buf.capacity ==> kept.fits(kept.queue_family, bytes),
{
}

/// What is given up is destroyed whole: all four objects of the buffer, and its pool only
/// after what was made in it.
pub proof fn retired_buffers_are_destroyed_whole(kept: CaptureResources)
    ensures
        destruction_of(Some(kept)).len() == 4,
        destruction_of(Some(kept)).contains(Resource::Fence(kept.buf.fence)),
        destruction_of(Some(kept)).contains(Resource::Buffer(kept.buf.buffer)),
        destruction_of(Some(kept)).contains(Resource::Memory(kept.buf.memory)),
        destruction_of(Some(kept)).last() == Resource::Pool(kept.buf.pool),
        destruction_of(None).len() == 0,
{
    let order = destruction_of(Some(kept));
    assert(order[0] == Resource::Fence(kept.buf.fence) && order[1] == Resource::Buffer(
        kept.buf.buffer,
    ) && order[2] == Resource::Memory(kept.buf.memory));
}

} // verus!
