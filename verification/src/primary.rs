//! Which swapchain drives the shared channel.
//!
//! A process can present several swapchains: the game's window and an overlay, or two
//! windows during a resize. Only one of them may use the channel, or the helper would start
//! over at every change of size and could hand one swapchain another's answer. The largest
//! is taken to be the game.
use vstd::prelude::*;

verus! {

/// The swapchain that holds the channel.
#[derive(Clone, Copy, Debug, PartialEq, Eq, Structural)]
pub struct Primary {
    pub device: u64,
    pub swapchain: u64,
    pub area: u64,
}

/// One swapchain's claim to the channel.
#[derive(Clone, Copy, Debug, PartialEq, Eq, Structural)]
pub struct Claim {
    pub device: u64,
    pub swapchain: u64,
    pub width: u32,
    pub height: u32,
}

impl Claim {
    pub open spec fn area(&self) -> int {
        self.width * self.height
    }

    /// The claimant holds the channel.
    pub open spec fn holds(&self, primary: Option<Primary>) -> bool {
        primary matches Some(p) && p.device == self.device && p.swapchain == self.swapchain
    }

    /// The claim is granted: the claimant holds the channel already, or no one does, or the
    /// holder is smaller.
    pub open spec fn granted(&self, primary: Option<Primary>) -> bool {
        ||| self.holds(primary)
        ||| primary matches Some(p) ==> self.area() > p.area
    }

    /// Who holds the channel after the claim.
    pub open spec fn holder(&self, primary: Option<Primary>) -> Option<Primary> {
        if self.holds(primary) || !self.granted(primary) {
            primary
        } else {
            Some(
                Primary {
                    device: self.device,
                    swapchain: self.swapchain,
                    area: self.area() as u64,
                },
            )
        }
    }
}

proof fn lemma_area(claim: Claim)
    ensures
        0 <= claim.area() <= u64::MAX,
{
    let (w, h) = (claim.width as int, claim.height as int);
    assert(0 <= w * h <= 0xffff_ffff * 0xffff_ffff) by (nonlinear_arith)
        requires
            0 <= w <= 0xffff_ffff,
            0 <= h <= 0xffff_ffff,
    ;
}

/// Claims the channel for a swapchain, and says whether it may use it.
pub fn claim_primary(primary: &mut Option<Primary>, claim: &Claim) -> (r: bool)
    ensures
        r == claim.granted(*old(primary)),
        *final(primary) == claim.holder(*old(primary)),
{
    proof {
        lemma_area(*claim);
    }
    let area: u64 = (claim.width as u64) * (claim.height as u64);
    if let Some(p) = *primary {
        if p.device == claim.device && p.swapchain == claim.swapchain {
            return true;
        }
        if area <= p.area {
            return false;
        }
    }
    *primary = Some(Primary { device: claim.device, swapchain: claim.swapchain, area });
    true
}

/// Gives the channel up if this swapchain holds it.
pub fn release_primary(primary: &mut Option<Primary>, device: u64, swapchain: u64)
    ensures
        *final(primary) == (match *old(primary) {
            Some(p) if p.device == device && p.swapchain == swapchain => None,
            kept => kept,
        }),
{
    if let Some(p) = *primary {
        if p.device == device && p.swapchain == swapchain {
            *primary = None;
        }
    }
}

/// Gives the channel up if a swapchain of this device holds it.
pub fn release_device(primary: &mut Option<Primary>, device: u64)
    ensures
        *final(primary) == (match *old(primary) {
            Some(p) if p.device == device => None,
            kept => kept,
        }),
{
    if let Some(p) = *primary {
        if p.device == device {
            *primary = None;
        }
    }
}

/// Who holds the channel after a run of claims.
pub open spec fn holder_after(claims: Seq<Claim>) -> Option<Primary>
    decreases claims.len(),
{
    if claims.len() == 0 {
        None
    } else {
        claims.last().holder(holder_after(claims.drop_last()))
    }
}

/// A swapchain does not change its size.
pub open spec fn sizes_agree(claims: Seq<Claim>) -> bool {
    forall|i: int, j: int|
        0 <= i < claims.len() && 0 <= j < claims.len() && claims[i].device == claims[j].device
            && claims[i].swapchain == claims[j].swapchain ==> (#[trigger] claims[i]).area() == (
        #[trigger] claims[j]).area()
}

/// Until someone gives it up, the channel is with a largest one of the swapchains that
/// claimed it.
pub proof fn the_largest_claimant_holds_the_channel(claims: Seq<Claim>)
    requires
        claims.len() > 0,
        sizes_agree(claims),
    ensures
        holder_after(claims) matches Some(p) && {
            &&& exists|i: int|
                0 <= i < claims.len() && (#[trigger] claims[i]).holds(holder_after(claims))
                    && claims[i].area() == p.area
            &&& forall|i: int| 0 <= i < claims.len() ==> (#[trigger] claims[i]).area() <= p.area
        },
    decreases claims.len(),
{
    let front = claims.drop_last();
    let last = claims.last();
    lemma_area(last);
    if front.len() == 0 {
        assert(claims[0] == last);
        assert(last.holds(holder_after(claims)));
    } else {
        assert forall|i: int, j: int|
            0 <= i < front.len() && 0 <= j < front.len() && front[i].device == front[j].device
                && front[i].swapchain == front[j].swapchain implies (#[trigger] front[i]).area() == (
        #[trigger] front[j]).area() by {
            assert(claims[i].area() == claims[j].area());
        }
        the_largest_claimant_holds_the_channel(front);
        let before = holder_after(front);
        let k = choose|i: int|
            0 <= i < front.len() && (#[trigger] front[i]).holds(before) && front[i].area()
                == before->0.area;
        assert(claims[k] == front[k]);
        assert(claims[claims.len() - 1] == last);
        assert forall|i: int| 0 <= i < claims.len() implies (#[trigger] claims[i]).area()
            <= holder_after(claims)->0.area by {
            if i < front.len() {
                assert(front[i] == claims[i]);
            }
        }
        if holder_after(claims) == before {
            assert(claims[k].holds(holder_after(claims)));
        } else {
            assert(claims[claims.len() - 1].holds(holder_after(claims)));
        }
    }
}

/// A claim counts pixels: of two swapchains, the one with more of them takes the channel from
/// the other and never the other way round; equal ones leave it where it is.
pub proof fn more_pixels_win(holder: Claim, other: Claim)
    requires
        holder.device != other.device || holder.swapchain != other.swapchain,
    ensures
        ({
            let held = holder.holder(None);
            &&& held == Some(
                Primary {
                    device: holder.device,
                    swapchain: holder.swapchain,
                    area: (holder.width * holder.height) as u64,
                },
            )
            &&& holder.width * holder.height <= u64::MAX
            &&& other.granted(held) <==> other.width * other.height > holder.width * holder.height
            &&& other.granted(held) <==> other.holder(held) == other.holder(None)
            &&& !other.granted(held) ==> other.holder(held) == held
            &&& holder.granted(held) && holder.holder(held) == held
            &&& other.granted(None)
        }),
{
    lemma_area(holder);
    lemma_area(other);
}

} // verus!
