//! What the layer knows of one device: its swapchains, its queues, and the render targets
//! the game copies into swapchain images.
//!
//! A swapchain that could not be admitted at creation may still be captured at its source,
//! the "tap": the image the game copies or blits from. Vulkan lets a driver reuse the
//! handle of a destroyed image, so a tap is forgotten as soon as nothing refers to it.
use std::collections::{HashMap, HashSet};

use vstd::prelude::*;

verus! {

broadcast use vstd::std_specs::hash::group_hash_axioms;

/// A swapchain and its images, in index order.
#[derive(Debug)]
pub struct SwapchainState {
    pub format: i32,
    pub width: u32,
    pub height: u32,
    pub hdr_kind: i32,
    /// Created unmodified: its images can not be captured or written.
    pub pass_through: bool,
    pub images: Vec<u64>,
}

/// The layer's bookkeeping for one device.
#[derive(Debug)]
pub struct State {
    pub swapchains: HashMap<u64, SwapchainState>,
    /// Which queue family a queue belongs to.
    pub queue_families: HashMap<u64, u32>,
    /// Swapchain images that the game was seen to write by a transfer.
    pub observed_swapchain_writes: HashSet<u64>,
    /// The layout of each tap.
    pub tapped_source_layouts: HashMap<u64, i32>,
    /// The tap of each swapchain image that has one.
    pub tap_sources_by_destination: HashMap<u64, u64>,
}

/// Some destination has this tap.
pub open spec fn is_tapped(taps: Map<u64, u64>, source: u64) -> bool {
    exists|d: u64| #[trigger] taps.dom().contains(d) && taps[d] == source
}

/// Some swapchain has this image.
pub open spec fn is_swapchain_image(swapchains: Map<u64, SwapchainState>, image: u64) -> bool {
    exists|s: u64| #[trigger]
        swapchains.dom().contains(s) && swapchains[s].images@.contains(image)
}

/// Whether some destination has this tap.
fn tapped(taps: &HashMap<u64, u64>, source: u64) -> (r: bool)
    ensures
        r == is_tapped(taps@, source),
{
    for value in it: taps.values()
        invariant
            forall|i: int| 0 <= i < it.index() ==> *(#[trigger] it.seq()[i]) != source,
            it.seq().unref().to_set() == taps@.values(),
    {
        if *value == source {
            proof {
                assert(it.seq().unref()[it.index()] == source);
                assert(it.seq().unref().to_set().contains(source));
            }
            return true;
        }
    }
    proof {
        assert forall|d: u64| #[trigger] taps@.dom().contains(d) implies taps@[d] != source by {
            assert(taps@.values().contains(taps@[d]));
        }
    }
    false
}

fn lists(images: &Vec<u64>, image: u64) -> (r: bool)
    ensures
        r == images@.contains(image),
{
    let mut i: usize = 0;
    while i < images.len()
        invariant
            i <= images@.len(),
            forall|k: int| 0 <= k < i ==> images@[k] != image,
        decreases images@.len() - i,
    {
        if images[i] == image {
            return true;
        }
        i += 1;
    }
    false
}

/// Whether some swapchain has this image.
fn known_image(swapchains: &HashMap<u64, SwapchainState>, image: u64) -> (r: bool)
    ensures
        r == is_swapchain_image(swapchains@, image),
{
    for swapchain in it: swapchains.values()
        invariant
            forall|i: int|
                0 <= i < it.index() ==> !(#[trigger] it.seq()[i]).images@.contains(image),
            it.seq().unref().to_set() == swapchains@.values(),
    {
        if lists(&swapchain.images, image) {
            proof {
                assert(it.seq().unref()[it.index()] == *swapchain);
                assert(it.seq().unref().to_set().contains(*swapchain));
            }
            return true;
        }
    }
    proof {
        assert forall|s: u64| #[trigger]
            swapchains@.dom().contains(s) implies !swapchains@[s].images@.contains(image) by {
            assert(swapchains@.values().contains(swapchains@[s]));
        }
    }
    false
}

/// Takes every destination with this tap out.
fn drop_destinations(taps: &mut HashMap<u64, u64>, source: u64)
    ensures
        final(taps)@ == old(taps)@.remove_keys(
            Set::new(|d: u64| old(taps)@.dom().contains(d) && old(taps)@[d] == source),
        ),
{
    let mut doomed: Vec<u64> = Vec::new();
    for destination in it: taps.keys()
        invariant
            it.seq().unref().to_set() == taps@.dom(),
            forall|i: int|
                0 <= i < it.index() && taps@[*(#[trigger] it.seq()[i])] == source
                    ==> doomed@.contains(*it.seq()[i]),
            forall|i: int|
                0 <= i < doomed@.len() ==> taps@.dom().contains(#[trigger] doomed@[i])
                    && taps@[doomed@[i]] == source,
    {
        proof {
            assert(it.seq().unref()[it.index()] == *destination);
            assert(it.seq().unref().to_set().contains(*destination));
        }
        let ghost before = doomed@;
        if let Some(value) = taps.get(destination) {
            if *value == source {
                doomed.push(*destination);
                proof {
                    assert(doomed@[before.len() as int] == *destination);
                    assert forall|d: u64| before.contains(d) implies doomed@.contains(d) by {
                        let k = before.index_of(d);
                        assert(doomed@[k] == d);
                    }
                }
            }
        }
    }
    let ghost all = taps@;
    let mut i: usize = 0;
    while i < doomed.len()
        invariant
            i <= doomed@.len(),
            forall|d: u64| #[trigger]
                taps@.dom().contains(d) <==> all.dom().contains(d) && !(exists|k: int|
                    0 <= k < i && #[trigger] doomed@[k] == d),
            forall|d: u64| #[trigger] taps@.dom().contains(d) ==> taps@[d] == all[d],
        decreases doomed@.len() - i,
    {
        taps.remove(&doomed[i]);
        i += 1;
    }
    proof {
        assert(taps@ =~= all.remove_keys(
            Set::new(|d: u64| all.dom().contains(d) && all[d] == source),
        ));
    }
}

/// The contents of [`State`].
#[verifier::ext_equal]
pub struct StateView {
    pub swapchains: Map<u64, SwapchainState>,
    pub queue_families: Map<u64, u32>,
    pub observed: Set<u64>,
    pub layouts: Map<u64, i32>,
    pub taps: Map<u64, u64>,
}

/// A layout change that the game recorded for one image.
#[derive(Clone, Copy, Debug, PartialEq, Eq, Structural)]
pub struct LayoutChange {
    pub image: u64,
    pub new_layout: i32,
}

/// The layouts of the taps after a run of layout changes; images that are no taps are
/// ignored.
pub open spec fn followed(layouts: Map<u64, i32>, changes: Seq<LayoutChange>) -> Map<u64, i32>
    decreases changes.len(),
{
    if changes.len() == 0 {
        layouts
    } else {
        let before = followed(layouts, changes.drop_last());
        let change = changes.last();
        if before.dom().contains(change.image) {
            before.insert(change.image, change.new_layout)
        } else {
            before
        }
    }
}

/// The taps of other destinations than these.
pub open spec fn taps_without(taps: Map<u64, u64>, destinations: Seq<u64>) -> Map<u64, u64> {
    taps.remove_keys(Set::new(|d: u64| destinations.contains(d)))
}

/// The source is the tap of one of these destinations.
pub open spec fn taps_into(taps: Map<u64, u64>, destinations: Seq<u64>, source: u64) -> bool {
    exists|d: u64| #[trigger]
        taps.dom().contains(d) && destinations.contains(d) && taps[d] == source
}

impl View for State {
    type V = StateView;

    open spec fn view(&self) -> StateView {
        StateView {
            swapchains: self.swapchains@,
            queue_families: self.queue_families@,
            observed: self.observed_swapchain_writes@,
            layouts: self.tapped_source_layouts@,
            taps: self.tap_sources_by_destination@,
        }
    }
}

impl StateView {
    pub open spec fn empty() -> StateView {
        StateView {
            swapchains: Map::empty(),
            queue_families: Map::empty(),
            observed: Set::empty(),
            layouts: Map::empty(),
            taps: Map::empty(),
        }
    }

    /// A layout is known for exactly the images that some destination has as its tap.
    pub open spec fn consistent(self) -> bool {
        forall|s: u64| #[trigger] self.layouts.dom().contains(s) <==> is_tapped(self.taps, s)
    }

    /// A source that nothing refers to any more is forgotten.
    pub open spec fn pruned(self, source: u64) -> StateView {
        if is_tapped(self.taps, source) {
            self
        } else {
            StateView { layouts: self.layouts.remove(source), ..self }
        }
    }

    /// The game was seen to copy `source` into `destination`.
    pub open spec fn with_tap(self, source: u64, layout: i32, destination: u64) -> StateView {
        let tapping = StateView {
            observed: self.observed.insert(destination),
            layouts: self.layouts.insert(source, layout),
            taps: self.taps.insert(destination, source),
            ..self
        };
        if self.taps.dom().contains(destination) && self.taps[destination] != source {
            tapping.pruned(self.taps[destination])
        } else {
            tapping
        }
    }

    /// Without these swapchain images: what was observed of them is forgotten, and so are
    /// the sources that only they had as their tap.
    pub open spec fn without_destinations(self, images: Seq<u64>) -> StateView {
        let taps = taps_without(self.taps, images);
        StateView {
            observed: self.observed.difference(Set::new(|d: u64| images.contains(d))),
            taps,
            layouts: self.layouts.remove_keys(
                Set::new(|s: u64| taps_into(self.taps, images, s) && !is_tapped(taps, s)),
            ),
            ..self
        }
    }

    /// Without this swapchain and all that is known through its images.
    pub open spec fn without_swapchain(self, swapchain: u64) -> StateView {
        if self.swapchains.dom().contains(swapchain) {
            let images = self.swapchains[swapchain].images@;
            StateView {
                swapchains: self.swapchains.remove(swapchain),
                ..self.without_destinations(images)
            }
        } else {
            self
        }
    }

    /// Without this image as a tap, in any destination.
    pub open spec fn without_source(self, image: u64) -> StateView {
        if self.layouts.dom().contains(image) {
            StateView {
                layouts: self.layouts.remove(image),
                taps: self.taps.remove_keys(
                    Set::new(|d: u64| self.taps.dom().contains(d) && self.taps[d] == image),
                ),
                ..self
            }
        } else {
            self
        }
    }
}

impl Default for State {
    fn default() -> (r: Self)
        ensures
            r@ == StateView::empty(),
            r@.consistent(),
            r@.bounded(),
    {
        State {
            swapchains: HashMap::new(),
            queue_families: HashMap::new(),
            observed_swapchain_writes: HashSet::new(),
            tapped_source_layouts: HashMap::new(),
            tap_sources_by_destination: HashMap::new(),
        }
    }
}

/// Forgets `source`'s layout once no destination has it as its tap.
pub fn prune_orphaned_tap_source(state: &mut State, source: u64)
    ensures
        final(state)@ == old(state)@.pruned(source),
{
    if !tapped(&state.tap_sources_by_destination, source) {
        state.tapped_source_layouts.remove(&source);
    }
}

/// Notes a transfer that the game recorded, if it goes into a swapchain image, and says
/// whether it is the first one into that image. The command itself is always forwarded.
pub fn observe_swapchain_write(state: &mut State, src: u64, src_layout: i32, dst: u64) -> (r: bool)
    ensures
        final(state)@ == (if is_swapchain_image(old(state)@.swapchains, dst) {
            old(state)@.with_tap(src, src_layout, dst)
        } else {
            old(state)@
        }),
        r == (is_swapchain_image(old(state)@.swapchains, dst) && !old(state)@.observed.contains(
            dst,
        )),
{
    if !known_image(&state.swapchains, dst) {
        return false;
    }
    let first = state.observed_swapchain_writes.insert(dst);
    state.tapped_source_layouts.insert(src, src_layout);
    if let Some(previous) = state.tap_sources_by_destination.insert(dst, src) {
        if previous != src {
            prune_orphaned_tap_source(state, previous);
        }
    }
    first
}

/// Follows the layouts of the taps through barriers that the game recorded, in order.
pub fn track_layouts(state: &mut State, changes: &Vec<LayoutChange>)
    ensures
        final(state)@ == (StateView {
            layouts: followed(old(state)@.layouts, changes@),
            ..old(state)@
        }),
{
    let ghost before = state@;
    let mut i: usize = 0;
    while i < changes.len()
        invariant
            i <= changes@.len(),
            state@ == (StateView {
                layouts: followed(before.layouts, changes@.take(i as int)),
                ..before
            }),
        decreases changes@.len() - i,
    {
        let change = changes[i];
        proof {
            assert(changes@.take(i + 1).drop_last() =~= changes@.take(i as int));
        }
        if state.tapped_source_layouts.contains_key(&change.image) {
            state.tapped_source_layouts.insert(change.image, change.new_layout);
        }
        i += 1;
    }
    proof {
        assert(changes@.take(changes@.len() as int) =~= changes@);
    }
}

/// Forgets a swapchain that is about to be destroyed, and hands back its images.
pub fn forget_swapchain(state: &mut State, swapchain: u64) -> (r: Option<Vec<u64>>)
    ensures
        final(state)@ == old(state)@.without_swapchain(swapchain),
        r is Some == old(state)@.swapchains.dom().contains(swapchain),
        r matches Some(images) ==> images@ == old(state)@.swapchains[swapchain].images@,
{
    let gone = match state.swapchains.remove(&swapchain) {
        Some(gone) => gone,
        None => return None,
    };
    let ghost before = state@;
    let images = gone.images;
    let mut i: usize = 0;
    while i < images.len()
        invariant
            i <= images@.len(),
            state@ == before.without_destinations(images@.take(i as int)),
        decreases images@.len() - i,
    {
        let image = images[i];
        let ghost was = state@;
        state.observed_swapchain_writes.remove(&image);
        if let Some(source) = state.tap_sources_by_destination.remove(&image) {
            prune_orphaned_tap_source(state, source);
        }
        proof {
            lemma_one_more_destination(before, was, images@, i as int, state@);
        }
        i += 1;
    }
    proof {
        assert(images@.take(images@.len() as int) =~= images@);
    }
    Some(images)
}

/// The game destroys an image: if it is a tap, it is forgotten everywhere, so that a later
/// image with the same handle is not taken for it.
pub fn forget_image(state: &mut State, image: u64)
    ensures
        final(state)@ == old(state)@.without_source(image),
{
    if state.tapped_source_layouts.remove(&image).is_some() {
        drop_destinations(&mut state.tap_sources_by_destination, image);
    }
}

proof fn lemma_take_contains(images: Seq<u64>, i: int)
    requires
        0 <= i < images.len(),
    ensures
        forall|d: u64| #[trigger]
            images.take(i + 1).contains(d) <==> images.take(i).contains(d) || d == images[i],
{
    let shorter = images.take(i);
    let longer = images.take(i + 1);
    assert forall|d: u64| #[trigger] longer.contains(d) <==> shorter.contains(d) || d
        == images[i] by {
        if shorter.contains(d) {
            let k = shorter.index_of(d);
            assert(longer[k] == d);
        }
        if longer.contains(d) {
            let k = longer.index_of(d);
            if k < i {
                assert(shorter[k] == d);
            }
        }
        assert(longer[i] == images[i]);
    }
}

proof fn lemma_one_more_destination(
    before: StateView,
    was: StateView,
    images: Seq<u64>,
    i: int,
    now: StateView,
)
    requires
        0 <= i < images.len(),
        was == before.without_destinations(images.take(i)),
        now == ({
            let dropped = StateView {
                observed: was.observed.remove(images[i]),
                taps: was.taps.remove(images[i]),
                ..was
            };
            if was.taps.dom().contains(images[i]) {
                dropped.pruned(was.taps[images[i]])
            } else {
                dropped
            }
        }),
    ensures
        now == before.without_destinations(images.take(i + 1)),
{
    lemma_take_contains(images, i);
    let image = images[i];
    let shorter = images.take(i);
    let longer = images.take(i + 1);
    let goal = before.without_destinations(longer);
    assert(now.observed =~= goal.observed);
    assert(now.taps =~= goal.taps);
    assert forall|s: u64| now.layouts.dom().contains(s) <==> goal.layouts.dom().contains(s) by {
        if is_tapped(now.taps, s) {
            let d = choose|d: u64| #[trigger] now.taps.dom().contains(d) && now.taps[d] == s;
            assert(was.taps.dom().contains(d) && was.taps[d] == s);
        }
        if is_tapped(was.taps, s) && !is_tapped(now.taps, s) {
            let d = choose|d: u64| #[trigger] was.taps.dom().contains(d) && was.taps[d] == s;
            assert(d == image) by {
                if d != image {
                    assert(now.taps.dom().contains(d) && now.taps[d] == s);
                }
            }
        }
        if taps_into(before.taps, longer, s) && !taps_into(before.taps, shorter, s) {
            let d = choose|d: u64| #[trigger]
                before.taps.dom().contains(d) && longer.contains(d) && before.taps[d] == s;
            assert(d == image);
            assert(!shorter.contains(d));
            assert(was.taps.dom().contains(d));
        }
        if taps_into(before.taps, shorter, s) {
            let d = choose|d: u64| #[trigger]
                before.taps.dom().contains(d) && shorter.contains(d) && before.taps[d] == s;
            assert(longer.contains(d));
        }
        if was.taps.dom().contains(image) && was.taps[image] == s {
            assert(before.taps.dom().contains(image) && longer.contains(image)
                && before.taps[image] == s);
        }
    }
    assert(now.layouts =~= goal.layouts);
}

impl StateView {
    /// Every image that has a tap, or was seen to be written, belongs to a swapchain that is
    /// still there.
    pub open spec fn bounded(self) -> bool {
        &&& forall|d: u64| #[trigger]
            self.taps.dom().contains(d) ==> is_swapchain_image(self.swapchains, d)
        &&& forall|d: u64| #[trigger]
            self.observed.contains(d) ==> is_swapchain_image(self.swapchains, d)
    }
}

/// Whatever happens, a layout is known for exactly the images that are taps: a new swapchain,
/// a transfer into any image, a barrier, the end of a swapchain, of an image and of the device
/// all keep it so.
pub proof fn bookkeeping_stays_consistent(
    state: StateView,
    handle: u64,
    swapchain: SwapchainState,
    source: u64,
    layout: i32,
    destination: u64,
    changes: Seq<LayoutChange>,
)
    requires
        state.consistent(),
    ensures
        (StateView { swapchains: state.swapchains.insert(handle, swapchain), ..state }).consistent(),
        state.with_tap(source, layout, destination).consistent(),
        (StateView { layouts: followed(state.layouts, changes), ..state }).consistent(),
        state.without_swapchain(handle).consistent(),
        state.without_source(source).consistent(),
        (StateView { swapchains: Map::empty(), ..state }).consistent(),
{
    lemma_tap_consistent(state, source, layout, destination);
    lemma_followed_domain(state.layouts, changes);
    lemma_destroyed_consistent(state, handle);
    lemma_source_consistent(state, source);
}

/// Only images of living swapchains have taps or are remembered as written: a swapchain under
/// a new handle, a transfer into a swapchain image, a barrier, the end of a swapchain and the
/// end of an image all keep it so.
pub proof fn only_living_swapchains_are_followed(
    state: StateView,
    handle: u64,
    swapchain: SwapchainState,
    source: u64,
    layout: i32,
    destination: u64,
    changes: Seq<LayoutChange>,
)
    requires
        state.bounded(),
    ensures
        !state.swapchains.dom().contains(handle) ==> (StateView {
            swapchains: state.swapchains.insert(handle, swapchain),
            ..state
        }).bounded(),
        is_swapchain_image(state.swapchains, destination) ==> state.with_tap(
            source,
            layout,
            destination,
        ).bounded(),
        (StateView { layouts: followed(state.layouts, changes), ..state }).bounded(),
        state.without_swapchain(handle).bounded(),
        state.without_source(source).bounded(),
{
    let created = StateView { swapchains: state.swapchains.insert(handle, swapchain), ..state };
    if !state.swapchains.dom().contains(handle) {
        assert forall|d: u64| is_swapchain_image(state.swapchains, d) implies is_swapchain_image(
            created.swapchains,
            d,
        ) by {
            let s = choose|s: u64| #[trigger]
                state.swapchains.dom().contains(s) && state.swapchains[s].images@.contains(d);
            assert(created.swapchains.dom().contains(s));
        }
    }
    if state.swapchains.dom().contains(handle) {
        let images = state.swapchains[handle].images@;
        let now = state.without_swapchain(handle);
        assert forall|d: u64|
            is_swapchain_image(state.swapchains, d) && !images.contains(d) implies is_swapchain_image(
            now.swapchains,
            d,
        ) by {
            let s = choose|s: u64| #[trigger]
                state.swapchains.dom().contains(s) && state.swapchains[s].images@.contains(d);
            assert(now.swapchains.dom().contains(s));
        }
    }
}

/// So nothing stays behind for the life of the process: once its last swapchain is gone, the
/// bookkeeping of taps is empty.
pub proof fn nothing_outlives_the_swapchains(state: StateView)
    requires
        state.consistent(),
        state.bounded(),
        state.swapchains == Map::<u64, SwapchainState>::empty(),
    ensures
        state.taps == Map::<u64, u64>::empty(),
        state.layouts == Map::<u64, i32>::empty(),
        state.observed == Set::<u64>::empty(),
{
    assert forall|s: u64| !state.layouts.dom().contains(s) by {
        if is_tapped(state.taps, s) {
            let d = choose|d: u64| #[trigger] state.taps.dom().contains(d) && state.taps[d] == s;
            assert(is_swapchain_image(state.swapchains, d));
        }
    }
    assert(state.taps =~= Map::empty());
    assert(state.layouts =~= Map::empty());
    assert(state.observed =~= Set::empty());
}

proof fn lemma_tap_consistent(state: StateView, source: u64, layout: i32, destination: u64)
    requires
        state.consistent(),
    ensures
        state.with_tap(source, layout, destination).consistent(),
{
    let now = state.with_tap(source, layout, destination);
    assert forall|s: u64| #[trigger] now.layouts.dom().contains(s) <==> is_tapped(now.taps, s) by {
        assert(now.taps.dom().contains(destination) && now.taps[destination] == source);
        if is_tapped(now.taps, s) && s != source {
            let d = choose|d: u64| #[trigger] now.taps.dom().contains(d) && now.taps[d] == s;
            assert(state.taps.dom().contains(d) && state.taps[d] == s);
            assert(state.layouts.dom().contains(s));
        }
        if state.layouts.dom().contains(s) {
            let d = choose|d: u64| #[trigger] state.taps.dom().contains(d) && state.taps[d] == s;
            if d != destination {
                assert(now.taps.dom().contains(d) && now.taps[d] == s);
            }
        }
    }
}

proof fn lemma_followed_domain(layouts: Map<u64, i32>, changes: Seq<LayoutChange>)
    ensures
        followed(layouts, changes).dom() == layouts.dom(),
    decreases changes.len(),
{
    if changes.len() > 0 {
        lemma_followed_domain(layouts, changes.drop_last());
        assert(followed(layouts, changes).dom() =~= layouts.dom());
    }
}

proof fn lemma_destroyed_consistent(state: StateView, handle: u64)
    requires
        state.consistent(),
    ensures
        state.without_swapchain(handle).consistent(),
{
    if state.swapchains.dom().contains(handle) {
        let images = state.swapchains[handle].images@;
        let now = state.without_swapchain(handle);
        assert forall|s: u64| #[trigger] now.layouts.dom().contains(s) <==> is_tapped(
            now.taps,
            s,
        ) by {
            if is_tapped(now.taps, s) {
                let d = choose|d: u64| #[trigger] now.taps.dom().contains(d) && now.taps[d] == s;
                assert(state.taps.dom().contains(d) && state.taps[d] == s);
                assert(state.layouts.dom().contains(s));
            } else if state.layouts.dom().contains(s) {
                let d = choose|d: u64| #[trigger]
                    state.taps.dom().contains(d) && state.taps[d] == s;
                if !images.contains(d) {
                    assert(now.taps.dom().contains(d) && now.taps[d] == s);
                }
                assert(taps_into(state.taps, images, s));
            }
        }
    }
}

proof fn lemma_source_consistent(state: StateView, image: u64)
    requires
        state.consistent(),
    ensures
        state.without_source(image).consistent(),
{
    let now = state.without_source(image);
    assert forall|s: u64| #[trigger] now.layouts.dom().contains(s) <==> is_tapped(now.taps, s) by {
        if is_tapped(now.taps, s) {
            let d = choose|d: u64| #[trigger] now.taps.dom().contains(d) && now.taps[d] == s;
            assert(state.taps.dom().contains(d) && state.taps[d] == s);
            assert(state.layouts.dom().contains(s));
        }
        if state.layouts.dom().contains(s) && s != image {
            let d = choose|d: u64| #[trigger] state.taps.dom().contains(d) && state.taps[d] == s;
            assert(now.taps.dom().contains(d) && now.taps[d] == s);
        }
    }
}

/// A destroyed image is a tap no more: no layout is known for it, and no destination has it
/// as its tap. A later image with the same handle starts out unknown.
pub proof fn destroyed_images_are_forgotten(state: StateView, image: u64)
    requires
        state.consistent(),
    ensures
        !state.without_source(image).layouts.dom().contains(image),
        !is_tapped(state.without_source(image).taps, image),
{
    assert(state.layouts.dom().contains(image) <==> is_tapped(state.taps, image));
}

/// A destroyed swapchain's images are destinations no more, and a source that other
/// swapchain images still have as their tap stays known.
pub proof fn destroyed_swapchains_are_forgotten(state: StateView, swapchain: u64, source: u64)
    requires
        state.swapchains.dom().contains(swapchain),
        state.layouts.dom().contains(source),
    ensures
        forall|d: u64|
            state.swapchains[swapchain].images@.contains(d) ==> !(#[trigger] state.without_swapchain(
                swapchain,
            ).taps.dom().contains(d)),
        is_tapped(state.without_swapchain(swapchain).taps, source)
            ==> state.without_swapchain(swapchain).layouts.dom().contains(source)
            && state.without_swapchain(swapchain).layouts[source] == state.layouts[source],
{
}

/// A transfer is remembered as the game recorded it: the destination's tap is the source, in
/// the layout it was copied from. No other destination is touched, and a source that another
/// destination still has as its tap keeps its layout.
pub proof fn transfers_are_remembered(state: StateView, source: u64, layout: i32, destination: u64)
    ensures
        ({
            let now = state.with_tap(source, layout, destination);
            &&& now.taps.dom().contains(destination)
            &&& now.taps[destination] == source
            &&& now.layouts.dom().contains(source)
            &&& now.layouts[source] == layout
            &&& now.observed.contains(destination)
            &&& forall|d: u64|
                d != destination ==> (#[trigger] now.taps.dom().contains(d)
                    <==> state.taps.dom().contains(d)) && (state.taps.dom().contains(d)
                    ==> now.taps[d] == state.taps[d])
            &&& forall|d: u64|
                d != destination ==> (#[trigger] now.observed.contains(d)
                    <==> state.observed.contains(d))
            &&& forall|s: u64|
                s != source && state.layouts.dom().contains(s) && is_tapped(now.taps, s)
                    ==> #[trigger] now.layouts.dom().contains(s) && now.layouts[s]
                    == state.layouts[s]
            &&& now.swapchains == state.swapchains
            &&& now.queue_families == state.queue_families
        }),
{
    let now = state.with_tap(source, layout, destination);
    if state.taps.dom().contains(destination) && state.taps[destination] != source {
        let tapping = state.taps.insert(destination, source);
        assert(tapping.dom().contains(destination) && tapping[destination] == source);
    }
}

/// Change number `j` is the last one of this image.
pub open spec fn last_change(changes: Seq<LayoutChange>, image: u64, j: int) -> bool {
    &&& 0 <= j < changes.len()
    &&& changes[j].image == image
    &&& forall|k: int| j < k < changes.len() ==> (#[trigger] changes[k]).image != image
}

/// A tap is in the layout that its last barrier put it in, or in the one it was in if it has
/// none; images that are no taps stay unknown.
pub proof fn layouts_follow_the_last_barrier(layouts: Map<u64, i32>, changes: Seq<LayoutChange>, image: u64, j: int)
    ensures
        followed(layouts, changes).dom() == layouts.dom(),
        layouts.dom().contains(image) && last_change(changes, image, j) ==> followed(
            layouts,
            changes,
        )[image] == changes[j].new_layout,
        layouts.dom().contains(image) && (forall|k: int|
            0 <= k < changes.len() ==> (#[trigger] changes[k]).image != image) ==> followed(
            layouts,
            changes,
        )[image] == layouts[image],
    decreases changes.len(),
{
    lemma_followed_domain(layouts, changes);
    if changes.len() > 0 {
        let front = changes.drop_last();
        layouts_follow_the_last_barrier(layouts, front, image, j);
        lemma_followed_domain(layouts, front);
        assert(changes.last() == changes[changes.len() - 1]);
        if j < front.len() && last_change(changes, image, j) {
            assert forall|k: int| j < k < front.len() implies (#[trigger] front[k]).image
                != image by {
                assert(front[k] == changes[k]);
            }
            assert(last_change(front, image, j));
            assert(changes[changes.len() - 1].image != image);
        }
        if forall|k: int| 0 <= k < changes.len() ==> (#[trigger] changes[k]).image != image {
            assert forall|k: int| 0 <= k < front.len() implies (#[trigger] front[k]).image
                != image by {
                assert(front[k] == changes[k]);
            }
        }
    }
}

/// The end of a swapchain touches nothing but what was known through its own images: other
/// swapchains, their images' taps and the layouts of these stay as they were.
pub proof fn other_swapchains_are_left_alone(state: StateView, swapchain: u64)
    ensures
        ({
            let now = state.without_swapchain(swapchain);
            &&& !now.swapchains.dom().contains(swapchain)
            &&& forall|s: u64|
                s != swapchain ==> (#[trigger] now.swapchains.dom().contains(s)
                    <==> state.swapchains.dom().contains(s)) && (state.swapchains.dom().contains(s)
                    ==> now.swapchains[s] == state.swapchains[s])
            &&& now.queue_families == state.queue_families
            &&& state.swapchains.dom().contains(swapchain) ==> {
                let images = state.swapchains[swapchain].images@;
                &&& forall|d: u64|
                    #![trigger now.taps.dom().contains(d)]
                    #![trigger now.observed.contains(d)]
                    images.contains(d) ==> !now.taps.dom().contains(d) && !now.observed.contains(d)
                &&& forall|d: u64|
                    #![trigger now.taps.dom().contains(d)]
                    #![trigger now.observed.contains(d)]
                    !images.contains(d) ==> (now.taps.dom().contains(d)
                        <==> state.taps.dom().contains(d)) && (state.taps.dom().contains(d)
                        ==> now.taps[d] == state.taps[d]) && (now.observed.contains(d)
                        <==> state.observed.contains(d))
            }
            &&& forall|s: u64| #[trigger]
                now.layouts.dom().contains(s) ==> state.layouts.dom().contains(s) && now.layouts[s]
                    == state.layouts[s]
        }),
{
}

/// The end of an image touches nothing but what was known of it as a tap.
pub proof fn other_images_are_left_alone(state: StateView, image: u64)
    requires
        state.consistent(),
    ensures
        ({
            let now = state.without_source(image);
            &&& forall|d: u64| #[trigger]
                now.taps.dom().contains(d) <==> state.taps.dom().contains(d) && state.taps[d]
                    != image
            &&& forall|d: u64| #[trigger]
                now.taps.dom().contains(d) ==> now.taps[d] == state.taps[d]
            &&& forall|s: u64| #[trigger]
                now.layouts.dom().contains(s) <==> state.layouts.dom().contains(s) && s != image
            &&& forall|s: u64| #[trigger]
                now.layouts.dom().contains(s) ==> now.layouts[s] == state.layouts[s]
            &&& now.swapchains == state.swapchains
            &&& now.queue_families == state.queue_families
            &&& now.observed == state.observed
        }),
{
    let now = state.without_source(image);
    assert forall|d: u64| #[trigger] now.taps.dom().contains(d) <==> state.taps.dom().contains(d)
        && state.taps[d] != image by {
        if state.taps.dom().contains(d) && state.taps[d] == image {
            assert(is_tapped(state.taps, image));
            assert(state.layouts.dom().contains(image));
        }
    }
}

/// Every image of every swapchain that is there counts as one of them, and no other does.
pub proof fn every_swapchain_image_is_known(swapchains: Map<u64, SwapchainState>, handle: u64, i: int, image: u64)
    ensures
        swapchains.dom().contains(handle) && 0 <= i < swapchains[handle].images@.len()
            ==> is_swapchain_image(swapchains, swapchains[handle].images@[i]),
        is_swapchain_image(swapchains, image) ==> exists|s: u64, k: int|
            swapchains.dom().contains(s) && 0 <= k < swapchains[s].images@.len()
                && #[trigger] swapchains[s].images@[k] == image,
{
    if swapchains.dom().contains(handle) && 0 <= i < swapchains[handle].images@.len() {
        assert(swapchains[handle].images@.contains(swapchains[handle].images@[i]));
    }
    if is_swapchain_image(swapchains, image) {
        let s = choose|s: u64| #[trigger]
            swapchains.dom().contains(s) && swapchains[s].images@.contains(image);
        let k = swapchains[s].images@.index_of(image);
        assert(swapchains[s].images@[k] == image);
    }
}

/// A source is a tap exactly as long as some destination has it: a new tap makes its source
/// one, whatever else there is.
pub proof fn taps_are_the_sources_of_destinations(taps: Map<u64, u64>, destination: u64, source: u64, other: u64)
    ensures
        !is_tapped(Map::empty(), source),
        is_tapped(taps.insert(destination, source), source),
        !taps.dom().contains(destination) && other != source ==> (is_tapped(
            taps.insert(destination, source),
            other,
        ) <==> is_tapped(taps, other)),
{
    let more = taps.insert(destination, source);
    assert(more.dom().contains(destination) && more[destination] == source);
    if is_tapped(taps, other) {
        let d = choose|d: u64| #[trigger] taps.dom().contains(d) && taps[d] == other;
        if !taps.dom().contains(destination) {
            assert(more.dom().contains(d) && more[d] == other);
        }
    }
    if is_tapped(more, other) && other != source {
        let d = choose|d: u64| #[trigger] more.dom().contains(d) && more[d] == other;
        assert(taps.dom().contains(d));
    }
}

} // verus!
