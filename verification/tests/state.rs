//! How long a render source is remembered.
use ash::vk;
use neuralforge::state::{
    forget_image, forget_swapchain, observe_swapchain_write, prune_orphaned_tap_source,
    track_layouts, LayoutChange, State, SwapchainState,
};

const GENERAL: i32 = 1;

fn swapchain(images: Vec<u64>) -> SwapchainState {
    SwapchainState { format: 44, width: 1920, height: 1080, hdr_kind: 0, pass_through: true, images }
}

fn image(raw: u64) -> u64 {
    raw
}

#[test]
fn prune_orphaned_tap_source_removes_a_truly_unreferenced_source() {
    let mut state = State::default();
    let source = image(1);
    state.tapped_source_layouts.insert(source, GENERAL);
    // No entry in `tap_sources_by_destination` points at `source` at all.
    prune_orphaned_tap_source(&mut state, source);
    assert!(!state.tapped_source_layouts.contains_key(&source));
}

#[test]
fn prune_orphaned_tap_source_keeps_a_source_still_referenced_elsewhere() {
    let mut state = State::default();
    let source = image(1);
    state.tapped_source_layouts.insert(source, GENERAL);
    // A second, still-live destination also reads from this same source image.
    state.tap_sources_by_destination.insert(image(2), source);
    prune_orphaned_tap_source(&mut state, source);
    assert!(state.tapped_source_layouts.contains_key(&source));
}

#[test]
fn destroying_the_only_swapchain_referencing_a_source_prunes_it() {
    let mut state = State::default();
    let source = image(10);
    let destination = image(20);
    state.tapped_source_layouts.insert(source, vk::ImageLayout::TRANSFER_SRC_OPTIMAL.as_raw());
    state.tap_sources_by_destination.insert(destination, source);
    state.swapchains.insert(5, swapchain(vec![destination]));

    assert_eq!(forget_swapchain(&mut state, 5), Some(vec![destination]));

    assert!(!state.tap_sources_by_destination.contains_key(&destination));
    assert!(!state.tapped_source_layouts.contains_key(&source));
    assert!(state.swapchains.is_empty());
    assert_eq!(forget_swapchain(&mut state, 5), None);
}

#[test]
fn a_source_shared_by_two_destinations_survives_until_both_are_gone() {
    let mut state = State::default();
    let source = image(10);
    state.tapped_source_layouts.insert(source, GENERAL);
    state.tap_sources_by_destination.insert(image(20), source);
    state.tap_sources_by_destination.insert(image(21), source);

    state.tap_sources_by_destination.remove(&image(20));
    prune_orphaned_tap_source(&mut state, source);
    assert!(state.tapped_source_layouts.contains_key(&source), "still referenced by image(21)");

    state.tap_sources_by_destination.remove(&image(21));
    prune_orphaned_tap_source(&mut state, source);
    assert!(!state.tapped_source_layouts.contains_key(&source));
}

#[test]
fn retargeting_a_destination_to_a_new_source_prunes_the_old_one_if_unreferenced() {
    let mut state = State::default();
    let destination = image(20);
    let old_source = image(1);
    let new_source = image(2);
    state.swapchains.insert(5, swapchain(vec![destination]));
    assert!(observe_swapchain_write(&mut state, old_source, GENERAL, destination));
    assert!(state.tapped_source_layouts.contains_key(&old_source));

    assert!(!observe_swapchain_write(&mut state, new_source, GENERAL, destination));

    assert!(!state.tapped_source_layouts.contains_key(&old_source));
    assert!(state.tapped_source_layouts.contains_key(&new_source));
}

#[test]
fn destroying_a_source_image_drops_its_layout_and_every_mapping_to_it() {
    let mut state = State::default();
    let source = image(10);
    let unrelated_source = image(11);
    state.tapped_source_layouts.insert(source, GENERAL);
    state.tapped_source_layouts.insert(unrelated_source, GENERAL);
    state.tap_sources_by_destination.insert(image(20), source);
    state.tap_sources_by_destination.insert(image(21), source);
    state.tap_sources_by_destination.insert(image(22), unrelated_source);

    forget_image(&mut state, source);

    assert!(!state.tapped_source_layouts.contains_key(&source));
    assert!(!state.tap_sources_by_destination.contains_key(&image(20)));
    assert!(!state.tap_sources_by_destination.contains_key(&image(21)));
    // The unrelated source and its own destination are untouched.
    assert!(state.tapped_source_layouts.contains_key(&unrelated_source));
    assert_eq!(state.tap_sources_by_destination.get(&image(22)), Some(&unrelated_source));
    // An image that is no source changes nothing.
    forget_image(&mut state, 22);
    assert_eq!(state.tap_sources_by_destination.len(), 1);
}

#[test]
fn only_transfers_into_swapchain_images_are_noted() {
    let mut state = State::default();
    state.swapchains.insert(5, swapchain(vec![20, 21]));
    state.swapchains.insert(6, swapchain(vec![30]));
    assert!(!observe_swapchain_write(&mut state, 1, GENERAL, 99));
    assert!(state.tapped_source_layouts.is_empty());
    assert!(observe_swapchain_write(&mut state, 1, GENERAL, 30));
    assert!(observe_swapchain_write(&mut state, 1, 6, 21));
    assert!(!observe_swapchain_write(&mut state, 1, 7, 21));
    assert_eq!(state.tapped_source_layouts.get(&1), Some(&7));
    // The source outlives the first swapchain, which is not its only one.
    assert_eq!(forget_swapchain(&mut state, 5), Some(vec![20, 21]));
    assert_eq!(state.tapped_source_layouts.get(&1), Some(&7));
    assert!(!state.observed_swapchain_writes.contains(&21));
    assert!(state.observed_swapchain_writes.contains(&30));
    assert_eq!(forget_swapchain(&mut state, 6), Some(vec![30]));
    assert!(state.tapped_source_layouts.is_empty());
    assert!(state.tap_sources_by_destination.is_empty());
}

#[test]
fn layouts_follow_the_last_barrier_of_each_source() {
    let mut state = State::default();
    state.tapped_source_layouts.insert(1, GENERAL);
    state.tapped_source_layouts.insert(2, GENERAL);
    let changes = vec![
        LayoutChange { image: 1, new_layout: 6 },
        LayoutChange { image: 3, new_layout: 7 },
        LayoutChange { image: 1, new_layout: 7 },
    ];
    track_layouts(&mut state, &changes);
    assert_eq!(state.tapped_source_layouts.get(&1), Some(&7));
    assert_eq!(state.tapped_source_layouts.get(&2), Some(&GENERAL));
    assert_eq!(state.tapped_source_layouts.get(&3), None);
}

fn layouts_are_those_of_the_taps(state: &State) -> bool {
    let taps = &state.tap_sources_by_destination;
    taps.values().all(|source| state.tapped_source_layouts.contains_key(source))
        && state.tapped_source_layouts.keys().all(|source| taps.values().any(|tap| tap == source))
}

#[test]
fn layouts_stay_those_of_the_taps_even_without_a_swapchain() {
    let mut state = State::default();
    state.swapchains.insert(5, swapchain(vec![20]));
    // The images 30 and 31 belong to no swapchain.
    for (destination, source) in [(30, 1), (31, 2)] {
        state.tapped_source_layouts.insert(source, GENERAL);
        state.tap_sources_by_destination.insert(destination, source);
    }
    assert!(observe_swapchain_write(&mut state, 1, 6, 20));
    assert!(layouts_are_those_of_the_taps(&state));
    track_layouts(&mut state, &vec![LayoutChange { image: 2, new_layout: 7 }]);
    assert!(layouts_are_those_of_the_taps(&state));
    forget_swapchain(&mut state, 5);
    assert!(layouts_are_those_of_the_taps(&state));
    assert_eq!(state.tapped_source_layouts.get(&1), Some(&6));
    forget_image(&mut state, 2);
    assert!(layouts_are_those_of_the_taps(&state));
    assert_eq!(state.tapped_source_layouts.len(), 1);
}

#[test]
fn nothing_stays_behind_the_last_swapchain() {
    let mut state = State::default();
    state.swapchains.insert(5, swapchain(vec![20, 21]));
    observe_swapchain_write(&mut state, 1, GENERAL, 20);
    observe_swapchain_write(&mut state, 2, GENERAL, 21);
    observe_swapchain_write(&mut state, 3, GENERAL, 21);
    forget_image(&mut state, 1);
    assert!(state.observed_swapchain_writes.contains(&20));
    forget_swapchain(&mut state, 5);
    assert!(state.observed_swapchain_writes.is_empty());
    assert!(state.tap_sources_by_destination.is_empty());
    assert!(state.tapped_source_layouts.is_empty());
}
