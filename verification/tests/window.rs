//! What the settings window shows and stores.
use neuralforge::config::{save_setting, settings_after_reset, SavedSetting};
use neuralforge::hotkey::{evdev_keycode, hotkey_label, HotkeyRow};
use neuralforge::launch_option::launch_option;
use neuralforge::profiles::{name_to_save, profile_names, refresh_profile_combo, selected_profile};
use neuralforge::runners::{runner_choices, runner_options, runner_type, selected_runner, Runner};
use neuralforge::settings::{pages, Group, Page, Setting, Widget};
use neuralforge::telemetry::{
    frame_counter, FrameCounters, TelemetryHistory, TelemetrySample, TELEMETRY_INTERVAL_MS,
    TELEMETRY_SAMPLES, TELEMETRY_WINDOW_SECS,
};
use neuralforge::toasts::{
    delete_toast, import_toast, install_toast, load_toast, reset_toast, runner_toast, save_toast,
    start_toast, stop_toast, Toast,
};
use neuralforge::window::{
    binaries_status_subtitle, combo_selection, first_run, game_status, helper_state_label,
    install_row, layer_status, model_status, presence_icon, presence_text, reset_confirmed,
    start_stop_label, HelperAction, HelperStateCodes,
};

#[test]
fn hardware_codes_are_converted_without_underflow() {
    assert_eq!(evdev_keycode(95), Some(87)); // F11: XKB -> Linux evdev.
    assert_eq!(evdev_keycode(38), Some(30)); // physical A key on evdev.
    assert_eq!(evdev_keycode(0), None);
    assert_eq!(evdev_keycode(8), None);
    assert_eq!(evdev_keycode(u32::MAX), None);
    assert_eq!(evdev_keycode(9), Some(1));
    assert_eq!(evdev_keycode(775), Some(767));
    assert_eq!(evdev_keycode(776), None);
}

#[test]
fn a_key_is_bound_only_while_one_is_awaited() {
    let mut row = HotkeyRow::new(0);
    assert_eq!(row.label(), "Unbound");
    let press = row.key_pressed(false, 95);
    assert!(!press.consumed);
    assert_eq!(press.store, None);
    assert_eq!(press.label, None);
    assert_eq!(row.click(), "Press a key (Esc cancels)");
    let press = row.key_pressed(false, 95);
    assert!(press.consumed);
    assert_eq!(press.store, Some(87));
    assert_eq!(press.label.unwrap(), "Key 87");
    assert_eq!(row, HotkeyRow { value: 87, capturing: false });
}

#[test]
fn escape_and_unknown_keys_keep_the_binding() {
    let mut row = HotkeyRow::new(30);
    row.click();
    let press = row.key_pressed(true, 9);
    assert!(press.consumed);
    assert_eq!((press.store, press.label.unwrap().as_str()), (None, "Key 30"));
    row.click();
    let press = row.key_pressed(false, 3);
    assert_eq!((press.store, press.label.unwrap().as_str()), (None, "Key 30"));
    assert_eq!(row.focus_lost(), None);
    row.click();
    assert_eq!(row.focus_lost().unwrap(), "Key 30");
    row.click();
    let cleared = row.clear();
    assert_eq!((cleared.store, cleared.label.unwrap().as_str()), (Some(0), "Unbound"));
    assert_eq!(row, HotkeyRow { value: 0, capturing: false });
    assert_eq!(hotkey_label(767), "Key 767");
}

#[test]
fn matches_the_documented_baseline_with_no_target_exe() {
    assert_eq!(launch_option("", false), "NEURALFORGE_ENABLE=1 NEURALFORGE_DMABUF=0 %command%");
}

#[test]
fn includes_target_exe_when_given() {
    assert_eq!(launch_option("GTA5_Enhanced.exe", false), "NEURALFORGE_ENABLE=1 NEURALFORGE_DMABUF=0 NEURALFORGE_TARGET_EXE=GTA5_Enhanced.exe %command%");
}

#[test]
fn dmabuf_toggle_changes_only_that_field() {
    assert_eq!(launch_option("", true), "NEURALFORGE_ENABLE=1 NEURALFORGE_DMABUF=1 %command%");
}

#[test]
fn trims_whitespace_around_target_exe() {
    assert_eq!(launch_option("  GTA5_Enhanced.exe  ", false), "NEURALFORGE_ENABLE=1 NEURALFORGE_DMABUF=0 NEURALFORGE_TARGET_EXE=GTA5_Enhanced.exe %command%");
}

#[test]
fn whitespace_only_target_exe_is_treated_as_empty() {
    assert_eq!(launch_option("   ", false), "NEURALFORGE_ENABLE=1 NEURALFORGE_DMABUF=0 %command%");
}

fn owned(list: &[&str]) -> Vec<String> {
    list.iter().map(|name| name.to_string()).collect()
}

#[test]
fn profiles_are_listed_as_the_standard_library_sorts_them() {
    let list = owned(&["zebra", "Zebra", "a", "", "äpfel", "ab", "a b", "\u{1f600}", "\u{ffff}"]);
    let mut expected = list.clone();
    expected.sort();
    assert_eq!(profile_names(list.clone()), expected);
    let mut reversed = list;
    reversed.reverse();
    assert_eq!(profile_names(reversed), expected);
    assert_eq!(profile_names(Vec::new()), Vec::<String>::new());
    assert_eq!(profile_names(owned(&["b", "a", "b"])), owned(&["a", "b", "b"]));
}

#[test]
fn an_empty_profile_list_says_so() {
    let none = refresh_profile_combo(Vec::new());
    assert_eq!(none.entries, owned(&["No saved profiles"]));
    assert!(!none.sensitive);
    let some = refresh_profile_combo(owned(&["a", "b"]));
    assert_eq!(some.entries, owned(&["a", "b"]));
    assert!(some.sensitive);
    assert_eq!(selected_profile(&some.entries, 1).as_deref(), Some("b"));
    assert_eq!(selected_profile(&some.entries, 2), None);
    assert_eq!(selected_profile(&Vec::new(), 0), None);
}

#[test]
fn a_profile_needs_a_name() {
    assert_eq!(name_to_save("  night  ").as_deref(), Some("night"));
    assert_eq!(name_to_save("two words").as_deref(), Some("two words"));
    assert_eq!(name_to_save(" \t\n"), None);
    assert_eq!(name_to_save(""), None);
}

fn runner(name: &str, path: &str) -> Runner {
    Runner { name: name.to_string(), path: path.to_string() }
}

#[test]
fn the_configured_runner_is_selected() {
    let options = runner_options(
        vec![runner("Proton-GE", "/p/ge"), runner("Proton-CachyOS", "/p/cachy")],
        Some("/usr/bin/wine".to_string()),
    );
    assert_eq!(options.len(), 3);
    assert_eq!(options[2].name, "System Wine");
    assert_eq!(options[2].path, "/usr/bin/wine");
    assert_eq!(selected_runner(&options, "/p/cachy"), 1);
    assert_eq!(selected_runner(&options, "/usr/bin/wine"), 2);
    assert_eq!(selected_runner(&options, "/gone"), 0);
    let choices = runner_choices(&options, "/p/cachy");
    assert_eq!(choices.entries, owned(&["Proton-GE", "Proton-CachyOS", "System Wine"]));
    assert_eq!((choices.selected, choices.sensitive), (1, true));
    let none = runner_choices(&runner_options(Vec::new(), None), "/p/ge");
    assert_eq!(none.entries, owned(&["No compatibility tool found"]));
    assert_eq!((none.selected, none.sensitive), (0, false));
    assert_eq!(runner_type("System Wine"), "wine");
    assert_eq!(runner_type("Proton-GE"), "proton");
}

fn sample(n: u32) -> TelemetrySample {
    TelemetrySample { layer_ms_bits: n, upload_ms_bits: 0, eval_ms_bits: 0, readback_ms_bits: 0 }
}

#[test]
fn the_plot_shows_the_last_five_seconds() {
    assert_eq!(TELEMETRY_SAMPLES as u32 * TELEMETRY_INTERVAL_MS, TELEMETRY_WINDOW_SECS * 1000);
    let mut history = TelemetryHistory::new();
    for n in 0..30 {
        history.record(sample(n));
    }
    assert_eq!(history.samples.len(), 25);
    assert_eq!(history.samples[0], sample(5));
    assert_eq!(history.samples[24], sample(29));
}

#[test]
fn frame_counters_are_compared_with_the_sample_before() {
    assert_eq!(frame_counter(0, 7), 7);
    assert_eq!(frame_counter(1, 0), 1 << 32);
    assert_eq!(frame_counter(u32::MAX, u32::MAX), u64::MAX);
    let mut counters = FrameCounters::new();
    assert_eq!(counters.sample(100, 40), None);
    assert_eq!(counters.sample(112, 45), Some((12, 5)));
    // A counter that starts over counts as no frames.
    assert_eq!(counters.sample(3, 46), Some((0, 1)));
}

#[test]
fn toasts_say_what_happened() {
    let say = |toast: Toast| toast.text();
    let text = |s: &str| s.to_string();
    assert_eq!(say(import_toast(Ok(0))), "No matching DLLs found in that folder");
    assert_eq!(say(import_toast(Ok(12))), "Imported 12 file(s) -- restart the helper to load them");
    assert_eq!(say(import_toast(Err(text("denied")))), "Import failed: denied");
    assert_eq!(say(runner_toast(text("GE"), None)), "Runner set to GE -- restart the helper to use it");
    assert_eq!(say(runner_toast(text("GE"), Some(text("x")))), "Failed to save: x");
    assert_eq!(say(install_toast(Ok(text("/r")))), "Installed to /r");
    assert_eq!(say(install_toast(Err(text("x")))), "Install failed: x");
    assert_eq!(say(stop_toast(None)), "Helper stopped");
    assert_eq!(say(stop_toast(Some(text("x")))), "Stop failed: x");
    assert_eq!(say(start_toast(Ok(4321))), "Helper started (pid 4321)");
    assert_eq!(say(start_toast(Err(text("x")))), "Start failed: x");
    assert_eq!(say(reset_toast(None)), "Settings reset -- restart NeuralForge to see it reflected here");
    assert_eq!(say(reset_toast(Some(text("x")))), "Reset the live session, but saving config.ini failed: x");
    assert_eq!(say(Toast::NameMissing), "Enter a name before saving");
    assert_eq!(say(save_toast(text("n"), None)), "Saved profile \"n\"");
    assert_eq!(say(save_toast(text("n"), Some(text("x")))), "Save failed: x");
    assert_eq!(say(Toast::NothingSelected), "No profile selected");
    assert_eq!(say(load_toast(text("n"), None)), "Loaded profile \"n\" -- restart NeuralForge to see it reflected here");
    assert_eq!(say(load_toast(text("n"), Some(text("x")))), "Applied to the running session, but saving config.ini failed: x");
    assert_eq!(say(delete_toast(text("n"), Ok(true))), "Deleted profile \"n\"");
    assert_eq!(say(delete_toast(text("n"), Ok(false))), "Profile already gone");
    assert_eq!(say(delete_toast(text("n"), Err(text("x")))), "Delete failed: x");
}

#[test]
fn labels_say_how_things_stand() {
    let codes = HelperStateCodes { starting: 0, no_vulkan: 1, no_binaries: 2, model_failed: 3, running: 4, stopped: 5 };
    let label = |state| helper_state_label(state, &codes);
    assert_eq!(label(0), "starting");
    assert_eq!(label(1), "no NVIDIA Vulkan device");
    assert_eq!(label(2), "NGX binaries missing");
    assert_eq!(label(3), "model failed to load");
    assert_eq!(label(4), "running");
    assert_eq!(label(5), "stopped");
    assert_eq!(label(6), "unknown");
    assert_eq!((presence_text(true), presence_icon(true)), ("present", "emblem-ok-symbolic"));
    assert_eq!((presence_text(false), presence_icon(false)), ("missing", "dialog-warning-symbolic"));
    assert_eq!(binaries_status_subtitle(true), "nvngx_dlssnr.dll present");
    assert_eq!(binaries_status_subtitle(false), "nvngx_dlssnr.dll missing");
    assert_eq!((layer_status(0), layer_status(2)), ("not attached", "attached"));
    assert_eq!((model_status(0), model_status(1)), ("not loaded", "loaded"));
    assert_eq!(game_status(""), "none attached");
    assert_eq!(game_status("GTA5"), "GTA5");
    assert_eq!(start_stop_label(true, true), Some("Stop"));
    assert_eq!(start_stop_label(true, false), Some("Start"));
    assert_eq!(start_stop_label(false, true), None);
}

#[test]
fn the_window_opens_on_setup_while_the_library_is_missing() {
    assert_eq!((first_run(false).page, first_run(false).banner), (Some("setup"), true));
    assert_eq!((first_run(true).page, first_run(true).banner), (None, false));
    let outside = install_row(None);
    assert_eq!(outside.subtitle, "Only available when running from the AppImage");
    assert!(!outside.sensitive);
    let inside = install_row(Some("/tmp/.mount_nf"));
    assert_eq!(inside.subtitle, "/tmp/.mount_nf");
    assert!(inside.sensitive);
}

#[test]
fn a_stored_number_that_is_too_large_selects_the_last_entry() {
    assert_eq!(combo_selection(0, 3), 0);
    assert_eq!(combo_selection(2, 3), 2);
    assert_eq!(combo_selection(3, 3), 2);
    assert_eq!(combo_selection(u32::MAX, 1), 0);
}

#[test]
fn every_row_is_described() {
    let groups: Vec<Group> = pages().into_iter().flat_map(|page| page.groups()).collect();
    let all: Vec<Setting> = groups.into_iter().flat_map(|group| group.rows()).collect();
    assert_eq!(all.len(), 36);
    for (i, setting) in all.iter().enumerate() {
        assert!(!setting.title().is_empty());
        for other in &all[i + 1..] {
            assert_ne!(setting.key(), other.key());
        }
        match setting.widget() {
            Widget::Choice => assert!(setting.options().len() > 1),
            Widget::Number { lower, upper, step, .. } => {
                assert!(lower < upper && step > 0);
                let even = !Group::WhitePoint.rows().contains(setting);
                assert_eq!((upper - lower) % step == 0, even);
            }
            Widget::Switch | Widget::Key => assert!(setting.options().is_empty()),
        }
    }
    assert_eq!(Group::WhitePoint.title(), "HDR white point");
}

#[test]
fn options_stand_at_their_stored_numbers() {
    assert_eq!(Setting::MotionUnits.options()[1], "Pixels");
    assert_eq!(Setting::MotionQuality.options()[1], "Balanced");
    assert_eq!(Setting::Downscaler.options()[4], "Lanczos3");
    assert_eq!(Setting::ReversibleMode.options()[0], "Knee");
    assert_eq!(Setting::ColourMode.options()[0], "Auto");
    assert_eq!(Setting::SkinStructure.widget(), Widget::Number { lower: -100, upper: 200, step: 5, whole: false });
    assert_eq!(Setting::Passes.widget(), Widget::Number { lower: 100, upper: 3000, step: 100, whole: true });
    assert_eq!(Setting::Enabled.subtitle(), "Off keeps the layer running but presents the original frame");
    assert_eq!(Setting::Intensity.subtitle(), "");
    assert_eq!(Setting::Style.key(), "style");
}

#[test]
fn groups_stand_on_their_pages() {
    let names: Vec<&str> = pages().into_iter().map(|page| page.name()).collect();
    assert_eq!(names, vec!["model", "motion", "composition", "debug", "status", "setup"]);
    assert_eq!(Page::Composition.groups(), vec![Group::Composition, Group::WhitePoint]);
    assert_eq!(Page::Debug.groups(), vec![Group::Debug]);
    assert!(Page::Status.groups().is_empty());
    assert!(Page::Setup.groups().is_empty());
    assert_eq!((Page::Debug.title(), Page::Debug.icon()), ("Debug", "edit-find-symbolic"));
    assert_eq!(Page::Setup.icon(), "preferences-system-symbolic");
    assert_eq!(first_run(false).page, Some(Page::Setup.name()));
    assert!(Group::WhitePoint.description().unwrap().starts_with("Saved for HDR processing."));
    assert_eq!(Group::Model.description(), None);
}

#[test]
fn a_click_does_what_the_button_says() {
    for running in [false, true] {
        let action = HelperAction::on_click(running);
        assert_eq!(start_stop_label(true, running), Some(action.label()));
        assert_eq!(start_stop_label(false, running), None);
    }
    assert_eq!(HelperAction::on_click(true), HelperAction::Stop);
    assert_eq!(HelperAction::Start.label(), "Start");
    assert_eq!(HelperAction::Start.progress(), None);
    assert_eq!(HelperAction::Stop.progress(), Some("Stopping…"));
}

fn saved(entries: &[(&str, &str)]) -> Vec<SavedSetting> {
    entries.iter().map(|(name, value)| SavedSetting { name: name.to_string(), value: value.to_string() }).collect()
}

fn texts(list: &[SavedSetting]) -> Vec<(&str, &str)> {
    list.iter().map(|setting| (setting.name.as_str(), setting.value.as_str())).collect()
}

#[test]
fn a_reset_replaces_the_sessions_settings_and_keeps_the_others() {
    let before = saved(&[("style", "3"), ("old_key", "1"), ("passes", "9")]);
    let snapshot = saved(&[("passes", "1"), ("sharpness", "0.5"), ("style", "0")]);
    let after = settings_after_reset(before, &snapshot);
    assert_eq!(texts(&after), vec![("style", "0"), ("old_key", "1"), ("passes", "1"), ("sharpness", "0.5")]);
    assert!(reset_confirmed("reset"));
    assert!(!reset_confirmed("cancel"));
    assert!(!reset_confirmed(""));
    let again = settings_after_reset(after, &snapshot);
    assert_eq!(again.len(), 4);
    let mut empty = Vec::new();
    save_setting(&mut empty, "style".to_string(), "2".to_string());
    save_setting(&mut empty, "style".to_string(), "1".to_string());
    assert_eq!(texts(&empty), vec![("style", "1")]);
}
