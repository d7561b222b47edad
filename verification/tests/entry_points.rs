//! Lookups of the layer's entry points, and the switches of the layer as a whole.
use neuralforge::device_creation::{create_device, CreateDeviceStep, ExtendedDevices};
use neuralforge::entry_points::{Adapters, DestroyPlan, EntryPoints};
use neuralforge::layer::{create_instance, env_flag, layer_enabled, manifest, LAYER_NAME};

const DUMMY: usize = 7;

fn adapters() -> Adapters<usize> {
    Adapters { destroy_device: 1, get_instance_proc_addr: 2, get_device_proc_addr: 3 }
}

#[test]
fn intercept_preserves_null_and_unrelated_commands() {
    let adapters = adapters();
    assert!(EntryPoints::intercept(b"vkDestroyDevice", None, &adapters).is_none());
    assert_eq!(EntryPoints::intercept(b"vkQueuePresentKHR", Some(DUMMY), &adapters).unwrap(), DUMMY);
    for name in [&b"vkDestroyDevice"[..], &b"vkGetInstanceProcAddr"[..], &b"vkGetDeviceProcAddr"[..]] {
        assert_ne!(EntryPoints::intercept(name, Some(DUMMY), &adapters).unwrap(), DUMMY);
    }
}

#[test]
fn each_intercepted_command_has_its_own_adapter() {
    let adapters = adapters();
    assert_eq!(EntryPoints::intercept(b"vkDestroyDevice", Some(DUMMY), &adapters), Some(1));
    assert_eq!(EntryPoints::intercept(b"vkGetInstanceProcAddr", Some(DUMMY), &adapters), Some(2));
    assert_eq!(EntryPoints::intercept(b"vkGetDeviceProcAddr", Some(DUMMY), &adapters), Some(3));
    assert_eq!(EntryPoints::intercept(b"vkDestroyDevic", Some(DUMMY), &adapters), Some(DUMMY));
    assert_eq!(EntryPoints::intercept(b"", Some(DUMMY), &adapters), Some(DUMMY));
}

#[test]
fn a_null_or_unknown_device_is_left_alone() {
    assert!(matches!(EntryPoints::destroy_device(0, Some(DUMMY)), DestroyPlan::Ignore));
    assert!(matches!(EntryPoints::destroy_device::<usize>(9, None), DestroyPlan::Ignore));
    assert!(matches!(EntryPoints::destroy_device(9, Some(DUMMY)), DestroyPlan::TearDown(DUMMY)));
}

#[test]
fn the_layer_is_off_unless_a_game_opts_in() {
    assert!(env_flag(Some("1")));
    assert!(!env_flag(Some("")));
    assert!(!env_flag(Some("11")));
    assert!(!env_flag(Some("true")));
    assert!(!env_flag(None));
    assert!(layer_enabled(Some("1"), None));
    assert!(layer_enabled(Some("1"), Some("0")));
    assert!(!layer_enabled(Some("1"), Some("1")));
    assert!(!layer_enabled(None, None));
}

#[test]
fn the_manifest_names_the_layer() {
    let manifest = manifest();
    assert_eq!(LAYER_NAME, "VK_LAYER_neuralforge_neural");
    assert_eq!(manifest.name, LAYER_NAME);
    assert_eq!(manifest.implementation_version, 1);
    assert_eq!(manifest.spec_version, ash::vk::API_VERSION_1_1);
    assert_eq!(manifest.description, "NeuralForge neural rendering injection layer (Linux side)");
}

#[test]
fn an_instance_needs_the_next_layers_command() {
    assert_eq!(create_instance(Some(DUMMY)), Ok(DUMMY));
    assert_eq!(create_instance::<usize>(None), Err(-3));
}

fn named(list: &[&str]) -> Vec<Vec<u8>> {
    list.iter().map(|name| name.as_bytes().to_vec()).collect()
}

#[test]
fn the_extension_is_added_only_where_it_is_supported_and_missing() {
    let host = "VK_EXT_external_memory_host";
    let swapchain = "VK_KHR_swapchain";
    let both = named(&[swapchain, host]);
    assert_eq!(create_device(&named(&[swapchain]), &both), CreateDeviceStep::CreateExtended);
    assert_eq!(create_device(&both, &both), CreateDeviceStep::Unhandled);
    assert_eq!(create_device(&named(&[]), &named(&[swapchain])), CreateDeviceStep::Unhandled);
}

#[test]
fn a_refused_extension_falls_back_to_the_games_own_request() {
    let extended = CreateDeviceStep::CreateExtended;
    assert_eq!(extended.advance(0), CreateDeviceStep::Created { extended: true });
    assert_eq!(extended.advance(-7), CreateDeviceStep::CreateOriginal);
    assert_eq!(extended.advance(-7).advance(0), CreateDeviceStep::Created { extended: false });
    assert_eq!(extended.advance(-7).advance(-3), CreateDeviceStep::Failed(-3));
    assert_eq!(CreateDeviceStep::Unhandled.advance(0), CreateDeviceStep::Unhandled);
}

#[test]
fn an_extended_device_is_asked_for_once() {
    let mut devices = ExtendedDevices::new();
    devices.record(4);
    assert!(!devices.take(5));
    assert!(devices.take(4));
    assert!(!devices.take(4));
}
