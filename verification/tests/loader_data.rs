//! Setting up objects made below the loader.
use ash::vk;
use neuralforge::loader_data::{
    allocate_commands, AllocateStep, ChainNode, Devices, Initialization,
};

type SetLoaderData = fn(&[usize], &mut [usize]) -> i32;

fn set_dispatch(device: &[usize], object: &mut [usize]) -> i32 {
    object[0] = device[0];
    vk::Result::SUCCESS.as_raw()
}

/// Carries an initialization out on memory that stands for the two objects.
fn initialize(devices: &Devices<SetLoaderData>, handle: u64, device: &[usize], object: &mut [usize]) -> i32 {
    match devices.initialize(handle) {
        Initialization::Call(setter) => setter(device, object),
        Initialization::CopyDispatchSlot => {
            object[0] = device[0];
            0
        }
        Initialization::Nothing => 0,
    }
}

#[test]
fn callback_is_found_after_unrelated_pnext_and_registration_is_removed() {
    let parent = [0x1234usize];
    let device = 0x10;
    let setter: SetLoaderData = set_dispatch;
    let chain = vec![
        ChainNode { s_type: vk::StructureType::APPLICATION_INFO.as_raw(), function: 0, setter: None },
        ChainNode {
            s_type: vk::StructureType::LOADER_DEVICE_CREATE_INFO.as_raw(),
            function: 1,
            setter: Some(setter),
        },
    ];
    let mut devices = Devices::new();
    devices.register(device, &chain);
    assert!(matches!(devices.initialize(device), Initialization::Call(_)));
    let mut child = [0usize, 0x5678];
    assert_eq!(initialize(&devices, device, &parent, &mut child), 0);
    assert_eq!(child, [0x1234, 0x5678]);
    devices.unregister(device);
    assert!(!devices.setters.contains_key(&device));
}

#[test]
fn older_loader_fallback_initializes_only_the_dispatch_slot() {
    let parent = [0x9abcusize];
    let device = 0x10;
    let mut devices: Devices<SetLoaderData> = Devices::new();
    devices.register(device, &Vec::new());
    let mut child = [0usize, 0xdef0];
    assert_eq!(initialize(&devices, device, &parent, &mut child), 0);
    assert_eq!(child, [0x9abc, 0xdef0]);
}

#[test]
fn a_loader_structure_of_another_kind_carries_no_setter() {
    let loader = vk::StructureType::LOADER_DEVICE_CREATE_INFO.as_raw();
    let mut devices: Devices<u8> = Devices::new();
    devices.register(1, &vec![ChainNode { s_type: loader, function: 0, setter: Some(9) }]);
    assert!(matches!(devices.initialize(1), Initialization::CopyDispatchSlot));
    // The first callback decides, even where it is empty.
    let chain = vec![
        ChainNode { s_type: loader, function: 1, setter: None },
        ChainNode { s_type: loader, function: 1, setter: Some(9) },
    ];
    devices.register(1, &chain);
    assert!(matches!(devices.initialize(1), Initialization::CopyDispatchSlot));
    devices.register(1, &vec![ChainNode { s_type: loader, function: 1, setter: Some(9) }]);
    assert!(matches!(devices.initialize(1), Initialization::Call(9)));
    assert!(matches!(devices.initialize(2), Initialization::Nothing));
}

#[test]
fn one_failed_initialization_frees_all_command_buffers() {
    assert_eq!(allocate_commands(0), AllocateStep::Ready);
    let first = allocate_commands(2);
    assert_eq!(first, AllocateStep::Initialize(0));
    let second = first.advance(2, 0);
    assert_eq!(second, AllocateStep::Initialize(1));
    assert_eq!(second.advance(2, 0), AllocateStep::Ready);
    // A positive code is an error too.
    let freeing = second.advance(2, 5);
    assert_eq!(freeing, AllocateStep::Free { error: 5 });
    assert_eq!(freeing.advance(2, 0), AllocateStep::Failed(5));
    assert_eq!(first.advance(2, -4), AllocateStep::Free { error: -4 });
}
