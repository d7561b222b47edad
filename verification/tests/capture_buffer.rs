//! Building capture buffers, and taking them down again.
use neuralforge::capture_buffer::{
    find_memory_type, BufferRequest, BuildReply, BuildStep, CaptureBuffer, DriverCall, Held,
    HostImport, Resource,
};
use neuralforge::staging::{destroy, ensure, install, CaptureResources, Ensured};

const FRESH: BufferRequest = BufferRequest { queue_family: 0, bytes: 256, host_ptr: None };
const IMPORTED: BufferRequest = BufferRequest { queue_family: 0, bytes: 4096, host_ptr: Some(0x7000) };

fn memory(size: u64, type_bits: u32) -> BuildReply {
    BuildReply::Memory { size, type_bits, types: vec![0x1, 0x6, 0xe] }
}

fn build(request: &BufferRequest, replies: Vec<BuildReply>) -> BuildStep {
    let mut step = BuildStep::start();
    for reply in &replies {
        step = step.advance(request, reply);
    }
    step
}

fn fresh_replies() -> Vec<BuildReply> {
    vec![
        BuildReply::Created(1),
        BuildReply::Created(2),
        BuildReply::Created(3),
        BuildReply::Created(4),
        memory(512, 0b110),
        BuildReply::Created(5),
        BuildReply::Done,
        BuildReply::Created(0x9000),
    ]
}

#[test]
fn a_fresh_buffer_is_mapped_and_as_large_as_the_driver_says() {
    let built = CaptureBuffer { pool: 1, cmd: 2, fence: 3, buffer: 4, memory: 5, ptr: 0x9000, capacity: 512 };
    assert_eq!(build(&FRESH, fresh_replies()), BuildStep::Ready(built));
    assert_eq!(
        built.destroy(),
        vec![Resource::Fence(3), Resource::Buffer(4), Resource::Memory(5), Resource::Pool(1)]
    );
    let mut early = fresh_replies();
    early.truncate(5);
    assert_eq!(
        build(&FRESH, early),
        BuildStep::AllocateMemory { pool: 1, cmd: 2, fence: 3, buffer: 4, size: 512, type_index: 1 }
    );
}

#[test]
fn an_imported_buffer_is_the_host_memory_itself() {
    let replies = vec![
        BuildReply::Created(1),
        BuildReply::Created(2),
        BuildReply::Created(3),
        BuildReply::HostTypes(0b100),
        BuildReply::Created(4),
        memory(8192, 0b110),
        BuildReply::Created(5),
        BuildReply::Done,
    ];
    let built = CaptureBuffer { pool: 1, cmd: 2, fence: 3, buffer: 4, memory: 5, ptr: 0x7000, capacity: 4096 };
    assert_eq!(build(&IMPORTED, replies), BuildStep::Ready(built));
    // The pointer and the buffer agree on no type: nothing is built.
    let replies = vec![
        BuildReply::Created(1),
        BuildReply::Created(2),
        BuildReply::Created(3),
        BuildReply::HostTypes(0b001),
        BuildReply::Created(4),
        memory(8192, 0b110),
    ];
    let held = Held { pool: Some(1), fence: Some(3), buffer: Some(4), memory: None };
    assert_eq!(build(&IMPORTED, replies), BuildStep::Abandoned(held));
}

/// The driver calls of a whole building, in order.
fn calls(request: &BufferRequest, replies: Vec<BuildReply>) -> Vec<DriverCall> {
    let mut step = BuildStep::start();
    let mut made = Vec::new();
    for reply in &replies {
        made.push(step.call(request).expect("the building is not finished"));
        step = step.advance(request, reply);
    }
    assert_eq!(step.call(request), None);
    made
}

#[test]
fn the_driver_is_called_with_these_flags() {
    assert_eq!(
        calls(&FRESH, fresh_replies()),
        vec![
            DriverCall::CreateCommandPool { queue_family: 0, flags: 0x2 },
            DriverCall::AllocateCommandBuffers { pool: 1, level: 0, count: 1 },
            DriverCall::CreateFence { flags: 0x1 },
            DriverCall::CreateBuffer { size: 256, usage: 0x3, sharing_mode: 0, external: None },
            DriverCall::GetMemoryRequirements { buffer: 4 },
            DriverCall::AllocateMemory { size: 512, type_index: 1, import: None },
            DriverCall::BindBufferMemory { buffer: 4, memory: 5, offset: 0 },
            DriverCall::MapMemory { memory: 5, offset: 0, size: u64::MAX },
        ]
    );
}

#[test]
fn an_imported_buffer_says_so_when_it_is_created() {
    let replies = vec![
        BuildReply::Created(1),
        BuildReply::Created(2),
        BuildReply::Created(3),
        BuildReply::HostTypes(0b100),
        BuildReply::Created(4),
        memory(8192, 0b110),
        BuildReply::Created(5),
        BuildReply::Done,
    ];
    let made = calls(&IMPORTED, replies);
    assert_eq!(made[3], DriverCall::GetMemoryHostPointerProperties { handle_type: 0x80, host_ptr: 0x7000 });
    assert_eq!(
        made[4],
        DriverCall::CreateBuffer { size: 4096, usage: 0x3, sharing_mode: 0, external: Some(0x80) }
    );
    match made[6] {
        DriverCall::AllocateMemory { import, .. } => {
            assert_eq!(import, Some(HostImport { handle_type: 0x80, host_ptr: 0x7000 }));
        }
        other => panic!("unexpected {other:?}"),
    }
    // Nothing is mapped: the pointer is there already.
    assert_eq!(made.len(), 8);
}

#[test]
fn every_failure_gives_back_exactly_what_was_made() {
    let made = [
        vec![],
        vec![Resource::Pool(1)],
        vec![Resource::Pool(1)],
        vec![Resource::Fence(3), Resource::Pool(1)],
        vec![Resource::Buffer(4), Resource::Fence(3), Resource::Pool(1)],
        vec![Resource::Buffer(4), Resource::Fence(3), Resource::Pool(1)],
        vec![Resource::Memory(5), Resource::Buffer(4), Resource::Fence(3), Resource::Pool(1)],
        vec![Resource::Memory(5), Resource::Buffer(4), Resource::Fence(3), Resource::Pool(1)],
    ];
    for (failing, expected) in made.iter().enumerate() {
        let mut replies = fresh_replies();
        replies.truncate(failing);
        replies.push(BuildReply::Failed);
        match build(&FRESH, replies) {
            BuildStep::Abandoned(held) => assert_eq!(&held.unwind(), expected),
            step => panic!("step {failing} went on to {step:?}"),
        }
    }
}

#[test]
fn the_first_coherent_host_visible_type_is_taken() {
    let types = vec![0x1, 0x2, 0x6, 0xe];
    assert_eq!(find_memory_type(0b1111, &types), Some(2));
    assert_eq!(find_memory_type(0b1000, &types), Some(3));
    assert_eq!(find_memory_type(0b0011, &types), None);
    assert_eq!(find_memory_type(u32::MAX, &Vec::new()), None);
    let mut many = vec![0x1; 31];
    many.push(0x6);
    assert_eq!(find_memory_type(1 << 31, &many), Some(31));
}

fn buffer(capacity: u64) -> CaptureBuffer {
    CaptureBuffer { pool: 1, cmd: 2, fence: 3, buffer: 4, memory: 5, ptr: 6, capacity }
}

#[test]
fn staging_is_rebuilt_when_it_no_longer_fits() {
    let mut existing = None;
    assert!(matches!(ensure(&mut existing, 0, 100), Ensured::Build { retired } if retired.is_empty()));
    assert!(install(&mut existing, 0, Some(buffer(100))));
    assert_eq!(existing, Some(CaptureResources { queue_family: 0, buf: buffer(100) }));
    assert!(matches!(ensure(&mut existing, 0, 100), Ensured::Ready));
    assert!(matches!(ensure(&mut existing, 0, 101), Ensured::Build { retired } if retired == buffer(100).destroy()));
    assert_eq!(existing, None);
    assert!(!install(&mut existing, 0, None));
    assert_eq!(existing, None);
    assert!(install(&mut existing, 0, Some(buffer(100))));
    assert!(matches!(ensure(&mut existing, 1, 1), Ensured::Build { .. }));
    assert!(destroy(None).is_empty());
    let kept = Some(CaptureResources { queue_family: 0, buf: buffer(1) });
    assert_eq!(destroy(kept), buffer(1).destroy());
}
