//! Building and taking down one capture buffer: a command pool with its command buffer, a
//! fence, and a transfer buffer on host-visible memory.
//!
//! The memory is either freshly allocated and mapped, or imported from a host pointer, in
//! which case the pointer itself is the mapping. Each creation can fail; [`BuildStep`] says
//! what to create next and, after a failure, what has to be destroyed again.
use vstd::prelude::*;

use crate::vulkan::{
    has_all, has_any, memory_flags_contain, BUFFER_TRANSFER_DST, BUFFER_TRANSFER_SRC,
    COMMAND_BUFFER_PRIMARY, FENCE_SIGNALED, HANDLE_HOST_ALLOCATION, MEMORY_HOST_COHERENT,
    MEMORY_HOST_VISIBLE, POOL_RESET_COMMAND_BUFFER, SHARING_EXCLUSIVE, WHOLE_SIZE,
};

verus! {

/// A driver object of a capture buffer. The command buffer is not among them: it is freed
/// with its pool.
#[derive(Clone, Copy, Debug, PartialEq, Eq, Structural)]
pub enum Resource {
    Pool(u64),
    Fence(u64),
    Buffer(u64),
    Memory(u64),
}

/// A finished capture buffer; `ptr` is the address its memory is mapped at.
#[derive(Clone, Copy, Debug, PartialEq, Eq, Structural)]
pub struct CaptureBuffer {
    pub pool: u64,
    pub cmd: u64,
    pub fence: u64,
    pub buffer: u64,
    pub memory: u64,
    pub ptr: u64,
    pub capacity: u64,
}

/// What is to be built. With a `host_ptr` the memory is imported from there.
#[derive(Clone, Copy, Debug, PartialEq, Eq, Structural)]
pub struct BufferRequest {
    pub queue_family: u32,
    pub bytes: u64,
    pub host_ptr: Option<u64>,
}

/// The objects a building that was given up had made.
#[derive(Clone, Copy, Debug, PartialEq, Eq, Structural)]
pub struct Held {
    pub pool: Option<u64>,
    pub fence: Option<u64>,
    pub buffer: Option<u64>,
    pub memory: Option<u64>,
}

/// The driver call that is due, with what the calls before it made.
#[derive(Clone, Copy, Debug, PartialEq, Eq, Structural)]
pub enum BuildStep {
    /// Create a command pool on the requested family, resettable per buffer.
    CreatePool,
    /// Allocate the one primary command buffer.
    AllocateCommand { pool: u64 },
    /// Create a fence, signalled from the start: nothing was submitted against it yet.
    CreateFence { pool: u64, cmd: u64 },
    /// Ask which memory types the host pointer can be imported as.
    QueryHostPointer { pool: u64, cmd: u64, fence: u64 },
    /// Create the transfer buffer, for imported memory where `host_types` is known.
    CreateBuffer { pool: u64, cmd: u64, fence: u64, host_types: Option<u32> },
    /// Ask for the buffer's memory requirements and the device's memory types.
    QueryMemory { pool: u64, cmd: u64, fence: u64, host_types: Option<u32>, buffer: u64 },
    /// Allocate, or import, `size` bytes of memory type `type_index`.
    AllocateMemory {
        pool: u64,
        cmd: u64,
        fence: u64,
        buffer: u64,
        size: u64,
        type_index: u32,
    },
    /// Bind the memory to the buffer.
    BindMemory { pool: u64, cmd: u64, fence: u64, buffer: u64, size: u64, memory: u64 },
    /// Map the whole allocation.
    MapMemory { pool: u64, cmd: u64, fence: u64, buffer: u64, size: u64, memory: u64 },
    Ready(CaptureBuffer),
    /// Nothing was built; [`Held::unwind`] lists what has to go.
    Abandoned(Held),
}

/// Host memory that an allocation imports, with the kind of its handle.
#[derive(Clone, Copy, Debug, PartialEq, Eq, Structural)]
pub struct HostImport {
    pub handle_type: u32,
    pub host_ptr: u64,
}

/// A driver call, with everything that is handed to it.
#[derive(Clone, Copy, Debug, PartialEq, Eq, Structural)]
pub enum DriverCall {
    CreateCommandPool { queue_family: u32, flags: u32 },
    AllocateCommandBuffers { pool: u64, level: i32, count: u32 },
    CreateFence { flags: u32 },
    GetMemoryHostPointerProperties { handle_type: u32, host_ptr: u64 },
    /// A buffer for memory of another kind than the driver's own names that kind.
    CreateBuffer { size: u64, usage: u32, sharing_mode: i32, external: Option<u32> },
    /// The buffer's memory requirements, and the device's memory types.
    GetMemoryRequirements { buffer: u64 },
    AllocateMemory { size: u64, type_index: u32, import: Option<HostImport> },
    BindBufferMemory { buffer: u64, memory: u64, offset: u64 },
    MapMemory { memory: u64, offset: u64, size: u64 },
}

/// What the driver answered.
#[derive(Debug)]
pub enum BuildReply {
    /// The object, or the mapped address.
    Created(u64),
    /// The memory types a host pointer can be imported as, one bit each.
    HostTypes(u32),
    /// The buffer's size and usable memory types, and the flags of each memory type.
    Memory { size: u64, type_bits: u32, types: Vec<u32> },
    /// Success, with nothing to hand over.
    Done,
    Failed,
}

/// Memory the CPU reads and writes without flushing.
pub open spec fn host_coherent() -> u32 {
    MEMORY_HOST_VISIBLE | MEMORY_HOST_COHERENT
}

/// Memory type `i` is among `bits` and is host-visible and coherent.
pub open spec fn suitable(bits: u32, types: Seq<u32>, i: int) -> bool {
    &&& 0 <= i < types.len()
    &&& i < 32
    &&& has_any(bits, 1u32 << (i as u32))
    &&& has_all(types[i], host_coherent())
}

/// `index` is the first suitable memory type; none where there is no suitable one.
pub open spec fn is_first_suitable(bits: u32, types: Seq<u32>, index: Option<u32>) -> bool {
    match index {
        Some(i) => suitable(bits, types, i as int) && forall|j: int|
            0 <= j < i ==> !#[trigger] suitable(bits, types, j),
        None => forall|j: int| !#[trigger] suitable(bits, types, j),
    }
}

/// The first suitable memory type, if there is one.
pub open spec fn first_suitable(bits: u32, types: Seq<u32>) -> Option<u32> {
    choose|index: Option<u32>| is_first_suitable(bits, types, index)
}

impl Held {
    /// In the order they were made.
    pub open spec fn made(&self) -> Seq<Resource> {
        some_of(self.pool, |h: u64| Resource::Pool(h)) + some_of(
            self.fence,
            |h: u64| Resource::Fence(h),
        ) + some_of(self.buffer, |h: u64| Resource::Buffer(h)) + some_of(
            self.memory,
            |h: u64| Resource::Memory(h),
        )
    }

    /// What to destroy, in order: the reverse of how it was made.
    pub fn unwind(&self) -> (r: Vec<Resource>)
        ensures
            r@ == self.made().reverse(),
    {
        let mut order: Vec<Resource> = Vec::new();
        if let Some(memory) = self.memory {
            order.push(Resource::Memory(memory));
        }
        if let Some(buffer) = self.buffer {
            order.push(Resource::Buffer(buffer));
        }
        if let Some(fence) = self.fence {
            order.push(Resource::Fence(fence));
        }
        if let Some(pool) = self.pool {
            order.push(Resource::Pool(pool));
        }
        assert(order@ =~= self.made().reverse());
        order
    }
}

/// The one resource `made` of a handle, or nothing.
pub open spec fn some_of(handle: Option<u64>, made: spec_fn(u64) -> Resource) -> Seq<Resource> {
    match handle {
        Some(h) => seq![made(h)],
        None => seq![],
    }
}

impl CaptureBuffer {
    /// In the order they were made.
    pub open spec fn made(&self) -> Seq<Resource> {
        seq![
            Resource::Pool(self.pool),
            Resource::Fence(self.fence),
            Resource::Buffer(self.buffer),
            Resource::Memory(self.memory),
        ]
    }

    /// In the order they are destroyed.
    pub open spec fn destruction(&self) -> Seq<Resource> {
        seq![
            Resource::Fence(self.fence),
            Resource::Buffer(self.buffer),
            Resource::Memory(self.memory),
            Resource::Pool(self.pool),
        ]
    }

    /// What to destroy, in order. Imported host memory is not among it: freeing the device
    /// memory gives the pointer back untouched.
    pub fn destroy(&self) -> (r: Vec<Resource>)
        ensures
            r@ == self.destruction(),
    {
        vec![
            Resource::Fence(self.fence),
            Resource::Buffer(self.buffer),
            Resource::Memory(self.memory),
            Resource::Pool(self.pool),
        ]
    }
}

impl BuildStep {
    /// The objects made so far.
    pub open spec fn held(&self) -> Held {
        match *self {
            BuildStep::CreatePool => Held { pool: None, fence: None, buffer: None, memory: None },
            BuildStep::AllocateCommand { pool } | BuildStep::CreateFence { pool, .. } => Held {
                pool: Some(pool),
                fence: None,
                buffer: None,
                memory: None,
            },
            BuildStep::QueryHostPointer { pool, fence, .. } | BuildStep::CreateBuffer {
                pool,
                fence,
                ..
            } => Held { pool: Some(pool), fence: Some(fence), buffer: None, memory: None },
            BuildStep::QueryMemory { pool, fence, buffer, .. } | BuildStep::AllocateMemory {
                pool,
                fence,
                buffer,
                ..
            } => Held { pool: Some(pool), fence: Some(fence), buffer: Some(buffer), memory: None },
            BuildStep::BindMemory { pool, fence, buffer, memory, .. } | BuildStep::MapMemory {
                pool,
                fence,
                buffer,
                memory,
                ..
            } => Held {
                pool: Some(pool),
                fence: Some(fence),
                buffer: Some(buffer),
                memory: Some(memory),
            },
            BuildStep::Ready(b) => Held {
                pool: Some(b.pool),
                fence: Some(b.fence),
                buffer: Some(b.buffer),
                memory: Some(b.memory),
            },
            BuildStep::Abandoned(held) => held,
        }
    }

    /// Nothing is left to do.
    pub open spec fn finished(&self) -> bool {
        self is Ready || self is Abandoned
    }

    /// The step that follows once the driver has answered. An answer that the step did not
    /// ask for is a failure, and a failure keeps only what has to be destroyed.
    pub open spec fn after(self, request: BufferRequest, reply: BuildReply) -> BuildStep {
        match (self, reply) {
            (BuildStep::Ready(_), _) => self,
            (BuildStep::Abandoned(_), _) => self,
            (BuildStep::CreatePool, BuildReply::Created(pool)) => BuildStep::AllocateCommand {
                pool,
            },
            (
                BuildStep::AllocateCommand { pool },
                BuildReply::Created(cmd),
            ) => BuildStep::CreateFence { pool, cmd },
            (BuildStep::CreateFence { pool, cmd }, BuildReply::Created(fence)) => if request.host_ptr is Some {
                BuildStep::QueryHostPointer { pool, cmd, fence }
            } else {
                BuildStep::CreateBuffer { pool, cmd, fence, host_types: None }
            },
            (
                BuildStep::QueryHostPointer { pool, cmd, fence },
                BuildReply::HostTypes(bits),
            ) => BuildStep::CreateBuffer { pool, cmd, fence, host_types: Some(bits) },
            (
                BuildStep::CreateBuffer { pool, cmd, fence, host_types },
                BuildReply::Created(buffer),
            ) => BuildStep::QueryMemory { pool, cmd, fence, host_types, buffer },
            (
                BuildStep::QueryMemory { pool, cmd, fence, host_types, buffer },
                BuildReply::Memory { size, type_bits, types },
            ) => match first_suitable(shared_types(type_bits, host_types), types@) {
                Some(type_index) => BuildStep::AllocateMemory {
                    pool,
                    cmd,
                    fence,
                    buffer,
                    size: if request.host_ptr is Some {
                        request.bytes
                    } else {
                        size
                    },
                    type_index,
                },
                None => BuildStep::Abandoned(self.held()),
            },
            (
                BuildStep::AllocateMemory { pool, cmd, fence, buffer, size, .. },
                BuildReply::Created(memory),
            ) => BuildStep::BindMemory { pool, cmd, fence, buffer, size, memory },
            (
                BuildStep::BindMemory { pool, cmd, fence, buffer, size, memory },
                BuildReply::Done,
            ) => match request.host_ptr {
                Some(ptr) => BuildStep::Ready(
                    CaptureBuffer { pool, cmd, fence, buffer, memory, ptr, capacity: size },
                ),
                None => BuildStep::MapMemory { pool, cmd, fence, buffer, size, memory },
            },
            (
                BuildStep::MapMemory { pool, cmd, fence, buffer, size, memory },
                BuildReply::Created(ptr),
            ) => BuildStep::Ready(
                CaptureBuffer { pool, cmd, fence, buffer, memory, ptr, capacity: size },
            ),
            _ => BuildStep::Abandoned(self.held()),
        }
    }

    /// The driver call that a step stands for; none where nothing is left to do. The pool
    /// lets its command buffer be reset, the fence starts out signalled, and the buffer can
    /// be copied from and to. A buffer on imported memory says so when it is created.
    pub open spec fn driver_call(self, request: BufferRequest) -> Option<DriverCall> {
        match self {
            BuildStep::CreatePool => Some(
                DriverCall::CreateCommandPool {
                    queue_family: request.queue_family,
                    flags: POOL_RESET_COMMAND_BUFFER,
                },
            ),
            BuildStep::AllocateCommand { pool } => Some(
                DriverCall::AllocateCommandBuffers {
                    pool,
                    level: COMMAND_BUFFER_PRIMARY,
                    count: 1,
                },
            ),
            BuildStep::CreateFence { .. } => Some(
                DriverCall::CreateFence { flags: FENCE_SIGNALED },
            ),
            BuildStep::QueryHostPointer { .. } => match request.host_ptr {
                Some(host_ptr) => Some(
                    DriverCall::GetMemoryHostPointerProperties {
                        handle_type: HANDLE_HOST_ALLOCATION,
                        host_ptr,
                    },
                ),
                None => None,
            },
            BuildStep::CreateBuffer { .. } => Some(
                DriverCall::CreateBuffer {
                    size: request.bytes,
                    usage: BUFFER_TRANSFER_SRC | BUFFER_TRANSFER_DST,
                    sharing_mode: SHARING_EXCLUSIVE,
                    external: if request.host_ptr is Some {
                        Some(HANDLE_HOST_ALLOCATION)
                    } else {
                        None
                    },
                },
            ),
            BuildStep::QueryMemory { buffer, .. } => Some(
                DriverCall::GetMemoryRequirements { buffer },
            ),
            BuildStep::AllocateMemory { size, type_index, .. } => Some(
                DriverCall::AllocateMemory {
                    size,
                    type_index,
                    import: match request.host_ptr {
                        Some(host_ptr) => Some(
                            HostImport { handle_type: HANDLE_HOST_ALLOCATION, host_ptr },
                        ),
                        None => None,
                    },
                },
            ),
            BuildStep::BindMemory { buffer, memory, .. } => Some(
                DriverCall::BindBufferMemory { buffer, memory, offset: 0 },
            ),
            BuildStep::MapMemory { memory, .. } => Some(
                DriverCall::MapMemory { memory, offset: 0, size: WHOLE_SIZE },
            ),
            BuildStep::Ready(_) | BuildStep::Abandoned(_) => None,
        }
    }

    /// The driver call that this step stands for.
    pub fn call(&self, request: &BufferRequest) -> (r: Option<DriverCall>)
        ensures
            r == self.driver_call(*request),
    {
        match *self {
            BuildStep::CreatePool => Some(
                DriverCall::CreateCommandPool {
                    queue_family: request.queue_family,
                    flags: POOL_RESET_COMMAND_BUFFER,
                },
            ),
            BuildStep::AllocateCommand { pool } => Some(
                DriverCall::AllocateCommandBuffers {
                    pool,
                    level: COMMAND_BUFFER_PRIMARY,
                    count: 1,
                },
            ),
            BuildStep::CreateFence { .. } => Some(
                DriverCall::CreateFence { flags: FENCE_SIGNALED },
            ),
            BuildStep::QueryHostPointer { .. } => match request.host_ptr {
                Some(host_ptr) => Some(
                    DriverCall::GetMemoryHostPointerProperties {
                        handle_type: HANDLE_HOST_ALLOCATION,
                        host_ptr,
                    },
                ),
                None => None,
            },
            BuildStep::CreateBuffer { .. } => Some(
                DriverCall::CreateBuffer {
                    size: request.bytes,
                    usage: BUFFER_TRANSFER_SRC | BUFFER_TRANSFER_DST,
                    sharing_mode: SHARING_EXCLUSIVE,
                    external: match request.host_ptr {
                        Some(_) => Some(HANDLE_HOST_ALLOCATION),
                        None => None,
                    },
                },
            ),
            BuildStep::QueryMemory { buffer, .. } => Some(
                DriverCall::GetMemoryRequirements { buffer },
            ),
            BuildStep::AllocateMemory { size, type_index, .. } => Some(
                DriverCall::AllocateMemory {
                    size,
                    type_index,
                    import: match request.host_ptr {
                        Some(host_ptr) => Some(
                            HostImport { handle_type: HANDLE_HOST_ALLOCATION, host_ptr },
                        ),
                        None => None,
                    },
                },
            ),
            BuildStep::BindMemory { buffer, memory, .. } => Some(
                DriverCall::BindBufferMemory { buffer, memory, offset: 0 },
            ),
            BuildStep::MapMemory { memory, .. } => Some(
                DriverCall::MapMemory { memory, offset: 0, size: WHOLE_SIZE },
            ),
            BuildStep::Ready(_) | BuildStep::Abandoned(_) => None,
        }
    }

    /// The step a building starts at.
    pub fn start() -> (r: BuildStep)
        ensures
            r == BuildStep::CreatePool,
    {
        BuildStep::CreatePool
    }

    fn holding(&self) -> (r: Held)
        ensures
            r == self.held(),
    {
        match *self {
            BuildStep::CreatePool => Held { pool: None, fence: None, buffer: None, memory: None },
            BuildStep::AllocateCommand { pool } | BuildStep::CreateFence { pool, .. } => Held {
                pool: Some(pool),
                fence: None,
                buffer: None,
                memory: None,
            },
            BuildStep::QueryHostPointer { pool, fence, .. } | BuildStep::CreateBuffer {
                pool,
                fence,
                ..
            } => Held { pool: Some(pool), fence: Some(fence), buffer: None, memory: None },
            BuildStep::QueryMemory { pool, fence, buffer, .. } | BuildStep::AllocateMemory {
                pool,
                fence,
                buffer,
                ..
            } => Held { pool: Some(pool), fence: Some(fence), buffer: Some(buffer), memory: None },
            BuildStep::BindMemory { pool, fence, buffer, memory, .. } | BuildStep::MapMemory {
                pool,
                fence,
                buffer,
                memory,
                ..
            } => Held {
                pool: Some(pool),
                fence: Some(fence),
                buffer: Some(buffer),
                memory: Some(memory),
            },
            BuildStep::Ready(b) => Held {
                pool: Some(b.pool),
                fence: Some(b.fence),
                buffer: Some(b.buffer),
                memory: Some(b.memory),
            },
            BuildStep::Abandoned(held) => held,
        }
    }

    /// The next step, from the driver's answer to this one.
    pub fn advance(self, request: &BufferRequest, reply: &BuildReply) -> (r: BuildStep)
        ensures
            r == self.after(*request, *reply),
    {
        match (self, reply) {
            (BuildStep::Ready(_), _) => self,
            (BuildStep::Abandoned(_), _) => self,
            (BuildStep::CreatePool, BuildReply::Created(pool)) => BuildStep::AllocateCommand {
                pool: *pool,
            },
            (
                BuildStep::AllocateCommand { pool },
                BuildReply::Created(cmd),
            ) => BuildStep::CreateFence { pool, cmd: *cmd },
            (BuildStep::CreateFence { pool, cmd }, BuildReply::Created(fence)) => match request.host_ptr {
                Some(_) => BuildStep::QueryHostPointer { pool, cmd, fence: *fence },
                None => BuildStep::CreateBuffer { pool, cmd, fence: *fence, host_types: None },
            },
            (
                BuildStep::QueryHostPointer { pool, cmd, fence },
                BuildReply::HostTypes(bits),
            ) => BuildStep::CreateBuffer { pool, cmd, fence, host_types: Some(*bits) },
            (
                BuildStep::CreateBuffer { pool, cmd, fence, host_types },
                BuildReply::Created(buffer),
            ) => BuildStep::QueryMemory { pool, cmd, fence, host_types, buffer: *buffer },
            (
                BuildStep::QueryMemory { pool, cmd, fence, host_types, buffer },
                BuildReply::Memory { size, type_bits, types },
            ) => {
                let compatible = match host_types {
                    Some(bits) => *type_bits & bits,
                    None => *type_bits,
                };
                match find_memory_type(compatible, types) {
                    Some(type_index) => BuildStep::AllocateMemory {
                        pool,
                        cmd,
                        fence,
                        buffer,
                        size: match request.host_ptr {
                            Some(_) => request.bytes,
                            None => *size,
                        },
                        type_index,
                    },
                    None => BuildStep::Abandoned(self.holding()),
                }
            },
            (
                BuildStep::AllocateMemory { pool, cmd, fence, buffer, size, .. },
                BuildReply::Created(memory),
            ) => BuildStep::BindMemory { pool, cmd, fence, buffer, size, memory: *memory },
            (
                BuildStep::BindMemory { pool, cmd, fence, buffer, size, memory },
                BuildReply::Done,
            ) => match request.host_ptr {
                Some(ptr) => BuildStep::Ready(
                    CaptureBuffer { pool, cmd, fence, buffer, memory, ptr, capacity: size },
                ),
                None => BuildStep::MapMemory { pool, cmd, fence, buffer, size, memory },
            },
            (
                BuildStep::MapMemory { pool, cmd, fence, buffer, size, memory },
                BuildReply::Created(ptr),
            ) => BuildStep::Ready(
                CaptureBuffer { pool, cmd, fence, buffer, memory, ptr: *ptr, capacity: size },
            ),
            _ => BuildStep::Abandoned(self.holding()),
        }
    }
}

/// The memory types both the buffer and, where there is one, the host pointer allow.
pub open spec fn shared_types(type_bits: u32, host_types: Option<u32>) -> u32 {
    match host_types {
        Some(bits) => type_bits & bits,
        None => type_bits,
    }
}

/// The first memory type among `bits` that is host-visible and coherent. `types` holds the
/// property flags of each type; a device has at most 32 of them.
pub fn find_memory_type(bits: u32, types: &Vec<u32>) -> (r: Option<u32>)
    ensures
        is_first_suitable(bits, types@, r),
        r == first_suitable(bits, types@),
{
    let wanted = MEMORY_HOST_VISIBLE | MEMORY_HOST_COHERENT;
    let mut i: u32 = 0;
    while i < 32 && (i as usize) < types.len()
        invariant
            i <= 32,
            i <= types@.len(),
            wanted == host_coherent(),
            forall|j: int| 0 <= j < i ==> !#[trigger] suitable(bits, types@, j),
        decreases 32 - i,
    {
        if bits & (1u32 << i) != 0 && memory_flags_contain(types[i as usize], wanted) {
            assert(suitable(bits, types@, i as int));
            proof {
                lemma_first_suitable(bits, types@, Some(i));
            }
            return Some(i);
        }
        assert(!suitable(bits, types@, i as int));
        i += 1;
    }
    proof {
        lemma_first_suitable(bits, types@, None);
    }
    None
}

proof fn lemma_first_suitable(bits: u32, types: Seq<u32>, index: Option<u32>)
    requires
        is_first_suitable(bits, types, index),
    ensures
        first_suitable(bits, types) == index,
{
    let other = first_suitable(bits, types);
    assert(is_first_suitable(bits, types, other));
    match (index, other) {
        (Some(i), Some(j)) => {
            assert(suitable(bits, types, i as int));
            assert(suitable(bits, types, j as int));
        },
        (Some(i), None) => {
            assert(suitable(bits, types, i as int));
        },
        (None, Some(j)) => {
            assert(suitable(bits, types, j as int));
        },
        (None, None) => {},
    }
}

/// The resource one answer adds to those held.
pub open spec fn gained(step: BuildStep, reply: BuildReply) -> Seq<Resource> {
    match (step, reply) {
        (BuildStep::CreatePool, BuildReply::Created(h)) => seq![Resource::Pool(h)],
        (BuildStep::CreateFence { .. }, BuildReply::Created(h)) => seq![Resource::Fence(h)],
        (BuildStep::CreateBuffer { .. }, BuildReply::Created(h)) => seq![Resource::Buffer(h)],
        (BuildStep::AllocateMemory { .. }, BuildReply::Created(h)) => seq![Resource::Memory(h)],
        _ => seq![],
    }
}

/// Where a building stands after a run of answers.
pub open spec fn build(request: BufferRequest, replies: Seq<BuildReply>) -> BuildStep
    decreases replies.len(),
{
    if replies.len() == 0 {
        BuildStep::CreatePool
    } else {
        build(request, replies.drop_last()).after(request, replies.last())
    }
}

/// Every resource that a run of answers made.
pub open spec fn all_gained(request: BufferRequest, replies: Seq<BuildReply>) -> Seq<Resource>
    decreases replies.len(),
{
    if replies.len() == 0 {
        seq![]
    } else {
        all_gained(request, replies.drop_last()) + gained(
            build(request, replies.drop_last()),
            replies.last(),
        )
    }
}

/// Nothing leaks and nothing is destroyed that was not made: whatever the driver answers,
/// the resources it made are exactly those of the buffer that comes out, or exactly those
/// that a failed building hands back for destruction, in the reverse order of making.
pub proof fn building_never_leaks(request: BufferRequest, replies: Seq<BuildReply>)
    ensures
        build(request, replies).held().made() == all_gained(request, replies),
        build(request, replies) matches BuildStep::Ready(buffer) ==> {
            &&& buffer.made() == all_gained(request, replies)
            &&& buffer.destruction().to_multiset() == all_gained(request, replies).to_multiset()
        },
        build(request, replies) matches BuildStep::Abandoned(held) ==> held.made() == all_gained(
            request,
            replies,
        ),
    decreases replies.len(),
{
    if replies.len() == 0 {
        assert(build(request, replies).held().made() =~= seq![]);
    } else {
        building_never_leaks(request, replies.drop_last());
        let before = build(request, replies.drop_last());
        let now = build(request, replies);
        assert(now.held().made() =~= before.held().made() + gained(before, replies.last()));
    }
    match build(request, replies) {
        BuildStep::Ready(buffer) => {
            assert(buffer.made() =~= build(request, replies).held().made());
            lemma_same_resources(buffer);
        },
        _ => {},
    }
}

proof fn lemma_same_resources(buffer: CaptureBuffer)
    ensures
        buffer.destruction().to_multiset() == buffer.made().to_multiset(),
{
    broadcast use vstd::seq_lib::group_to_multiset_ensures;

    let rest = seq![
        Resource::Fence(buffer.fence),
        Resource::Buffer(buffer.buffer),
        Resource::Memory(buffer.memory),
    ];
    let pool = seq![Resource::Pool(buffer.pool)];
    assert(buffer.made() =~= pool + rest);
    assert(buffer.destruction() =~= rest + pool);
    vstd::seq_lib::lemma_multiset_commutative(pool, rest);
    vstd::seq_lib::lemma_multiset_commutative(rest, pool);
    assert(buffer.destruction().to_multiset() =~= buffer.made().to_multiset());
}

/// Any nine answers finish a building.
pub proof fn building_finishes(request: BufferRequest, replies: Seq<BuildReply>)
    requires
        replies.len() >= 9,
    ensures
        build(request, replies).finished(),
{
    lemma_rank(request, replies);
}

/// How many steps are left at most.
spec fn rank(step: BuildStep) -> int {
    match step {
        BuildStep::CreatePool => 9,
        BuildStep::AllocateCommand { .. } => 8,
        BuildStep::CreateFence { .. } => 7,
        BuildStep::QueryHostPointer { .. } => 6,
        BuildStep::CreateBuffer { .. } => 5,
        BuildStep::QueryMemory { .. } => 4,
        BuildStep::AllocateMemory { .. } => 3,
        BuildStep::BindMemory { .. } => 2,
        BuildStep::MapMemory { .. } => 1,
        BuildStep::Ready(_) => 0,
        BuildStep::Abandoned(_) => 0,
    }
}

proof fn lemma_rank(request: BufferRequest, replies: Seq<BuildReply>)
    ensures
        rank(build(request, replies)) <= 9 - replies.len() || build(request, replies).finished(),
    decreases replies.len(),
{
    if replies.len() > 0 {
        lemma_rank(request, replies.drop_last());
    }
}

/// Where a building stands, the driver call due is exactly what the request needs: there is
/// one until the building is finished, a buffer names the kind of memory it will be bound to
/// before that memory is imported, and both name the same kind.
pub proof fn imports_are_declared_up_front(request: BufferRequest, replies: Seq<BuildReply>)
    ensures
        ({
            let step = build(request, replies);
            let due = step.driver_call(request);
            &&& due is None <==> step.finished()
            &&& due matches Some(DriverCall::CreateBuffer { external, .. }) ==> external == (
            if request.host_ptr is Some {
                Some(HANDLE_HOST_ALLOCATION)
            } else {
                None
            })
            &&& due matches Some(DriverCall::AllocateMemory { import, .. }) ==> match import {
                Some(memory) => memory.handle_type == HANDLE_HOST_ALLOCATION && request.host_ptr
                    == Some(memory.host_ptr),
                None => request.host_ptr is None,
            }
        }),
    decreases replies.len(),
{
    if replies.len() > 0 {
        imports_are_declared_up_front(request, replies.drop_last());
    }
}

/// A buffer built on a host pointer is mapped at that pointer and holds the requested
/// bytes: captures land in the host's own memory.
pub proof fn imported_buffers_are_the_host_memory(request: BufferRequest, replies: Seq<BuildReply>)
    requires
        request.host_ptr is Some,
    ensures
        build(request, replies) matches BuildStep::Ready(buffer) ==> {
            &&& request.host_ptr == Some(buffer.ptr)
            &&& buffer.capacity == request.bytes
        },
        !(build(request, replies) is MapMemory),
        build(request, replies) matches BuildStep::AllocateMemory { size, .. } ==> size
            == request.bytes,
        build(request, replies) matches BuildStep::BindMemory { size, .. } ==> size
            == request.bytes,
    decreases replies.len(),
{
    if replies.len() > 0 {
        imported_buffers_are_the_host_memory(request, replies.drop_last());
    }
}

/// The driver is asked for what the request says, with the objects it made for it before: a
/// pool on the requested family whose command buffer can be reset, one primary command buffer
/// of that pool, a fence that has signalled, and a buffer of the requested size that can be
/// copied from and to. Memory is bound from its start and mapped whole.
pub proof fn the_driver_is_asked_for_what_is_needed(request: BufferRequest, replies: Seq<BuildReply>)
    ensures
        match build(request, replies).driver_call(request) {
            Some(DriverCall::CreateCommandPool { queue_family, flags }) => {
                &&& replies.len() == 0
                &&& queue_family == request.queue_family
                &&& flags == 2
            },
            Some(DriverCall::AllocateCommandBuffers { pool, level, count }) => {
                &&& replies.len() == 1
                &&& replies[0] == BuildReply::Created(pool)
                &&& level == 0
                &&& count == 1
            },
            Some(DriverCall::CreateFence { flags }) => replies.len() == 2 && flags == 1,
            Some(DriverCall::GetMemoryHostPointerProperties { handle_type, host_ptr }) => {
                &&& replies.len() == 3
                &&& handle_type == 0x80
                &&& request.host_ptr == Some(host_ptr)
            },
            Some(DriverCall::CreateBuffer { size, usage, sharing_mode, external }) => {
                &&& size == request.bytes
                &&& usage & 1 == 1
                &&& usage & 2 == 2
                &&& usage & !3u32 == 0
                &&& sharing_mode == 0
                &&& external is Some <==> request.host_ptr is Some
                &&& external matches Some(kind) ==> kind == 0x80
            },
            Some(DriverCall::GetMemoryRequirements { buffer }) => replies.last()
                == BuildReply::Created(buffer),
            Some(DriverCall::AllocateMemory { import, .. }) => {
                &&& import is Some <==> request.host_ptr is Some
                &&& import matches Some(memory) ==> memory.handle_type == 0x80
                    && request.host_ptr == Some(memory.host_ptr)
            },
            Some(DriverCall::BindBufferMemory { memory, offset, .. }) => {
                &&& replies.last() == BuildReply::Created(memory)
                &&& offset == 0
            },
            Some(DriverCall::MapMemory { offset, size, .. }) => {
                &&& request.host_ptr is None
                &&& offset == 0
                &&& size == u64::MAX
            },
            None => build(request, replies) is Ready || build(request, replies) is Abandoned,
        },
    decreases replies.len(),
{
    assert((1u32 | 2u32) & 1 == 1 && (1u32 | 2u32) & 2 == 2 && (1u32 | 2u32) & !3u32 == 0)
        by (bit_vector);
    lemma_course(request, replies);
    if replies.len() > 0 {
        lemma_course(request, replies.drop_last());
    }
}

/// How many answers each step comes after, and which of them it holds.
proof fn lemma_course(request: BufferRequest, replies: Seq<BuildReply>)
    ensures
        match build(request, replies) {
            BuildStep::CreatePool => replies.len() == 0,
            BuildStep::AllocateCommand { pool } => replies.len() == 1 && replies[0]
                == BuildReply::Created(pool),
            BuildStep::CreateFence { pool, cmd } => replies.len() == 2 && replies[0]
                == BuildReply::Created(pool) && replies[1] == BuildReply::Created(cmd),
            BuildStep::QueryHostPointer { pool, cmd, fence } => replies.len() == 3
                && request.host_ptr is Some && replies[0] == BuildReply::Created(pool)
                && replies[1] == BuildReply::Created(cmd) && replies[2] == BuildReply::Created(
                fence,
            ),
            BuildStep::MapMemory { .. } => request.host_ptr is None,
            _ => true,
        },
    decreases replies.len(),
{
    if replies.len() > 0 {
        let front = replies.drop_last();
        lemma_course(request, front);
        assert(forall|i: int| 0 <= i < front.len() ==> front[i] == replies[i]);
    }
}

/// The memory is one the CPU and the buffer can share: its type is among those the buffer
/// allows, and those the host pointer does where there is one, is visible to the host and
/// coherent, and no type before it is all that. A fresh allocation is as large as the driver
/// says the buffer needs; an imported one is the requested memory.
pub proof fn memory_is_shared_with_the_cpu(
    request: BufferRequest,
    before: BuildStep,
    size: u64,
    type_bits: u32,
    types: Vec<u32>,
)
    requires
        before is QueryMemory,
    ensures
        ({
            let allowed = match before->QueryMemory_host_types {
                Some(bits) => type_bits & bits,
                None => type_bits,
            };
            match before.after(request, BuildReply::Memory { size, type_bits, types }) {
                BuildStep::AllocateMemory { buffer, size: asked, type_index, .. } => {
                    &&& buffer == before->QueryMemory_buffer
                    &&& asked == (if request.host_ptr is Some {
                        request.bytes
                    } else {
                        size
                    })
                    &&& type_index < types@.len() && type_index < 32
                    &&& allowed & (1u32 << type_index) != 0
                    &&& types@[type_index as int] & 6 == 6
                    &&& forall|i: u32|
                        i < type_index ==> allowed & (1u32 << i) == 0 || #[trigger] types@[i as int]
                            & 6 != 6
                },
                BuildStep::Abandoned(_) => forall|i: u32|
                    i < 32 && i < types@.len() ==> allowed & (1u32 << i) == 0
                        || #[trigger] types@[i as int] & 6 != 6,
                _ => false,
            }
        }),
{
    assert(2u32 | 4u32 == 6u32) by (bit_vector);
    let allowed = shared_types(type_bits, before->QueryMemory_host_types);
    lemma_some_suitable(allowed, types@, 0);
    let found = first_suitable(allowed, types@);
    assert(is_first_suitable(allowed, types@, found));
    match found {
        Some(k) => {
            assert(suitable(allowed, types@, k as int));
            assert forall|i: u32| i < k implies allowed & (1u32 << i) == 0
                || #[trigger] types@[i as int] & 6 != 6 by {
                assert(!suitable(allowed, types@, i as int));
            }
        },
        None => {
            assert forall|i: u32| i < 32 && i < types@.len() implies allowed & (1u32 << i) == 0
                || #[trigger] types@[i as int] & 6 != 6 by {
                assert(!suitable(allowed, types@, i as int));
            }
        },
    }
}

/// There is a first suitable type from `from` on, or none at all.
proof fn lemma_some_suitable(bits: u32, types: Seq<u32>, from: int)
    requires
        0 <= from <= 32,
        forall|j: int| 0 <= j < from ==> !#[trigger] suitable(bits, types, j),
    ensures
        exists|index: Option<u32>| is_first_suitable(bits, types, index),
    decreases 32 - from,
{
    if from == 32 {
        assert(is_first_suitable(bits, types, None));
    } else if suitable(bits, types, from) {
        assert(is_first_suitable(bits, types, Some(from as u32)));
    } else {
        lemma_some_suitable(bits, types, from + 1);
    }
}

/// A driver that gives everything it is asked for gives a buffer, made of exactly the handles
/// it gave: mapped where it says and as large as it says, or on the host memory itself. One
/// that refuses anything ends the building.
pub proof fn a_willing_driver_gives_a_buffer(
    request: BufferRequest,
    pool: u64,
    cmd: u64,
    fence: u64,
    host_types: u32,
    buffer: u64,
    memory: u64,
    ptr: u64,
    size: u64,
    type_index: u32,
)
    ensures
        ({
            let fenced = BuildStep::CreatePool.after(request, BuildReply::Created(pool)).after(
                request,
                BuildReply::Created(cmd),
            ).after(request, BuildReply::Created(fence));
            let ready = match request.host_ptr {
                Some(_) => fenced.after(request, BuildReply::HostTypes(host_types)),
                None => fenced,
            };
            let asked = ready.after(request, BuildReply::Created(buffer));
            let bound = (BuildStep::AllocateMemory { pool, cmd, fence, buffer, size, type_index }).after(
                request,
                BuildReply::Created(memory),
            ).after(request, BuildReply::Done);
            &&& asked == (BuildStep::QueryMemory {
                pool,
                cmd,
                fence,
                host_types: match request.host_ptr {
                    Some(_) => Some(host_types),
                    None => None,
                },
                buffer,
            })
            &&& match request.host_ptr {
                Some(host_ptr) => bound == BuildStep::Ready(
                    CaptureBuffer { pool, cmd, fence, buffer, memory, ptr: host_ptr, capacity: size },
                ),
                None => bound.after(request, BuildReply::Created(ptr)) == BuildStep::Ready(
                    CaptureBuffer { pool, cmd, fence, buffer, memory, ptr, capacity: size },
                ),
            }
        }),
{
}

/// A refusal ends the building wherever it comes, and what is finished stays so.
pub proof fn refusals_end_the_building(request: BufferRequest, step: BuildStep, reply: BuildReply)
    ensures
        !(step is Ready) ==> step.after(request, BuildReply::Failed) is Abandoned,
        step is Ready || step is Abandoned ==> step.after(request, reply) == step,
{
}

} // verus!
