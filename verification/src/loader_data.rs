//! Setting up dispatchable objects that the layer makes below the loader.
//!
//! An object made below the loader's own entry points lacks the loader's dispatch pointer.
//! The loader hands a device a function that sets it, somewhere in the chain of creation
//! structures; older loaders leave it to the layer to copy the device's own pointer.
use std::collections::HashMap;

use vstd::prelude::*;

use crate::vulkan::{vk_result, SUCCESS, TYPE_LOADER_DEVICE_CREATE_INFO};

verus! {

broadcast use vstd::std_specs::hash::group_hash_axioms;

/// The value of `function` in the structure that carries the loader's setter.
pub const LOADER_DATA_CALLBACK: u32 = 1;

/// One structure of a device's creation chain. `function` and `setter` mean something only
/// where the structure is the loader's own.
#[derive(Debug)]
pub struct ChainNode<F> {
    pub s_type: i32,
    pub function: u32,
    pub setter: Option<F>,
}

/// The devices the layer knows, each with the loader's setter if there was one.
#[derive(Debug)]
pub struct Devices<F> {
    pub setters: HashMap<u64, Option<F>>,
}

/// How an object is set up.
#[derive(Debug)]
pub enum Initialization<F> {
    /// Call the loader's setter.
    Call(F),
    /// Copy the device's first pointer-sized slot into the object's.
    CopyDispatchSlot,
    /// The object came through the loader and is set up already.
    Nothing,
}

/// What the allocation of command buffers does next.
#[derive(Clone, Copy, Debug, PartialEq, Eq, Structural)]
pub enum AllocateStep {
    /// Set the command buffer with this index up.
    Initialize(usize),
    /// Free all of them: one could not be set up.
    Free { error: i32 },
    Ready,
    Failed(i32),
}

impl<F> ChainNode<F> {
    /// The structure carries the loader's setter.
    pub open spec fn is_callback(&self) -> bool {
        self.s_type == TYPE_LOADER_DEVICE_CREATE_INFO && self.function == LOADER_DATA_CALLBACK
    }
}

/// The setter in the first structure of the chain that carries one.
pub open spec fn setter_in<F>(chain: Seq<ChainNode<F>>) -> Option<F>
    decreases chain.len(),
{
    if chain.len() == 0 {
        None
    } else if chain.first().is_callback() {
        chain.first().setter
    } else {
        setter_in(chain.drop_first())
    }
}

fn find_setter<F: Copy>(chain: &Vec<ChainNode<F>>) -> (r: Option<F>)
    ensures
        r == setter_in(chain@),
{
    let mut i: usize = 0;
    assert(chain@.skip(0) =~= chain@);
    while i < chain.len()
        invariant
            i <= chain@.len(),
            setter_in(chain@) == setter_in(chain@.skip(i as int)),
        decreases chain@.len() - i,
    {
        let node = &chain[i];
        proof {
            assert(chain@.skip(i as int).drop_first() =~= chain@.skip(i + 1));
        }
        if node.s_type == TYPE_LOADER_DEVICE_CREATE_INFO && node.function == LOADER_DATA_CALLBACK {
            return node.setter;
        }
        i += 1;
    }
    None
}

impl<F: Copy> Devices<F> {
    pub fn new() -> (r: Self)
        ensures
            r.setters@ == Map::<u64, Option<F>>::empty(),
    {
        Devices { setters: HashMap::new() }
    }

    /// Registers a device, with the setter its creation chain carries.
    pub fn register(&mut self, device: u64, chain: &Vec<ChainNode<F>>)
        ensures
            final(self).setters@ == old(self).setters@.insert(device, setter_in(chain@)),
    {
        let setter = find_setter(chain);
        self.setters.insert(device, setter);
    }

    /// Forgets a device that is gone.
    pub fn unregister(&mut self, device: u64)
        ensures
            final(self).setters@ == old(self).setters@.remove(device),
    {
        self.setters.remove(&device);
    }

    /// How an object of this device is set up.
    pub open spec fn initialization(&self, device: u64) -> Initialization<F> {
        if !self.setters@.dom().contains(device) {
            Initialization::Nothing
        } else {
            match self.setters@[device] {
                Some(setter) => Initialization::Call(setter),
                None => Initialization::CopyDispatchSlot,
            }
        }
    }

    /// How an object of this device is set up.
    pub fn initialize(&self, device: u64) -> (r: Initialization<F>)
        ensures
            r == self.initialization(device),
    {
        match self.setters.get(&device) {
            Some(Some(setter)) => Initialization::Call(*setter),
            Some(None) => Initialization::CopyDispatchSlot,
            None => Initialization::Nothing,
        }
    }
}

/// The first step after `count` command buffers were allocated.
pub fn allocate_commands(count: usize) -> (r: AllocateStep)
    ensures
        r == AllocateStep::start(count),
{
    if count == 0 {
        AllocateStep::Ready
    } else {
        AllocateStep::Initialize(0)
    }
}

impl AllocateStep {
    pub open spec fn start(count: usize) -> AllocateStep {
        if count == 0 {
            AllocateStep::Ready
        } else {
            AllocateStep::Initialize(0)
        }
    }

    /// The step once the setting up of a command buffer has given this result, or the
    /// command buffers have been freed.
    pub open spec fn after(self, count: usize, code: i32) -> AllocateStep {
        match self {
            AllocateStep::Initialize(index) => if code != SUCCESS {
                AllocateStep::Free { error: code }
            } else if index + 1 < count {
                AllocateStep::Initialize((index + 1) as usize)
            } else {
                AllocateStep::Ready
            },
            AllocateStep::Free { error } => AllocateStep::Failed(error),
            _ => self,
        }
    }

    /// The next step, from the result of this one.
    pub fn advance(self, count: usize, code: i32) -> (r: AllocateStep)
        ensures
            r == self.after(count, code),
    {
        match self {
            AllocateStep::Initialize(index) => match vk_result(code) {
                Err(error) => AllocateStep::Free { error },
                Ok(()) => if count > 0 && index < count - 1 {
                    AllocateStep::Initialize(index + 1)
                } else {
                    AllocateStep::Ready
                },
            },
            AllocateStep::Free { error } => AllocateStep::Failed(error),
            _ => self,
        }
    }
}

/// Where an allocation stands after a run of results.
pub open spec fn allocated(count: usize, codes: Seq<i32>) -> AllocateStep
    decreases codes.len(),
{
    if codes.len() == 0 {
        AllocateStep::start(count)
    } else {
        allocated(count, codes.drop_last()).after(count, codes.last())
    }
}

/// Command buffers are handed out only if every one of them was set up, in order; the first
/// that could not be set up decides the error.
pub proof fn command_buffers_are_all_set_up(count: usize, codes: Seq<i32>)
    ensures
        match allocated(count, codes) {
            AllocateStep::Initialize(index) => {
                &&& index == codes.len() < count
                &&& forall|i: int| 0 <= i < codes.len() ==> codes[i] == SUCCESS
            },
            AllocateStep::Ready => {
                &&& count <= codes.len()
                &&& forall|i: int| 0 <= i < count ==> codes[i] == SUCCESS
            },
            AllocateStep::Free { error } | AllocateStep::Failed(error) => {
                exists|k: int|
                    0 <= k < codes.len() && k < count && #[trigger] codes[k] == error && error
                        != SUCCESS && forall|i: int| 0 <= i < k ==> codes[i] == SUCCESS
            },
        },
    decreases codes.len(),
{
    if codes.len() > 0 {
        let front = codes.drop_last();
        command_buffers_are_all_set_up(count, front);
        match allocated(count, front) {
            AllocateStep::Free { error } | AllocateStep::Failed(error) => {
                let k = choose|k: int|
                    0 <= k < front.len() && k < count && #[trigger] front[k] == error && error
                        != SUCCESS && forall|i: int| 0 <= i < k ==> front[i] == SUCCESS;
                assert(codes[k] == error);
                assert forall|i: int| 0 <= i < k implies codes[i] == SUCCESS by {
                    assert(front[i] == codes[i]);
                }
            },
            AllocateStep::Initialize(index) => {
                assert forall|i: int| 0 <= i < front.len() implies codes[i] == SUCCESS by {
                    assert(front[i] == codes[i]);
                }
                assert(codes[index as int] == codes.last());
            },
            AllocateStep::Ready => {
                assert forall|i: int| 0 <= i < count implies codes[i] == SUCCESS by {
                    assert(front[i] == codes[i]);
                }
            },
        }
    }
}

/// A setter is found wherever it stands in the chain: structures before it that are not the
/// loader's own do not hide it, and what follows it does not matter.
pub proof fn unrelated_structures_do_not_hide_the_setter<F>(
    front: Seq<ChainNode<F>>,
    callback: ChainNode<F>,
    back: Seq<ChainNode<F>>,
)
    requires
        callback.is_callback(),
        forall|i: int| 0 <= i < front.len() ==> !(#[trigger] front[i]).is_callback(),
    ensures
        setter_in(front.push(callback) + back) == callback.setter,
    decreases front.len(),
{
    let chain = front.push(callback) + back;
    if front.len() == 0 {
        assert(chain.first() == callback);
    } else {
        assert(chain.first() == front[0]);
        assert(chain.drop_first() =~= front.drop_first().push(callback) + back);
        assert forall|i: int| 0 <= i < front.drop_first().len() implies !(
        #[trigger] front.drop_first()[i]).is_callback() by {
            assert(front.drop_first()[i] == front[i + 1]);
        }
        unrelated_structures_do_not_hide_the_setter(front.drop_first(), callback, back);
    }
}

/// An object is set up as its device was registered: by the setter its creation chain carried,
/// by the device's own pointer where there was none, and not at all for a device that is not
/// known.
pub proof fn objects_are_set_up_as_their_device_was_registered<F: Copy>(devices: Devices<F>, device: u64, setter: F)
    ensures
        devices.setters@.dom().contains(device) && devices.setters@[device] == Some(setter)
            ==> devices.initialization(device) == Initialization::Call(setter),
        devices.setters@.dom().contains(device) && devices.setters@[device] is None
            ==> devices.initialization(device) is CopyDispatchSlot,
        !devices.setters@.dom().contains(device) ==> devices.initialization(device) is Nothing,
{
}

/// A chain without the loader's structure carries no setter.
pub proof fn other_structures_carry_no_setter<F>(chain: Seq<ChainNode<F>>)
    requires
        forall|i: int|
            0 <= i < chain.len() ==> (#[trigger] chain[i]).s_type != 48 || chain[i].function != 1,
    ensures
        setter_in(chain) is None,
    decreases chain.len(),
{
    if chain.len() > 0 {
        assert(chain.first() == chain[0]);
        assert forall|i: int| 0 <= i < chain.drop_first().len() implies (
        #[trigger] chain.drop_first()[i]).s_type != 48 || chain.drop_first()[i].function != 1 by {
            assert(chain.drop_first()[i] == chain[i + 1]);
        }
        other_structures_carry_no_setter(chain.drop_first());
    }
}

/// The loader's structure is told by its type and function alone, and the first one counts.
pub proof fn the_loaders_structure_counts<F>(front: Seq<ChainNode<F>>, callback: ChainNode<F>, back: Seq<ChainNode<F>>)
    requires
        callback.s_type == 48,
        callback.function == 1,
        forall|i: int|
            0 <= i < front.len() ==> (#[trigger] front[i]).s_type != 48 || front[i].function != 1,
    ensures
        setter_in(front.push(callback) + back) == callback.setter,
{
    unrelated_structures_do_not_hide_the_setter(front, callback, back);
}

} // verus!
