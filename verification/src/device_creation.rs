//! Adding one extension to the devices a game creates.
//!
//! Capturing straight into shared memory needs an extension that no game asks for, on the
//! game's own device. So the creation of a device is taken over where the extension can be
//! added, and only then; and it must never be the reason that a creation fails.
use std::collections::HashSet;

use vstd::prelude::*;
use vstd::string::*;

use crate::text::same_bytes;
use crate::vulkan::SUCCESS;

verus! {

broadcast use vstd::std_specs::hash::group_hash_axioms;

/// The extension that is added.
pub const EXTERNAL_MEMORY_HOST_EXTENSION: &'static str = "VK_EXT_external_memory_host";

/// What the creation of a device does next.
#[derive(Clone, Copy, Debug, PartialEq, Eq, Structural)]
pub enum CreateDeviceStep {
    /// Leave it to the framework.
    Unhandled,
    /// Create the device with the extension added.
    CreateExtended,
    /// Create the device exactly as the game asked.
    CreateOriginal,
    /// The device is there, with or without the extension.
    Created { extended: bool },
    Failed(i32),
}

/// The devices that were created with the extension and not asked for yet.
#[derive(Debug)]
pub struct ExtendedDevices {
    pub handles: HashSet<u64>,
}

/// The list names this extension.
pub open spec fn names_extension(list: Seq<Vec<u8>>, extension: Seq<u8>) -> bool {
    exists|i: int| 0 <= i < list.len() && (#[trigger] list[i])@ == extension
}

fn lists(list: &Vec<Vec<u8>>, extension: &[u8]) -> (r: bool)
    ensures
        r == names_extension(list@, extension@),
{
    let mut i: usize = 0;
    while i < list.len()
        invariant
            i <= list@.len(),
            forall|k: int| 0 <= k < i ==> (#[trigger] list@[k])@ != extension@,
        decreases list@.len() - i,
    {
        if same_bytes(list[i].as_slice(), extension) {
            assert(list@[i as int]@ == extension@);
            return true;
        }
        i += 1;
    }
    false
}

/// The first step: the creation is taken over only if the game did not ask for the
/// extension itself and the device supports it.
pub fn create_device(requested: &Vec<Vec<u8>>, supported: &Vec<Vec<u8>>) -> (r: CreateDeviceStep)
    ensures
        r == (if !names_extension(requested@, EXTERNAL_MEMORY_HOST_EXTENSION.spec_bytes())
            && names_extension(supported@, EXTERNAL_MEMORY_HOST_EXTENSION.spec_bytes()) {
            CreateDeviceStep::CreateExtended
        } else {
            CreateDeviceStep::Unhandled
        }),
{
    let extension = EXTERNAL_MEMORY_HOST_EXTENSION.as_bytes();
    if !lists(requested, extension) && lists(supported, extension) {
        CreateDeviceStep::CreateExtended
    } else {
        CreateDeviceStep::Unhandled
    }
}

impl CreateDeviceStep {
    /// The step once a creation has given this result.
    pub open spec fn after(self, code: i32) -> CreateDeviceStep {
        match self {
            CreateDeviceStep::CreateExtended => if code == SUCCESS {
                CreateDeviceStep::Created { extended: true }
            } else {
                CreateDeviceStep::CreateOriginal
            },
            CreateDeviceStep::CreateOriginal => if code == SUCCESS {
                CreateDeviceStep::Created { extended: false }
            } else {
                CreateDeviceStep::Failed(code)
            },
            _ => self,
        }
    }

    /// The next step, from the result of this one. A refusal of the extended request is
    /// followed by the game's own request.
    pub fn advance(self, code: i32) -> (r: CreateDeviceStep)
        ensures
            r == self.after(code),
    {
        match self {
            CreateDeviceStep::CreateExtended => if code == SUCCESS {
                CreateDeviceStep::Created { extended: true }
            } else {
                CreateDeviceStep::CreateOriginal
            },
            CreateDeviceStep::CreateOriginal => if code == SUCCESS {
                CreateDeviceStep::Created { extended: false }
            } else {
                CreateDeviceStep::Failed(code)
            },
            _ => self,
        }
    }
}

impl ExtendedDevices {
    pub fn new() -> (r: Self)
        ensures
            r.handles@ == Set::<u64>::empty(),
    {
        ExtendedDevices { handles: HashSet::new() }
    }

    /// Notes a device that was created with the extension.
    pub fn record(&mut self, device: u64)
        ensures
            final(self).handles@ == old(self).handles@.insert(device),
    {
        self.handles.insert(device);
    }

    /// Whether the device was created with the extension. It is asked once: after that it
    /// is not known any more, so that a later device with the same handle is not mistaken
    /// for it.
    pub fn take(&mut self, device: u64) -> (r: bool)
        ensures
            r == old(self).handles@.contains(device),
            final(self).handles@ == old(self).handles@.remove(device),
    {
        self.handles.remove(&device)
    }
}

/// Adding the extension never makes a creation fail: it fails only if the game's own
/// request was made and refused, and then with that very error.
pub proof fn the_extension_never_costs_a_device(extended: i32, original: i32)
    ensures
        ({
            let last = CreateDeviceStep::CreateExtended.after(extended).after(original);
            &&& extended == SUCCESS ==> last == (CreateDeviceStep::Created { extended: true })
            &&& extended != SUCCESS && original == SUCCESS ==> last == (
            CreateDeviceStep::Created { extended: false })
            &&& last matches CreateDeviceStep::Failed(code) ==> code == original
        }),
{
}

/// The extended request is made first and the game's own only after it was refused; the
/// application gets the error of its own request, and only if that was refused as well.
pub proof fn refusals_fall_back_to_the_games_request(extended: i32, original: i32)
    ensures
        CreateDeviceStep::CreateExtended.after(extended) is CreateOriginal <==> extended != SUCCESS,
        extended != SUCCESS && original != SUCCESS
            ==> CreateDeviceStep::CreateExtended.after(extended).after(original)
            == CreateDeviceStep::Failed(original),
        CreateDeviceStep::Unhandled.after(extended) == CreateDeviceStep::Unhandled,
{
}

/// A list names an extension exactly if one of its entries is that name, byte for byte,
/// wherever it stands.
pub proof fn lists_name_what_they_hold(list: Seq<Vec<u8>>, entry: Vec<u8>, extension: Seq<u8>)
    ensures
        !names_extension(Seq::empty(), extension),
        names_extension(list.push(entry), extension) <==> names_extension(list, extension)
            || entry@ == extension,
{
    let more = list.push(entry);
    if entry@ == extension {
        assert(more[list.len() as int]@ == extension);
    }
    if names_extension(list, extension) {
        let i = choose|i: int| 0 <= i < list.len() && (#[trigger] list[i])@ == extension;
        assert(more[i]@ == extension);
    }
    if names_extension(more, extension) {
        let i = choose|i: int| 0 <= i < more.len() && (#[trigger] more[i])@ == extension;
        if i < list.len() {
            assert(list[i]@ == extension);
        }
    }
}

} // verus!
