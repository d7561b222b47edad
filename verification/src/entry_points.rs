//! The entry points the loader asks for, and the few that are answered by the layer itself.
//!
//! The destruction of a device is intercepted so that the layer's own objects go first.
//! Lookups of the lookup functions are intercepted too, so that later lookups come back
//! here. Everything else is the framework's.
use vstd::prelude::*;
use vstd::string::*;
use vstd::utf8::*;

use crate::text::same_bytes;
use crate::vulkan::NULL_HANDLE;

verus! {

/// The entry points of the layer.
pub struct EntryPoints;

/// The commands that are answered by the layer itself.
#[derive(Clone, Copy, Debug, PartialEq, Eq, Structural)]
pub enum Intercepted {
    DestroyDevice,
    GetInstanceProcAddr,
    GetDeviceProcAddr,
}

/// The layer's own functions for the intercepted commands.
#[derive(Debug)]
pub struct Adapters<F> {
    pub destroy_device: F,
    pub get_instance_proc_addr: F,
    pub get_device_proc_addr: F,
}

/// What the destruction of a device comes to.
#[derive(Debug)]
pub enum DestroyPlan<F> {
    /// Nothing: there is no device, or no one below knows it.
    Ignore,
    /// Tear the layer's side down, then call the framework's own function.
    TearDown(F),
}

/// The command of this name, if it is intercepted.
pub open spec fn command_named(name: Seq<u8>) -> Option<Intercepted> {
    if name == "vkDestroyDevice".spec_bytes() {
        Some(Intercepted::DestroyDevice)
    } else if name == "vkGetInstanceProcAddr".spec_bytes() {
        Some(Intercepted::GetInstanceProcAddr)
    } else if name == "vkGetDeviceProcAddr".spec_bytes() {
        Some(Intercepted::GetDeviceProcAddr)
    } else {
        None
    }
}

impl<F> Adapters<F> {
    pub open spec fn adapter(&self, command: Intercepted) -> F {
        match command {
            Intercepted::DestroyDevice => self.destroy_device,
            Intercepted::GetInstanceProcAddr => self.get_instance_proc_addr,
            Intercepted::GetDeviceProcAddr => self.get_device_proc_addr,
        }
    }

    /// What a lookup answers, given what the framework answered.
    pub open spec fn answer(&self, name: Seq<u8>, original: Option<F>) -> Option<F> {
        match (original, command_named(name)) {
            (Some(_), Some(command)) => Some(self.adapter(command)),
            _ => original,
        }
    }
}

fn intercepted(name: &[u8]) -> (r: Option<Intercepted>)
    ensures
        r == command_named(name@),
{
    if same_bytes(name, "vkDestroyDevice".as_bytes()) {
        Some(Intercepted::DestroyDevice)
    } else if same_bytes(name, "vkGetInstanceProcAddr".as_bytes()) {
        Some(Intercepted::GetInstanceProcAddr)
    } else if same_bytes(name, "vkGetDeviceProcAddr".as_bytes()) {
        Some(Intercepted::GetDeviceProcAddr)
    } else {
        None
    }
}

impl EntryPoints {
    /// Answers a lookup. A null answer of the framework stays null, and a command that is
    /// not intercepted keeps the framework's function.
    pub fn intercept<F: Copy>(name: &[u8], original: Option<F>, adapters: &Adapters<F>) -> (r: Option<F>)
        ensures
            r == adapters.answer(name@, original),
    {
        if original.is_none() {
            return original;
        }
        match intercepted(name) {
            Some(Intercepted::DestroyDevice) => Some(adapters.destroy_device),
            Some(Intercepted::GetInstanceProcAddr) => Some(adapters.get_instance_proc_addr),
            Some(Intercepted::GetDeviceProcAddr) => Some(adapters.get_device_proc_addr),
            None => original,
        }
    }

    /// Decides what the destruction of a device does, from the framework's own function for
    /// it.
    pub fn destroy_device<F>(device: u64, original: Option<F>) -> (r: DestroyPlan<F>)
        ensures
            r == (match original {
                Some(command) if device != NULL_HANDLE => DestroyPlan::TearDown(command),
                _ => DestroyPlan::Ignore,
            }),
    {
        match original {
            Some(command) => if device != NULL_HANDLE {
                DestroyPlan::TearDown(command)
            } else {
                DestroyPlan::Ignore
            },
            None => DestroyPlan::Ignore,
        }
    }
}

/// Interception never makes a command appear: a lookup answers null exactly where the
/// framework does.
pub proof fn interception_preserves_null<F>(adapters: Adapters<F>, name: Seq<u8>, original: Option<F>)
    ensures
        adapters.answer(name, original) is None <==> original is None,
        command_named(name) is None ==> adapters.answer(name, original) == original,
{
}

/// Exactly the three commands are answered by the layer, each by its own function: the end of
/// a device and the two lookups, by their full names. Any other name keeps the framework's.
pub proof fn three_commands_are_answered<F>(adapters: Adapters<F>, name: Seq<u8>, original: F)
    ensures
        name == "vkDestroyDevice".spec_bytes() ==> adapters.answer(name, Some(original)) == Some(
            adapters.destroy_device,
        ),
        name == "vkGetInstanceProcAddr".spec_bytes() ==> adapters.answer(name, Some(original))
            == Some(adapters.get_instance_proc_addr),
        name == "vkGetDeviceProcAddr".spec_bytes() ==> adapters.answer(name, Some(original))
            == Some(adapters.get_device_proc_addr),
        name != "vkDestroyDevice".spec_bytes() && name != "vkGetInstanceProcAddr".spec_bytes()
            && name != "vkGetDeviceProcAddr".spec_bytes() ==> adapters.answer(name, Some(original))
            == Some(original),
        adapters.answer(name, None) is None,
{
    reveal_strlit("vkDestroyDevice");
    reveal_strlit("vkGetInstanceProcAddr");
    reveal_strlit("vkGetDeviceProcAddr");
    encode_utf8_decode_utf8("vkDestroyDevice"@);
    encode_utf8_decode_utf8("vkGetInstanceProcAddr"@);
    encode_utf8_decode_utf8("vkGetDeviceProcAddr"@);
    assert("vkDestroyDevice"@.len() == 15);
    assert("vkGetInstanceProcAddr"@.len() == 21);
    assert("vkGetDeviceProcAddr"@.len() == 19);
}

} // verus!
