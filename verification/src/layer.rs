//! The layer as a whole: its name, what it tells the loader, and whether it does anything.
use vstd::prelude::*;
use vstd::string::*;

use crate::vulkan::ERROR_INITIALIZATION_FAILED;

verus! {

/// The name the loader knows the layer by.
pub const LAYER_NAME: &'static str = "VK_LAYER_neuralforge_neural";

/// Vulkan 1.1, as the loader packs it.
pub const API_VERSION_1_1: u32 = 0x40_1000;

/// What the layer tells the loader of itself.
#[derive(Clone, Copy, Debug)]
pub struct LayerManifest {
    pub name: &'static str,
    pub spec_version: u32,
    pub implementation_version: u32,
    pub description: &'static str,
}

/// A variable is set to exactly `1`.
pub open spec fn is_flag(value: Option<Seq<char>>) -> bool {
    value == Some(seq!['1'])
}

/// The contents of an environment variable that may not be there.
pub open spec fn contents(value: Option<&str>) -> Option<Seq<char>> {
    match value {
        Some(text) => Some(text@),
        None => None,
    }
}

/// Whether an environment variable is set to `1`; any other text is not.
pub fn env_flag(value: Option<&str>) -> (r: bool)
    ensures
        r == is_flag(contents(value)),
{
    match value {
        Some(text) => {
            if text.unicode_len() == 1 && text.get_char(0) == '1' {
                assert(text@ =~= seq!['1']);
                true
            } else {
                assert(text@ != seq!['1']) by {
                    assert(seq!['1'].len() == 1 && seq!['1'][0] == '1');
                }
                false
            }
        },
        None => false,
    }
}

/// The game opted in and did not opt out.
pub open spec fn switched_on(enable: Option<Seq<char>>, disable: Option<Seq<char>>) -> bool {
    is_flag(enable) && !is_flag(disable)
}

/// Whether the layer does anything at all, from `NEURALFORGE_ENABLE` and
/// `NEURALFORGE_DISABLE`. It is off unless a game opts in.
pub fn layer_enabled(enable: Option<&str>, disable: Option<&str>) -> (r: bool)
    ensures
        r == switched_on(contents(enable), contents(disable)),
{
    env_flag(enable) && !env_flag(disable)
}

/// What the layer tells the loader of itself.
pub fn manifest() -> (r: LayerManifest)
    ensures
        r.name@ == LAYER_NAME@,
        r.spec_version == API_VERSION_1_1,
        r.implementation_version == 1,
        r.description@ == "NeuralForge neural rendering injection layer (Linux side)"@,
{
    LayerManifest {
        name: LAYER_NAME,
        spec_version: API_VERSION_1_1,
        implementation_version: 1,
        description: "NeuralForge neural rendering injection layer (Linux side)",
    }
}

/// The next layer's `vkCreateInstance`, or the error where it has none. No other global
/// command is resolved.
pub fn create_instance<F>(next: Option<F>) -> (r: Result<F, i32>)
    ensures
        r == (match next {
            Some(command) => Ok::<F, i32>(command),
            None => Err::<F, i32>(ERROR_INITIALIZATION_FAILED),
        }),
{
    match next {
        Some(command) => Ok(command),
        None => Err(ERROR_INITIALIZATION_FAILED),
    }
}

/// A game that did not opt in gets a layer that does nothing, and one that opted out gets
/// it whatever else is set.
pub proof fn the_layer_is_off_by_default(enable: Option<Seq<char>>, disable: Option<Seq<char>>)
    ensures
        enable is None ==> !switched_on(enable, disable),
        disable == Some(seq!['1']) ==> !switched_on(enable, disable),
{
}

/// The layer is on exactly for a game that opted in with `1` and did not opt out with `1`; any
/// other text counts as nothing set.
pub proof fn the_layer_is_on_where_asked(enable: Option<Seq<char>>, disable: Option<Seq<char>>)
    ensures
        switched_on(enable, disable) <==> {
            &&& enable matches Some(text) && text.len() == 1 && text[0] == '1'
            &&& !(disable matches Some(text) && text.len() == 1 && text[0] == '1')
        },
{
    let one = seq!['1'];
    assert(one.len() == 1 && one[0] == '1');
    if let Some(text) = enable {
        if text.len() == 1 && text[0] == '1' {
            assert(text =~= one);
        }
    }
    if let Some(text) = disable {
        if text.len() == 1 && text[0] == '1' {
            assert(text =~= one);
        }
    }
}

} // verus!
