//! What the settings window shows: labels, selections, and the page it opens on.
use vstd::prelude::*;
use vstd::string::*;

use crate::text::same_text;

verus! {

/// The numbers the channel uses for the helper's states.
#[derive(Clone, Copy, Debug, PartialEq, Eq, Structural)]
pub struct HelperStateCodes {
    pub starting: u32,
    pub no_vulkan: u32,
    pub no_binaries: u32,
    pub model_failed: u32,
    pub running: u32,
    pub stopped: u32,
}

/// Where the window opens, and whether it warns.
#[derive(Clone, Copy, Debug)]
pub struct FirstRun {
    /// The page to open on, where it is not the first.
    pub page: Option<&'static str>,
    pub banner: bool,
}

/// The row that installs the layer.
#[derive(Debug)]
pub struct InstallRow {
    pub subtitle: String,
    pub sensitive: bool,
}

impl HelperStateCodes {
    /// The words for a state.
    pub open spec fn words(&self, state: u32) -> Seq<char> {
        if state == self.starting {
            "starting"@
        } else if state == self.no_vulkan {
            "no NVIDIA Vulkan device"@
        } else if state == self.no_binaries {
            "NGX binaries missing"@
        } else if state == self.model_failed {
            "model failed to load"@
        } else if state == self.running {
            "running"@
        } else if state == self.stopped {
            "stopped"@
        } else {
            "unknown"@
        }
    }
}

/// The words for a state of the helper.
pub fn helper_state_label(state: u32, codes: &HelperStateCodes) -> (r: &'static str)
    ensures
        r@ == codes.words(state),
{
    if state == codes.starting {
        "starting"
    } else if state == codes.no_vulkan {
        "no NVIDIA Vulkan device"
    } else if state == codes.no_binaries {
        "NGX binaries missing"
    } else if state == codes.model_failed {
        "model failed to load"
    } else if state == codes.running {
        "running"
    } else if state == codes.stopped {
        "stopped"
    } else {
        "unknown"
    }
}

/// The entry that a list of this many entries shows as selected: the stored one, or the
/// last where the stored number is too large.
pub fn combo_selection(selected: u32, entries: u32) -> (r: u32)
    requires
        entries > 0,
    ensures
        r == (if selected < entries {
            selected as int
        } else {
            entries - 1
        }),
{
    if selected < entries {
        selected
    } else {
        entries - 1
    }
}

/// The first-run flow: without the model's library nothing can work, so the window opens on
/// its setup page, with a banner that says why.
pub fn first_run(library_present: bool) -> (r: FirstRun)
    ensures
        r.banner == !library_present,
        (match r.page {
            Some(page) => Some(page@),
            None => None,
        }) == (if library_present {
            None
        } else {
            Some("setup"@)
        }),
{
    if library_present {
        FirstRun { page: None, banner: false }
    } else {
        FirstRun { page: Some("setup"), banner: true }
    }
}

/// Whether a binary is there, in words.
pub fn presence_text(present: bool) -> (r: &'static str)
    ensures
        r@ == (if present {
            "present"@
        } else {
            "missing"@
        }),
{
    if present {
        "present"
    } else {
        "missing"
    }
}

/// Whether a binary is there, as an icon.
pub fn presence_icon(present: bool) -> (r: &'static str)
    ensures
        r@ == (if present {
            "emblem-ok-symbolic"@
        } else {
            "dialog-warning-symbolic"@
        }),
{
    if present {
        "emblem-ok-symbolic"
    } else {
        "dialog-warning-symbolic"
    }
}

/// The status of the model's library.
pub fn binaries_status_subtitle(present: bool) -> (r: &'static str)
    ensures
        r@ == (if present {
            "nvngx_dlssnr.dll present"@
        } else {
            "nvngx_dlssnr.dll missing"@
        }),
{
    if present {
        "nvngx_dlssnr.dll present"
    } else {
        "nvngx_dlssnr.dll missing"
    }
}

/// Whether a layer is attached to the channel.
pub fn layer_status(attached: u32) -> (r: &'static str)
    ensures
        r@ == (if attached != 0 {
            "attached"@
        } else {
            "not attached"@
        }),
{
    if attached != 0 {
        "attached"
    } else {
        "not attached"
    }
}

/// Whether the model is up.
pub fn model_status(model_up: u32) -> (r: &'static str)
    ensures
        r@ == (if model_up != 0 {
            "loaded"@
        } else {
            "not loaded"@
        }),
{
    if model_up != 0 {
        "loaded"
    } else {
        "not loaded"
    }
}

/// The game that is attached.
pub fn game_status(name: &str) -> (r: String)
    ensures
        r@ == (if name@.len() == 0 {
            "none attached"@
        } else {
            name@
        }),
{
    if name.unicode_len() == 0 {
        "none attached".to_owned()
    } else {
        name.to_owned()
    }
}

/// What a click on the helper's button does.
#[derive(Clone, Copy, Debug, PartialEq, Eq, Structural)]
pub enum HelperAction {
    Start,
    Stop,
}

impl HelperAction {
    /// A click stops a helper that is running, and starts one that is not.
    pub open spec fn clicked(running: bool) -> HelperAction {
        if running {
            HelperAction::Stop
        } else {
            HelperAction::Start
        }
    }

    /// The action in one word.
    pub open spec fn word(self) -> Seq<char> {
        match self {
            HelperAction::Start => "Start"@,
            HelperAction::Stop => "Stop"@,
        }
    }

    /// What a click does now.
    pub fn on_click(running: bool) -> (r: HelperAction)
        ensures
            r == HelperAction::clicked(running),
            r is Stop <==> running,
    {
        if running {
            HelperAction::Stop
        } else {
            HelperAction::Start
        }
    }

    /// The action in one word.
    pub fn label(self) -> (r: &'static str)
        ensures
            r@ == self.word(),
    {
        match self {
            HelperAction::Start => "Start",
            HelperAction::Stop => "Stop",
        }
    }

    /// The text of the button, which takes no clicks meanwhile, while the action is under
    /// way; none for an action that does not block.
    pub fn progress(self) -> (r: Option<&'static str>)
        ensures
            (match r {
                Some(text) => Some(text@),
                None => None,
            }) == (match self {
                HelperAction::Start => None,
                HelperAction::Stop => Some("Stopping…"@),
            }),
    {
        match self {
            HelperAction::Start => None,
            HelperAction::Stop => Some("Stopping…"),
        }
    }
}

/// The text of the button that starts and stops the helper: what a click will do. While an
/// action is under way, the button keeps its text.
pub fn start_stop_label(sensitive: bool, running: bool) -> (r: Option<&'static str>)
    ensures
        (match r {
            Some(label) => Some(label@),
            None => None,
        }) == (if sensitive {
            Some(HelperAction::clicked(running).word())
        } else {
            None
        }),
{
    if sensitive {
        Some(HelperAction::on_click(running).label())
    } else {
        None
    }
}

/// Whether the answer to the question before a reset is to go ahead: any other one, closing
/// the dialog among them, leaves every setting as it is.
pub fn reset_confirmed(response: &str) -> (r: bool)
    ensures
        r == (response@ == "reset"@),
{
    same_text(response, "reset")
}

/// The row that installs the layer, from where the running image is mounted. Outside such
/// an image there is nothing to install from.
pub fn install_row(appdir: Option<&str>) -> (r: InstallRow)
    ensures
        r.sensitive == (appdir is Some),
        r.subtitle@ == (match appdir {
            Some(dir) => dir@,
            None => "Only available when running from the AppImage"@,
        }),
{
    match appdir {
        Some(dir) => InstallRow { subtitle: dir.to_owned(), sensitive: true },
        None => InstallRow {
            subtitle: "Only available when running from the AppImage".to_owned(),
            sensitive: false,
        },
    }
}

/// A state is named by the channel's own numbers, whatever these are: each of them has its
/// word, the first one where two are the same, and a number that is none of them is unknown.
pub proof fn states_are_named_by_the_channels_numbers(codes: HelperStateCodes, state: u32)
    ensures
        codes.words(codes.starting) == "starting"@,
        codes.no_vulkan != codes.starting ==> codes.words(codes.no_vulkan)
            == "no NVIDIA Vulkan device"@,
        codes.no_binaries != codes.starting && codes.no_binaries != codes.no_vulkan ==> codes.words(
            codes.no_binaries,
        ) == "NGX binaries missing"@,
        codes.model_failed != codes.starting && codes.model_failed != codes.no_vulkan
            && codes.model_failed != codes.no_binaries ==> codes.words(codes.model_failed)
            == "model failed to load"@,
        codes.running != codes.starting && codes.running != codes.no_vulkan && codes.running
            != codes.no_binaries && codes.running != codes.model_failed ==> codes.words(
            codes.running,
        ) == "running"@,
        codes.stopped != codes.starting && codes.stopped != codes.no_vulkan && codes.stopped
            != codes.no_binaries && codes.stopped != codes.model_failed && codes.stopped
            != codes.running ==> codes.words(codes.stopped) == "stopped"@,
        state != codes.starting && state != codes.no_vulkan && state != codes.no_binaries && state
            != codes.model_failed && state != codes.running && state != codes.stopped
            ==> codes.words(state) == "unknown"@,
{
}

/// A click undoes what is: it stops a helper that runs and starts one that does not, and the
/// button says so beforehand.
pub proof fn clicks_do_what_the_button_says(running: bool)
    ensures
        HelperAction::clicked(running) is Stop <==> running,
        HelperAction::clicked(true).word() == "Stop"@,
        HelperAction::clicked(false).word() == "Start"@,
{
}

} // verus!
