//! The settings that the window offers, one row each, and how each is edited.
//!
//! Numbers are in hundredths: the window shows two decimals, and every limit and step is a
//! multiple of one hundredth.
use vstd::prelude::*;

verus! {

/// The skin structure that follows the local structure, in hundredths.
pub const FOLLOWS_LOCAL_STRUCTURE: i32 = -100;

/// A group of rows.
#[derive(Clone, Copy, Debug, PartialEq, Eq, Structural)]
pub enum Group {
    Model,
    Motion,
    Composition,
    WhitePoint,
    Debug,
}

/// A page of the window.
#[derive(Clone, Copy, Debug, PartialEq, Eq, Structural)]
pub enum Page {
    Model,
    Motion,
    Composition,
    Debug,
    /// What is running, and the profiles.
    Status,
    /// What has to be installed first.
    Setup,
}

/// A setting.
#[derive(Clone, Copy, Debug, PartialEq, Eq, Structural)]
pub enum Setting {
    Enabled,
    Style,
    Preset,
    Intensity,
    LocalTone,
    LocalStructure,
    SkinStructure,
    Sharpness,
    AutoMask,
    Passes,
    ToggleKey,
    MotionEnabled,
    MotionUnits,
    MotionQuality,
    Bypass,
    TransferStrength,
    ColourStrength,
    MaxRatio,
    WorkingScale,
    Downscaler,
    ReversibleMode,
    HdrMode,
    ColourMode,
    Transfer,
    UnlockPasses,
    ApplyModel,
    HoldFrame,
    WhitePointSource,
    WhitePoint,
    WhitePointScale,
    WhitePointTrim,
    CompareMode,
    CompareSplit,
    CompareZoom,
    CompareSwap,
    DebugView,
}

/// How a setting is edited.
#[derive(Clone, Copy, Debug, PartialEq, Eq, Structural)]
pub enum Widget {
    Switch,
    /// One of the setting's options.
    Choice,
    /// A number from `lower` to `upper` in steps of `step`, all in hundredths. A whole
    /// number is stored as one.
    Number { lower: i32, upper: i32, step: i32, whole: bool },
    /// A key binding: see [`crate::hotkey`].
    Key,
}

impl Group {
    /// The group's heading.
    pub open spec fn heading(self) -> Seq<char> {
        match self {
            Group::Model => "Model"@,
            Group::Motion => "Motion"@,
            Group::Composition => "Composition"@,
            Group::WhitePoint => "HDR white point"@,
            Group::Debug => "Compare and debug"@,
        }
    }

    /// The group's heading.
    pub fn title(self) -> (r: &'static str)
        ensures
            r@ == self.heading(),
            r@ == (match self {
                Group::Model => "Model"@,
                Group::Motion => "Motion"@,
                Group::Composition => "Composition"@,
                Group::WhitePoint => "HDR white point"@,
                Group::Debug => "Compare and debug"@,
            }),
    {
        match self {
            Group::Model => "Model",
            Group::Motion => "Motion",
            Group::Composition => "Composition",
            Group::WhitePoint => "HDR white point",
            Group::Debug => "Compare and debug",
        }
    }

    /// The page the group is on.
    pub open spec fn page(self) -> Page {
        match self {
            Group::Model => Page::Model,
            Group::Motion => Page::Motion,
            Group::Composition | Group::WhitePoint => Page::Composition,
            Group::Debug => Page::Debug,
        }
    }

    /// What is said below the group's heading.
    pub fn description(self) -> (r: Option<&'static str>)
        ensures
            (match r {
                Some(text) => Some(text@),
                None => None,
            }) == (if self == Group::WhitePoint {
                Some(
                    "Saved for HDR processing. The current capture pipeline does not yet apply these controls."@,
                )
            } else {
                None
            }),
    {
        match self {
            Group::WhitePoint => Some(
                "Saved for HDR processing. The current capture pipeline does not yet apply these controls.",
            ),
            _ => None,
        }
    }

    /// The settings of the group, in the order of their rows.
    pub open spec fn members(self) -> Seq<Setting> {
        match self {
            Group::Model => seq![
                Setting::Enabled,
                Setting::Style,
                Setting::Preset,
                Setting::Intensity,
                Setting::LocalTone,
                Setting::LocalStructure,
                Setting::SkinStructure,
                Setting::Sharpness,
                Setting::AutoMask,
                Setting::Passes,
                Setting::ToggleKey,
            ],
            Group::Motion => seq![
                Setting::MotionEnabled,
                Setting::MotionUnits,
                Setting::MotionQuality,
            ],
            Group::Composition => seq![
                Setting::Bypass,
                Setting::TransferStrength,
                Setting::ColourStrength,
                Setting::MaxRatio,
                Setting::WorkingScale,
                Setting::Downscaler,
                Setting::ReversibleMode,
                Setting::HdrMode,
                Setting::ColourMode,
                Setting::Transfer,
                Setting::UnlockPasses,
                Setting::ApplyModel,
                Setting::HoldFrame,
            ],
            Group::WhitePoint => seq![
                Setting::WhitePointSource,
                Setting::WhitePoint,
                Setting::WhitePointScale,
                Setting::WhitePointTrim,
            ],
            Group::Debug => seq![
                Setting::CompareMode,
                Setting::CompareSplit,
                Setting::CompareZoom,
                Setting::CompareSwap,
                Setting::DebugView,
            ],
        }
    }

    /// The settings of the group, in the order of their rows.
    pub fn rows(self) -> (r: Vec<Setting>)
        ensures
            r@ == self.members(),
            r@ == (match self {
                Group::Model => seq![
                    Setting::Enabled,
                    Setting::Style,
                    Setting::Preset,
                    Setting::Intensity,
                    Setting::LocalTone,
                    Setting::LocalStructure,
                    Setting::SkinStructure,
                    Setting::Sharpness,
                    Setting::AutoMask,
                    Setting::Passes,
                    Setting::ToggleKey,
                ],
                Group::Motion => seq![
                    Setting::MotionEnabled,
                    Setting::MotionUnits,
                    Setting::MotionQuality,
                ],
                Group::Composition => seq![
                    Setting::Bypass,
                    Setting::TransferStrength,
                    Setting::ColourStrength,
                    Setting::MaxRatio,
                    Setting::WorkingScale,
                    Setting::Downscaler,
                    Setting::ReversibleMode,
                    Setting::HdrMode,
                    Setting::ColourMode,
                    Setting::Transfer,
                    Setting::UnlockPasses,
                    Setting::ApplyModel,
                    Setting::HoldFrame,
                ],
                Group::WhitePoint => seq![
                    Setting::WhitePointSource,
                    Setting::WhitePoint,
                    Setting::WhitePointScale,
                    Setting::WhitePointTrim,
                ],
                Group::Debug => seq![
                    Setting::CompareMode,
                    Setting::CompareSplit,
                    Setting::CompareZoom,
                    Setting::CompareSwap,
                    Setting::DebugView,
                ],
            }),
    {
        match self {
            Group::Model => vec![
                Setting::Enabled,
                Setting::Style,
                Setting::Preset,
                Setting::Intensity,
                Setting::LocalTone,
                Setting::LocalStructure,
                Setting::SkinStructure,
                Setting::Sharpness,
                Setting::AutoMask,
                Setting::Passes,
                Setting::ToggleKey,
            ],
            Group::Motion => vec![
                Setting::MotionEnabled,
                Setting::MotionUnits,
                Setting::MotionQuality,
            ],
            Group::Composition => vec![
                Setting::Bypass,
                Setting::TransferStrength,
                Setting::ColourStrength,
                Setting::MaxRatio,
                Setting::WorkingScale,
                Setting::Downscaler,
                Setting::ReversibleMode,
                Setting::HdrMode,
                Setting::ColourMode,
                Setting::Transfer,
                Setting::UnlockPasses,
                Setting::ApplyModel,
                Setting::HoldFrame,
            ],
            Group::WhitePoint => vec![
                Setting::WhitePointSource,
                Setting::WhitePoint,
                Setting::WhitePointScale,
                Setting::WhitePointTrim,
            ],
            Group::Debug => vec![
                Setting::CompareMode,
                Setting::CompareSplit,
                Setting::CompareZoom,
                Setting::CompareSwap,
                Setting::DebugView,
            ],
        }
    }
}

impl Setting {
    /// The group the setting's row is in.
    pub open spec fn group(self) -> Group {
        match self {
            Setting::Enabled
            | Setting::Style
            | Setting::Preset
            | Setting::Intensity
            | Setting::LocalTone
            | Setting::LocalStructure
            | Setting::SkinStructure
            | Setting::Sharpness
            | Setting::AutoMask
            | Setting::Passes
            | Setting::ToggleKey => Group::Model,
            Setting::MotionEnabled
            | Setting::MotionUnits
            | Setting::MotionQuality => Group::Motion,
            Setting::Bypass
            | Setting::TransferStrength
            | Setting::ColourStrength
            | Setting::MaxRatio
            | Setting::WorkingScale
            | Setting::Downscaler
            | Setting::ReversibleMode
            | Setting::HdrMode
            | Setting::ColourMode
            | Setting::Transfer
            | Setting::UnlockPasses
            | Setting::ApplyModel
            | Setting::HoldFrame => Group::Composition,
            Setting::WhitePointSource
            | Setting::WhitePoint
            | Setting::WhitePointScale
            | Setting::WhitePointTrim => Group::WhitePoint,
            _ => Group::Debug,
        }
    }

    /// The name the setting is stored under.
    pub open spec fn stored_as(self) -> Seq<char> {
        match self {
            Setting::Enabled => "enabled"@,
            Setting::Style => "style"@,
            Setting::Preset => "preset"@,
            Setting::Intensity => "intensity"@,
            Setting::LocalTone => "local_tone"@,
            Setting::LocalStructure => "local_structure"@,
            Setting::SkinStructure => "skin_structure"@,
            Setting::Sharpness => "sharpness"@,
            Setting::AutoMask => "auto_mask"@,
            Setting::Passes => "passes"@,
            Setting::ToggleKey => "toggle_key"@,
            Setting::MotionEnabled => "mvec_enabled"@,
            Setting::MotionUnits => "mvec_scale_mode"@,
            Setting::MotionQuality => "mvec_quality"@,
            Setting::Bypass => "composition_bypass"@,
            Setting::TransferStrength => "transfer_strength"@,
            Setting::ColourStrength => "colour_strength"@,
            Setting::MaxRatio => "max_ratio"@,
            Setting::WorkingScale => "working_scale"@,
            Setting::Downscaler => "scaling_downscaler"@,
            Setting::ReversibleMode => "reversible_mode"@,
            Setting::HdrMode => "hdr_mode"@,
            Setting::ColourMode => "colour_mode"@,
            Setting::Transfer => "transfer"@,
            Setting::UnlockPasses => "unlock_passes"@,
            Setting::ApplyModel => "apply_model"@,
            Setting::HoldFrame => "hold_frame"@,
            Setting::WhitePointSource => "white_point_source"@,
            Setting::WhitePoint => "white_point"@,
            Setting::WhitePointScale => "white_point_scale"@,
            Setting::WhitePointTrim => "white_point_trim"@,
            Setting::CompareMode => "compare_mode"@,
            Setting::CompareSplit => "compare_split"@,
            Setting::CompareZoom => "compare_zoom"@,
            Setting::CompareSwap => "compare_swap"@,
            Setting::DebugView => "debug_view"@,
        }
    }

    /// The name the setting is stored under.
    pub fn key(self) -> (r: &'static str)
        ensures
            r@ == self.stored_as(),
            r@ == (match self {
                Setting::Enabled => "enabled"@,
                Setting::Style => "style"@,
                Setting::Preset => "preset"@,
                Setting::Intensity => "intensity"@,
                Setting::LocalTone => "local_tone"@,
                Setting::LocalStructure => "local_structure"@,
                Setting::SkinStructure => "skin_structure"@,
                Setting::Sharpness => "sharpness"@,
                Setting::AutoMask => "auto_mask"@,
                Setting::Passes => "passes"@,
                Setting::ToggleKey => "toggle_key"@,
                Setting::MotionEnabled => "mvec_enabled"@,
                Setting::MotionUnits => "mvec_scale_mode"@,
                Setting::MotionQuality => "mvec_quality"@,
                Setting::Bypass => "composition_bypass"@,
                Setting::TransferStrength => "transfer_strength"@,
                Setting::ColourStrength => "colour_strength"@,
                Setting::MaxRatio => "max_ratio"@,
                Setting::WorkingScale => "working_scale"@,
                Setting::Downscaler => "scaling_downscaler"@,
                Setting::ReversibleMode => "reversible_mode"@,
                Setting::HdrMode => "hdr_mode"@,
                Setting::ColourMode => "colour_mode"@,
                Setting::Transfer => "transfer"@,
                Setting::UnlockPasses => "unlock_passes"@,
                Setting::ApplyModel => "apply_model"@,
                Setting::HoldFrame => "hold_frame"@,
                Setting::WhitePointSource => "white_point_source"@,
                Setting::WhitePoint => "white_point"@,
                Setting::WhitePointScale => "white_point_scale"@,
                Setting::WhitePointTrim => "white_point_trim"@,
                Setting::CompareMode => "compare_mode"@,
                Setting::CompareSplit => "compare_split"@,
                Setting::CompareZoom => "compare_zoom"@,
                Setting::CompareSwap => "compare_swap"@,
                Setting::DebugView => "debug_view"@,
            }),
    {
        match self {
            Setting::Enabled => "enabled",
            Setting::Style => "style",
            Setting::Preset => "preset",
            Setting::Intensity => "intensity",
            Setting::LocalTone => "local_tone",
            Setting::LocalStructure => "local_structure",
            Setting::SkinStructure => "skin_structure",
            Setting::Sharpness => "sharpness",
            Setting::AutoMask => "auto_mask",
            Setting::Passes => "passes",
            Setting::ToggleKey => "toggle_key",
            Setting::MotionEnabled => "mvec_enabled",
            Setting::MotionUnits => "mvec_scale_mode",
            Setting::MotionQuality => "mvec_quality",
            Setting::Bypass => "composition_bypass",
            Setting::TransferStrength => "transfer_strength",
            Setting::ColourStrength => "colour_strength",
            Setting::MaxRatio => "max_ratio",
            Setting::WorkingScale => "working_scale",
            Setting::Downscaler => "scaling_downscaler",
            Setting::ReversibleMode => "reversible_mode",
            Setting::HdrMode => "hdr_mode",
            Setting::ColourMode => "colour_mode",
            Setting::Transfer => "transfer",
            Setting::UnlockPasses => "unlock_passes",
            Setting::ApplyModel => "apply_model",
            Setting::HoldFrame => "hold_frame",
            Setting::WhitePointSource => "white_point_source",
            Setting::WhitePoint => "white_point",
            Setting::WhitePointScale => "white_point_scale",
            Setting::WhitePointTrim => "white_point_trim",
            Setting::CompareMode => "compare_mode",
            Setting::CompareSplit => "compare_split",
            Setting::CompareZoom => "compare_zoom",
            Setting::CompareSwap => "compare_swap",
            Setting::DebugView => "debug_view",
        }
    }

    /// The title of the setting's row.
    pub open spec fn caption(self) -> Seq<char> {
        match self {
            Setting::Enabled => "Neural rendering"@,
            Setting::Style => "Style"@,
            Setting::Preset => "Preset"@,
            Setting::Intensity => "Intensity"@,
            Setting::LocalTone => "Local tone"@,
            Setting::LocalStructure => "Local structure"@,
            Setting::SkinStructure => "Skin structure"@,
            Setting::Sharpness => "Sharpness"@,
            Setting::AutoMask => "Auto mask"@,
            Setting::Passes => "Passes"@,
            Setting::ToggleKey => "Toggle key"@,
            Setting::MotionEnabled => "Estimate motion vectors"@,
            Setting::MotionUnits => "Motion units"@,
            Setting::MotionQuality => "Motion quality"@,
            Setting::Bypass => "Bypass composition"@,
            Setting::TransferStrength => "Transfer strength"@,
            Setting::ColourStrength => "Colour strength"@,
            Setting::MaxRatio => "Max ratio"@,
            Setting::WorkingScale => "Working scale"@,
            Setting::Downscaler => "Supersampling filter"@,
            Setting::ReversibleMode => "Reversible mode"@,
            Setting::HdrMode => "HDR input"@,
            Setting::ColourMode => "Colour mode"@,
            Setting::Transfer => "Transfer mode"@,
            Setting::UnlockPasses => "Unlock pass limit"@,
            Setting::ApplyModel => "Apply model edit"@,
            Setting::HoldFrame => "Hold frame"@,
            Setting::WhitePointSource => "White point source"@,
            Setting::WhitePoint => "Manual white point"@,
            Setting::WhitePointScale => "White point scale"@,
            Setting::WhitePointTrim => "White point trim"@,
            Setting::CompareMode => "Compare mode"@,
            Setting::CompareSplit => "Compare split"@,
            Setting::CompareZoom => "Compare zoom"@,
            Setting::CompareSwap => "Swap compare sides"@,
            Setting::DebugView => "Debug view"@,
        }
    }

    /// The title of the setting's row.
    pub fn title(self) -> (r: &'static str)
        ensures
            r@ == self.caption(),
            r@ == (match self {
                Setting::Enabled => "Neural rendering"@,
                Setting::Style => "Style"@,
                Setting::Preset => "Preset"@,
                Setting::Intensity => "Intensity"@,
                Setting::LocalTone => "Local tone"@,
                Setting::LocalStructure => "Local structure"@,
                Setting::SkinStructure => "Skin structure"@,
                Setting::Sharpness => "Sharpness"@,
                Setting::AutoMask => "Auto mask"@,
                Setting::Passes => "Passes"@,
                Setting::ToggleKey => "Toggle key"@,
                Setting::MotionEnabled => "Estimate motion vectors"@,
                Setting::MotionUnits => "Motion units"@,
                Setting::MotionQuality => "Motion quality"@,
                Setting::Bypass => "Bypass composition"@,
                Setting::TransferStrength => "Transfer strength"@,
                Setting::ColourStrength => "Colour strength"@,
                Setting::MaxRatio => "Max ratio"@,
                Setting::WorkingScale => "Working scale"@,
                Setting::Downscaler => "Supersampling filter"@,
                Setting::ReversibleMode => "Reversible mode"@,
                Setting::HdrMode => "HDR input"@,
                Setting::ColourMode => "Colour mode"@,
                Setting::Transfer => "Transfer mode"@,
                Setting::UnlockPasses => "Unlock pass limit"@,
                Setting::ApplyModel => "Apply model edit"@,
                Setting::HoldFrame => "Hold frame"@,
                Setting::WhitePointSource => "White point source"@,
                Setting::WhitePoint => "Manual white point"@,
                Setting::WhitePointScale => "White point scale"@,
                Setting::WhitePointTrim => "White point trim"@,
                Setting::CompareMode => "Compare mode"@,
                Setting::CompareSplit => "Compare split"@,
                Setting::CompareZoom => "Compare zoom"@,
                Setting::CompareSwap => "Swap compare sides"@,
                Setting::DebugView => "Debug view"@,
            }),
    {
        match self {
            Setting::Enabled => "Neural rendering",
            Setting::Style => "Style",
            Setting::Preset => "Preset",
            Setting::Intensity => "Intensity",
            Setting::LocalTone => "Local tone",
            Setting::LocalStructure => "Local structure",
            Setting::SkinStructure => "Skin structure",
            Setting::Sharpness => "Sharpness",
            Setting::AutoMask => "Auto mask",
            Setting::Passes => "Passes",
            Setting::ToggleKey => "Toggle key",
            Setting::MotionEnabled => "Estimate motion vectors",
            Setting::MotionUnits => "Motion units",
            Setting::MotionQuality => "Motion quality",
            Setting::Bypass => "Bypass composition",
            Setting::TransferStrength => "Transfer strength",
            Setting::ColourStrength => "Colour strength",
            Setting::MaxRatio => "Max ratio",
            Setting::WorkingScale => "Working scale",
            Setting::Downscaler => "Supersampling filter",
            Setting::ReversibleMode => "Reversible mode",
            Setting::HdrMode => "HDR input",
            Setting::ColourMode => "Colour mode",
            Setting::Transfer => "Transfer mode",
            Setting::UnlockPasses => "Unlock pass limit",
            Setting::ApplyModel => "Apply model edit",
            Setting::HoldFrame => "Hold frame",
            Setting::WhitePointSource => "White point source",
            Setting::WhitePoint => "Manual white point",
            Setting::WhitePointScale => "White point scale",
            Setting::WhitePointTrim => "White point trim",
            Setting::CompareMode => "Compare mode",
            Setting::CompareSplit => "Compare split",
            Setting::CompareZoom => "Compare zoom",
            Setting::CompareSwap => "Swap compare sides",
            Setting::DebugView => "Debug view",
        }
    }

    /// The line below the title; empty where there is none.
    pub open spec fn explanation(self) -> Seq<char> {
        match self {
            Setting::Enabled => "Off keeps the layer running but presents the original frame"@,
            Setting::Preset => "0-3, model-defined presets"@,
            Setting::SkinStructure => "-1 follows local structure"@,
            Setting::AutoMask => "Automatic skin/detail masking"@,
            Setting::Passes => "How many times the model runs over one frame"@,
            Setting::ToggleKey => "Save a single key binding; in-game hotkey polling is not available yet"@,
            Setting::MotionEnabled => "On by default"@,
            Setting::Bypass => "On: the model's raw answer is the presented frame"@,
            Setting::TransferStrength => "How much of the model's edit reaches the frame"@,
            Setting::ColourStrength => "How much of the transfer is allowed to be colour, not just luminance"@,
            Setting::MaxRatio => "The most the pass may multiply/divide a pixel by"@,
            Setting::WorkingScale => "Above 1.0 is supersampling"@,
            Setting::UnlockPasses => "Allow more passes than the normal ceiling"@,
            Setting::ApplyModel => "Off presents the clean frame \u{2014} capture/transport/round-trip still run, for an honest A/B"@,
            Setting::HoldFrame => "Freeze the frame the pass works on, to re-run composition over the same picture"@,
            Setting::WhitePoint => "Linear-light reference"@,
            Setting::WhitePointScale => "Multiplier"@,
            Setting::WhitePointTrim => "Calibration multiplier"@,
            Setting::CompareSplit => "Wipe position, 0=left edge, 1=right edge"@,
            _ => ""@,
        }
    }

    /// The line below the title; empty where there is none.
    pub fn subtitle(self) -> (r: &'static str)
        ensures
            r@ == self.explanation(),
            r@ == (match self {
                Setting::Enabled => "Off keeps the layer running but presents the original frame"@,
                Setting::Preset => "0-3, model-defined presets"@,
                Setting::SkinStructure => "-1 follows local structure"@,
                Setting::AutoMask => "Automatic skin/detail masking"@,
                Setting::Passes => "How many times the model runs over one frame"@,
                Setting::ToggleKey => "Save a single key binding; in-game hotkey polling is not available yet"@,
                Setting::MotionEnabled => "On by default"@,
                Setting::Bypass => "On: the model's raw answer is the presented frame"@,
                Setting::TransferStrength => "How much of the model's edit reaches the frame"@,
                Setting::ColourStrength => "How much of the transfer is allowed to be colour, not just luminance"@,
                Setting::MaxRatio => "The most the pass may multiply/divide a pixel by"@,
                Setting::WorkingScale => "Above 1.0 is supersampling"@,
                Setting::UnlockPasses => "Allow more passes than the normal ceiling"@,
                Setting::ApplyModel => "Off presents the clean frame \u{2014} capture/transport/round-trip still run, for an honest A/B"@,
                Setting::HoldFrame => "Freeze the frame the pass works on, to re-run composition over the same picture"@,
                Setting::WhitePoint => "Linear-light reference"@,
                Setting::WhitePointScale => "Multiplier"@,
                Setting::WhitePointTrim => "Calibration multiplier"@,
                Setting::CompareSplit => "Wipe position, 0=left edge, 1=right edge"@,
                _ => ""@,
            }),
    {
        match self {
            Setting::Enabled => "Off keeps the layer running but presents the original frame",
            Setting::Preset => "0-3, model-defined presets",
            Setting::SkinStructure => "-1 follows local structure",
            Setting::AutoMask => "Automatic skin/detail masking",
            Setting::Passes => "How many times the model runs over one frame",
            Setting::ToggleKey => "Save a single key binding; in-game hotkey polling is not available yet",
            Setting::MotionEnabled => "On by default",
            Setting::Bypass => "On: the model's raw answer is the presented frame",
            Setting::TransferStrength => "How much of the model's edit reaches the frame",
            Setting::ColourStrength => "How much of the transfer is allowed to be colour, not just luminance",
            Setting::MaxRatio => "The most the pass may multiply/divide a pixel by",
            Setting::WorkingScale => "Above 1.0 is supersampling",
            Setting::UnlockPasses => "Allow more passes than the normal ceiling",
            Setting::ApplyModel => "Off presents the clean frame \u{2014} capture/transport/round-trip still run, for an honest A/B",
            Setting::HoldFrame => "Freeze the frame the pass works on, to re-run composition over the same picture",
            Setting::WhitePoint => "Linear-light reference",
            Setting::WhitePointScale => "Multiplier",
            Setting::WhitePointTrim => "Calibration multiplier",
            Setting::CompareSplit => "Wipe position, 0=left edge, 1=right edge",
            _ => "",
        }
    }

    /// How the setting is edited.
    pub open spec fn editor(self) -> Widget {
        match self {
            Setting::Enabled
            | Setting::AutoMask
            | Setting::MotionEnabled
            | Setting::Bypass
            | Setting::UnlockPasses
            | Setting::ApplyModel
            | Setting::HoldFrame
            | Setting::CompareSwap => Widget::Switch,
            Setting::Preset => Widget::Number { lower: 0, upper: 300, step: 100, whole: true },
            Setting::Intensity
            | Setting::LocalTone
            | Setting::LocalStructure => Widget::Number { lower: 0, upper: 200, step: 5, whole: false },
            Setting::SkinStructure => Widget::Number { lower: FOLLOWS_LOCAL_STRUCTURE, upper: 200, step: 5, whole: false },
            Setting::Sharpness
            | Setting::TransferStrength
            | Setting::ColourStrength
            | Setting::CompareSplit => Widget::Number { lower: 0, upper: 100, step: 5, whole: false },
            Setting::Passes => Widget::Number { lower: 100, upper: 3000, step: 100, whole: true },
            Setting::ToggleKey => Widget::Key,
            Setting::MaxRatio => Widget::Number { lower: 100, upper: 800, step: 10, whole: false },
            Setting::WorkingScale => Widget::Number { lower: 25, upper: 200, step: 5, whole: false },
            Setting::WhitePoint => Widget::Number { lower: 1, upper: 1000000, step: 10, whole: false },
            Setting::WhitePointScale
            | Setting::WhitePointTrim => Widget::Number { lower: 1, upper: 10000, step: 5, whole: false },
            Setting::CompareZoom => Widget::Number { lower: 10, upper: 800, step: 10, whole: false },
            _ => Widget::Choice,
        }
    }

    /// How the setting is edited.
    pub fn widget(self) -> (r: Widget)
        ensures
            r == self.editor(),
            r == (match self {
                Setting::Enabled
                | Setting::AutoMask
                | Setting::MotionEnabled
                | Setting::Bypass
                | Setting::UnlockPasses
                | Setting::ApplyModel
                | Setting::HoldFrame
                | Setting::CompareSwap => Widget::Switch,
                Setting::Preset => Widget::Number { lower: 0, upper: 300, step: 100, whole: true },
                Setting::Intensity
                | Setting::LocalTone
                | Setting::LocalStructure => Widget::Number { lower: 0, upper: 200, step: 5, whole: false },
                Setting::SkinStructure => Widget::Number { lower: FOLLOWS_LOCAL_STRUCTURE, upper: 200, step: 5, whole: false },
                Setting::Sharpness
                | Setting::TransferStrength
                | Setting::ColourStrength
                | Setting::CompareSplit => Widget::Number { lower: 0, upper: 100, step: 5, whole: false },
                Setting::Passes => Widget::Number { lower: 100, upper: 3000, step: 100, whole: true },
                Setting::ToggleKey => Widget::Key,
                Setting::MaxRatio => Widget::Number { lower: 100, upper: 800, step: 10, whole: false },
                Setting::WorkingScale => Widget::Number { lower: 25, upper: 200, step: 5, whole: false },
                Setting::WhitePoint => Widget::Number { lower: 1, upper: 1000000, step: 10, whole: false },
                Setting::WhitePointScale
                | Setting::WhitePointTrim => Widget::Number { lower: 1, upper: 10000, step: 5, whole: false },
                Setting::CompareZoom => Widget::Number { lower: 10, upper: 800, step: 10, whole: false },
                _ => Widget::Choice,
            }),
    {
        match self {
            Setting::Enabled
            | Setting::AutoMask
            | Setting::MotionEnabled
            | Setting::Bypass
            | Setting::UnlockPasses
            | Setting::ApplyModel
            | Setting::HoldFrame
            | Setting::CompareSwap => Widget::Switch,
            Setting::Preset => Widget::Number { lower: 0, upper: 300, step: 100, whole: true },
            Setting::Intensity
            | Setting::LocalTone
            | Setting::LocalStructure => Widget::Number { lower: 0, upper: 200, step: 5, whole: false },
            Setting::SkinStructure => Widget::Number { lower: FOLLOWS_LOCAL_STRUCTURE, upper: 200, step: 5, whole: false },
            Setting::Sharpness
            | Setting::TransferStrength
            | Setting::ColourStrength
            | Setting::CompareSplit => Widget::Number { lower: 0, upper: 100, step: 5, whole: false },
            Setting::Passes => Widget::Number { lower: 100, upper: 3000, step: 100, whole: true },
            Setting::ToggleKey => Widget::Key,
            Setting::MaxRatio => Widget::Number { lower: 100, upper: 800, step: 10, whole: false },
            Setting::WorkingScale => Widget::Number { lower: 25, upper: 200, step: 5, whole: false },
            Setting::WhitePoint => Widget::Number { lower: 1, upper: 1000000, step: 10, whole: false },
            Setting::WhitePointScale
            | Setting::WhitePointTrim => Widget::Number { lower: 1, upper: 10000, step: 5, whole: false },
            Setting::CompareZoom => Widget::Number { lower: 10, upper: 800, step: 10, whole: false },
            _ => Widget::Choice,
        }
    }

    /// The options of a choice, in the order of their stored numbers.
    pub open spec fn alternatives(self) -> Seq<Seq<char>> {
        match self {
            Setting::Style => seq![
                "Default"@,
                "Natural"@,
                "Cinematic"@,
            ],
            Setting::MotionUnits => seq![
                "Normalised"@,
                "Pixels"@,
                "UV 0..1"@,
            ],
            Setting::MotionQuality => seq![
                "Fast"@,
                "Balanced"@,
                "Quality"@,
            ],
            Setting::Downscaler => seq![
                "FSR1 (unsupported)"@,
                "Bicubic"@,
                "Catmull-Rom"@,
                "Lanczos2"@,
                "Lanczos3"@,
                "Kaiser2"@,
                "Kaiser3"@,
                "Magic"@,
            ],
            Setting::ReversibleMode => seq![
                "Knee"@,
                "Neutwo"@,
                "Neutwo replace"@,
                "Hybrid"@,
                "Hybrid replace"@,
            ],
            Setting::HdrMode => seq![
                "Auto"@,
                "Off"@,
                "Force float16"@,
            ],
            Setting::ColourMode => seq![
                "Auto"@,
                "Force display-referred"@,
                "Force linear HDR"@,
            ],
            Setting::Transfer => seq![
                "Classic"@,
                "Matched residual"@,
                "Native + edit"@,
            ],
            Setting::WhitePointSource => seq![
                "Manual"@,
                "Measured"@,
            ],
            Setting::CompareMode => seq![
                "Off"@,
                "Side by side"@,
                "Wipe"@,
            ],
            Setting::DebugView => seq![
                "Off"@,
                "Original / proxy"@,
                "Model's raw answer"@,
                "Amplified diff"@,
            ],
            _ => seq![],
        }
    }

    /// The options of a choice, in the order of their stored numbers.
    pub fn options(self) -> (r: Vec<&'static str>)
        ensures
            option_texts(r@) == self.alternatives(),
            option_texts(r@) == (match self {
                Setting::Style => seq![
                    "Default"@,
                    "Natural"@,
                    "Cinematic"@,
                ],
                Setting::MotionUnits => seq![
                    "Normalised"@,
                    "Pixels"@,
                    "UV 0..1"@,
                ],
                Setting::MotionQuality => seq![
                    "Fast"@,
                    "Balanced"@,
                    "Quality"@,
                ],
                Setting::Downscaler => seq![
                    "FSR1 (unsupported)"@,
                    "Bicubic"@,
                    "Catmull-Rom"@,
                    "Lanczos2"@,
                    "Lanczos3"@,
                    "Kaiser2"@,
                    "Kaiser3"@,
                    "Magic"@,
                ],
                Setting::ReversibleMode => seq![
                    "Knee"@,
                    "Neutwo"@,
                    "Neutwo replace"@,
                    "Hybrid"@,
                    "Hybrid replace"@,
                ],
                Setting::HdrMode => seq![
                    "Auto"@,
                    "Off"@,
                    "Force float16"@,
                ],
                Setting::ColourMode => seq![
                    "Auto"@,
                    "Force display-referred"@,
                    "Force linear HDR"@,
                ],
                Setting::Transfer => seq![
                    "Classic"@,
                    "Matched residual"@,
                    "Native + edit"@,
                ],
                Setting::WhitePointSource => seq![
                    "Manual"@,
                    "Measured"@,
                ],
                Setting::CompareMode => seq![
                    "Off"@,
                    "Side by side"@,
                    "Wipe"@,
                ],
                Setting::DebugView => seq![
                    "Off"@,
                    "Original / proxy"@,
                    "Model's raw answer"@,
                    "Amplified diff"@,
                ],
                _ => seq![],
            }),
    {
        let list: Vec<&'static str> = match self {
            Setting::Style => vec![
                "Default",
                "Natural",
                "Cinematic",
            ],
            Setting::MotionUnits => vec![
                "Normalised",
                "Pixels",
                "UV 0..1",
            ],
            Setting::MotionQuality => vec![
                "Fast",
                "Balanced",
                "Quality",
            ],
            Setting::Downscaler => vec![
                "FSR1 (unsupported)",
                "Bicubic",
                "Catmull-Rom",
                "Lanczos2",
                "Lanczos3",
                "Kaiser2",
                "Kaiser3",
                "Magic",
            ],
            Setting::ReversibleMode => vec![
                "Knee",
                "Neutwo",
                "Neutwo replace",
                "Hybrid",
                "Hybrid replace",
            ],
            Setting::HdrMode => vec![
                "Auto",
                "Off",
                "Force float16",
            ],
            Setting::ColourMode => vec![
                "Auto",
                "Force display-referred",
                "Force linear HDR",
            ],
            Setting::Transfer => vec![
                "Classic",
                "Matched residual",
                "Native + edit",
            ],
            Setting::WhitePointSource => vec![
                "Manual",
                "Measured",
            ],
            Setting::CompareMode => vec![
                "Off",
                "Side by side",
                "Wipe",
            ],
            Setting::DebugView => vec![
                "Off",
                "Original / proxy",
                "Model's raw answer",
                "Amplified diff",
            ],
            _ => Vec::new(),
        };
        assert(option_texts(list@) =~= self.alternatives());
        list
    }
}

/// The contents of each option.
pub open spec fn option_texts(list: Seq<&'static str>) -> Seq<Seq<char>> {
    list.map_values(|text: &'static str| text@)
}

impl Page {
    /// The groups of settings on the page, from the top.
    pub open spec fn contents(self) -> Seq<Group> {
        match self {
            Page::Model => seq![Group::Model],
            Page::Motion => seq![Group::Motion],
            Page::Composition => seq![Group::Composition, Group::WhitePoint],
            Page::Debug => seq![Group::Debug],
            Page::Status | Page::Setup => seq![],
        }
    }

    /// The groups of settings on the page, from the top.
    pub fn groups(self) -> (r: Vec<Group>)
        ensures
            r@ == self.contents(),
            r@ == (match self {
                Page::Model => seq![Group::Model],
                Page::Motion => seq![Group::Motion],
                Page::Composition => seq![Group::Composition, Group::WhitePoint],
                Page::Debug => seq![Group::Debug],
                Page::Status | Page::Setup => seq![],
            }),
    {
        match self {
            Page::Model => vec![Group::Model],
            Page::Motion => vec![Group::Motion],
            Page::Composition => vec![Group::Composition, Group::WhitePoint],
            Page::Debug => vec![Group::Debug],
            Page::Status | Page::Setup => Vec::new(),
        }
    }

    /// The name the page is found under.
    pub fn name(self) -> (r: &'static str)
        ensures
            r@ == (match self {
                Page::Model => "model"@,
                Page::Motion => "motion"@,
                Page::Composition => "composition"@,
                Page::Debug => "debug"@,
                Page::Status => "status"@,
                Page::Setup => "setup"@,
            }),
    {
        match self {
            Page::Model => "model",
            Page::Motion => "motion",
            Page::Composition => "composition",
            Page::Debug => "debug",
            Page::Status => "status",
            Page::Setup => "setup",
        }
    }

    /// The text of the page's tab.
    pub fn title(self) -> (r: &'static str)
        ensures
            r@ == (match self {
                Page::Model => "Model"@,
                Page::Motion => "Motion"@,
                Page::Composition => "Composition"@,
                Page::Debug => "Debug"@,
                Page::Status => "Status"@,
                Page::Setup => "Setup"@,
            }),
    {
        match self {
            Page::Model => "Model",
            Page::Motion => "Motion",
            Page::Composition => "Composition",
            Page::Debug => "Debug",
            Page::Status => "Status",
            Page::Setup => "Setup",
        }
    }

    /// The icon of the page's tab.
    pub fn icon(self) -> (r: &'static str)
        ensures
            r@ == (match self {
                Page::Model => "applications-graphics-symbolic"@,
                Page::Motion => "camera-video-symbolic"@,
                Page::Composition => "view-paged-symbolic"@,
                Page::Debug => "edit-find-symbolic"@,
                Page::Status => "network-transmit-receive-symbolic"@,
                Page::Setup => "preferences-system-symbolic"@,
            }),
    {
        match self {
            Page::Model => "applications-graphics-symbolic",
            Page::Motion => "camera-video-symbolic",
            Page::Composition => "view-paged-symbolic",
            Page::Debug => "edit-find-symbolic",
            Page::Status => "network-transmit-receive-symbolic",
            Page::Setup => "preferences-system-symbolic",
        }
    }
}

/// The pages, in the order of their tabs.
pub fn pages() -> (r: Vec<Page>)
    ensures
        r@ == seq![
            Page::Model,
            Page::Motion,
            Page::Composition,
            Page::Debug,
            Page::Status,
            Page::Setup,
        ],
{
    vec![Page::Model, Page::Motion, Page::Composition, Page::Debug, Page::Status, Page::Setup]
}

/// Every group stands on exactly one page: it is in the list of its own page, once, and in
/// no other.
pub proof fn every_group_is_on_one_page(group: Group, page: Page)
    ensures
        group.page().contents().contains(group),
        page.contents().contains(group) ==> page == group.page(),
        page.contents().no_duplicates(),
{
    let list = group.page().contents();
    assert(list[if group == Group::WhitePoint {
        1
    } else {
        0
    }] == group);
    let others = page.contents();
    if others.contains(group) {
        let i = others.index_of(group);
        assert(others[i] == group);
    }
}

/// Every setting has exactly one row: it is in the list of its own group, once, and in no
/// other.
pub proof fn every_setting_has_one_row(setting: Setting, group: Group)
    ensures
        setting.group().members().contains(setting),
        group.members().contains(setting) ==> group == setting.group(),
        group.members().no_duplicates(),
{
    let list = setting.group().members();
    lemma_row(setting);
    assert(list[row_number(setting)] == setting);
    let others = group.members();
    if others.contains(setting) {
        let i = others.index_of(setting);
        assert(others[i] == setting);
    }
}

/// The number of a setting's row in its group.
spec fn row_number(setting: Setting) -> int {
    match setting {
        Setting::Style => 1,
        Setting::Preset => 2,
        Setting::Intensity => 3,
        Setting::LocalTone => 4,
        Setting::LocalStructure => 5,
        Setting::SkinStructure => 6,
        Setting::Sharpness => 7,
        Setting::AutoMask => 8,
        Setting::Passes => 9,
        Setting::ToggleKey => 10,
        Setting::MotionUnits => 1,
        Setting::MotionQuality => 2,
        Setting::TransferStrength => 1,
        Setting::ColourStrength => 2,
        Setting::MaxRatio => 3,
        Setting::WorkingScale => 4,
        Setting::Downscaler => 5,
        Setting::ReversibleMode => 6,
        Setting::HdrMode => 7,
        Setting::ColourMode => 8,
        Setting::Transfer => 9,
        Setting::UnlockPasses => 10,
        Setting::ApplyModel => 11,
        Setting::HoldFrame => 12,
        Setting::WhitePoint => 1,
        Setting::WhitePointScale => 2,
        Setting::WhitePointTrim => 3,
        Setting::CompareSplit => 1,
        Setting::CompareZoom => 2,
        Setting::CompareSwap => 3,
        Setting::DebugView => 4,
        _ => 0,
    }
}

proof fn lemma_row(setting: Setting)
    ensures
        0 <= row_number(setting) < setting.group().members().len(),
        setting.group().members()[row_number(setting)] == setting,
{
}

/// Every editor can be used: a choice has options, and only a choice has any; a number has
/// its limits in order and at least one step apart, and a whole number has whole limits and
/// steps. Outside the white point, whose limits start just above zero, a whole number of
/// steps leads from one limit to the other.
pub proof fn every_editor_is_usable(setting: Setting)
    ensures
        setting.editor() is Choice <==> setting.alternatives().len() > 0,
        setting.editor() matches Widget::Number { lower, upper, step, .. } ==> lower < upper && 0
            < step <= upper - lower,
        setting.editor() matches Widget::Number { lower, upper, step, .. } ==> (setting.group()
            != Group::WhitePoint ==> (upper - lower) % (step as int) == 0),
        setting.editor() matches Widget::Number { lower, upper, step, whole } ==> (whole ==> lower
            % 100 == 0 && upper % 100 == 0 && step % 100 == 0),
{
    assert(200int % 5 == 0 && 300int % 5 == 0 && 100int % 5 == 0 && 175int % 5 == 0);
    assert(700int % 10 == 0 && 790int % 10 == 0);
    assert(300int % 100 == 0 && 2900int % 100 == 0);
}

/// A character of a row's title, as the names in the configuration have it.
pub open spec fn in_lower_case(c: char) -> char {
    if c == ' ' {
        '_'
    } else if 'A' <= c <= 'Z' {
        ((c as int) + 32) as char
    } else {
        c
    }
}

/// A row's title as a name in the configuration: lower case, with underscores.
pub open spec fn in_snake_case(title: Seq<char>) -> Seq<char> {
    title.map_values(|c: char| in_lower_case(c))
}

/// The settings that are stored under another name than their row's title.
pub open spec fn renamed(setting: Setting) -> bool {
    ||| setting == Setting::Enabled
    ||| setting == Setting::MotionEnabled
    ||| setting == Setting::MotionUnits
    ||| setting == Setting::MotionQuality
    ||| setting == Setting::Bypass
    ||| setting == Setting::Downscaler
    ||| setting == Setting::HdrMode
    ||| setting == Setting::Transfer
    ||| setting == Setting::UnlockPasses
    ||| setting == Setting::ApplyModel
    ||| setting == Setting::WhitePoint
    ||| setting == Setting::CompareSwap
}

/// A row edits the setting it says: a setting is stored under its own row's title, in snake
/// case, apart from those that have another name.
pub proof fn rows_edit_the_setting_they_name(setting: Setting)
    requires
        !renamed(setting),
    ensures
        setting.stored_as() == in_snake_case(setting.caption()),
{
    match setting {
        Setting::Style => {
            reveal_strlit("Style");
            reveal_strlit("style");
            assert(setting.stored_as() =~= in_snake_case(setting.caption()));
        },
        Setting::Preset => {
            reveal_strlit("Preset");
            reveal_strlit("preset");
            assert(setting.stored_as() =~= in_snake_case(setting.caption()));
        },
        Setting::Intensity => {
            reveal_strlit("Intensity");
            reveal_strlit("intensity");
            assert(setting.stored_as() =~= in_snake_case(setting.caption()));
        },
        Setting::LocalTone => {
            reveal_strlit("Local tone");
            reveal_strlit("local_tone");
            assert(setting.stored_as() =~= in_snake_case(setting.caption()));
        },
        Setting::LocalStructure => {
            reveal_strlit("Local structure");
            reveal_strlit("local_structure");
            assert(setting.stored_as() =~= in_snake_case(setting.caption()));
        },
        Setting::SkinStructure => {
            reveal_strlit("Skin structure");
            reveal_strlit("skin_structure");
            assert(setting.stored_as() =~= in_snake_case(setting.caption()));
        },
        Setting::Sharpness => {
            reveal_strlit("Sharpness");
            reveal_strlit("sharpness");
            assert(setting.stored_as() =~= in_snake_case(setting.caption()));
        },
        Setting::AutoMask => {
            reveal_strlit("Auto mask");
            reveal_strlit("auto_mask");
            assert(setting.stored_as() =~= in_snake_case(setting.caption()));
        },
        Setting::Passes => {
            reveal_strlit("Passes");
            reveal_strlit("passes");
            assert(setting.stored_as() =~= in_snake_case(setting.caption()));
        },
        Setting::ToggleKey => {
            reveal_strlit("Toggle key");
            reveal_strlit("toggle_key");
            assert(setting.stored_as() =~= in_snake_case(setting.caption()));
        },
        Setting::TransferStrength => {
            reveal_strlit("Transfer strength");
            reveal_strlit("transfer_strength");
            assert(setting.stored_as() =~= in_snake_case(setting.caption()));
        },
        Setting::ColourStrength => {
            reveal_strlit("Colour strength");
            reveal_strlit("colour_strength");
            assert(setting.stored_as() =~= in_snake_case(setting.caption()));
        },
        Setting::MaxRatio => {
            reveal_strlit("Max ratio");
            reveal_strlit("max_ratio");
            assert(setting.stored_as() =~= in_snake_case(setting.caption()));
        },
        Setting::WorkingScale => {
            reveal_strlit("Working scale");
            reveal_strlit("working_scale");
            assert(setting.stored_as() =~= in_snake_case(setting.caption()));
        },
        Setting::ReversibleMode => {
            reveal_strlit("Reversible mode");
            reveal_strlit("reversible_mode");
            assert(setting.stored_as() =~= in_snake_case(setting.caption()));
        },
        Setting::ColourMode => {
            reveal_strlit("Colour mode");
            reveal_strlit("colour_mode");
            assert(setting.stored_as() =~= in_snake_case(setting.caption()));
        },
        Setting::HoldFrame => {
            reveal_strlit("Hold frame");
            reveal_strlit("hold_frame");
            assert(setting.stored_as() =~= in_snake_case(setting.caption()));
        },
        Setting::WhitePointSource => {
            reveal_strlit("White point source");
            reveal_strlit("white_point_source");
            assert(setting.stored_as() =~= in_snake_case(setting.caption()));
        },
        Setting::WhitePointScale => {
            reveal_strlit("White point scale");
            reveal_strlit("white_point_scale");
            assert(setting.stored_as() =~= in_snake_case(setting.caption()));
        },
        Setting::WhitePointTrim => {
            reveal_strlit("White point trim");
            reveal_strlit("white_point_trim");
            assert(setting.stored_as() =~= in_snake_case(setting.caption()));
        },
        Setting::CompareMode => {
            reveal_strlit("Compare mode");
            reveal_strlit("compare_mode");
            assert(setting.stored_as() =~= in_snake_case(setting.caption()));
        },
        Setting::CompareSplit => {
            reveal_strlit("Compare split");
            reveal_strlit("compare_split");
            assert(setting.stored_as() =~= in_snake_case(setting.caption()));
        },
        Setting::CompareZoom => {
            reveal_strlit("Compare zoom");
            reveal_strlit("compare_zoom");
            assert(setting.stored_as() =~= in_snake_case(setting.caption()));
        },
        Setting::DebugView => {
            reveal_strlit("Debug view");
            reveal_strlit("debug_view");
            assert(setting.stored_as() =~= in_snake_case(setting.caption()));
        },
        _ => {},
    }
}

/// No two settings share a name in the configuration: an edit in one row never changes
/// another setting.
pub proof fn settings_are_stored_apart(a: Setting, b: Setting)
    requires
        a != b,
    ensures
        a.stored_as() != b.stored_as(),
{
    lemma_name(a);
    lemma_name(b);
}

proof fn lemma_name(setting: Setting)
    ensures
        (setting.stored_as().len(), setting.stored_as().first(), setting.stored_as().last()) == name_shape(setting),
{
    match setting {
        Setting::Enabled => reveal_strlit("enabled"),
        Setting::Style => reveal_strlit("style"),
        Setting::Preset => reveal_strlit("preset"),
        Setting::Intensity => reveal_strlit("intensity"),
        Setting::LocalTone => reveal_strlit("local_tone"),
        Setting::LocalStructure => reveal_strlit("local_structure"),
        Setting::SkinStructure => reveal_strlit("skin_structure"),
        Setting::Sharpness => reveal_strlit("sharpness"),
        Setting::AutoMask => reveal_strlit("auto_mask"),
        Setting::Passes => reveal_strlit("passes"),
        Setting::ToggleKey => reveal_strlit("toggle_key"),
        Setting::MotionEnabled => reveal_strlit("mvec_enabled"),
        Setting::MotionUnits => reveal_strlit("mvec_scale_mode"),
        Setting::MotionQuality => reveal_strlit("mvec_quality"),
        Setting::Bypass => reveal_strlit("composition_bypass"),
        Setting::TransferStrength => reveal_strlit("transfer_strength"),
        Setting::ColourStrength => reveal_strlit("colour_strength"),
        Setting::MaxRatio => reveal_strlit("max_ratio"),
        Setting::WorkingScale => reveal_strlit("working_scale"),
        Setting::Downscaler => reveal_strlit("scaling_downscaler"),
        Setting::ReversibleMode => reveal_strlit("reversible_mode"),
        Setting::HdrMode => reveal_strlit("hdr_mode"),
        Setting::ColourMode => reveal_strlit("colour_mode"),
        Setting::Transfer => reveal_strlit("transfer"),
        Setting::UnlockPasses => reveal_strlit("unlock_passes"),
        Setting::ApplyModel => reveal_strlit("apply_model"),
        Setting::HoldFrame => reveal_strlit("hold_frame"),
        Setting::WhitePointSource => reveal_strlit("white_point_source"),
        Setting::WhitePoint => reveal_strlit("white_point"),
        Setting::WhitePointScale => reveal_strlit("white_point_scale"),
        Setting::WhitePointTrim => reveal_strlit("white_point_trim"),
        Setting::CompareMode => reveal_strlit("compare_mode"),
        Setting::CompareSplit => reveal_strlit("compare_split"),
        Setting::CompareZoom => reveal_strlit("compare_zoom"),
        Setting::CompareSwap => reveal_strlit("compare_swap"),
        Setting::DebugView => reveal_strlit("debug_view"),
    }
}

spec fn name_shape(setting: Setting) -> (nat, char, char) {
    match setting {
        Setting::Enabled => (7, 'e', 'd'),
        Setting::Style => (5, 's', 'e'),
        Setting::Preset => (6, 'p', 't'),
        Setting::Intensity => (9, 'i', 'y'),
        Setting::LocalTone => (10, 'l', 'e'),
        Setting::LocalStructure => (15, 'l', 'e'),
        Setting::SkinStructure => (14, 's', 'e'),
        Setting::Sharpness => (9, 's', 's'),
        Setting::AutoMask => (9, 'a', 'k'),
        Setting::Passes => (6, 'p', 's'),
        Setting::ToggleKey => (10, 't', 'y'),
        Setting::MotionEnabled => (12, 'm', 'd'),
        Setting::MotionUnits => (15, 'm', 'e'),
        Setting::MotionQuality => (12, 'm', 'y'),
        Setting::Bypass => (18, 'c', 's'),
        Setting::TransferStrength => (17, 't', 'h'),
        Setting::ColourStrength => (15, 'c', 'h'),
        Setting::MaxRatio => (9, 'm', 'o'),
        Setting::WorkingScale => (13, 'w', 'e'),
        Setting::Downscaler => (18, 's', 'r'),
        Setting::ReversibleMode => (15, 'r', 'e'),
        Setting::HdrMode => (8, 'h', 'e'),
        Setting::ColourMode => (11, 'c', 'e'),
        Setting::Transfer => (8, 't', 'r'),
        Setting::UnlockPasses => (13, 'u', 's'),
        Setting::ApplyModel => (11, 'a', 'l'),
        Setting::HoldFrame => (10, 'h', 'e'),
        Setting::WhitePointSource => (18, 'w', 'e'),
        Setting::WhitePoint => (11, 'w', 't'),
        Setting::WhitePointScale => (17, 'w', 'e'),
        Setting::WhitePointTrim => (16, 'w', 'm'),
        Setting::CompareMode => (12, 'c', 'e'),
        Setting::CompareSplit => (13, 'c', 't'),
        Setting::CompareZoom => (12, 'c', 'm'),
        Setting::CompareSwap => (12, 'c', 'p'),
        Setting::DebugView => (10, 'd', 'w'),
    }
}

/// No two rows have the same title.
pub proof fn rows_are_told_apart(a: Setting, b: Setting)
    requires
        a != b,
    ensures
        a.caption() != b.caption(),
{
    lemma_title(a);
    lemma_title(b);
}

proof fn lemma_title(setting: Setting)
    ensures
        (setting.caption().len(), setting.caption().first(), setting.caption().last()) == title_shape(setting),
{
    match setting {
        Setting::Enabled => reveal_strlit("Neural rendering"),
        Setting::Style => reveal_strlit("Style"),
        Setting::Preset => reveal_strlit("Preset"),
        Setting::Intensity => reveal_strlit("Intensity"),
        Setting::LocalTone => reveal_strlit("Local tone"),
        Setting::LocalStructure => reveal_strlit("Local structure"),
        Setting::SkinStructure => reveal_strlit("Skin structure"),
        Setting::Sharpness => reveal_strlit("Sharpness"),
        Setting::AutoMask => reveal_strlit("Auto mask"),
        Setting::Passes => reveal_strlit("Passes"),
        Setting::ToggleKey => reveal_strlit("Toggle key"),
        Setting::MotionEnabled => reveal_strlit("Estimate motion vectors"),
        Setting::MotionUnits => reveal_strlit("Motion units"),
        Setting::MotionQuality => reveal_strlit("Motion quality"),
        Setting::Bypass => reveal_strlit("Bypass composition"),
        Setting::TransferStrength => reveal_strlit("Transfer strength"),
        Setting::ColourStrength => reveal_strlit("Colour strength"),
        Setting::MaxRatio => reveal_strlit("Max ratio"),
        Setting::WorkingScale => reveal_strlit("Working scale"),
        Setting::Downscaler => reveal_strlit("Supersampling filter"),
        Setting::ReversibleMode => reveal_strlit("Reversible mode"),
        Setting::HdrMode => reveal_strlit("HDR input"),
        Setting::ColourMode => reveal_strlit("Colour mode"),
        Setting::Transfer => reveal_strlit("Transfer mode"),
        Setting::UnlockPasses => reveal_strlit("Unlock pass limit"),
        Setting::ApplyModel => reveal_strlit("Apply model edit"),
        Setting::HoldFrame => reveal_strlit("Hold frame"),
        Setting::WhitePointSource => reveal_strlit("White point source"),
        Setting::WhitePoint => reveal_strlit("Manual white point"),
        Setting::WhitePointScale => reveal_strlit("White point scale"),
        Setting::WhitePointTrim => reveal_strlit("White point trim"),
        Setting::CompareMode => reveal_strlit("Compare mode"),
        Setting::CompareSplit => reveal_strlit("Compare split"),
        Setting::CompareZoom => reveal_strlit("Compare zoom"),
        Setting::CompareSwap => reveal_strlit("Swap compare sides"),
        Setting::DebugView => reveal_strlit("Debug view"),
    }
}

spec fn title_shape(setting: Setting) -> (nat, char, char) {
    match setting {
        Setting::Enabled => (16, 'N', 'g'),
        Setting::Style => (5, 'S', 'e'),
        Setting::Preset => (6, 'P', 't'),
        Setting::Intensity => (9, 'I', 'y'),
        Setting::LocalTone => (10, 'L', 'e'),
        Setting::LocalStructure => (15, 'L', 'e'),
        Setting::SkinStructure => (14, 'S', 'e'),
        Setting::Sharpness => (9, 'S', 's'),
        Setting::AutoMask => (9, 'A', 'k'),
        Setting::Passes => (6, 'P', 's'),
        Setting::ToggleKey => (10, 'T', 'y'),
        Setting::MotionEnabled => (23, 'E', 's'),
        Setting::MotionUnits => (12, 'M', 's'),
        Setting::MotionQuality => (14, 'M', 'y'),
        Setting::Bypass => (18, 'B', 'n'),
        Setting::TransferStrength => (17, 'T', 'h'),
        Setting::ColourStrength => (15, 'C', 'h'),
        Setting::MaxRatio => (9, 'M', 'o'),
        Setting::WorkingScale => (13, 'W', 'e'),
        Setting::Downscaler => (20, 'S', 'r'),
        Setting::ReversibleMode => (15, 'R', 'e'),
        Setting::HdrMode => (9, 'H', 't'),
        Setting::ColourMode => (11, 'C', 'e'),
        Setting::Transfer => (13, 'T', 'e'),
        Setting::UnlockPasses => (17, 'U', 't'),
        Setting::ApplyModel => (16, 'A', 't'),
        Setting::HoldFrame => (10, 'H', 'e'),
        Setting::WhitePointSource => (18, 'W', 'e'),
        Setting::WhitePoint => (18, 'M', 't'),
        Setting::WhitePointScale => (17, 'W', 'e'),
        Setting::WhitePointTrim => (16, 'W', 'm'),
        Setting::CompareMode => (12, 'C', 'e'),
        Setting::CompareSplit => (13, 'C', 't'),
        Setting::CompareZoom => (12, 'C', 'm'),
        Setting::CompareSwap => (18, 'S', 's'),
        Setting::DebugView => (10, 'D', 'w'),
    }
}

/// The settings that have another name than their row's title are stored under these.
pub proof fn renamed_settings_keep_their_names()
    ensures
        Setting::Enabled.stored_as() == "enabled"@,
        Setting::MotionEnabled.stored_as() == "mvec_enabled"@,
        Setting::MotionUnits.stored_as() == "mvec_scale_mode"@,
        Setting::MotionQuality.stored_as() == "mvec_quality"@,
        Setting::Bypass.stored_as() == "composition_bypass"@,
        Setting::Downscaler.stored_as() == "scaling_downscaler"@,
        Setting::HdrMode.stored_as() == "hdr_mode"@,
        Setting::Transfer.stored_as() == "transfer"@,
        Setting::UnlockPasses.stored_as() == "unlock_passes"@,
        Setting::ApplyModel.stored_as() == "apply_model"@,
        Setting::WhitePoint.stored_as() == "white_point"@,
        Setting::CompareSwap.stored_as() == "compare_swap"@,
        forall|setting: Setting| #[trigger]
            renamed(setting) ==> setting.stored_as() != in_snake_case(setting.caption()),
{
    assert forall|setting: Setting| #[trigger] renamed(setting) implies setting.stored_as()
        != in_snake_case(setting.caption()) by {
        lemma_name(setting);
        lemma_title(setting);
        assert(in_snake_case(setting.caption()).len() == setting.caption().len());
    }
}

} // verus!
