//! The decisions of a Vulkan implicit layer that hands a game's frames to a neural
//! rendering helper, and of the settings window beside it.
pub mod capture;
pub mod capture_buffer;
pub mod commands;
pub mod config;
pub mod device;
pub mod device_creation;
pub mod entry_points;
pub mod frame;
pub mod hotkey;
pub mod install_dir;
pub mod launch_option;
pub mod layer;
pub mod loader_data;
pub mod pipeline;
pub mod presents;
pub mod primary;
pub mod profiles;
pub mod runners;
pub mod settings;
pub mod staging;
pub mod state;
pub mod surface_usage;
pub mod synchronous;
pub mod telemetry;
pub mod text;
pub mod toasts;
pub mod vulkan;
pub mod window;
