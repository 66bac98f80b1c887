//! Planning of Fedora post-install changes: which actions a system is offered,
//! and which commands carry out a selection of them.
use vstd::prelude::*;

pub mod command;
pub mod commands;
pub mod detect;
pub mod display;
pub mod host;
pub mod model;
pub mod plan;
pub mod request;
pub mod sets;
pub mod text;

pub use command::CommandSpec;
pub use commands::{
    commands_for_action, font_directory, nerd_fonts, openh264_command, rpmfusion_release_url, NerdFont,
};
pub use detect::{detect_system, SystemProbe};
pub use model::{
    ActionCategory, ActionId, GpuVendor, HostState, PlannerError, SecureBootState, SystemInfo, ACTION_COUNT,
    MIN_SUPPORTED_FEDORA,
};
pub use plan::{build_plan, plan_actions, Action, Plan};
pub use request::{commands_for_request, ApplyRequest};
pub use sets::{ActionSet, GpuVendorSet, StringSet};

verus! {

} // verus!
