use vstd::prelude::*;

pub mod actions;
pub mod architect_actions;
pub mod continuous_action;
pub mod expression_mouse;
pub mod extension;
pub mod item_actions;
pub mod key_selector;
pub mod menu;
pub mod midi_flam;
pub mod midi_mode;
pub mod midi_mode_input;
pub mod midi_tools_panel;
pub mod mirror;
pub mod mode_input;
pub mod mode_selector;
pub mod mode_toolbars;
pub mod panel;
pub mod smart_duplicate;
pub mod snapshot;
pub mod sync_settings;
pub mod tempo;
pub mod text;
pub mod ui_test_panel;
pub mod volume_balancer;

verus! {
} // verus!
