use vstd::prelude::*;

pub mod cd;
pub mod controller;
pub mod debug_text;
pub mod dvd_monitor;
pub mod hdmi_cec;
pub mod ir_remote_monitor;
pub mod text;
pub mod ui;
pub mod vlc;

verus! {
}
