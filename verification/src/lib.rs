//! Verified core logic of the novadraw graphical editing framework.

pub mod adder;
pub mod color_hex;
pub mod command;
pub mod demo;
pub mod editor;
pub mod editpart;
pub mod graphics_state;
pub mod interaction;
pub mod render_style;
pub mod tool;
pub mod update_schedule;
pub mod window_proxy;
