//! A verified core for an i3/sway `status_command`: bar items, the powerline
//! layout, configuration ordering and validation, the IPC wire framing and the
//! audio-control decisions.

mod arith;
pub mod audio;
pub mod text;
pub mod bar;
pub mod bar_items;
pub mod bytes;
pub mod cell;
pub mod color;
pub mod config;
pub mod context;
pub mod dbus;
pub mod dispatcher;
pub mod format;
pub mod human_time;
pub mod i3;
pub mod ipc;
pub mod ipc_cli;
pub mod pulse;
pub mod theme;
pub mod util;
