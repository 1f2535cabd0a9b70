//! A ball on the desktop that shows how much of a Codex quota is left: everything about it that
//! is decided or computed.
use vstd::prelude::*;

pub mod ball;
pub mod bytes;
pub mod clipboard;
pub mod commands;
pub mod config;
pub mod error;
pub mod fixed;
pub mod interaction;
pub mod layout;
pub mod monitor;
pub mod motion;
pub mod notify;
pub mod overlay;
pub mod panel;
pub mod presence;
pub mod presentation;
pub mod quota;
pub mod ring;
pub mod snap;
pub mod system;
pub mod text;
pub mod time;
pub mod tray;
pub mod window;

verus! {

} // verus!
