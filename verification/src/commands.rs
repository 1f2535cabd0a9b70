//! Identifiers of the tray menu's commands, and of the window's own messages and timers.
use vstd::prelude::*;

verus! {

pub const CMD_SHOW: usize = 1001;

pub const CMD_REFRESH: usize = 1002;

pub const CMD_USAGE: usize = 1003;

pub const CMD_TOPMOST: usize = 1004;

pub const CMD_AUTOSTART: usize = 1005;

pub const CMD_EXIT: usize = 1006;

pub const CMD_PANEL_PERSISTENT: usize = 1007;

pub const CMD_REFRESH_1_MIN: usize = 1008;

pub const CMD_REFRESH_5_MIN: usize = 1009;

pub const CMD_REFRESH_10_MIN: usize = 1010;

pub const CMD_REFRESH_30_MIN: usize = 1011;

pub const CMD_REFRESH_2_MIN: usize = 1012;

pub const CMD_FOLLOW_CODEX: usize = 1013;

pub const CMD_TOKEN_UNIT_ZH: usize = 1014;

pub const CMD_TOKEN_UNIT_EN: usize = 1015;

pub const CMD_COLOR_STYLE_SOFT: usize = 1016;

pub const CMD_COLOR_STYLE_VIVID: usize = 1017;

pub const CMD_COPY_PANEL: usize = 1018;

pub const CMD_NOTIFY_RESET: usize = 1019;

pub const CMD_NOTIFY_OVERFLOW: usize = 1020;

pub const CMD_RESET_COUNTDOWN: usize = 1021;

pub const CMD_TEST_NOTIFY_RESET: usize = 1022;

pub const CMD_TEST_NOTIFY_BALANCE: usize = 1023;

pub const WM_DESTROY: u32 = 2;

pub const WM_CLOSE: u32 = 16;

pub const WM_SETTINGCHANGE: u32 = 26;

pub const WM_MOUSEACTIVATE: u32 = 33;

pub const WM_CONTEXTMENU: u32 = 123;

pub const WM_DISPLAYCHANGE: u32 = 126;

pub const WM_NCDESTROY: u32 = 130;

pub const WM_NCHITTEST: u32 = 132;

pub const WM_COMMAND: u32 = 273;

pub const WM_TIMER: u32 = 275;

pub const WM_MOUSEMOVE: u32 = 512;

pub const WM_LBUTTONDOWN: u32 = 513;

pub const WM_LBUTTONUP: u32 = 514;

pub const WM_RBUTTONDOWN: u32 = 516;

pub const WM_RBUTTONUP: u32 = 517;

pub const WM_MBUTTONDOWN: u32 = 519;

pub const WM_XBUTTONDOWN: u32 = 523;

pub const WM_POWERBROADCAST: u32 = 536;

pub const WM_MOUSELEAVE: u32 = 675;

pub const WM_DPICHANGED: u32 = 736;

/// The first message that an application may use for itself.
pub const WM_APP: u32 = 32768;

/// The state has changed.
pub const WM_APP_UPDATED: u32 = WM_APP + 1;

/// Something happened to the tray icon.
pub const WM_APP_TRAY: u32 = WM_APP + 2;

/// A second instance asks the first to show itself.
pub const WM_APP_SHOW: u32 = WM_APP + 3;

/// A click outside asks the panel to collapse.
pub const WM_APP_COLLAPSE: u32 = WM_APP + 4;

/// A clicked notification asks the panel to expand.
pub const WM_APP_EXPAND: u32 = WM_APP + 5;

/// Codex has appeared or gone.
pub const WM_APP_PRESENCE_CHANGED: u32 = WM_APP + 6;

/// The machine has woken up.
pub const PBT_APMRESUMEAUTOMATIC: usize = 18;

pub const TIMER_REDRAW: usize = 1;

pub const TIMER_ANIMATION: usize = 2;

pub const TIMER_RING: usize = 3;

/// How often the ball is redrawn when nothing happens.
pub const REDRAW_MILLIS: u32 = 30_000;

/// A notification was clicked, or has gone by itself.
pub const NIN_BALLOONUSERCLICK: u32 = 1029;

pub const NIN_BALLOONTIMEOUT: u32 = 1028;

pub const NIF_MESSAGE: u32 = 1;

pub const NIF_ICON: u32 = 2;

pub const NIF_TIP: u32 = 4;

pub const NIF_GUID: u32 = 32;

pub const NIF_SHOWTIP: u32 = 128;

pub const MF_STRING: u32 = 0;

pub const MF_GRAYED: u32 = 1;

pub const MF_CHECKED: u32 = 8;

/// The window stays above others.
pub const WS_EX_TOPMOST: u32 = 8;

} // verus!
