//! The overlay window: its life, its commands and its messages.
//!
//! The window's handles, timers and threads belong to the application. What is kept here is
//! everything that decides what happens to them: a step says what to do next, and the
//! application reports back what came of it.
use vstd::prelude::*;

use crate::commands::{
    CMD_AUTOSTART, CMD_COPY_PANEL, CMD_EXIT, CMD_FOLLOW_CODEX, CMD_NOTIFY_OVERFLOW,
    CMD_NOTIFY_RESET, CMD_PANEL_PERSISTENT, CMD_REFRESH, CMD_RESET_COUNTDOWN, CMD_SHOW,
    CMD_TOPMOST, CMD_USAGE, PBT_APMRESUMEAUTOMATIC, TIMER_ANIMATION, TIMER_REDRAW, TIMER_RING,
    WM_APP_COLLAPSE, WM_APP_EXPAND, WM_APP_PRESENCE_CHANGED, WM_APP_SHOW, WM_APP_TRAY,
    WM_APP_UPDATED, WM_CLOSE, WM_COMMAND, WM_DESTROY, WM_DISPLAYCHANGE, WM_DPICHANGED,
    WM_LBUTTONDOWN, WM_LBUTTONUP, WM_MOUSEACTIVATE, WM_MOUSELEAVE, WM_MOUSEMOVE, WM_NCDESTROY,
    WM_NCHITTEST, WM_POWERBROADCAST, WM_SETTINGCHANGE, WM_TIMER, WS_EX_TOPMOST,
};
use crate::config::{AppConfigV1, ColorStyle, UnitStyle};
use crate::fixed;
use crate::layout;
use crate::layout::{
    dip_to_px, position_from_config, ExpansionAlignment, Point, Rect, BASE_DPI, COLLAPSED_DIP,
};
use crate::motion::PanelAnimation;
use crate::notify;
use crate::notify::{
    test_notification_for_command, NotificationSwitches, Notifier, NotifyOutcome, NotifyState,
};
use crate::overlay::Frame;
use crate::quota::{AppState, QuotaPull, QuotaSnapshot};
use crate::snap::{DragVelocity, SnapAnimation};
use crate::time::{Duration, SystemTime, MAX_SPAN_NANOS};
use crate::tray;
use crate::tray::{
    color_style_for_command, refresh_interval_for_command, token_unit_for_command, TrayState,
};

verus! {

/// The overlay window.
#[derive(Debug)]
pub struct AppWindow {
    pub config: AppConfigV1,
    /// Clicks outside the panel are being watched.
    pub hook_installed: bool,
    /// The panel is expanding or collapsing.
    pub animation: Option<PanelAnimation>,
    /// The ball is sliding to the edge.
    pub snap: Option<SnapAnimation>,
    /// The interval of the frame timer, while it runs.
    pub ring_frame_millis: Option<u32>,
    pub animations_enabled: bool,
    pub expanded: bool,
    pub expansion_alignment: ExpansionAlignment,
    pub visible: bool,
    /// The overlay's resources are there.
    pub overlay_active: bool,
    pub codex_present: bool,
    /// Tells the messages of the current watcher from those of earlier ones.
    pub presence_generation: u32,
    pub hovered: bool,
    pub dragging: bool,
    pub pointer_down: bool,
    pub drag_cursor_origin: Point,
    pub drag_window_origin: Point,
    pub drag_velocity: DragVelocity,
    pub dpi: u32,
    /// The message by which a new taskbar announces itself; zero while unknown.
    pub taskbar_created: u32,
    pub tray_added: bool,
    pub tray: TrayState,
    pub notifier: Notifier,
    pub notify_state: NotifyState,
}

/// The resolution in use: never below the base resolution.
pub open spec fn dpi_in_use(dpi: u32) -> u32 {
    if dpi < BASE_DPI {
        BASE_DPI
    } else {
        dpi
    }
}

pub fn keep_dpi(dpi: u32) -> (kept: u32)
    ensures
        kept == dpi_in_use(dpi),
{
    if dpi < BASE_DPI {
        BASE_DPI
    } else {
        dpi
    }
}

impl AppWindow {
    pub open spec fn well_formed(self) -> bool {
        &&& self.dpi >= BASE_DPI
        &&& self.animation is Some ==> self.animation->0.duration.nanos <= MAX_SPAN_NANOS
        &&& self.snap is Some ==> self.snap->0.well_formed()
        &&& self.drag_velocity.well_formed()
        // Without its resources the overlay neither shows nor moves.
        &&& !self.overlay_active ==> {
            &&& !self.visible
            &&& !self.expanded
            &&& !self.hook_installed
            &&& self.animation is None
            &&& self.snap is None
            &&& self.ring_frame_millis is None
        }
    }

    /// A window that has not been created yet.
    pub open spec fn blank(config: AppConfigV1, notify_state: NotifyState) -> AppWindow {
        AppWindow {
            config,
            hook_installed: false,
            animation: None,
            snap: None,
            ring_frame_millis: None,
            animations_enabled: true,
            expanded: false,
            expansion_alignment: ExpansionAlignment::Start,
            visible: false,
            overlay_active: false,
            codex_present: false,
            presence_generation: 0,
            hovered: false,
            dragging: false,
            pointer_down: false,
            drag_cursor_origin: Point { x: 0, y: 0 },
            drag_window_origin: Point { x: 0, y: 0 },
            drag_velocity: DragVelocity::at_rest(),
            dpi: 96,
            taskbar_created: 0,
            tray_added: false,
            tray: TrayState { uses_v4: false, menu_open: false, last_menu_closed: None },
            notifier: Notifier::blank(),
            notify_state,
        }
    }

    pub fn new(config: AppConfigV1, notify_state: NotifyState) -> (window: AppWindow)
        ensures
            window == AppWindow::blank(config, notify_state),
            window.well_formed(),
    {
        AppWindow {
            config,
            hook_installed: false,
            animation: None,
            snap: None,
            ring_frame_millis: None,
            animations_enabled: true,
            expanded: false,
            expansion_alignment: ExpansionAlignment::Start,
            visible: false,
            overlay_active: false,
            codex_present: false,
            presence_generation: 0,
            hovered: false,
            dragging: false,
            pointer_down: false,
            drag_cursor_origin: Point { x: 0, y: 0 },
            drag_window_origin: Point { x: 0, y: 0 },
            drag_velocity: DragVelocity::default(),
            dpi: BASE_DPI,
            taskbar_created: 0,
            tray_added: false,
            tray: TrayState::new(),
            notifier: Notifier::default(),
            notify_state,
        }
    }
}

/// The window as it is first created: the ball where it was last docked.
pub fn initial_frame(config: &AppConfigV1, work: Rect) -> (frame: Frame)
    requires
        layout::is_work_area(work),
        56 <= work.right - work.left,
        56 <= work.bottom - work.top,
        work.top + layout::offset_pixels(config.placement.offset_dip, BASE_DPI) <= i32::MAX,
        work.left + layout::offset_pixels(config.placement.offset_dip, BASE_DPI) <= i32::MAX,
    ensures
        frame.width == 56,
        frame.height == 56,
        (frame.destination.x as int, frame.destination.y as int) == layout::docked_at(
            config.placement.edge,
            layout::offset_pixels(config.placement.offset_dip, BASE_DPI),
            work,
            56,
        ),
{
    let side: i32 = dip_to_px(COLLAPSED_DIP, BASE_DPI);
    proof {
        fixed::law_nearest_of_a_multiple(56, 96_000_000);
    }
    Frame {
        destination: position_from_config(config, work, side, BASE_DPI),
        width: side,
        height: side,
    }
}

/// What a window that is being set up does first.
#[derive(Clone, Copy, Debug, PartialEq, Eq, Structural)]
pub enum InitStep {
    /// Wait for Codex.
    Watch,
    /// Show the overlay.
    Activate,
}

/// How to show the overlay.
#[derive(Clone, Copy, Debug, PartialEq, Eq, Structural)]
pub enum ActivateStep {
    AlreadyActive,
    /// Get the overlay's resources for a ball in a window of this side.
    Prepare { side: i32 },
}

/// What a change of the follow setting leads to.
#[derive(Clone, Copy, Debug, PartialEq, Eq, Structural)]
pub enum FollowStep {
    Unchanged,
    /// Start a watcher whose messages carry this number.
    Watch { generation: u32 },
    /// Stop the watcher and show the overlay.
    Activate,
}

/// What a watcher's message leads to.
#[derive(Clone, Copy, Debug, PartialEq, Eq, Structural)]
pub enum PresenceStep {
    Ignore,
    Activate,
    Deactivate,
}

/// What a wish to show or hide the ball leads to.
#[derive(Clone, Copy, Debug, PartialEq, Eq, Structural)]
pub enum VisibilityStep {
    Nothing,
    /// The ball moves: finish that, then ask again.
    FinishFirst,
    Hide,
    /// Show the ball; one that was not there fills its ring anew.
    Show { appears: bool },
}

/// The state that the overlay starts from: nothing known yet, shown the way it is configured.
pub open spec fn is_fresh_state(state: AppState, config: AppConfigV1) -> bool {
    &&& state.snapshot is None
    &&& state.status is Connecting
    &&& state.plan_type is None
    &&& state.quota_pull == QuotaPull::Idle
    &&& state.quota_refresh_interval.nanos == config.refresh_secs() * 1_000_000_000
    &&& state.today_tokens is None
    &&& state.today_cost is None
    &&& state.today_overflow_tokens is None
    &&& state.today_overflow_cost is None
    &&& state.current_period_tokens is None
    &&& state.current_period_cost is None
    &&& state.current_period_overflow_tokens is None
    &&& state.current_period_overflow_cost is None
    &&& state.current_period_overflow_credits is None
    &&& state.period_total_value_estimate is None
    &&& state.token_unit == config.token_unit
    &&& state.color_style == config.color_style
    &&& state.show_reset_countdown == config.show_reset_countdown
}

impl AppWindow {
    /// Takes over what the system says of the new window.
    pub fn initialize(&mut self, dpi: u32, animations_enabled: bool, taskbar_created: u32) -> (step:
        InitStep)
        requires
            old(self).well_formed(),
        ensures
            final(self).well_formed(),
            *final(self) == (AppWindow {
                dpi: dpi_in_use(dpi),
                animations_enabled,
                taskbar_created,
                ..*old(self)
            }),
            step == (if old(self).config.follow_codex {
                InitStep::Watch
            } else {
                InitStep::Activate
            }),
    {
        self.animations_enabled = animations_enabled;
        self.dpi = keep_dpi(dpi);
        self.taskbar_created = taskbar_created;
        if self.config.follow_codex {
            InitStep::Watch
        } else {
            InitStep::Activate
        }
    }

    /// Prepares to show the overlay: it always starts with the ball.
    pub fn activate_overlay(&mut self) -> (step: ActivateStep)
        requires
            old(self).well_formed(),
        ensures
            final(self).well_formed(),
            old(self).overlay_active ==> step == ActivateStep::AlreadyActive && *final(self)
                == *old(self),
            !old(self).overlay_active ==> {
                &&& step == (ActivateStep::Prepare {
                    side: layout::pixels(COLLAPSED_DIP as int, old(self).dpi as int) as i32,
                })
                &&& *final(self) == (AppWindow {
                    expanded: false,
                    animation: None,
                    ..*old(self)
                })
            },
    {
        if self.overlay_active {
            return ActivateStep::AlreadyActive;
        }
        self.expanded = false;
        self.animation = None;
        ActivateStep::Prepare { side: dip_to_px(COLLAPSED_DIP, self.dpi) }
    }

    /// The overlay's resources are there.
    pub fn overlay_ready(&mut self)
        requires
            old(self).well_formed(),
        ensures
            final(self).well_formed(),
            *final(self) == (AppWindow { overlay_active: true, ..*old(self) }),
    {
        self.overlay_active = true;
    }

    /// The overlay's first frame has been drawn: it is shown.
    pub fn overlay_shown(&mut self)
        requires
            old(self).well_formed(),
            old(self).overlay_active,
        ensures
            final(self).well_formed(),
            *final(self) == (AppWindow { visible: true, ..*old(self) }),
    {
        self.visible = true;
    }

    /// The window without its overlay.
    pub open spec fn deactivated(self) -> AppWindow {
        AppWindow {
            visible: false,
            hook_installed: false,
            animation: None,
            snap: None,
            ring_frame_millis: None,
            notifier: Notifier::blank(),
            expanded: false,
            pointer_down: false,
            dragging: false,
            overlay_active: false,
            ..self
        }
    }

    /// Gives up the overlay; says whether there was one. Nothing is observed while it is away,
    /// so what the notifier has seen is forgotten, and no reset is made up when it comes back.
    pub fn deactivate_overlay(&mut self) -> (was_active: bool)
        requires
            old(self).well_formed(),
        ensures
            final(self).well_formed(),
            was_active == old(self).overlay_active,
            *final(self) == (if was_active {
                old(self).deactivated()
            } else {
                *old(self)
            }),
    {
        if !self.overlay_active {
            return false;
        }
        self.visible = false;
        self.hook_installed = false;
        self.stop_ring_frames();
        self.animation = None;
        self.snap = None;
        self.notifier.reset();
        self.expanded = false;
        self.pointer_down = false;
        self.dragging = false;
        self.overlay_active = false;
        true
    }

    pub fn reset_state(&self) -> (state: AppState)
        ensures
            is_fresh_state(state, self.config),
    {
        let mut state = AppState::default();
        state.quota_refresh_interval = self.config.quota_refresh_interval();
        state.token_unit = self.config.token_unit;
        state.color_style = self.config.color_style;
        state.show_reset_countdown = self.config.show_reset_countdown;
        state
    }

    /// A new watcher starts: messages of earlier ones no longer count, and nothing is known of
    /// Codex. Its messages carry the returned number.
    pub fn start_presence_watcher(&mut self) -> (generation: u32)
        requires
            old(self).well_formed(),
        ensures
            final(self).well_formed(),
            generation == old(self).presence_generation.wrapping_add(1).wrapping_add(1),
            *final(self) == (AppWindow {
                presence_generation: generation,
                codex_present: false,
                ..*old(self)
            }),
    {
        self.stop_presence_watcher();
        self.presence_generation = self.presence_generation.wrapping_add(1);
        self.presence_generation
    }

    /// The watcher stops; messages of it that are still under way no longer count.
    pub fn stop_presence_watcher(&mut self)
        requires
            old(self).well_formed(),
        ensures
            final(self).well_formed(),
            *final(self) == (AppWindow {
                presence_generation: old(self).presence_generation.wrapping_add(1),
                codex_present: false,
                ..*old(self)
            }),
    {
        self.presence_generation = self.presence_generation.wrapping_add(1);
        self.codex_present = false;
    }

    /// Switches following Codex on or off. Switched on, it takes effect once the watcher has
    /// started, which is reported with [`AppWindow::follow_codex_started`].
    pub fn set_follow_codex(&mut self, enabled: bool) -> (step: FollowStep)
        requires
            old(self).well_formed(),
        ensures
            final(self).well_formed(),
            old(self).config.follow_codex == enabled ==> step == FollowStep::Unchanged
                && *final(self) == *old(self),
            old(self).config.follow_codex != enabled && enabled ==> {
                let generation = old(self).presence_generation.wrapping_add(1).wrapping_add(1);
                &&& step == FollowStep::Watch { generation }
                &&& *final(self) == (AppWindow {
                    presence_generation: generation,
                    codex_present: false,
                    ..*old(self)
                })
            },
            old(self).config.follow_codex != enabled && !enabled ==> {
                &&& step == FollowStep::Activate
                &&& *final(self) == (AppWindow {
                    config: AppConfigV1 { follow_codex: false, ..old(self).config },
                    presence_generation: old(self).presence_generation.wrapping_add(1),
                    codex_present: false,
                    ..*old(self)
                })
            },
    {
        if self.config.follow_codex == enabled {
            return FollowStep::Unchanged;
        }
        if enabled {
            let generation: u32 = self.start_presence_watcher();
            FollowStep::Watch { generation }
        } else {
            self.config.follow_codex = false;
            self.stop_presence_watcher();
            FollowStep::Activate
        }
    }

    /// The watcher runs: the overlay goes until Codex is seen. Says whether there was one.
    pub fn follow_codex_started(&mut self) -> (was_active: bool)
        requires
            old(self).well_formed(),
        ensures
            final(self).well_formed(),
            was_active == old(self).overlay_active,
            ({
                let following = AppWindow {
                    config: AppConfigV1 { follow_codex: true, ..old(self).config },
                    ..*old(self)
                };
                *final(self) == (if was_active {
                    following.deactivated()
                } else {
                    following
                })
            }),
    {
        self.config.follow_codex = true;
        self.deactivate_overlay()
    }

    pub open spec fn presence_step(self, present: bool, generation: u32) -> PresenceStep {
        if !self.config.follow_codex || generation != self.presence_generation || self.codex_present
            == present {
            PresenceStep::Ignore
        } else if present {
            PresenceStep::Activate
        } else {
            PresenceStep::Deactivate
        }
    }

    /// A watcher's message: only the present watcher's count, only while following, and only
    /// when they say something new. What was done is reported with
    /// [`AppWindow::presence_applied`].
    pub fn handle_presence_changed(&self, present: bool, generation: u32) -> (step: PresenceStep)
        ensures
            step == self.presence_step(present, generation),
    {
        if !self.config.follow_codex || generation != self.presence_generation {
            return PresenceStep::Ignore;
        }
        if self.codex_present == present {
            return PresenceStep::Ignore;
        }
        if present {
            PresenceStep::Activate
        } else {
            PresenceStep::Deactivate
        }
    }

    pub fn presence_applied(&mut self, present: bool)
        requires
            old(self).well_formed(),
        ensures
            final(self).well_formed(),
            *final(self) == (AppWindow { codex_present: present, ..*old(self) }),
    {
        self.codex_present = present;
    }

    /// Messages of a watcher that has been stopped or replaced are ignored, as are all messages
    /// while Codex is not followed.
    pub proof fn law_late_presence_messages_are_ignored(self, present: bool, generation: u32)
        ensures
            !self.config.follow_codex ==> self.presence_step(present, generation)
                == PresenceStep::Ignore,
            ({
                let stopped = AppWindow {
                    presence_generation: self.presence_generation.wrapping_add(1),
                    codex_present: false,
                    ..self
                };
                stopped.presence_step(present, self.presence_generation) == PresenceStep::Ignore
            }),
            ({
                let restarted = AppWindow {
                    presence_generation: self.presence_generation.wrapping_add(1).wrapping_add(1),
                    codex_present: false,
                    ..self
                };
                restarted.presence_step(present, self.presence_generation)
                    == PresenceStep::Ignore
            }),
    {
    }

    /// Once a message has been applied, the same message again changes nothing.
    pub proof fn law_presence_is_applied_once(self, present: bool, generation: u32)
        ensures
            (AppWindow { codex_present: present, ..self }).presence_step(present, generation)
                == PresenceStep::Ignore,
    {
    }

    /// Shows the ball where the overlay is there. Only a ball that was hidden appears.
    pub fn show(&mut self) -> (step: VisibilityStep)
        requires
            old(self).well_formed(),
        ensures
            final(self).well_formed(),
            step == (if old(self).overlay_active {
                VisibilityStep::Show { appears: !old(self).visible }
            } else {
                VisibilityStep::Nothing
            }),
            *final(self) == (AppWindow { visible: old(self).overlay_active, ..*old(self) }),
    {
        if !self.overlay_active {
            return VisibilityStep::Nothing;
        }
        let appears = !self.visible;
        self.visible = true;
        VisibilityStep::Show { appears }
    }

    pub open spec fn visibility_step(self) -> VisibilityStep {
        if self.visible && (self.animation is Some || self.snap is Some) {
            VisibilityStep::FinishFirst
        } else if self.visible {
            VisibilityStep::Hide
        } else if self.overlay_active {
            VisibilityStep::Show { appears: true }
        } else {
            VisibilityStep::Nothing
        }
    }

    /// Hides the ball or shows it. What is moving comes to its end before the ball is hidden.
    pub fn toggle_visibility(&mut self) -> (step: VisibilityStep)
        requires
            old(self).well_formed(),
        ensures
            final(self).well_formed(),
            step == old(self).visibility_step(),
            *final(self) == (match step {
                VisibilityStep::Hide => AppWindow {
                    visible: false,
                    ring_frame_millis: None,
                    ..*old(self)
                },
                VisibilityStep::Show { .. } => AppWindow { visible: true, ..*old(self) },
                _ => *old(self),
            }),
    {
        if !self.visible {
            return self.show();
        }
        if self.animation.is_some() || self.snap.is_some() {
            return VisibilityStep::FinishFirst;
        }
        self.visible = false;
        self.stop_ring_frames();
        VisibilityStep::Hide
    }

    /// Looks at a new state, if it can be read, and says what to announce.
    pub fn check_notifications(&mut self, state: Option<&AppState>, now: SystemTime) -> (outcome:
        Option<NotifyOutcome>)
        requires
            old(self).well_formed(),
        ensures
            final(self).well_formed(),
            outcome is Some <==> state is Some,
            state is None ==> *final(self) == *old(self),
            state matches Some(current) ==> {
                let config = old(self).config;
                let look = notify::look_of(
                    match current.snapshot {
                        Some(snapshot) => Some(&snapshot),
                        None => None,
                    },
                    current.current_period_overflow_credits,
                    NotificationSwitches {
                        reset: config.notify_on_reset,
                        overflow: config.notify_on_overflow,
                    },
                    Duration { nanos: (config.refresh_secs() * 1_000_000_000) as u128 },
                    now,
                );
                let (notifier, seen) = (old(self).notifier, old(self).notify_state);
                &&& *final(self) == (AppWindow {
                    notifier: notifier.after(seen, look),
                    notify_state: notifier.state_after(seen, look),
                    ..*old(self)
                })
                &&& notify::notices_of(outcome->0.notifications@) == notifier.notices(seen, look)
                &&& outcome->0.state_dirty == notifier.fires(seen, look)
            },
    {
        match state {
            Some(current) => {
                let snapshot: Option<&QuotaSnapshot> = match &current.snapshot {
                    Some(snapshot) => Some(snapshot),
                    None => None,
                };
                let switches = NotificationSwitches {
                    reset: self.config.notify_on_reset,
                    overflow: self.config.notify_on_overflow,
                };
                let interval = self.config.quota_refresh_interval();
                Some(
                    self.notifier.observe(
                        &mut self.notify_state,
                        snapshot,
                        current.current_period_overflow_credits,
                        switches,
                        interval,
                        now,
                    ),
                )
            },
            None => None,
        }
    }

    /// Whether the window has to be raised again: it is meant to stay on top, and its style
    /// says that it no longer does.
    pub fn ensure_topmost(&self, extended_style: u32) -> (raise: bool)
        ensures
            raise == (self.config.always_on_top && extended_style & WS_EX_TOPMOST == 0),
    {
        self.config.always_on_top && extended_style & WS_EX_TOPMOST == 0
    }

    /// The tray icon has been added, and the shell has said whether it speaks the new protocol.
    pub fn add_tray_icon(&mut self, uses_v4: bool)
        requires
            old(self).well_formed(),
        ensures
            final(self).well_formed(),
            *final(self) == (AppWindow {
                tray_added: true,
                tray: TrayState { uses_v4, ..old(self).tray },
                ..*old(self)
            }),
    {
        self.tray_added = true;
        self.tray.uses_v4 = uses_v4;
    }

    /// Says whether there is a tray icon to remove.
    pub fn remove_tray_icon(&mut self) -> (removed: bool)
        requires
            old(self).well_formed(),
        ensures
            final(self).well_formed(),
            removed == old(self).tray_added,
            *final(self) == (if removed {
                AppWindow {
                    tray_added: false,
                    tray: TrayState { uses_v4: false, ..old(self).tray },
                    ..*old(self)
                }
            } else {
                *old(self)
            }),
    {
        if !self.tray_added {
            return false;
        }
        self.tray_added = false;
        self.tray.uses_v4 = false;
        true
    }

    /// The taskbar is a new one, which does not know the icon yet.
    pub fn handle_taskbar_created(&mut self)
        requires
            old(self).well_formed(),
        ensures
            final(self).well_formed(),
            *final(self) == (AppWindow { tray_added: false, ..*old(self) }),
    {
        self.tray_added = false;
    }

    /// The system allows motion, or no longer does.
    pub fn set_animations_enabled(&mut self, enabled: bool)
        requires
            old(self).well_formed(),
        ensures
            final(self).well_formed(),
            *final(self) == (AppWindow { animations_enabled: enabled, ..*old(self) }),
    {
        self.animations_enabled = enabled;
    }
}

/// What a command leads to. Where the settings change, they have been changed already, unless
/// the step says that the change waits for something outside.
#[derive(Clone, Copy, Debug, PartialEq, Eq, Structural)]
pub enum CommandStep {
    Nothing,
    /// Hand the new refresh interval to the state and the worker, save, redraw.
    IntervalChanged,
    /// Show the sample notification of this command.
    TestNotification,
    /// Show or hide the ball.
    ToggleVisibility,
    /// Fetch quota and prices anew.
    Refresh,
    /// Copy the panel as a picture.
    CopyPanel,
    /// Open the usage page.
    OpenUsage,
    /// Raise or lower the window, then save.
    ApplyTopmost,
    /// Save the settings.
    Save,
    /// Register or unregister the start with the system; once that has succeeded, it is reported
    /// with [`AppWindow::autostart_applied`].
    SetAutostart { enabled: bool },
    /// Bring the watch on clicks outside into line, then save.
    UpdateHook,
    /// Switch following Codex.
    SetFollowCodex { enabled: bool },
    /// Hand the way of showing things to the state, save, redraw.
    AppearanceChanged,
    Exit,
}

impl AppWindow {
    /// The step that a command leads to; sample notifications belong to debug builds.
    pub open spec fn command_step(self, command: usize, debug: bool) -> CommandStep {
        if tray::interval_of_command(command) is Some {
            CommandStep::IntervalChanged
        } else if debug && notify::sample_notice(command) is Some {
            CommandStep::TestNotification
        } else if tray::unit_of_command(command) is Some || tray::style_of_command(command) is Some
            || command == CMD_RESET_COUNTDOWN {
            CommandStep::AppearanceChanged
        } else if command == CMD_SHOW && !self.config.follow_codex {
            CommandStep::ToggleVisibility
        } else if command == CMD_REFRESH {
            CommandStep::Refresh
        } else if command == CMD_COPY_PANEL {
            CommandStep::CopyPanel
        } else if command == CMD_USAGE {
            CommandStep::OpenUsage
        } else if command == CMD_TOPMOST {
            CommandStep::ApplyTopmost
        } else if command == CMD_NOTIFY_RESET || command == CMD_NOTIFY_OVERFLOW {
            CommandStep::Save
        } else if command == CMD_AUTOSTART {
            CommandStep::SetAutostart { enabled: !self.config.start_with_windows }
        } else if command == CMD_PANEL_PERSISTENT {
            CommandStep::UpdateHook
        } else if command == CMD_FOLLOW_CODEX {
            CommandStep::SetFollowCodex { enabled: !self.config.follow_codex }
        } else if command == CMD_EXIT {
            CommandStep::Exit
        } else {
            CommandStep::Nothing
        }
    }

    /// Carries out what a command changes in the settings, and says what it leads to.
    pub fn command(&mut self, command: usize, debug: bool) -> (step: CommandStep)
        requires
            old(self).well_formed(),
        ensures
            final(self).well_formed(),
            step == old(self).command_step(command, debug),
            *final(self) == (AppWindow {
                config: configured(old(self).config, command),
                ..*old(self)
            }),
    {
        let step = self.step_of_command(command, debug);
        configure(&mut self.config, command);
        step
    }

    fn step_of_command(&self, command: usize, debug: bool) -> (step: CommandStep)
        ensures
            step == self.command_step(command, debug),
    {
        if refresh_interval_for_command(command).is_some() {
            CommandStep::IntervalChanged
        } else if debug && test_notification_for_command(command).is_some() {
            CommandStep::TestNotification
        } else if token_unit_for_command(command).is_some() || color_style_for_command(
            command,
        ).is_some() || command == CMD_RESET_COUNTDOWN {
            CommandStep::AppearanceChanged
        } else if command == CMD_SHOW && !self.config.follow_codex {
            CommandStep::ToggleVisibility
        } else if command == CMD_REFRESH {
            CommandStep::Refresh
        } else if command == CMD_COPY_PANEL {
            CommandStep::CopyPanel
        } else if command == CMD_USAGE {
            CommandStep::OpenUsage
        } else if command == CMD_TOPMOST {
            CommandStep::ApplyTopmost
        } else if command == CMD_NOTIFY_RESET || command == CMD_NOTIFY_OVERFLOW {
            CommandStep::Save
        } else if command == CMD_AUTOSTART {
            CommandStep::SetAutostart { enabled: !self.config.start_with_windows }
        } else if command == CMD_PANEL_PERSISTENT {
            CommandStep::UpdateHook
        } else if command == CMD_FOLLOW_CODEX {
            CommandStep::SetFollowCodex { enabled: !self.config.follow_codex }
        } else if command == CMD_EXIT {
            CommandStep::Exit
        } else {
            CommandStep::Nothing
        }
    }

    /// The start with the system has been registered or unregistered.
    pub fn autostart_applied(&mut self, enabled: bool)
        requires
            old(self).well_formed(),
        ensures
            final(self).well_formed(),
            *final(self) == (AppWindow {
                config: AppConfigV1 { start_with_windows: enabled, ..old(self).config },
                ..*old(self)
            }),
    {
        self.config.start_with_windows = enabled;
    }
}

/// The settings after a command: a choice is taken over, a switch is turned.
pub open spec fn configured(config: AppConfigV1, command: usize) -> AppConfigV1 {
    if let Some(secs) = tray::interval_of_command(command) {
        AppConfigV1 { quota_refresh_interval_secs: secs, ..config }
    } else if let Some(unit) = tray::unit_of_command(command) {
        AppConfigV1 { token_unit: unit, ..config }
    } else if let Some(style) = tray::style_of_command(command) {
        AppConfigV1 { color_style: style, ..config }
    } else if command == CMD_RESET_COUNTDOWN {
        AppConfigV1 { show_reset_countdown: !config.show_reset_countdown, ..config }
    } else if command == CMD_TOPMOST {
        AppConfigV1 { always_on_top: !config.always_on_top, ..config }
    } else if command == CMD_NOTIFY_RESET {
        AppConfigV1 { notify_on_reset: !config.notify_on_reset, ..config }
    } else if command == CMD_NOTIFY_OVERFLOW {
        AppConfigV1 { notify_on_overflow: !config.notify_on_overflow, ..config }
    } else if command == CMD_PANEL_PERSISTENT {
        AppConfigV1 { collapse_on_outside_click: !config.collapse_on_outside_click, ..config }
    } else {
        config
    }
}

fn configure(config: &mut AppConfigV1, command: usize)
    ensures
        *final(config) == configured(*old(config), command),
{
    if let Some(interval) = refresh_interval_for_command(command) {
        proof {
            let secs = tray::interval_of_command(command)->0;
            assert(interval.nanos / 1_000_000_000 == secs);
        }
        config.set_quota_refresh_interval(interval);
    } else if let Some(unit) = token_unit_for_command(command) {
        config.token_unit = unit;
    } else if let Some(style) = color_style_for_command(command) {
        config.color_style = style;
    } else if command == CMD_RESET_COUNTDOWN {
        config.show_reset_countdown = !config.show_reset_countdown;
    } else if command == CMD_TOPMOST {
        config.always_on_top = !config.always_on_top;
    } else if command == CMD_NOTIFY_RESET {
        config.notify_on_reset = !config.notify_on_reset;
    } else if command == CMD_NOTIFY_OVERFLOW {
        config.notify_on_overflow = !config.notify_on_overflow;
    } else if command == CMD_PANEL_PERSISTENT {
        config.collapse_on_outside_click = !config.collapse_on_outside_click;
    }
}

/// Turning a switch twice leaves the settings as they were, and making a choice twice is making
/// it once.
pub proof fn law_repeated_commands(config: AppConfigV1, command: usize)
    ensures
        ({
            let once = configured(config, command);
            let twice = configured(once, command);
            twice == config || twice == once
        }),
        command == CMD_TOPMOST || command == CMD_NOTIFY_RESET || command == CMD_NOTIFY_OVERFLOW
            || command == CMD_PANEL_PERSISTENT || command == CMD_RESET_COUNTDOWN ==> configured(
            configured(config, command),
            command,
        ) == config,
{
}

/// No command moves the ball or turns following on or off by itself.
pub proof fn law_commands_keep_the_placement(config: AppConfigV1, command: usize)
    ensures
        configured(config, command).placement == config.placement,
        configured(config, command).follow_codex == config.follow_codex,
        configured(config, command).start_with_windows == config.start_with_windows,
{
}

/// After a choice of the menu, the menu marks it.
pub proof fn law_menu_marks_what_was_chosen(config: AppConfigV1, command: usize)
    ensures
        tray::interval_of_command(command) matches Some(secs) ==> configured(
            config,
            command,
        ).refresh_secs() == secs,
        tray::unit_of_command(command) matches Some(unit) ==> configured(
            config,
            command,
        ).token_unit == unit,
        tray::style_of_command(command) matches Some(style) ==> configured(
            config,
            command,
        ).color_style == style,
{
}

/// What a message to the window means.
#[derive(Clone, Copy, Debug, PartialEq, Eq, Structural)]
pub enum Message {
    /// Not one of ours: the system's own handling applies.
    Default,
    /// Ours, and there is nothing to do.
    Nothing,
    /// The tray icon was used.
    Tray { event: u32 },
    /// There is a new taskbar.
    TaskbarCreated,
    /// There is a new state: announce what is new, then redraw.
    Updated { resizes: bool },
    Show,
    /// Show the ball, then expand it.
    ShowExpanded,
    Collapse,
    Presence { present: bool, generation: u32 },
    Command { command: usize },
    ButtonDown,
    PointerMoved,
    PointerLeft,
    ButtonUp,
    HitTest,
    /// A click must not make the window active.
    MouseActivate,
    /// The resolution has changed; the window is placed anew where the overlay is there.
    DpiChanged { dpi: u32, places: bool },
    /// The monitors have changed: finish what moves, dock again, stay on top.
    DisplayChanged,
    /// A system setting has changed: read whether motion is allowed, finish, redraw.
    SettingChanged,
    /// The machine has woken up: look for Codex again, refresh, stay on top.
    Resumed,
    /// The redraw timer: stay on top, redraw.
    Redraw,
    /// The animation timer, for the slide to the edge.
    SnapFrame,
    /// The animation timer, for the panel.
    AnimationFrame,
    /// The frame timer.
    RingFrame,
    ToggleVisibility,
    /// The window goes: end the message loop.
    Destroy,
    /// The window is gone: give up everything that belongs to it.
    Destroyed,
}

/// The low half of a message parameter.
pub open spec fn low_word(value: usize) -> usize {
    (value as int % 0x1_0000) as usize
}

fn low_word_of(value: usize) -> (low: usize)
    ensures
        low == low_word(value),
        low <= 0xffff,
{
    value % 0x1_0000
}

impl AppWindow {
    /// What a message means to this window.
    pub open spec fn meaning(self, message: u32, wparam: usize, lparam: isize) -> Message {
        if message == WM_APP_TRAY {
            Message::Tray { event: lparam as u32 & 0xffff }
        } else if message == self.taskbar_created && self.taskbar_created != 0 {
            Message::TaskbarCreated
        } else if message == WM_APP_UPDATED {
            if self.overlay_active {
                Message::Updated { resizes: self.animation is None && self.expanded }
            } else {
                Message::Nothing
            }
        } else if message == WM_APP_SHOW {
            if self.config.follow_codex {
                Message::Nothing
            } else {
                Message::Show
            }
        } else if message == WM_APP_EXPAND {
            Message::ShowExpanded
        } else if message == WM_APP_COLLAPSE {
            Message::Collapse
        } else if message == WM_APP_PRESENCE_CHANGED {
            Message::Presence { present: wparam != 0, generation: lparam as u32 }
        } else if message == WM_COMMAND {
            Message::Command { command: low_word(wparam) }
        } else if message == WM_LBUTTONDOWN {
            Message::ButtonDown
        } else if message == WM_MOUSEMOVE {
            Message::PointerMoved
        } else if message == WM_MOUSELEAVE {
            Message::PointerLeft
        } else if message == WM_LBUTTONUP {
            Message::ButtonUp
        } else if message == WM_NCHITTEST {
            Message::HitTest
        } else if message == WM_MOUSEACTIVATE {
            Message::MouseActivate
        } else if message == WM_DPICHANGED {
            Message::DpiChanged { dpi: low_word(wparam) as u32, places: self.overlay_active }
        } else if message == WM_DISPLAYCHANGE {
            if self.overlay_active {
                Message::DisplayChanged
            } else {
                Message::Nothing
            }
        } else if message == WM_SETTINGCHANGE {
            Message::SettingChanged
        } else if message == WM_POWERBROADCAST && wparam == PBT_APMRESUMEAUTOMATIC {
            Message::Resumed
        } else if message == WM_TIMER && wparam == TIMER_REDRAW {
            Message::Redraw
        } else if message == WM_TIMER && wparam == TIMER_ANIMATION {
            if !self.overlay_active {
                Message::Nothing
            } else if self.snap is Some {
                Message::SnapFrame
            } else {
                Message::AnimationFrame
            }
        } else if message == WM_TIMER && wparam == TIMER_RING {
            if self.overlay_active {
                Message::RingFrame
            } else {
                Message::Nothing
            }
        } else if message == WM_CLOSE {
            if self.config.follow_codex {
                Message::Nothing
            } else {
                Message::ToggleVisibility
            }
        } else if message == WM_DESTROY {
            Message::Destroy
        } else if message == WM_NCDESTROY {
            Message::Destroyed
        } else {
            Message::Default
        }
    }

    pub fn window_proc(&self, message: u32, wparam: usize, lparam: isize) -> (meaning: Message)
        ensures
            meaning == self.meaning(message, wparam, lparam),
    {
        if message == WM_APP_TRAY {
            return Message::Tray { event: lparam as u32 & 0xffff };
        }
        if message == self.taskbar_created && self.taskbar_created != 0 {
            return Message::TaskbarCreated;
        }
        match message {
            WM_APP_UPDATED => if self.overlay_active {
                Message::Updated { resizes: self.animation.is_none() && self.expanded }
            } else {
                Message::Nothing
            },
            WM_APP_SHOW => if self.config.follow_codex {
                Message::Nothing
            } else {
                Message::Show
            },
            WM_APP_EXPAND => Message::ShowExpanded,
            WM_APP_COLLAPSE => Message::Collapse,
            WM_APP_PRESENCE_CHANGED => Message::Presence {
                present: wparam != 0,
                generation: lparam as u32,
            },
            WM_COMMAND => Message::Command { command: low_word_of(wparam) },
            WM_LBUTTONDOWN => Message::ButtonDown,
            WM_MOUSEMOVE => Message::PointerMoved,
            WM_MOUSELEAVE => Message::PointerLeft,
            WM_LBUTTONUP => Message::ButtonUp,
            WM_NCHITTEST => Message::HitTest,
            WM_MOUSEACTIVATE => Message::MouseActivate,
            WM_DPICHANGED => Message::DpiChanged {
                dpi: low_word_of(wparam) as u32,
                places: self.overlay_active,
            },
            WM_DISPLAYCHANGE => if self.overlay_active {
                Message::DisplayChanged
            } else {
                Message::Nothing
            },
            WM_SETTINGCHANGE => Message::SettingChanged,
            WM_POWERBROADCAST => if wparam == PBT_APMRESUMEAUTOMATIC {
                Message::Resumed
            } else {
                Message::Default
            },
            WM_TIMER => self.timer(wparam),
            WM_CLOSE => if self.config.follow_codex {
                Message::Nothing
            } else {
                Message::ToggleVisibility
            },
            WM_DESTROY => Message::Destroy,
            WM_NCDESTROY => Message::Destroyed,
            _ => Message::Default,
        }
    }

    /// What a timer's message means.
    fn timer(&self, timer: usize) -> (meaning: Message)
        ensures
            meaning == (if timer == TIMER_REDRAW {
                Message::Redraw
            } else if timer == TIMER_ANIMATION {
                if !self.overlay_active {
                    Message::Nothing
                } else if self.snap is Some {
                    Message::SnapFrame
                } else {
                    Message::AnimationFrame
                }
            } else if timer == TIMER_RING {
                if self.overlay_active {
                    Message::RingFrame
                } else {
                    Message::Nothing
                }
            } else {
                Message::Default
            }),
    {
        if timer == TIMER_REDRAW {
            Message::Redraw
        } else if timer == TIMER_ANIMATION {
            if !self.overlay_active {
                Message::Nothing
            } else if self.snap.is_some() {
                Message::SnapFrame
            } else {
                Message::AnimationFrame
            }
        } else if timer == TIMER_RING {
            if self.overlay_active {
                Message::RingFrame
            } else {
                Message::Nothing
            }
        } else {
            Message::Default
        }
    }

    /// While Codex is followed, neither a second start nor closing the window nor the menu shows
    /// or hides the ball: that is up to Codex alone.
    pub proof fn law_following_leaves_visibility_to_codex(
        self,
        message: u32,
        wparam: usize,
        lparam: isize,
        command: usize,
        debug: bool,
    )
        requires
            self.config.follow_codex,
        ensures
            self.meaning(message, wparam, lparam) != Message::Show,
            self.meaning(message, wparam, lparam) != Message::ToggleVisibility,
            self.command_step(command, debug) != CommandStep::ToggleVisibility,
    {
    }

    /// Without the overlay no message draws an animated frame or places the window.
    pub proof fn law_inactive_overlay_draws_nothing(
        self,
        message: u32,
        wparam: usize,
        lparam: isize,
    )
        requires
            !self.overlay_active,
        ensures
            ({
                let meaning = self.meaning(message, wparam, lparam);
                &&& !(meaning is Updated)
                &&& meaning != Message::SnapFrame
                &&& meaning != Message::AnimationFrame
                &&& meaning != Message::RingFrame
                &&& meaning != Message::DisplayChanged
                &&& meaning matches Message::DpiChanged { places, .. } ==> !places
            }),
    {
    }
}

/// No resolution below ninety-six dots per inch is used, and any other as it is.
pub proof fn law_the_resolution_has_a_floor(dpi: u32, kept: u32)
    requires
        call_ensures(keep_dpi, (dpi,), kept),
    ensures
        dpi >= 96 ==> kept == dpi,
        dpi < 96 ==> kept == 96,
{
}

/// The window is first created as the ball of 56 pixels, where it was last docked.
pub proof fn law_the_window_starts_as_the_ball(
    config: &AppConfigV1,
    work: Rect,
    frame: Frame,
    at: Point,
)
    requires
        call_ensures(initial_frame, (config, work), frame),
        call_ensures(position_from_config, (config, work, 56, 96), at),
    ensures
        frame.width == 56,
        frame.height == 56,
        frame.destination == at,
{
}

/// A window that follows Codex waits for it, any other shows its overlay; both take over what the
/// system says.
pub proof fn law_following_waits_for_codex(
    window: &mut AppWindow,
    dpi: u32,
    animations_enabled: bool,
    taskbar_created: u32,
    step: InitStep,
    kept: u32,
)
    requires
        old(window).well_formed(),
        call_ensures(
            AppWindow::initialize,
            (window, dpi, animations_enabled, taskbar_created),
            step,
        ),
        call_ensures(keep_dpi, (dpi,), kept),
    ensures
        step is Watch <==> old(window).config.follow_codex,
        *final(window) == (AppWindow {
            dpi: kept,
            animations_enabled,
            taskbar_created,
            ..*old(window)
        }),
{
}

/// An overlay that is there is not prepared again; one that is not starts as the ball at rest.
pub proof fn law_the_overlay_starts_with_the_ball(
    window: &mut AppWindow,
    step: ActivateStep,
    side: i32,
)
    requires
        old(window).well_formed(),
        call_ensures(AppWindow::activate_overlay, (window,), step),
        call_ensures(dip_to_px, (56_000_000, old(window).dpi), side),
    ensures
        step is AlreadyActive <==> old(window).overlay_active,
        step is AlreadyActive ==> *final(window) == *old(window),
        step is Prepare ==> step->side == side && !final(window).expanded
            && final(window).animation is None && !final(window).overlay_active,
{
}

/// An overlay that is given up leaves nothing behind that shows, moves, is held or has been seen;
/// settings, resolution, tray and what is known of Codex stay.
pub proof fn law_a_given_up_overlay_leaves_nothing_behind(
    window: &mut AppWindow,
    was_active: bool,
)
    requires
        old(window).well_formed(),
        call_ensures(AppWindow::deactivate_overlay, (window,), was_active),
    ensures
        was_active <==> old(window).overlay_active,
        !was_active ==> *final(window) == *old(window),
        !final(window).overlay_active,
        !final(window).visible,
        !final(window).expanded,
        !final(window).hook_installed,
        final(window).animation is None,
        final(window).snap is None,
        final(window).ring_frame_millis is None,
        was_active ==> {
            &&& !final(window).pointer_down
            &&& !final(window).dragging
            &&& final(window).notifier.observed is None
            &&& final(window).notifier.observed_at is None
            &&& !final(window).notifier.overflow_armed
            &&& final(window).notifier.period is None
            &&& !final(window).notifier.period_handled
        },
        final(window).config == old(window).config,
        final(window).notify_state == old(window).notify_state,
        final(window).dpi == old(window).dpi,
        final(window).codex_present == old(window).codex_present,
        final(window).presence_generation == old(window).presence_generation,
        final(window).tray == old(window).tray,
        final(window).tray_added == old(window).tray_added,
{
}

/// A state that is reset knows nothing and shows things as they are configured.
pub proof fn law_a_reset_state_knows_nothing(
    window: &AppWindow,
    state: AppState,
    interval: Duration,
)
    requires
        call_ensures(AppWindow::reset_state, (window,), state),
        call_ensures(AppConfigV1::quota_refresh_interval, (&window.config,), interval),
    ensures
        state.snapshot is None,
        state.status is Connecting,
        state.plan_type is None,
        state.quota_pull is Idle,
        state.quota_refresh_interval.nanos == interval.nanos,
        state.token_unit == window.config.token_unit,
        state.color_style == window.config.color_style,
        state.show_reset_countdown == window.config.show_reset_countdown,
        state.today_tokens is None && state.today_cost is None,
        state.today_overflow_tokens is None && state.today_overflow_cost is None,
        state.current_period_tokens is None && state.current_period_cost is None,
        state.current_period_overflow_tokens is None && state.current_period_overflow_cost is None,
        state.current_period_overflow_credits is None,
        state.period_total_value_estimate is None,
{
}

/// Starting or stopping a watcher gives its messages a number that the last one's did not have, and
/// forgets what was known of Codex.
pub proof fn law_every_watcher_has_its_own_number(
    started: &mut AppWindow,
    stopped: &mut AppWindow,
    generation: u32,
)
    requires
        old(started).well_formed(),
        old(stopped).well_formed(),
        call_ensures(AppWindow::start_presence_watcher, (started,), generation),
        call_ensures(AppWindow::stop_presence_watcher, (stopped,), ()),
    ensures
        generation != old(started).presence_generation,
        final(stopped).presence_generation != old(stopped).presence_generation,
        *final(started) == (AppWindow {
            presence_generation: generation,
            codex_present: false,
            ..*old(started)
        }),
        *final(stopped) == (AppWindow {
            presence_generation: final(stopped).presence_generation,
            codex_present: false,
            ..*old(stopped)
        }),
{
}

/// Following that is switched off takes effect at once and shows the overlay; switched on, it waits
/// for a new watcher and leaves the setting as it is until then.
pub proof fn law_following_is_switched(window: &mut AppWindow, enabled: bool, step: FollowStep)
    requires
        old(window).well_formed(),
        call_ensures(AppWindow::set_follow_codex, (window, enabled), step),
    ensures
        step is Unchanged <==> old(window).config.follow_codex == enabled,
        step is Watch <==> !old(window).config.follow_codex && enabled,
        step is Activate <==> old(window).config.follow_codex && !enabled,
        step is Unchanged ==> *final(window) == *old(window),
        !(step is Unchanged) ==> !final(window).config.follow_codex && !final(window).codex_present
            && final(window).presence_generation != old(window).presence_generation,
        step is Watch ==> step->generation == final(window).presence_generation,
        final(window).overlay_active == old(window).overlay_active,
{
}

/// Once the watcher runs, Codex is followed and the overlay is given up.
pub proof fn law_a_running_watcher_takes_the_overlay(
    window: &mut AppWindow,
    was_active: bool,
    given_up: &mut AppWindow,
    was_there: bool,
)
    requires
        old(window).well_formed(),
        call_ensures(AppWindow::follow_codex_started, (window,), was_active),
        *old(given_up) == (AppWindow {
            config: AppConfigV1 { follow_codex: true, ..old(window).config },
            ..*old(window)
        }),
        call_ensures(AppWindow::deactivate_overlay, (given_up,), was_there),
    ensures
        was_active == was_there,
        *final(window) == *final(given_up),
        final(window).config.follow_codex,
        !final(window).overlay_active,
{
}

/// A message about Codex counts while it is followed, where it carries the present watcher's number
/// and says something new.
pub proof fn law_only_news_of_the_present_watcher_counts(
    window: &AppWindow,
    present: bool,
    generation: u32,
    step: PresenceStep,
)
    requires
        call_ensures(AppWindow::handle_presence_changed, (window, present, generation), step),
    ensures
        ({
            let counts = {
                &&& window.config.follow_codex
                &&& generation == window.presence_generation
                &&& window.codex_present != present
            };
            &&& step is Activate <==> counts && present
            &&& step is Deactivate <==> counts && !present
        }),
{
}

/// The ball is shown where there is an overlay, and appears where it was hidden. It is hidden only
/// at rest, and its frames then stop.
pub proof fn law_the_ball_is_shown_and_hidden(
    shown: &mut AppWindow,
    toggled: &mut AppWindow,
    show: VisibilityStep,
    toggle: VisibilityStep,
)
    requires
        old(shown).well_formed(),
        old(toggled).well_formed(),
        call_ensures(AppWindow::show, (shown,), show),
        call_ensures(AppWindow::toggle_visibility, (toggled,), toggle),
    ensures
        show is Show <==> old(shown).overlay_active,
        show is Show ==> (show->appears <==> !old(shown).visible) && final(shown).visible,
        show is Nothing ==> *final(shown) == *old(shown),
        ({
            let moves = old(toggled).animation is Some || old(toggled).snap is Some;
            &&& toggle is FinishFirst <==> old(toggled).visible && moves
            &&& toggle is Hide <==> old(toggled).visible && !moves
            &&& toggle is Show <==> !old(toggled).visible && old(toggled).overlay_active
            &&& toggle is Show ==> toggle->appears && *final(toggled) == (AppWindow {
                visible: true,
                ..*old(toggled)
            })
            &&& toggle is Hide ==> *final(toggled) == (AppWindow {
                visible: false,
                ring_frame_millis: None,
                ..*old(toggled)
            })
            &&& toggle is FinishFirst || toggle is Nothing ==> *final(toggled) == *old(toggled)
        }),
{
}

/// A state that can be read is looked at with the window's own switches and interval; one that
/// cannot is not looked at.
pub proof fn law_the_window_watches_with_its_settings(
    window: &mut AppWindow,
    state: &AppState,
    now: SystemTime,
    outcome: Option<NotifyOutcome>,
    notifier: &mut Notifier,
    seen: &mut NotifyState,
    interval: Duration,
    looked: NotifyOutcome,
)
    requires
        old(window).well_formed(),
        call_ensures(AppWindow::check_notifications, (window, Some(state), now), outcome),
        *old(notifier) == old(window).notifier,
        *old(seen) == old(window).notify_state,
        call_ensures(AppConfigV1::quota_refresh_interval, (&old(window).config,), interval),
        state.snapshot is Some,
        call_ensures(
            Notifier::observe,
            (
                notifier,
                seen,
                Some(&state.snapshot->0),
                state.current_period_overflow_credits,
                NotificationSwitches {
                    reset: old(window).config.notify_on_reset,
                    overflow: old(window).config.notify_on_overflow,
                },
                interval,
                now,
            ),
            looked,
        ),
    ensures
        outcome is Some,
        final(window).notifier == *final(notifier),
        final(window).notify_state == *final(seen),
        outcome->0.state_dirty == looked.state_dirty,
        notify::notices_of(outcome->0.notifications@) == notify::notices_of(looked.notifications@),
        *final(window) == (AppWindow {
            notifier: final(window).notifier,
            notify_state: final(window).notify_state,
            ..*old(window)
        }),
{
    assert(interval == Duration {
        nanos: (old(window).config.refresh_secs() * 1_000_000_000) as u128,
    });
}

/// A window that is meant to stay on top is raised exactly where the fourth bit of its style, which
/// says so, is missing.
pub proof fn law_the_window_is_raised_where_it_sank(
    window: &AppWindow,
    extended_style: u32,
    raise: bool,
)
    requires
        call_ensures(AppWindow::ensure_topmost, (window, extended_style), raise),
    ensures
        raise <==> window.config.always_on_top && (extended_style / 8) % 2 == 0,
{
    assert((extended_style & 8 == 0) == ((extended_style / 8) % 2 == 0)) by (bit_vector);
}

/// The tray icon remembers how the shell speaks while it is there, and a new taskbar does not know
/// it.
pub proof fn law_the_tray_icon_comes_and_goes(
    added: &mut AppWindow,
    removed: &mut AppWindow,
    lost: &mut AppWindow,
    uses_v4: bool,
    was_there: bool,
)
    requires
        old(added).well_formed(),
        old(removed).well_formed(),
        old(lost).well_formed(),
        call_ensures(AppWindow::add_tray_icon, (added, uses_v4), ()),
        call_ensures(AppWindow::remove_tray_icon, (removed,), was_there),
        call_ensures(AppWindow::handle_taskbar_created, (lost,), ()),
    ensures
        final(added).tray_added,
        final(added).tray.uses_v4 == uses_v4,
        was_there <==> old(removed).tray_added,
        !final(removed).tray_added,
        was_there ==> !final(removed).tray.uses_v4,
        !was_there ==> *final(removed) == *old(removed),
        !final(lost).tray_added,
        final(lost).tray == old(lost).tray,
{
}

/// A choice is taken over, a switch is turned, and no command changes a setting that is not its own.
#[verifier::spinoff_prover]
#[verifier::rlimit(40)]
pub proof fn law_every_command_changes_its_own_setting(
    window: &mut AppWindow,
    command: usize,
    debug: bool,
    step: CommandStep,
    interval: Option<Duration>,
    unit: Option<UnitStyle>,
    style: Option<ColorStyle>,
)
    requires
        old(window).well_formed(),
        call_ensures(AppWindow::command, (window, command, debug), step),
        call_ensures(refresh_interval_for_command, (command,), interval),
        call_ensures(token_unit_for_command, (command,), unit),
        call_ensures(color_style_for_command, (command,), style),
    ensures
        is_changed_by(old(window).config, final(window).config, command, interval, unit, style),
        *final(window) == (AppWindow { config: final(window).config, ..*old(window) }),
{
    let before = old(window).config;
    assert(final(window).config == configured(before, command));
    lemma_is_changed_by(before, command, interval, unit, style);
}

/// The settings `after` a command that chooses these, where it chooses anything.
pub open spec fn is_changed_by(
    before: AppConfigV1,
    after: AppConfigV1,
    command: usize,
    interval: Option<Duration>,
    unit: Option<UnitStyle>,
    style: Option<ColorStyle>,
) -> bool {
    &&& interval is Some ==> after.quota_refresh_interval_secs * 1_000_000_000 == interval->0.nanos
    &&& interval is None ==> after.quota_refresh_interval_secs == before.quota_refresh_interval_secs
    &&& unit is Some ==> after.token_unit == unit->0
    &&& unit is None ==> after.token_unit == before.token_unit
    &&& style is Some ==> after.color_style == style->0
    &&& style is None ==> after.color_style == before.color_style
    &&& after.always_on_top == (before.always_on_top != (command == 1_004))
    &&& after.collapse_on_outside_click == (before.collapse_on_outside_click != (command == 1_007))
    &&& after.notify_on_reset == (before.notify_on_reset != (command == 1_019))
    &&& after.notify_on_overflow == (before.notify_on_overflow != (command == 1_020))
    &&& after.show_reset_countdown == (before.show_reset_countdown != (command == 1_021))
    &&& after.start_with_windows == before.start_with_windows
    &&& after.follow_codex == before.follow_codex
    &&& after.follow_codex_check_interval_secs == before.follow_codex_check_interval_secs
    &&& after.placement == before.placement
}

proof fn lemma_is_changed_by(
    before: AppConfigV1,
    command: usize,
    interval: Option<Duration>,
    unit: Option<UnitStyle>,
    style: Option<ColorStyle>,
)
    requires
        interval is Some <==> tray::interval_of_command(command) is Some,
        interval is Some ==> interval->0.nanos == tray::interval_of_command(command)->0
            * 1_000_000_000,
        unit == tray::unit_of_command(command),
        style == tray::style_of_command(command),
    ensures
        is_changed_by(before, configured(before, command), command, interval, unit, style),
{
}

/// Every command leads to one step, and a number that is no command to none.
#[verifier::spinoff_prover]
#[verifier::rlimit(40)]
pub proof fn law_every_command_leads_to_its_step(
    window: &mut AppWindow,
    command: usize,
    debug: bool,
    step: CommandStep,
    interval: Option<Duration>,
    unit: Option<UnitStyle>,
    style: Option<ColorStyle>,
)
    requires
        old(window).well_formed(),
        call_ensures(AppWindow::command, (window, command, debug), step),
        call_ensures(refresh_interval_for_command, (command,), interval),
        call_ensures(token_unit_for_command, (command,), unit),
        call_ensures(color_style_for_command, (command,), style),
    ensures
        step is IntervalChanged <==> interval is Some,
        step is AppearanceChanged <==> unit is Some || style is Some || command == 1_021,
        step is TestNotification <==> debug && (command == 1_022 || command == 1_023),
        step is ToggleVisibility <==> command == 1_001 && !old(window).config.follow_codex,
        step is Refresh <==> command == 1_002,
        step is OpenUsage <==> command == 1_003,
        step is ApplyTopmost <==> command == 1_004,
        step is SetAutostart <==> command == 1_005,
        step is SetAutostart ==> step->SetAutostart_enabled
            != old(window).config.start_with_windows,
        step is Exit <==> command == 1_006,
        step is UpdateHook <==> command == 1_007,
        step is SetFollowCodex <==> command == 1_013,
        step is SetFollowCodex ==> step->SetFollowCodex_enabled
            != old(window).config.follow_codex,
        step is CopyPanel <==> command == 1_018,
        step is Save <==> command == 1_019 || command == 1_020,
        command < 1_001 || command > 1_023 ==> step is Nothing,
{
}

/// What the pointer's and the system's messages mean.
#[verifier::spinoff_prover]
#[verifier::rlimit(40)]
pub proof fn law_system_messages_are_told_apart(
    window: &AppWindow,
    message: u32,
    wparam: usize,
    lparam: isize,
    meaning: Message,
)
    requires
        call_ensures(AppWindow::window_proc, (window, message, wparam, lparam), meaning),
        window.taskbar_created == 0 || window.taskbar_created != message,
    ensures
        meaning is ButtonDown <==> message == 513,
        meaning is ButtonUp <==> message == 514,
        meaning is PointerMoved <==> message == 512,
        meaning is PointerLeft <==> message == 675,
        meaning is HitTest <==> message == 132,
        meaning is MouseActivate <==> message == 33,
        meaning is Command <==> message == 273,
        meaning is Command ==> meaning->command == wparam % 65_536,
        meaning is DpiChanged <==> message == 736,
        meaning is DpiChanged ==> meaning->dpi == wparam % 65_536 && meaning->places
            == window.overlay_active,
        meaning is DisplayChanged <==> message == 126 && window.overlay_active,
        meaning is SettingChanged <==> message == 26,
        meaning is Resumed <==> message == 536 && wparam == 18,
        meaning is Destroy <==> message == 2,
        meaning is Destroyed <==> message == 130,
        meaning is ToggleVisibility <==> message == 16 && !window.config.follow_codex,
        meaning is Redraw <==> message == 275 && wparam == 1,
        meaning is SnapFrame <==> message == 275 && wparam == 2 && window.overlay_active
            && window.snap is Some,
        meaning is AnimationFrame <==> message == 275 && wparam == 2 && window.overlay_active
            && window.snap is None,
        meaning is RingFrame <==> message == 275 && wparam == 3 && window.overlay_active,
{
    if meaning is DpiChanged {
        assert((wparam as int % 0x1_0000) as usize == wparam % 65_536);
    }
}

/// What the application's own messages mean.
#[verifier::spinoff_prover]
#[verifier::rlimit(40)]
pub proof fn law_own_messages_are_told_apart(
    window: &AppWindow,
    message: u32,
    wparam: usize,
    lparam: isize,
    meaning: Message,
)
    requires
        call_ensures(AppWindow::window_proc, (window, message, wparam, lparam), meaning),
    ensures
        meaning is Tray <==> message == 32_770,
        0 <= lparam <= u32::MAX && meaning is Tray ==> meaning->event == lparam % 65_536,
        meaning is TaskbarCreated <==> message == window.taskbar_created && message != 0 && message
            != 32_770,
        message != window.taskbar_created ==> {
            &&& meaning is Updated <==> message == 32_769 && window.overlay_active
            &&& meaning is Show <==> message == 32_771 && !window.config.follow_codex
            &&& meaning is Collapse <==> message == 32_772
            &&& meaning is ShowExpanded <==> message == 32_773
            &&& meaning is Presence <==> message == 32_774
        },
        meaning is Updated ==> (meaning->resizes <==> window.animation is None && window.expanded),
        meaning is Presence ==> (meaning->present <==> wparam != 0),
        0 <= lparam <= u32::MAX && meaning is Presence ==> meaning->generation == lparam,
{
    if 0 <= lparam <= u32::MAX && meaning is Tray {
        let low = lparam as u32;
        assert(low & 0xffff == low % 65_536) by (bit_vector);
    }
}

/// A message that is nobody's is left to the system, and one that has no use now is swallowed.
#[verifier::spinoff_prover]
#[verifier::rlimit(40)]
pub proof fn law_other_messages_are_left_alone(
    window: &AppWindow,
    message: u32,
    wparam: usize,
    lparam: isize,
    meaning: Message,
)
    requires
        call_ensures(AppWindow::window_proc, (window, message, wparam, lparam), meaning),
        window.taskbar_created == 0 || window.taskbar_created != message,
    ensures
        meaning is Nothing <==> {
            ||| !window.overlay_active && (message == 32_769 || message == 126 || (message == 275
                && (wparam == 2 || wparam == 3)))
            ||| window.config.follow_codex && (message == 32_771 || message == 16)
        },
        message == 536 && wparam != 18 ==> meaning is Default,
        message == 275 && wparam != 1 && wparam != 2 && wparam != 3 ==> meaning is Default,
        meaning is Default && message < 32_768 && message != 536 && message != 275 ==> message != 2
            && message != 16 && message != 26 && message != 33 && message != 126 && message != 130
            && message != 132 && message != 273 && !(512 <= message <= 514) && message != 675
            && message != 736,
{
}

/// A new window shows nothing, holds nothing and has seen nothing, and keeps its settings and what
/// was remembered.
pub proof fn law_a_new_window_is_blank(
    config: AppConfigV1,
    notify_state: NotifyState,
    window: AppWindow,
)
    requires
        call_ensures(AppWindow::new, (config, notify_state), window),
    ensures
        window.config == config,
        window.notify_state == notify_state,
        !window.overlay_active && !window.visible && !window.expanded && !window.hook_installed,
        window.animation is None && window.snap is None && window.ring_frame_millis is None,
        !window.pointer_down && !window.dragging && !window.hovered,
        !window.codex_present && !window.tray_added,
        window.animations_enabled,
        window.dpi == 96,
        window.taskbar_created == 0,
        window.notifier.observed is None && window.notifier.observed_at is None,
        !window.notifier.overflow_armed && window.notifier.period is None,
        !window.notifier.period_handled,
{
}

/// What the application reports back is taken over, and changes nothing else.
pub proof fn law_window_reports_are_taken_over(
    ready: &mut AppWindow,
    shown: &mut AppWindow,
    applied: &mut AppWindow,
    moved: &mut AppWindow,
    registered: &mut AppWindow,
    yes: bool,
)
    requires
        old(ready).well_formed(),
        old(shown).well_formed(),
        old(applied).well_formed(),
        old(moved).well_formed(),
        old(registered).well_formed(),
        call_ensures(AppWindow::overlay_ready, (ready,), ()),
        call_ensures(AppWindow::overlay_shown, (shown,), ()),
        call_ensures(AppWindow::presence_applied, (applied, yes), ()),
        call_ensures(AppWindow::set_animations_enabled, (moved, yes), ()),
        call_ensures(AppWindow::autostart_applied, (registered, yes), ()),
    ensures
        *final(ready) == (AppWindow { overlay_active: true, ..*old(ready) }),
        *final(shown) == (AppWindow { visible: true, ..*old(shown) }),
        *final(applied) == (AppWindow { codex_present: yes, ..*old(applied) }),
        *final(moved) == (AppWindow { animations_enabled: yes, ..*old(moved) }),
        *final(registered) == (AppWindow {
            config: AppConfigV1 { start_with_windows: yes, ..old(registered).config },
            ..*old(registered)
        }),
{
}

} // verus!
