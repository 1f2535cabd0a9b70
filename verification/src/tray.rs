//! The tray icon: its menu, its commands, and what its events mean.
use vstd::prelude::*;

use crate::commands::{
    CMD_AUTOSTART, CMD_COLOR_STYLE_SOFT, CMD_COLOR_STYLE_VIVID, CMD_COPY_PANEL, CMD_EXIT,
    CMD_FOLLOW_CODEX, CMD_NOTIFY_OVERFLOW, CMD_NOTIFY_RESET, CMD_PANEL_PERSISTENT, CMD_REFRESH,
    CMD_REFRESH_10_MIN, CMD_REFRESH_1_MIN, CMD_REFRESH_2_MIN, CMD_REFRESH_30_MIN,
    CMD_REFRESH_5_MIN, CMD_RESET_COUNTDOWN, CMD_SHOW, CMD_TEST_NOTIFY_BALANCE,
    CMD_TEST_NOTIFY_RESET, CMD_TOKEN_UNIT_EN, CMD_TOKEN_UNIT_ZH, CMD_TOPMOST, MF_CHECKED,
    MF_GRAYED, MF_STRING, NIF_ICON, NIF_MESSAGE, NIF_SHOWTIP, NIF_TIP, NIN_BALLOONUSERCLICK,
    WM_CONTEXTMENU, WM_RBUTTONUP,
};
use crate::config::{AppConfigV1, ColorStyle, UnitStyle};
use crate::presentation;
use crate::presentation::format_token_usage;
use crate::text;
use crate::text::encode_utf16;
use crate::time::{Duration, Instant};

verus! {

/// A tray click this soon after the menu closed is the one that closed it.
pub const TRAY_REOPEN_GUARD_MILLIS: u64 = 500;

/// The count that the two unit choices show as a sample: 1.2万 and 12K.
pub const UNIT_SAMPLE_TOKENS: u64 = 12_000;

/// What a tray event asks for.
#[derive(Clone, Copy, Debug, PartialEq, Eq, Structural)]
pub enum TrayEventAction {
    OpenContextMenu,
    /// A notification was clicked: show the panel.
    ShowPanel,
    Ignore,
}

/// Whether an event opens the menu; current shells send another one than old ones.
pub fn is_tray_context_event(event: u32, uses_v4: bool) -> (opens: bool)
    ensures
        opens == (event == (if uses_v4 {
            WM_CONTEXTMENU
        } else {
            WM_RBUTTONUP
        })),
{
    if uses_v4 {
        event == WM_CONTEXTMENU
    } else {
        event == WM_RBUTTONUP
    }
}

pub open spec fn event_action(event: u32, uses_v4: bool) -> TrayEventAction {
    if event == (if uses_v4 {
        WM_CONTEXTMENU
    } else {
        WM_RBUTTONUP
    }) {
        TrayEventAction::OpenContextMenu
    } else if event == NIN_BALLOONUSERCLICK {
        TrayEventAction::ShowPanel
    } else {
        TrayEventAction::Ignore
    }
}

pub fn tray_event_action(event: u32, uses_v4: bool) -> (action: TrayEventAction)
    ensures
        action == event_action(event, uses_v4),
{
    if is_tray_context_event(event, uses_v4) {
        TrayEventAction::OpenContextMenu
    } else if event == NIN_BALLOONUSERCLICK {
        TrayEventAction::ShowPanel
    } else {
        TrayEventAction::Ignore
    }
}

/// Whether a tray event so soon after the menu closed is swallowed.
pub open spec fn reopens_too_soon(closed: Instant, event: Instant) -> bool {
    closed.nanos <= event.nanos && event.nanos - closed.nanos <= TRAY_REOPEN_GUARD_MILLIS
        * 1_000_000
}

pub fn should_suppress_tray_reopen(closed: Instant, event: Instant) -> (suppress: bool)
    ensures
        suppress == reopens_too_soon(closed, event),
{
    closed.nanos <= event.nanos && event.nanos - closed.nanos <= Duration::from_millis(
        TRAY_REOPEN_GUARD_MILLIS,
    ).nanos
}

/// What the tray icon remembers.
#[derive(Clone, Copy, Debug, PartialEq, Eq, Structural)]
pub struct TrayState {
    pub uses_v4: bool,
    pub menu_open: bool,
    pub last_menu_closed: Option<Instant>,
}

/// What to do about a tray event.
#[derive(Clone, Copy, Debug, PartialEq, Eq, Structural)]
pub enum TrayStep {
    Nothing,
    ExpandPanel,
    CloseMenu,
    OpenMenu,
}

impl TrayState {
    pub fn new() -> (tray: TrayState)
        ensures
            tray == (TrayState { uses_v4: false, menu_open: false, last_menu_closed: None }),
    {
        TrayState { uses_v4: false, menu_open: false, last_menu_closed: None }
    }

    /// What an event leads to: a click while the menu is open closes it, the click that closed
    /// it does not open it again.
    pub open spec fn step(self, event: u32, now: Instant) -> TrayStep {
        match event_action(event, self.uses_v4) {
            TrayEventAction::Ignore => TrayStep::Nothing,
            TrayEventAction::ShowPanel => TrayStep::ExpandPanel,
            TrayEventAction::OpenContextMenu => if self.menu_open {
                TrayStep::CloseMenu
            } else if self.last_menu_closed is Some && reopens_too_soon(
                self.last_menu_closed->0,
                now,
            ) {
                TrayStep::Nothing
            } else {
                TrayStep::OpenMenu
            },
        }
    }

    pub open spec fn after(self, event: u32, now: Instant) -> TrayState {
        let opens = event_action(event, self.uses_v4) == TrayEventAction::OpenContextMenu
            && !self.menu_open;
        match self.step(event, now) {
            TrayStep::OpenMenu => TrayState { menu_open: true, ..self },
            TrayStep::Nothing => if opens {
                TrayState { last_menu_closed: None, ..self }
            } else {
                self
            },
            _ => self,
        }
    }

    /// Takes a tray event; `event` is the low half of the message's parameter.
    pub fn handle_tray_message(&mut self, event: u32, now: Instant) -> (step: TrayStep)
        ensures
            step == old(self).step(event, now),
            *final(self) == old(self).after(event, now),
    {
        match tray_event_action(event, self.uses_v4) {
            TrayEventAction::Ignore => TrayStep::Nothing,
            TrayEventAction::ShowPanel => TrayStep::ExpandPanel,
            TrayEventAction::OpenContextMenu => {
                if self.menu_open {
                    return TrayStep::CloseMenu;
                }
                if let Some(closed) = self.last_menu_closed {
                    if should_suppress_tray_reopen(closed, now) {
                        self.last_menu_closed = None;
                        return TrayStep::Nothing;
                    }
                }
                self.menu_open = true;
                TrayStep::OpenMenu
            },
        }
    }

    /// The menu has closed.
    pub fn menu_closed(&mut self, now: Instant)
        ensures
            *final(self) == (TrayState {
                menu_open: false,
                last_menu_closed: Some(now),
                ..*old(self)
            }),
    {
        self.menu_open = false;
        self.last_menu_closed = Some(now);
    }
}

/// The callback that arrives with the closing of the menu does not open it again, and is
/// swallowed only once.
pub proof fn law_closing_click_is_swallowed_once(
    tray: TrayState,
    event: u32,
    closed: Instant,
    now: Instant,
    again: Instant,
)
    requires
        event_action(event, tray.uses_v4) == TrayEventAction::OpenContextMenu,
        reopens_too_soon(closed, now),
    ensures
        ({
            let shut = TrayState { menu_open: false, last_menu_closed: Some(closed), ..tray };
            &&& shut.step(event, now) == TrayStep::Nothing
            &&& shut.after(event, now).step(event, again) == TrayStep::OpenMenu
        }),
{
}

/// What the menu shows.
#[derive(Clone, Copy, Debug, PartialEq, Eq, Structural)]
pub struct TrayMenuState {
    pub visible: bool,
    pub overlay_active: bool,
    pub always_on_top: bool,
    pub start_with_windows: bool,
    pub follow_codex: bool,
    pub collapse_on_outside_click: bool,
    pub notify_on_reset: bool,
    pub notify_on_overflow: bool,
    pub show_reset_countdown: bool,
    pub token_unit: UnitStyle,
    pub color_style: ColorStyle,
    pub quota_refresh_interval_secs: u64,
}

impl Default for TrayMenuState {
    fn default() -> (state: TrayMenuState)
        ensures
            state == (TrayMenuState {
                visible: false,
                overlay_active: false,
                always_on_top: false,
                start_with_windows: false,
                follow_codex: false,
                collapse_on_outside_click: false,
                notify_on_reset: false,
                notify_on_overflow: false,
                show_reset_countdown: false,
                token_unit: UnitStyle::Zh,
                color_style: ColorStyle::Soft,
                quota_refresh_interval_secs: 0,
            }),
    {
        TrayMenuState {
            visible: false,
            overlay_active: false,
            always_on_top: false,
            start_with_windows: false,
            follow_codex: false,
            collapse_on_outside_click: false,
            notify_on_reset: false,
            notify_on_overflow: false,
            show_reset_countdown: false,
            token_unit: UnitStyle::Zh,
            color_style: ColorStyle::Soft,
            quota_refresh_interval_secs: 0,
        }
    }
}

impl TrayMenuState {
    /// The menu of a window in this state.
    pub fn of(config: &AppConfigV1, visible: bool, overlay_active: bool) -> (state: TrayMenuState)
        ensures
            state == (TrayMenuState {
                visible,
                overlay_active,
                always_on_top: config.always_on_top,
                start_with_windows: config.start_with_windows,
                follow_codex: config.follow_codex,
                collapse_on_outside_click: config.collapse_on_outside_click,
                notify_on_reset: config.notify_on_reset,
                notify_on_overflow: config.notify_on_overflow,
                show_reset_countdown: config.show_reset_countdown,
                token_unit: config.token_unit,
                color_style: config.color_style,
                quota_refresh_interval_secs: config.refresh_secs(),
            }),
    {
        TrayMenuState {
            visible,
            overlay_active,
            always_on_top: config.always_on_top,
            start_with_windows: config.start_with_windows,
            follow_codex: config.follow_codex,
            collapse_on_outside_click: config.collapse_on_outside_click,
            notify_on_reset: config.notify_on_reset,
            notify_on_overflow: config.notify_on_overflow,
            show_reset_countdown: config.show_reset_countdown,
            token_unit: config.token_unit,
            color_style: config.color_style,
            quota_refresh_interval_secs: config.quota_refresh_interval().as_secs(),
        }
    }
}

/// A command in a menu.
#[derive(Clone, Debug, PartialEq, Eq)]
pub struct MenuCommand {
    pub command: usize,
    pub label: String,
    pub checked: bool,
    pub enabled: bool,
}

/// An entry of the menu.
#[derive(Clone, Debug, PartialEq, Eq)]
pub enum MenuEntry {
    Command(MenuCommand),
    Separator,
    Submenu { label: String, commands: Vec<MenuCommand> },
}

/// What a command shows.
pub struct CommandView {
    pub command: usize,
    pub label: Seq<char>,
    pub checked: bool,
    pub enabled: bool,
}

/// What an entry shows.
pub enum EntryView {
    Command(CommandView),
    Separator,
    Submenu { label: Seq<char>, commands: Seq<CommandView> },
}

impl View for MenuCommand {
    type V = CommandView;

    open spec fn view(&self) -> CommandView {
        CommandView {
            command: self.command,
            label: self.label@,
            checked: self.checked,
            enabled: self.enabled,
        }
    }
}

pub open spec fn commands_of(commands: Seq<MenuCommand>) -> Seq<CommandView> {
    commands.map_values(|c: MenuCommand| c@)
}

impl View for MenuEntry {
    type V = EntryView;

    open spec fn view(&self) -> EntryView {
        match *self {
            MenuEntry::Command(command) => EntryView::Command(command@),
            MenuEntry::Separator => EntryView::Separator,
            MenuEntry::Submenu { label, commands } => EntryView::Submenu {
                label: label@,
                commands: commands_of(commands@),
            },
        }
    }
}

pub open spec fn entries_of(entries: Seq<MenuEntry>) -> Seq<EntryView> {
    entries.map_values(|e: MenuEntry| e@)
}

pub open spec fn item(command: usize, label: Seq<char>, checked: bool, enabled: bool) -> CommandView {
    CommandView { command, label, checked, enabled }
}

/// Flags of a menu entry: checked and greyed where it is so.
pub fn menu_flags(checked: bool, enabled: bool) -> (flags: u32)
    ensures
        flags == MF_STRING + (if checked {
            MF_CHECKED as int
        } else {
            0
        }) + (if enabled {
            0
        } else {
            MF_GRAYED as int
        }),
{
    let mut flags: u32 = MF_STRING;
    if checked {
        flags = flags + MF_CHECKED;
    }
    if !enabled {
        flags = flags + MF_GRAYED;
    }
    flags
}

fn append_menu_command(
    menu: &mut Vec<MenuCommand>,
    command: usize,
    label: &str,
    checked: bool,
    enabled: bool,
)
    ensures
        commands_of(final(menu)@) == commands_of(old(menu)@).push(
            item(command, label@, checked, enabled),
        ),
{
    let entry = MenuCommand { command, label: label.to_owned(), checked, enabled };
    let ghost shown = entry@;
    menu.push(entry);
    assert(commands_of(menu@) =~= commands_of(old(menu)@).push(shown));
}

pub fn panel_is_persistent(collapse_on_outside_click: bool) -> (persistent: bool)
    ensures
        persistent == !collapse_on_outside_click,
{
    !collapse_on_outside_click
}

/// The refresh intervals on offer.
pub open spec fn refresh_entries(state: TrayMenuState) -> Seq<CommandView> {
    let secs = state.quota_refresh_interval_secs;
    seq![
        item(CMD_REFRESH_1_MIN, "1 分钟"@, secs == 60, true),
        item(CMD_REFRESH_2_MIN, "2 分钟"@, secs == 120, true),
        item(CMD_REFRESH_5_MIN, "5 分钟"@, secs == 300, true),
        item(CMD_REFRESH_10_MIN, "10 分钟"@, secs == 600, true),
        item(CMD_REFRESH_30_MIN, "30 分钟"@, secs == 1800, true),
    ]
}

pub fn append_refresh_interval_entries(state: TrayMenuState) -> (commands: Vec<MenuCommand>)
    ensures
        commands_of(commands@) == refresh_entries(state),
{
    let secs: u64 = state.quota_refresh_interval_secs;
    let mut menu: Vec<MenuCommand> = Vec::new();
    append_menu_command(&mut menu, CMD_REFRESH_1_MIN, "1 分钟", secs == 60, true);
    append_menu_command(&mut menu, CMD_REFRESH_2_MIN, "2 分钟", secs == 120, true);
    append_menu_command(&mut menu, CMD_REFRESH_5_MIN, "5 分钟", secs == 300, true);
    append_menu_command(&mut menu, CMD_REFRESH_10_MIN, "10 分钟", secs == 600, true);
    append_menu_command(&mut menu, CMD_REFRESH_30_MIN, "30 分钟", secs == 1800, true);
    assert(commands_of(menu@) =~= refresh_entries(state));
    menu
}

pub open spec fn notify_entries(state: TrayMenuState) -> Seq<CommandView> {
    seq![
        item(CMD_NOTIFY_RESET, "额度重置提醒"@, state.notify_on_reset, true),
        item(CMD_NOTIFY_OVERFLOW, "余额使用提醒"@, state.notify_on_overflow, true),
    ]
}

pub fn append_notify_entries(state: TrayMenuState) -> (commands: Vec<MenuCommand>)
    ensures
        commands_of(commands@) == notify_entries(state),
{
    let mut menu: Vec<MenuCommand> = Vec::new();
    append_menu_command(&mut menu, CMD_NOTIFY_RESET, "额度重置提醒", state.notify_on_reset, true);
    append_menu_command(
        &mut menu,
        CMD_NOTIFY_OVERFLOW,
        "余额使用提醒",
        state.notify_on_overflow,
        true,
    );
    assert(commands_of(menu@) =~= notify_entries(state));
    menu
}

/// The units on offer, each with the same count as a sample.
pub open spec fn unit_entries(state: TrayMenuState) -> Seq<CommandView> {
    seq![
        item(
            CMD_TOKEN_UNIT_ZH,
            "中文 "@ + presentation::token_text(UNIT_SAMPLE_TOKENS as nat, UnitStyle::Zh),
            state.token_unit == UnitStyle::Zh,
            true,
        ),
        item(
            CMD_TOKEN_UNIT_EN,
            "西文 "@ + presentation::token_text(UNIT_SAMPLE_TOKENS as nat, UnitStyle::En),
            state.token_unit == UnitStyle::En,
            true,
        ),
    ]
}

pub fn append_token_unit_entries(state: TrayMenuState) -> (commands: Vec<MenuCommand>)
    ensures
        commands_of(commands@) == unit_entries(state),
{
    let mut chinese = "中文 ".to_owned();
    chinese.append(format_token_usage(Some(UNIT_SAMPLE_TOKENS), UnitStyle::Zh).as_str());
    let mut western = "西文 ".to_owned();
    western.append(format_token_usage(Some(UNIT_SAMPLE_TOKENS), UnitStyle::En).as_str());
    let mut menu: Vec<MenuCommand> = Vec::new();
    append_menu_command(
        &mut menu,
        CMD_TOKEN_UNIT_ZH,
        chinese.as_str(),
        state.token_unit == UnitStyle::Zh,
        true,
    );
    append_menu_command(
        &mut menu,
        CMD_TOKEN_UNIT_EN,
        western.as_str(),
        state.token_unit == UnitStyle::En,
        true,
    );
    assert(commands_of(menu@) =~= unit_entries(state));
    menu
}

pub open spec fn color_entries(state: TrayMenuState) -> Seq<CommandView> {
    seq![
        item(CMD_COLOR_STYLE_SOFT, "柔和"@, state.color_style == ColorStyle::Soft, true),
        item(CMD_COLOR_STYLE_VIVID, "鲜艳"@, state.color_style == ColorStyle::Vivid, true),
    ]
}

pub fn append_color_style_entries(state: TrayMenuState) -> (commands: Vec<MenuCommand>)
    ensures
        commands_of(commands@) == color_entries(state),
{
    let mut menu: Vec<MenuCommand> = Vec::new();
    append_menu_command(
        &mut menu,
        CMD_COLOR_STYLE_SOFT,
        "柔和",
        state.color_style == ColorStyle::Soft,
        true,
    );
    append_menu_command(
        &mut menu,
        CMD_COLOR_STYLE_VIVID,
        "鲜艳",
        state.color_style == ColorStyle::Vivid,
        true,
    );
    assert(commands_of(menu@) =~= color_entries(state));
    menu
}

/// The switches, which live in a menu of their own to keep the top level short.
pub open spec fn settings_entries(state: TrayMenuState) -> Seq<CommandView> {
    seq![
        item(CMD_TOPMOST, "始终置顶"@, state.always_on_top, true),
        item(CMD_AUTOSTART, "开机启动"@, state.start_with_windows, true),
        item(CMD_FOLLOW_CODEX, "跟随 Codex"@, state.follow_codex, true),
        item(CMD_PANEL_PERSISTENT, "面板常驻"@, !state.collapse_on_outside_click, true),
        item(CMD_RESET_COUNTDOWN, "重置倒计时"@, state.show_reset_countdown, true),
    ]
}

pub fn append_settings_entries(state: TrayMenuState) -> (commands: Vec<MenuCommand>)
    ensures
        commands_of(commands@) == settings_entries(state),
{
    let mut menu: Vec<MenuCommand> = Vec::new();
    append_menu_command(&mut menu, CMD_TOPMOST, "始终置顶", state.always_on_top, true);
    append_menu_command(&mut menu, CMD_AUTOSTART, "开机启动", state.start_with_windows, true);
    append_menu_command(&mut menu, CMD_FOLLOW_CODEX, "跟随 Codex", state.follow_codex, true);
    append_menu_command(
        &mut menu,
        CMD_PANEL_PERSISTENT,
        "面板常驻",
        panel_is_persistent(state.collapse_on_outside_click),
        true,
    );
    append_menu_command(
        &mut menu,
        CMD_RESET_COUNTDOWN,
        "重置倒计时",
        state.show_reset_countdown,
        true,
    );
    assert(commands_of(menu@) =~= settings_entries(state));
    menu
}

/// There is something to refresh while the overlay's resources are there.
pub fn refresh_command_is_enabled(state: TrayMenuState) -> (enabled: bool)
    ensures
        enabled == state.overlay_active,
{
    state.overlay_active
}

/// There is something to capture under the same condition, whether or not the ball is shown.
pub fn screenshot_command_is_enabled(state: TrayMenuState) -> (enabled: bool)
    ensures
        enabled == state.overlay_active,
{
    refresh_command_is_enabled(state)
}

pub open spec fn submenu(label: Seq<char>, commands: Seq<CommandView>) -> EntryView {
    EntryView::Submenu { label, commands }
}

/// The whole menu: what to do now, the choices, the settings, and the way out; in a debug build
/// also two sample notifications.
pub open spec fn tray_menu(state: TrayMenuState, debug: bool) -> Seq<EntryView> {
    let regular = seq![
        EntryView::Command(
            item(
                CMD_SHOW,
                if state.visible {
                    "隐藏悬浮球"@
                } else {
                    "显示悬浮球"@
                },
                false,
                !state.follow_codex,
            ),
        ),
        EntryView::Command(item(CMD_REFRESH, "立即刷新"@, false, state.overlay_active)),
        EntryView::Command(item(CMD_COPY_PANEL, "面板截图"@, false, state.overlay_active)),
        submenu("刷新间隔"@, refresh_entries(state)),
        submenu("通知"@, notify_entries(state)),
        submenu("用量单位"@, unit_entries(state)),
        submenu("颜色风格"@, color_entries(state)),
        EntryView::Separator,
        submenu("设置"@, settings_entries(state)),
        EntryView::Separator,
        EntryView::Command(item(CMD_EXIT, "退出"@, false, true)),
    ];
    if debug {
        regular + seq![
            EntryView::Separator,
            EntryView::Command(item(CMD_TEST_NOTIFY_RESET, "测试通知：额度重置"@, false, true)),
            EntryView::Command(item(CMD_TEST_NOTIFY_BALANCE, "测试通知：余额使用"@, false, true)),
        ]
    } else {
        regular
    }
}

fn push_command(menu: &mut Vec<MenuEntry>, command: usize, label: &str, enabled: bool)
    ensures
        entries_of(final(menu)@) == entries_of(old(menu)@).push(
            EntryView::Command(item(command, label@, false, enabled)),
        ),
{
    let entry = MenuEntry::Command(
        MenuCommand { command, label: label.to_owned(), checked: false, enabled },
    );
    let ghost shown = entry@;
    menu.push(entry);
    assert(entries_of(menu@) =~= entries_of(old(menu)@).push(shown));
}

fn push_separator(menu: &mut Vec<MenuEntry>)
    ensures
        entries_of(final(menu)@) == entries_of(old(menu)@).push(EntryView::Separator),
{
    menu.push(MenuEntry::Separator);
    assert(entries_of(menu@) =~= entries_of(old(menu)@).push(EntryView::Separator));
}

fn attach_submenu(menu: &mut Vec<MenuEntry>, commands: Vec<MenuCommand>, label: &str)
    ensures
        entries_of(final(menu)@) == entries_of(old(menu)@).push(
            submenu(label@, commands_of(commands@)),
        ),
{
    let entry = MenuEntry::Submenu { label: label.to_owned(), commands };
    let ghost shown = entry@;
    menu.push(entry);
    assert(entries_of(menu@) =~= entries_of(old(menu)@).push(shown));
}

pub fn build_tray_menu(state: TrayMenuState, debug: bool) -> (menu: Vec<MenuEntry>)
    ensures
        entries_of(menu@) == tray_menu(state, debug),
{
    let mut menu: Vec<MenuEntry> = Vec::new();
    let show = if state.visible {
        "隐藏悬浮球"
    } else {
        "显示悬浮球"
    };
    push_command(&mut menu, CMD_SHOW, show, !state.follow_codex);
    push_command(&mut menu, CMD_REFRESH, "立即刷新", refresh_command_is_enabled(state));
    push_command(&mut menu, CMD_COPY_PANEL, "面板截图", screenshot_command_is_enabled(state));
    attach_submenu(&mut menu, append_refresh_interval_entries(state), "刷新间隔");
    attach_submenu(&mut menu, append_notify_entries(state), "通知");
    attach_submenu(&mut menu, append_token_unit_entries(state), "用量单位");
    attach_submenu(&mut menu, append_color_style_entries(state), "颜色风格");
    push_separator(&mut menu);
    attach_submenu(&mut menu, append_settings_entries(state), "设置");
    push_separator(&mut menu);
    push_command(&mut menu, CMD_EXIT, "退出", true);
    assert(entries_of(menu@) =~= tray_menu(state, false));
    if debug {
        push_separator(&mut menu);
        push_command(&mut menu, CMD_TEST_NOTIFY_RESET, "测试通知：额度重置", true);
        push_command(&mut menu, CMD_TEST_NOTIFY_BALANCE, "测试通知：余额使用", true);
        assert(entries_of(menu@) =~= tray_menu(state, true));
    }
    menu
}

/// At most one choice of a group is marked, and the units and colours always have one.
pub proof fn law_choices_exclude_each_other(state: TrayMenuState, i: int, j: int)
    ensures
        0 <= i < j < 5 ==> !(refresh_entries(state)[i].checked && refresh_entries(
            state,
        )[j].checked),
        unit_entries(state)[0].checked != unit_entries(state)[1].checked,
        color_entries(state)[0].checked != color_entries(state)[1].checked,
{
}

/// The unit that a command chooses.
pub open spec fn unit_of_command(command: usize) -> Option<UnitStyle> {
    if command == CMD_TOKEN_UNIT_ZH {
        Some(UnitStyle::Zh)
    } else if command == CMD_TOKEN_UNIT_EN {
        Some(UnitStyle::En)
    } else {
        None
    }
}

pub fn token_unit_for_command(command: usize) -> (unit: Option<UnitStyle>)
    ensures
        unit == unit_of_command(command),
{
    if command == CMD_TOKEN_UNIT_ZH {
        Some(UnitStyle::Zh)
    } else if command == CMD_TOKEN_UNIT_EN {
        Some(UnitStyle::En)
    } else {
        None
    }
}

/// The colour style that a command chooses.
pub open spec fn style_of_command(command: usize) -> Option<ColorStyle> {
    if command == CMD_COLOR_STYLE_SOFT {
        Some(ColorStyle::Soft)
    } else if command == CMD_COLOR_STYLE_VIVID {
        Some(ColorStyle::Vivid)
    } else {
        None
    }
}

pub fn color_style_for_command(command: usize) -> (style: Option<ColorStyle>)
    ensures
        style == style_of_command(command),
{
    if command == CMD_COLOR_STYLE_SOFT {
        Some(ColorStyle::Soft)
    } else if command == CMD_COLOR_STYLE_VIVID {
        Some(ColorStyle::Vivid)
    } else {
        None
    }
}

/// The refresh interval that a command chooses, in seconds.
pub open spec fn interval_of_command(command: usize) -> Option<u64> {
    if command == CMD_REFRESH_1_MIN {
        Some(60)
    } else if command == CMD_REFRESH_2_MIN {
        Some(120)
    } else if command == CMD_REFRESH_5_MIN {
        Some(300)
    } else if command == CMD_REFRESH_10_MIN {
        Some(600)
    } else if command == CMD_REFRESH_30_MIN {
        Some(1800)
    } else {
        None
    }
}

pub fn refresh_interval_for_command(command: usize) -> (interval: Option<Duration>)
    ensures
        interval is Some <==> interval_of_command(command) is Some,
        interval is Some ==> interval->0.nanos == interval_of_command(command)->0 * 1_000_000_000,
{
    if command == CMD_REFRESH_1_MIN {
        Some(Duration::from_secs(60))
    } else if command == CMD_REFRESH_2_MIN {
        Some(Duration::from_secs(120))
    } else if command == CMD_REFRESH_5_MIN {
        Some(Duration::from_secs(300))
    } else if command == CMD_REFRESH_10_MIN {
        Some(Duration::from_secs(600))
    } else if command == CMD_REFRESH_30_MIN {
        Some(Duration::from_secs(1800))
    } else {
        None
    }
}

/// No command belongs to two groups of choices.
pub proof fn law_command_groups_are_disjoint(command: usize)
    ensures
        interval_of_command(command) is Some ==> unit_of_command(command) is None
            && style_of_command(command) is None,
        unit_of_command(command) is Some ==> style_of_command(command) is None,
{
}

/// Choosing a refresh interval marks exactly its own entry.
pub proof fn law_chosen_interval_is_marked(state: TrayMenuState, i: int)
    requires
        0 <= i < 5,
        interval_of_command(refresh_entries(state)[i].command) == Some(
            state.quota_refresh_interval_secs,
        ),
    ensures
        refresh_entries(state)[i].checked,
{
}

/// What the tray icon carries: a message, an icon and a standard tooltip, and no identity bound
/// to the program's path.
pub fn tray_icon_flags() -> (flags: u32)
    ensures
        flags == NIF_MESSAGE + NIF_ICON + NIF_TIP + NIF_SHOWTIP,
{
    NIF_MESSAGE + NIF_ICON + NIF_TIP + NIF_SHOWTIP
}

/// The unit at `i` of a text in a field of `capacity` units: the text as far as it fits, and
/// zeros behind it, at least one.
pub open spec fn fixed_unit(units: Seq<u16>, capacity: int, i: int) -> u16 {
    if i < units.len() && i < capacity - 1 {
        units[i]
    } else {
        0
    }
}

/// Writes a text into a field of fixed length; what does not fit before the final zero is cut.
pub fn copy_wide_fixed<const N: usize>(value: &str, destination: &mut [u16; N])
    ensures
        forall|i: int|
            0 <= i < N ==> #[trigger] final(destination)@[i] == fixed_unit(
                text::utf16(value@),
                N as int,
                i,
            ),
        N > 0 ==> final(destination)@[N - 1] == 0,
        forall|i: int|
            0 <= i < N - 1 && i < text::utf16(value@).len() ==> #[trigger] final(destination)@[i]
                == text::utf16(value@)[i],
        forall|i: int|
            text::utf16(value@).len() <= i < N ==> #[trigger] final(destination)@[i] == 0,
{
    let units = encode_utf16(value);
    let mut i: usize = 0;
    while i < N
        invariant
            i <= N,
            units@ == text::utf16(value@),
            forall|j: int|
                0 <= j < i ==> #[trigger] destination@[j] == fixed_unit(units@, N as int, j),
        decreases N - i,
    {
        let unit: u16 = if i < units.len() && i < N - 1 {
            units[i]
        } else {
            0
        };
        destination[i] = unit;
        i += 1;
    }
}

/// The menu opens on the shell's context event, which current shells number 123 and old ones 517,
/// and the panel on a click on a notification; everything else is ignored.
pub proof fn law_tray_events_are_told_apart(event: u32, uses_v4: bool, action: TrayEventAction)
    requires
        call_ensures(tray_event_action, (event, uses_v4), action),
    ensures
        action is OpenContextMenu <==> (uses_v4 && event == 123) || (!uses_v4 && event == 517),
        action is ShowPanel <==> event == 1_029,
{
}

/// A tray event within half a second of the menu's closing is taken for the click that closed it.
pub proof fn law_half_a_second_guards_the_menu(closed: Instant, event: Instant, suppress: bool)
    requires
        call_ensures(should_suppress_tray_reopen, (closed, event), suppress),
    ensures
        suppress <==> 0 <= event.nanos - closed.nanos <= 500_000_000,
{
}

/// A context event closes an open menu, opens a closed one, and is swallowed where it is the click
/// that closed it, which is then forgotten.
pub proof fn law_the_menu_opens_and_closes(
    tray: &mut TrayState,
    event: u32,
    now: Instant,
    step: TrayStep,
    action: TrayEventAction,
)
    requires
        call_ensures(TrayState::handle_tray_message, (tray, event, now), step),
        call_ensures(tray_event_action, (event, old(tray).uses_v4), action),
    ensures
        ({
            let closed = old(tray).last_menu_closed;
            let guarded = closed is Some && 0 <= now.nanos - closed->0.nanos <= 500_000_000;
            let asked = action is OpenContextMenu;
            &&& step is ExpandPanel <==> action is ShowPanel
            &&& step is CloseMenu <==> asked && old(tray).menu_open
            &&& step is OpenMenu <==> asked && !old(tray).menu_open && !guarded
            &&& final(tray).menu_open == (old(tray).menu_open || step is OpenMenu)
            &&& final(tray).last_menu_closed == (if asked && !old(tray).menu_open && guarded {
                None
            } else {
                closed
            })
            &&& final(tray).uses_v4 == old(tray).uses_v4
        }),
{
}

/// The menu shows the settings as they are, and the refresh interval that is in force.
pub proof fn law_the_menu_shows_the_settings(
    config: &AppConfigV1,
    visible: bool,
    overlay_active: bool,
    state: TrayMenuState,
    interval: Duration,
)
    requires
        call_ensures(TrayMenuState::of, (config, visible, overlay_active), state),
        call_ensures(AppConfigV1::quota_refresh_interval, (config,), interval),
    ensures
        state.quota_refresh_interval_secs * 1_000_000_000 == interval.nanos,
        state.visible == visible,
        state.overlay_active == overlay_active,
        state.always_on_top == config.always_on_top,
        state.start_with_windows == config.start_with_windows,
        state.follow_codex == config.follow_codex,
        state.collapse_on_outside_click == config.collapse_on_outside_click,
        state.notify_on_reset == config.notify_on_reset,
        state.notify_on_overflow == config.notify_on_overflow,
        state.show_reset_countdown == config.show_reset_countdown,
        state.token_unit == config.token_unit,
        state.color_style == config.color_style,
{
}

/// Every refresh interval on offer is one that its command chooses, is named by its minutes, and is
/// marked exactly where it is the one in force.
pub proof fn law_intervals_on_offer_can_be_chosen(
    state: TrayMenuState,
    commands: Vec<MenuCommand>,
    i: int,
    interval: Option<Duration>,
)
    requires
        call_ensures(append_refresh_interval_entries, (state,), commands),
        0 <= i < commands@.len(),
        call_ensures(refresh_interval_for_command, (commands@[i].command,), interval),
    ensures
        commands@.len() == 5,
        commands@[i].enabled,
        interval is Some,
        interval->0.nanos == 60_000_000_000 * (if i == 0 {
            1int
        } else if i == 1 {
            2
        } else if i == 2 {
            5
        } else if i == 3 {
            10
        } else {
            30
        }),
        commands@[i].label@ == text::decimal((interval->0.nanos / 60_000_000_000) as nat)
            + " 分钟"@,
        commands@[i].checked <==> interval->0.nanos == state.quota_refresh_interval_secs
            * 1_000_000_000,
{
    let shown = commands_of(commands@);
    assert(shown[i] == commands@[i]@);
    assert(shown.len() == commands@.len());
    reveal_with_fuel(text::decimal, 3);
    reveal_strlit(" 分钟");
    reveal_strlit("1 分钟");
    reveal_strlit("2 分钟");
    reveal_strlit("5 分钟");
    reveal_strlit("10 分钟");
    reveal_strlit("30 分钟");
    assert(text::decimal(1) + " 分钟"@ =~= "1 分钟"@);
    assert(text::decimal(2) + " 分钟"@ =~= "2 分钟"@);
    assert(text::decimal(5) + " 分钟"@ =~= "5 分钟"@);
    assert(text::decimal(10) + " 分钟"@ =~= "10 分钟"@);
    assert(text::decimal(30) + " 分钟"@ =~= "30 分钟"@);
}

/// Every unit and every colour style on offer is one that its command chooses, and is marked exactly
/// where it is the one in use.
pub proof fn law_styles_on_offer_can_be_chosen(
    state: TrayMenuState,
    units: Vec<MenuCommand>,
    colors: Vec<MenuCommand>,
    i: int,
    unit: Option<UnitStyle>,
    style: Option<ColorStyle>,
    sample: String,
)
    requires
        call_ensures(append_token_unit_entries, (state,), units),
        call_ensures(append_color_style_entries, (state,), colors),
        0 <= i < 2,
        call_ensures(token_unit_for_command, (units@[i].command,), unit),
        call_ensures(color_style_for_command, (colors@[i].command,), style),
        unit is Some ==> call_ensures(format_token_usage, (Some(12_000u64), unit->0), sample),
    ensures
        units@.len() == 2,
        colors@.len() == 2,
        units@[i].enabled && colors@[i].enabled,
        unit == Some(
            if i == 0 {
                UnitStyle::Zh
            } else {
                UnitStyle::En
            },
        ),
        style == Some(
            if i == 0 {
                ColorStyle::Soft
            } else {
                ColorStyle::Vivid
            },
        ),
        units@[i].label@ == (if i == 0 {
            "中文 "@
        } else {
            "西文 "@
        }) + sample@,
        units@[i].checked <==> state.token_unit == unit->0,
        colors@[i].checked <==> state.color_style == style->0,
{
    assert(commands_of(units@).len() == units@.len());
    assert(commands_of(colors@).len() == colors@.len());
    assert(commands_of(units@)[i] == units@[i]@);
    assert(commands_of(colors@)[i] == colors@[i]@);
}

/// Every switch is marked exactly while it is on; a panel that collapses on clicks outside is the
/// one that does not stay.
pub proof fn law_switches_show_whether_they_are_on(
    state: TrayMenuState,
    settings: Vec<MenuCommand>,
    notices: Vec<MenuCommand>,
)
    requires
        call_ensures(append_settings_entries, (state,), settings),
        call_ensures(append_notify_entries, (state,), notices),
    ensures
        settings@.len() == 5,
        notices@.len() == 2,
        forall|i: int| #![trigger settings@[i]] 0 <= i < 5 ==> settings@[i].enabled,
        forall|i: int| #![trigger notices@[i]] 0 <= i < 2 ==> notices@[i].enabled,
        settings@[0].command == 1_004 && settings@[0].checked == state.always_on_top,
        settings@[1].command == 1_005 && settings@[1].checked == state.start_with_windows,
        settings@[2].command == 1_013 && settings@[2].checked == state.follow_codex,
        settings@[3].command == 1_007 && settings@[3].checked != state.collapse_on_outside_click,
        settings@[4].command == 1_021 && settings@[4].checked == state.show_reset_countdown,
        notices@[0].command == 1_019 && notices@[0].checked == state.notify_on_reset,
        notices@[1].command == 1_020 && notices@[1].checked == state.notify_on_overflow,
{
    let shown = commands_of(settings@);
    let said = commands_of(notices@);
    assert(shown.len() == settings@.len());
    assert(said.len() == notices@.len());
    assert forall|i: int| #![trigger settings@[i]] 0 <= i < 5 implies settings@[i].enabled by {
        assert(shown[i] == settings@[i]@);
    }
    assert forall|i: int| #![trigger notices@[i]] 0 <= i < 2 implies notices@[i].enabled by {
        assert(said[i] == notices@[i]@);
    }
    assert(shown[0] == settings@[0]@ && shown[1] == settings@[1]@ && shown[2] == settings@[2]@);
    assert(shown[3] == settings@[3]@ && shown[4] == settings@[4]@);
    assert(said[0] == notices@[0]@ && said[1] == notices@[1]@);
}

/// The top of the menu: the ball can be shown or hidden unless that follows Codex, there is
/// something to refresh or to capture only while the overlay is there, and the way out is always
/// open. A debug build has two more commands and is otherwise the same.
pub proof fn law_the_menu_offers_what_can_be_done(
    state: TrayMenuState,
    menu: Vec<MenuEntry>,
    debug_menu: Vec<MenuEntry>,
)
    requires
        call_ensures(build_tray_menu, (state, false), menu),
        call_ensures(build_tray_menu, (state, true), debug_menu),
    ensures
        menu@.len() == 11,
        offers(menu@[0], 1_001, !state.follow_codex),
        menu@[0]->Command_0.label@ == (if state.visible {
            "隐藏悬浮球"@
        } else {
            "显示悬浮球"@
        }),
        offers(menu@[1], 1_002, state.overlay_active),
        offers(menu@[2], 1_018, state.overlay_active),
        offers(menu@[10], 1_006, true),
        debug_menu@.len() == 14,
        forall|i: int| #![trigger debug_menu@[i]] 0 <= i < 11 ==> debug_menu@[i]@ == menu@[i]@,
        offers(debug_menu@[12], 1_022, true),
        offers(debug_menu@[13], 1_023, true),
{
    let shown = entries_of(menu@);
    let debug_shown = entries_of(debug_menu@);
    assert(shown.len() == menu@.len());
    assert(debug_shown.len() == debug_menu@.len());
    assert(shown[0] == menu@[0]@ && shown[1] == menu@[1]@ && shown[2] == menu@[2]@);
    assert(shown[10] == menu@[10]@);
    assert(debug_shown[12] == debug_menu@[12]@ && debug_shown[13] == debug_menu@[13]@);
    assert forall|i: int| #![trigger debug_menu@[i]] 0 <= i < 11 implies debug_menu@[i]@
        == menu@[i]@ by {
        assert(debug_shown[i] == debug_menu@[i]@);
        assert(shown[i] == menu@[i]@);
    }
}

/// An entry that runs a command, and whether it can be chosen.
pub open spec fn offers(entry: MenuEntry, command: usize, enabled: bool) -> bool {
    &&& entry is Command
    &&& entry->Command_0.command == command
    &&& entry->Command_0.enabled == enabled
    &&& !entry->Command_0.checked
}

/// A mark is worth eight, a grey entry one.
pub proof fn law_menu_flags_show_state(checked: bool, enabled: bool, flags: u32)
    requires
        call_ensures(menu_flags, (checked, enabled), flags),
    ensures
        flags % 2 == 1 <==> !enabled,
        flags / 8 == 1 <==> checked,
        flags <= 9,
{
}

/// The commands that choose a refresh interval, a unit or a colour style, and what they choose.
pub proof fn law_commands_choose_what_they_say(
    command: usize,
    interval: Option<Duration>,
    unit: Option<UnitStyle>,
    style: Option<ColorStyle>,
)
    requires
        call_ensures(refresh_interval_for_command, (command,), interval),
        call_ensures(token_unit_for_command, (command,), unit),
        call_ensures(color_style_for_command, (command,), style),
    ensures
        interval is Some <==> 1_008 <= command <= 1_012,
        command == 1_008 ==> interval->0.nanos == 60_000_000_000,
        command == 1_012 ==> interval->0.nanos == 120_000_000_000,
        command == 1_009 ==> interval->0.nanos == 300_000_000_000,
        command == 1_010 ==> interval->0.nanos == 600_000_000_000,
        command == 1_011 ==> interval->0.nanos == 1_800_000_000_000,
        unit is Some <==> 1_014 <= command <= 1_015,
        unit is Some ==> (unit->0 == UnitStyle::Zh <==> command == 1_014),
        style is Some <==> 1_016 <= command <= 1_017,
        style is Some ==> (style->0 == ColorStyle::Soft <==> command == 1_016),
{
}

/// A closed menu remembers when it closed; a new tray remembers nothing.
pub proof fn law_a_closed_menu_is_remembered(tray: &mut TrayState, now: Instant, fresh: TrayState)
    requires
        call_ensures(TrayState::menu_closed, (tray, now), ()),
        call_ensures(TrayState::new, (), fresh),
    ensures
        !final(tray).menu_open,
        final(tray).last_menu_closed == Some(now),
        final(tray).uses_v4 == old(tray).uses_v4,
        !fresh.menu_open && !fresh.uses_v4 && fresh.last_menu_closed is None,
{
}

/// What depends on the overlay can be done while it is there; a panel stays unless it collapses on
/// clicks outside; and the icon carries a message, a picture and a standard tip, but no identity.
pub proof fn law_tray_answers(
    event: u32,
    uses_v4: bool,
    opens: bool,
    state: TrayMenuState,
    refresh: bool,
    screenshot: bool,
    collapses: bool,
    stays: bool,
    flags: u32,
)
    requires
        call_ensures(is_tray_context_event, (event, uses_v4), opens),
        call_ensures(refresh_command_is_enabled, (state,), refresh),
        call_ensures(screenshot_command_is_enabled, (state,), screenshot),
        call_ensures(panel_is_persistent, (collapses,), stays),
        call_ensures(tray_icon_flags, (), flags),
    ensures
        opens <==> (uses_v4 && event == 123) || (!uses_v4 && event == 517),
        refresh <==> state.overlay_active,
        screenshot <==> state.overlay_active,
        stays != collapses,
        flags == 1 + 2 + 4 + 128,
{
}

} // verus!
