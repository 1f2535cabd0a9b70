use codex_quota::commands::{
    CMD_COLOR_STYLE_SOFT, CMD_COLOR_STYLE_VIVID, CMD_EXIT, CMD_REFRESH, CMD_REFRESH_10_MIN,
    CMD_REFRESH_1_MIN, CMD_REFRESH_2_MIN, CMD_REFRESH_30_MIN, CMD_REFRESH_5_MIN,
    CMD_RESET_COUNTDOWN, CMD_SHOW, CMD_TOKEN_UNIT_EN, CMD_TOKEN_UNIT_ZH, NIF_GUID, NIF_SHOWTIP,
    NIN_BALLOONTIMEOUT, NIN_BALLOONUSERCLICK, WM_CONTEXTMENU, WM_LBUTTONUP, WM_RBUTTONUP,
};
use codex_quota::config::{AppConfigV1, ColorStyle, UnitStyle};
use codex_quota::presentation::format_token_usage;
use codex_quota::time::{Duration, Instant};
use codex_quota::tray::{
    append_color_style_entries, append_notify_entries, append_refresh_interval_entries,
    append_settings_entries, append_token_unit_entries, build_tray_menu, color_style_for_command,
    copy_wide_fixed, is_tray_context_event, menu_flags, panel_is_persistent,
    refresh_command_is_enabled, refresh_interval_for_command, screenshot_command_is_enabled,
    should_suppress_tray_reopen, token_unit_for_command, tray_event_action, tray_icon_flags,
    MenuCommand, MenuEntry, TrayEventAction, TrayMenuState, TrayState, TrayStep,
    UNIT_SAMPLE_TOKENS,
};

fn mins(count: u64) -> Duration {
    Duration::from_secs(count * 60)
}

#[test]
fn top_level_stays_short() {
    let expected = 9 + 2;
    assert_eq!(build_tray_menu(TrayMenuState::default(), false).len(), expected);
    assert_eq!(build_tray_menu(TrayMenuState::default(), true).len(), expected + 3);
}

#[test]
fn switches_live_inside_the_settings_submenu() {
    assert_eq!(append_settings_entries(TrayMenuState::default()).len(), 5);
}

#[test]
fn radio_group_submenus_keep_their_choice_counts() {
    let state = TrayMenuState::default();
    assert_eq!(append_refresh_interval_entries(state).len(), 5);
    assert_eq!(append_notify_entries(state).len(), 2);
    assert_eq!(append_token_unit_entries(state).len(), 2);
    assert_eq!(append_color_style_entries(state).len(), 2);
}

#[test]
fn token_unit_samples_stay_short() {
    for unit in [UnitStyle::Zh, UnitStyle::En] {
        let sample = format_token_usage(Some(UNIT_SAMPLE_TOKENS), unit);
        assert!(sample.chars().count() <= 5, "{unit:?} {sample}");
    }
}

#[test]
fn tray_token_unit_commands_map_to_expected_styles() {
    assert_eq!(
        token_unit_for_command(CMD_TOKEN_UNIT_ZH),
        Some(UnitStyle::Zh)
    );
    assert_eq!(
        token_unit_for_command(CMD_TOKEN_UNIT_EN),
        Some(UnitStyle::En)
    );
    assert_eq!(token_unit_for_command(CMD_REFRESH), None);
    assert_eq!(token_unit_for_command(CMD_RESET_COUNTDOWN), None);
}

#[test]
fn tray_color_style_commands_map_to_expected_styles() {
    assert_eq!(
        color_style_for_command(CMD_COLOR_STYLE_SOFT),
        Some(ColorStyle::Soft)
    );
    assert_eq!(
        color_style_for_command(CMD_COLOR_STYLE_VIVID),
        Some(ColorStyle::Vivid)
    );
    assert_eq!(color_style_for_command(CMD_REFRESH), None);
    assert_eq!(color_style_for_command(CMD_TOKEN_UNIT_ZH), None);
    assert_eq!(token_unit_for_command(CMD_COLOR_STYLE_VIVID), None);
}

#[test]
fn tray_tray_refresh_commands_map_to_expected_intervals() {
    assert_eq!(
        refresh_interval_for_command(CMD_REFRESH_1_MIN),
        Some(mins(1))
    );
    assert_eq!(
        refresh_interval_for_command(CMD_REFRESH_5_MIN),
        Some(mins(5))
    );
    assert_eq!(
        refresh_interval_for_command(CMD_REFRESH_10_MIN),
        Some(mins(10))
    );
    assert_eq!(
        refresh_interval_for_command(CMD_REFRESH_30_MIN),
        Some(mins(30))
    );
    assert_eq!(refresh_interval_for_command(CMD_EXIT), None);
}

#[test]
fn two_minute_tray_command_maps_to_two_minute_interval() {
    assert_eq!(
        refresh_interval_for_command(CMD_REFRESH_2_MIN),
        Some(mins(2))
    );
}

#[test]
fn version_four_tray_icon_requests_standard_tooltip() {
    assert_eq!(tray_icon_flags() & NIF_SHOWTIP, NIF_SHOWTIP);
}

#[test]
fn balloon_click_expands_the_panel() {
    assert_eq!(
        tray_event_action(NIN_BALLOONUSERCLICK, true),
        TrayEventAction::ShowPanel
    );
    assert_eq!(
        tray_event_action(NIN_BALLOONTIMEOUT, true),
        TrayEventAction::Ignore
    );
    assert_eq!(
        tray_event_action(WM_CONTEXTMENU, true),
        TrayEventAction::OpenContextMenu
    );
}

#[test]
fn portable_tray_icon_does_not_use_path_bound_guid() {
    assert_eq!(tray_icon_flags() & NIF_GUID, 0);
}

#[test]
fn immediate_refresh_is_disabled_without_active_overlay_resources() {
    assert!(!refresh_command_is_enabled(TrayMenuState::default()));
}

#[test]
fn screenshot_is_disabled_while_following_codex_without_codex() {
    assert!(!screenshot_command_is_enabled(TrayMenuState::default()));
    assert!(!screenshot_command_is_enabled(TrayMenuState {
        follow_codex: true,
        overlay_active: false,
        ..Default::default()
    }));
}

#[test]
fn screenshot_stays_enabled_while_the_ball_is_hidden_or_collapsed() {
    assert!(screenshot_command_is_enabled(TrayMenuState {
        overlay_active: true,
        visible: false,
        ..Default::default()
    }));
    assert!(screenshot_command_is_enabled(TrayMenuState {
        overlay_active: true,
        visible: true,
        ..Default::default()
    }));
}

#[test]
fn tray_automatic_collapse_leaves_panel_persistent_unchecked() {
    assert!(!panel_is_persistent(true));
}

#[test]
fn tray_v4_tray_context_ignores_legacy_right_button_event() {
    assert!(!is_tray_context_event(WM_RBUTTONUP, true));
}

#[test]
fn tray_tray_left_click_is_ignored() {
    assert_eq!(
        (
            tray_event_action(WM_LBUTTONUP, true),
            tray_event_action(WM_LBUTTONUP, false)
        ),
        (TrayEventAction::Ignore, TrayEventAction::Ignore)
    );
}

#[test]
fn tray_immediate_tray_callback_after_menu_close_is_suppressed() {
    let closed = Instant { nanos: 3_000_000_000 };
    assert!(should_suppress_tray_reopen(
        closed,
        closed.checked_add(Duration::from_millis(10)).unwrap()
    ));
}

#[test]
fn the_reopen_guard_lasts_half_a_second_and_looks_only_forward() {
    let closed = Instant { nanos: 3_000_000_000 };
    let after = |millis| closed.checked_add(Duration::from_millis(millis)).unwrap();
    assert!(should_suppress_tray_reopen(closed, after(500)));
    assert!(!should_suppress_tray_reopen(closed, after(501)));
    assert!(!should_suppress_tray_reopen(after(1), closed));
}

#[test]
fn a_click_closes_the_open_menu_and_its_echo_is_swallowed_once() {
    let at = |millis: u64| Instant { nanos: Duration::from_millis(millis).nanos };
    let mut tray = TrayState::new();
    tray.uses_v4 = true;
    assert_eq!(tray.handle_tray_message(WM_CONTEXTMENU, at(0)), TrayStep::OpenMenu);
    assert_eq!(tray.handle_tray_message(WM_CONTEXTMENU, at(10)), TrayStep::CloseMenu);
    assert_eq!(tray.handle_tray_message(NIN_BALLOONUSERCLICK, at(10)), TrayStep::ExpandPanel);
    assert_eq!(tray.handle_tray_message(WM_LBUTTONUP, at(10)), TrayStep::Nothing);
    tray.menu_closed(at(20));
    assert_eq!(tray.handle_tray_message(WM_CONTEXTMENU, at(30)), TrayStep::Nothing);
    assert_eq!(tray.handle_tray_message(WM_CONTEXTMENU, at(40)), TrayStep::OpenMenu);
}

fn command(entry: &MenuEntry) -> &MenuCommand {
    match entry {
        MenuEntry::Command(command) => command,
        _ => panic!("no command: {entry:?}"),
    }
}

fn submenu(entry: &MenuEntry) -> (&str, &[MenuCommand]) {
    match entry {
        MenuEntry::Submenu { label, commands } => (label, commands),
        _ => panic!("no submenu: {entry:?}"),
    }
}

#[test]
fn the_menu_reads_top_down() {
    let state = TrayMenuState {
        visible: true,
        overlay_active: true,
        token_unit: UnitStyle::En,
        quota_refresh_interval_secs: 120,
        ..Default::default()
    };
    let menu = build_tray_menu(state, false);
    assert_eq!(command(&menu[0]).command, CMD_SHOW);
    assert_eq!(command(&menu[0]).label, "隐藏悬浮球");
    assert!(command(&menu[0]).enabled);
    assert_eq!(command(&menu[1]).label, "立即刷新");
    assert_eq!(command(&menu[2]).label, "面板截图");
    assert!(command(&menu[2]).enabled);
    let (label, intervals) = submenu(&menu[3]);
    assert_eq!(label, "刷新间隔");
    let marked: Vec<bool> = intervals.iter().map(|item| item.checked).collect();
    assert_eq!(marked, vec![false, true, false, false, false]);
    assert_eq!(submenu(&menu[4]).0, "通知");
    let (label, units) = submenu(&menu[5]);
    assert_eq!(label, "用量单位");
    assert_eq!(units[0].label, "中文 1.2万");
    assert_eq!(units[1].label, "西文 12K");
    assert!(!units[0].checked && units[1].checked);
    assert_eq!(submenu(&menu[6]).0, "颜色风格");
    assert_eq!(menu[7], MenuEntry::Separator);
    let (label, settings) = submenu(&menu[8]);
    assert_eq!(label, "设置");
    assert!(settings[3].checked);
    assert_eq!(menu[9], MenuEntry::Separator);
    assert_eq!(command(&menu[10]).label, "退出");

    let following = build_tray_menu(
        TrayMenuState { follow_codex: true, visible: false, ..state },
        true,
    );
    assert_eq!(command(&following[0]).label, "显示悬浮球");
    assert!(!command(&following[0]).enabled);
    assert_eq!(command(&following[13]).label, "测试通知：余额使用");
}

#[test]
fn the_menu_state_follows_the_settings() {
    let mut config = AppConfigV1::default();
    config.quota_refresh_interval_secs = 5;
    config.color_style = ColorStyle::Vivid;
    let state = TrayMenuState::of(&config, true, false);
    assert_eq!(state.quota_refresh_interval_secs, 60);
    assert_eq!(state.color_style, ColorStyle::Vivid);
    assert!(state.visible && !state.overlay_active && state.always_on_top);
}

#[test]
fn menu_flags_mark_and_grey() {
    assert_eq!(menu_flags(false, true), 0);
    assert_eq!(menu_flags(true, true), 8);
    assert_eq!(menu_flags(false, false), 1);
    assert_eq!(menu_flags(true, false), 9);
}

#[test]
fn a_fixed_field_is_cut_before_its_final_zero() {
    let mut field = [7_u16; 4];
    copy_wide_fixed("ab", &mut field);
    assert_eq!(field, [0x61, 0x62, 0, 0]);
    copy_wide_fixed("abcdef", &mut field);
    assert_eq!(field, [0x61, 0x62, 0x63, 0]);
    let mut single = [7_u16; 1];
    copy_wide_fixed("abc", &mut single);
    assert_eq!(single, [0]);
    copy_wide_fixed("abc", &mut [0_u16; 0]);
}
