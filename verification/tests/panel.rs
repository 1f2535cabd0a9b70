use codex_quota::config::ColorStyle;
use codex_quota::fixed::DIP;
use codex_quota::panel::{
    brush_color, brush_for, brush_for_plan_type, draw_panel_content, draw_quota_row, panel_times, Area, Brush,
    Color, Font, PanelCalendar, TextRun,
};
use codex_quota::presentation::{panel_height_dip, CalendarTime};
use codex_quota::quota::{
    AppState, ConnectionStatus, QuotaColor, QuotaSnapshot, QuotaWindow, DOLLAR, PERCENT,
};
use codex_quota::time::{Duration, SystemTime};

const WIDTH: i64 = 288 * DIP;

fn time(secs: i128) -> SystemTime {
    SystemTime { nanos: secs * 1_000_000_000 }
}

fn calendar(hour: u16) -> Option<CalendarTime> {
    Some(CalendarTime { year: 2026, month: 8, day: 6, hour, minute: 1, second: 2 })
}

fn no_calendar() -> PanelCalendar {
    PanelCalendar { short_reset: None, long_reset: None, received: None }
}

/// Five hours with 90 % left, a week with 15 % left, read at time 0.
fn online() -> AppState {
    AppState {
        snapshot: Some(QuotaSnapshot {
            limit_id: "codex".to_owned(),
            primary: QuotaWindow {
                used_percent: 10 * PERCENT,
                window_duration: Duration::from_secs(5 * 3600),
                resets_at: time(3600),
            },
            secondary: Some(QuotaWindow {
                used_percent: 85 * PERCENT,
                window_duration: Duration::from_secs(7 * 24 * 3600),
                resets_at: time(2 * 24 * 3600),
            }),
            received_at: time(0),
        }),
        status: ConnectionStatus::Online,
        plan_type: Some("plus".to_owned()),
        today_tokens: Some(42_803_000),
        today_cost: Some(45 * DOLLAR),
        ..AppState::default()
    }
}

fn row(top: i64, left: i64, right: i64) -> Area {
    Area { left: left * DIP, top: top * DIP, right: right * DIP, bottom: (top + 23) * DIP }
}

fn find<'a>(runs: &'a [TextRun], text: &str) -> &'a TextRun {
    runs.iter().find(|run| run.text == text).unwrap()
}

#[test]
fn a_panel_without_data_shows_placeholders_in_every_row() {
    let runs = draw_panel_content(&AppState::default(), WIDTH, time(0), &no_calendar());

    assert_eq!(runs[0].text, "正在连接 Codex");
    assert_eq!(runs[0].font, Font::Title);
    assert_eq!(
        runs[0].area,
        Area { left: 18 * DIP, top: 14 * DIP, right: 270 * DIP, bottom: 36 * DIP }
    );
    // Two quota rows, three rows of usage and estimate with two values each, the update row.
    assert_eq!(runs.iter().filter(|run| run.text == "--").count(), 2 + 3 * 2 + 1);
    assert_eq!(find(&runs, "更新时间").area, row(42 + 5 * 27, 18, 94));
}

#[test]
fn a_panel_with_data_shows_it_in_its_columns() {
    let times = PanelCalendar {
        short_reset: calendar(1),
        long_reset: calendar(2),
        received: calendar(3),
    };
    let runs = draw_panel_content(&online(), WIDTH, time(60), &times);

    assert_eq!((runs[0].text.as_str(), runs[0].area.right), ("Codex", 64 * DIP));
    assert_eq!((runs[1].text.as_str(), runs[1].brush), ("Plus", Brush::PlanPlus));
    assert_eq!(
        runs[1].area,
        Area { left: 64 * DIP, top: 14 * DIP, right: 270 * DIP, bottom: 36 * DIP }
    );

    let short = find(&runs, "90%");
    assert_eq!((short.brush, short.area), (Brush::Healthy, row(42, 96, 140)));
    let long = find(&runs, "15%");
    assert_eq!((long.brush, long.area), (Brush::Critical, row(69, 96, 140)));
    let reset = runs.iter().find(|run| run.area == row(42, 148, 278)).unwrap();
    assert!(reset.text.starts_with("08/06 01:01"), "{}", reset.text);

    let cost = find(&runs, "$45.00");
    assert_eq!((cost.brush, cost.area), (Brush::Healthy, row(96, 96, 140)));
    let tokens = find(&runs, "4280.3万");
    assert_eq!((tokens.brush, tokens.area), (Brush::SecondaryText, row(96, 148, 270)));

    let updated = runs.last().unwrap();
    assert_eq!((updated.text.as_str(), updated.brush), ("08/06 03:01", Brush::SecondaryText));
}

#[test]
fn a_stale_panel_says_so() {
    let state = AppState { quota_refresh_interval: Duration::from_secs(60), ..online() };
    let times = PanelCalendar { received: calendar(3), ..no_calendar() };
    let fresh = draw_panel_content(&state, WIDTH, time(120), &times);
    assert_eq!(fresh.last().unwrap().text, "08/06 03:01");
    let stale = draw_panel_content(&state, WIDTH, time(121), &times);
    let updated = stale.last().unwrap();
    assert_eq!((updated.text.as_str(), updated.brush), ("08/06 03:01 · 已过期", Brush::Warning));
}

#[test]
fn overflow_rows_push_the_rows_below_them_down() {
    let state = AppState { today_overflow_tokens: Some(1), ..online() };
    let runs = draw_panel_content(&state, WIDTH, time(60), &no_calendar());
    assert_eq!(find(&runs, "今日超额").area, row(42 + 3 * 27, 18, 94));
    assert_eq!(find(&runs, "本周使用").area, row(42 + 4 * 27, 18, 94));
    assert_eq!(find(&runs, "更新时间").area, row(42 + 6 * 27, 18, 94));
}

#[test]
fn every_text_lies_on_the_panel() {
    let both = AppState {
        today_overflow_tokens: Some(1),
        current_period_overflow_tokens: Some(1),
        ..online()
    };
    for state in [AppState::default(), online(), both] {
        let height = panel_height_dip(&state);
        for run in draw_panel_content(&state, WIDTH, time(60), &no_calendar()) {
            assert!(0 <= run.area.left && run.area.left <= run.area.right, "{run:?}");
            assert!(run.area.right <= WIDTH && run.area.bottom <= height, "{run:?}");
        }
    }
}

#[test]
fn a_row_can_stand_anywhere() {
    let mut runs = Vec::new();
    draw_quota_row(&mut runs, "5h额度", None, 5_000 * DIP, WIDTH, false, time(0), None);
    assert_eq!(runs[0].area, row(5_000, 18, 94));
    draw_quota_row(&mut runs, "5h额度", None, -50 * DIP, -WIDTH, false, time(0), None);
    assert_eq!(runs[3].area, row(-50, 148, -298));
}

#[test]
fn the_calendar_is_asked_for_the_times_on_the_panel() {
    let times = panel_times(&online(), time(60));
    assert_eq!(times.short_reset, Some(time(3600)));
    assert_eq!(times.long_reset, Some(time(2 * 24 * 3600)));
    assert_eq!(times.received, Some(time(0)));
    let none = panel_times(&AppState::default(), time(60));
    assert_eq!((none.short_reset, none.long_reset, none.received), (None, None, None));
}

#[test]
fn styles_differ_in_the_quota_colours_alone() {
    assert_eq!(
        brush_color(Brush::Healthy, ColorStyle::Soft),
        Color { red: 0x45, green: 0xd4, blue: 0x83, alpha_percent: 100 }
    );
    assert_eq!(
        brush_color(Brush::Critical, ColorStyle::Vivid),
        Color { red: 0xff, green: 0x64, blue: 0x7c, alpha_percent: 100 }
    );
    assert_eq!(
        brush_color(Brush::Background, ColorStyle::Soft),
        Color { red: 0x12, green: 0x17, blue: 0x20, alpha_percent: 94 }
    );
    for brush in [Brush::Background, Brush::Track, Brush::Unknown, Brush::PlanPro] {
        assert_eq!(
            brush_color(brush, ColorStyle::Soft),
            brush_color(brush, ColorStyle::Vivid)
        );
    }
    for brush in [Brush::Healthy, Brush::Warning, Brush::Critical] {
        assert_ne!(
            brush_color(brush, ColorStyle::Soft),
            brush_color(brush, ColorStyle::Vivid)
        );
    }
}

#[test]
fn severity_and_plan_choose_their_brushes() {
    assert_eq!(brush_for(QuotaColor::Healthy), Brush::Healthy);
    assert_eq!(brush_for(QuotaColor::Warning), Brush::Warning);
    assert_eq!(brush_for(QuotaColor::Critical), Brush::Critical);
    assert_eq!(brush_for(QuotaColor::Unknown), Brush::Unknown);
    assert_eq!(brush_for_plan_type("pro"), Brush::PlanPro);
    assert_eq!(brush_for_plan_type("no such plan"), Brush::Unknown);
}
