//! What the expanded panel shows: every text with its font, colour and place.
//!
//! Places are given in device-independent pixels (millionths) from the panel's corner.
use vstd::prelude::*;

use crate::config::{ColorStyle, UnitStyle};
use crate::presentation;
use crate::presentation::{
    display_period_total_token_estimate, display_period_total_value, display_windows,
    format_local_timestamp, format_reset_column, format_token_usage, format_usd, panel_title,
    period_labels, period_overflow_visible, plan_type_color, plan_type_label, quota_window_label,
    today_overflow_visible, CalendarTime, PlanColor, FIRST_ROW_TOP_DIP, ROW_STEP_DIP,
};
use crate::quota::{AppState, QuotaColor, QuotaWindow, PERCENT};
use crate::text;
use crate::text::{decimal_string, round_half_even};
use crate::time::SystemTime;

verus! {

#[derive(Clone, Copy, Debug, PartialEq, Eq, Structural)]
pub enum Font {
    Percent,
    Title,
    Body,
}

/// Everything that has a colour.
#[derive(Clone, Copy, Debug, PartialEq, Eq, Structural)]
pub enum Brush {
    Background,
    BackgroundHover,
    Track,
    TrackHover,
    Spinner,
    PrimaryText,
    SecondaryText,
    Healthy,
    Warning,
    Critical,
    Unknown,
    PlanNeutral,
    PlanPlus,
    PlanPro,
    PlanBusiness,
    PlanEnterprise,
    PlanEdu,
}

#[derive(Clone, Copy, Debug, PartialEq, Eq, Structural)]
pub struct Color {
    pub red: u8,
    pub green: u8,
    pub blue: u8,
    pub alpha_percent: u8,
}

pub open spec fn opaque(red: u8, green: u8, blue: u8) -> Color {
    Color { red, green, blue, alpha_percent: 100 }
}

/// The colour of a brush. Only the three quota colours depend on the style.
pub open spec fn color_of(brush: Brush, style: ColorStyle) -> Color {
    match brush {
        Brush::Background => Color { red: 0x12, green: 0x17, blue: 0x20, alpha_percent: 94 },
        Brush::BackgroundHover => Color { red: 0x1e, green: 0x25, blue: 0x33, alpha_percent: 97 },
        Brush::Track => Color { red: 0x42, green: 0x4a, blue: 0x57, alpha_percent: 88 },
        Brush::TrackHover => Color { red: 0x54, green: 0x5e, blue: 0x6e, alpha_percent: 95 },
        Brush::Spinner => opaque(0xc3, 0xcb, 0xd6),
        Brush::PrimaryText => opaque(0xf2, 0xf5, 0xf8),
        Brush::SecondaryText => opaque(0xa8, 0xb1, 0xbe),
        Brush::Healthy => match style {
            ColorStyle::Soft => opaque(0x45, 0xd4, 0x83),
            ColorStyle::Vivid => opaque(0x3d, 0xf2, 0xc1),
        },
        Brush::Warning => match style {
            ColorStyle::Soft => opaque(0xf2, 0xc9, 0x4c),
            ColorStyle::Vivid => opaque(0xff, 0xc8, 0x57),
        },
        Brush::Critical => match style {
            ColorStyle::Soft => opaque(0xf0, 0x66, 0x66),
            ColorStyle::Vivid => opaque(0xff, 0x64, 0x7c),
        },
        Brush::Unknown => opaque(0x7d, 0x87, 0x95),
        Brush::PlanNeutral => opaque(0x8f, 0x9b, 0xaa),
        Brush::PlanPlus => opaque(0x5a, 0xa7, 0xff),
        Brush::PlanPro => opaque(0xa7, 0x8b, 0xfa),
        Brush::PlanBusiness => opaque(0x4f, 0xd1, 0xc5),
        Brush::PlanEnterprise => opaque(0xd8, 0xb4, 0x5c),
        Brush::PlanEdu => opaque(0x56, 0xc7, 0xd9),
    }
}

fn rgb(red: u8, green: u8, blue: u8) -> (color: Color)
    ensures
        color == opaque(red, green, blue),
{
    Color { red, green, blue, alpha_percent: 100 }
}

pub fn brush_color(brush: Brush, style: ColorStyle) -> (color: Color)
    ensures
        color == color_of(brush, style),
{
    match brush {
        Brush::Background => Color { red: 0x12, green: 0x17, blue: 0x20, alpha_percent: 94 },
        Brush::BackgroundHover => Color { red: 0x1e, green: 0x25, blue: 0x33, alpha_percent: 97 },
        Brush::Track => Color { red: 0x42, green: 0x4a, blue: 0x57, alpha_percent: 88 },
        Brush::TrackHover => Color { red: 0x54, green: 0x5e, blue: 0x6e, alpha_percent: 95 },
        Brush::Spinner => rgb(0xc3, 0xcb, 0xd6),
        Brush::PrimaryText => rgb(0xf2, 0xf5, 0xf8),
        Brush::SecondaryText => rgb(0xa8, 0xb1, 0xbe),
        Brush::Healthy => match style {
            ColorStyle::Soft => rgb(0x45, 0xd4, 0x83),
            ColorStyle::Vivid => rgb(0x3d, 0xf2, 0xc1),
        },
        Brush::Warning => match style {
            ColorStyle::Soft => rgb(0xf2, 0xc9, 0x4c),
            ColorStyle::Vivid => rgb(0xff, 0xc8, 0x57),
        },
        Brush::Critical => match style {
            ColorStyle::Soft => rgb(0xf0, 0x66, 0x66),
            ColorStyle::Vivid => rgb(0xff, 0x64, 0x7c),
        },
        Brush::Unknown => rgb(0x7d, 0x87, 0x95),
        Brush::PlanNeutral => rgb(0x8f, 0x9b, 0xaa),
        Brush::PlanPlus => rgb(0x5a, 0xa7, 0xff),
        Brush::PlanPro => rgb(0xa7, 0x8b, 0xfa),
        Brush::PlanBusiness => rgb(0x4f, 0xd1, 0xc5),
        Brush::PlanEnterprise => rgb(0xd8, 0xb4, 0x5c),
        Brush::PlanEdu => rgb(0x56, 0xc7, 0xd9),
    }
}

pub open spec fn is_quota_brush(brush: Brush) -> bool {
    brush == Brush::Healthy || brush == Brush::Warning || brush == Brush::Critical
}

/// Changing the style repaints the quota colours, all of them, and nothing else.
pub proof fn law_style_changes_only_quota_colors(brush: Brush)
    ensures
        color_of(brush, ColorStyle::Soft) == color_of(brush, ColorStyle::Vivid)
            <==> !is_quota_brush(brush),
{
}

/// The brush of a quota colour.
pub open spec fn quota_brush(color: QuotaColor) -> Brush {
    match color {
        QuotaColor::Healthy => Brush::Healthy,
        QuotaColor::Warning => Brush::Warning,
        QuotaColor::Critical => Brush::Critical,
        QuotaColor::Unknown => Brush::Unknown,
    }
}

pub fn brush_for(color: QuotaColor) -> (brush: Brush)
    ensures
        brush == quota_brush(color),
{
    match color {
        QuotaColor::Healthy => Brush::Healthy,
        QuotaColor::Warning => Brush::Warning,
        QuotaColor::Critical => Brush::Critical,
        QuotaColor::Unknown => Brush::Unknown,
    }
}

/// The brush of a plan's accent.
pub open spec fn plan_brush(color: PlanColor) -> Brush {
    match color {
        PlanColor::Neutral => Brush::PlanNeutral,
        PlanColor::Plus => Brush::PlanPlus,
        PlanColor::Pro => Brush::PlanPro,
        PlanColor::Business => Brush::PlanBusiness,
        PlanColor::Enterprise => Brush::PlanEnterprise,
        PlanColor::Edu => Brush::PlanEdu,
        PlanColor::Unknown => Brush::Unknown,
    }
}

pub fn brush_for_plan_type(plan_type: &str) -> (brush: Brush)
    ensures
        brush == plan_brush(presentation::plan_accent(plan_type@)),
{
    match plan_type_color(plan_type) {
        PlanColor::Neutral => Brush::PlanNeutral,
        PlanColor::Plus => Brush::PlanPlus,
        PlanColor::Pro => Brush::PlanPro,
        PlanColor::Business => Brush::PlanBusiness,
        PlanColor::Enterprise => Brush::PlanEnterprise,
        PlanColor::Edu => Brush::PlanEdu,
        PlanColor::Unknown => Brush::Unknown,
    }
}

/// A rectangle on the panel.
#[derive(Clone, Copy, Debug, PartialEq, Eq, Structural)]
pub struct Area {
    pub left: i64,
    pub top: i64,
    pub right: i64,
    pub bottom: i64,
}

/// A text on the panel.
#[derive(Clone, Debug, PartialEq, Eq)]
pub struct TextRun {
    pub text: String,
    pub font: Font,
    pub brush: Brush,
    pub area: Area,
}

/// What a text run shows.
#[verifier::ext_equal]
pub struct Run {
    pub text: Seq<char>,
    pub font: Font,
    pub brush: Brush,
    pub area: Area,
}

impl View for TextRun {
    type V = Run;

    open spec fn view(&self) -> Run {
        Run { text: self.text@, font: self.font, brush: self.brush, area: self.area }
    }
}

pub open spec fn runs_of(runs: Seq<TextRun>) -> Seq<Run> {
    runs.map_values(|run: TextRun| run@)
}

/// Left edge of labels, and distance of most columns from the right edge.
pub const MARGIN_DIP: i64 = 18_000_000;

/// Right edge of labels.
pub const LABEL_RIGHT_DIP: i64 = 94_000_000;

/// The column of percentages and amounts of money.
pub const VALUE_LEFT_DIP: i64 = 96_000_000;

pub const VALUE_RIGHT_DIP: i64 = 140_000_000;

/// Left edge of the column of times and token counts.
pub const TIME_COLUMN_LEFT_DIP: i64 = 148_000_000;

/// The column of reset times reaches closer to the edge, to hold its longest texts.
pub const RESET_COLUMN_PADDING_DIP: i64 = 10_000_000;

/// Height of a row.
pub const ROW_HEIGHT_DIP: i64 = 23_000_000;

pub const TITLE_TOP_DIP: i64 = 14_000_000;

pub const TITLE_BOTTOM_DIP: i64 = 36_000_000;

/// Where the plan's badge starts.
pub const PLAN_LEFT_DIP: i64 = 64_000_000;

/// The column of times starts clear of the column of values.
pub proof fn law_columns_do_not_overlap()
    ensures
        LABEL_RIGHT_DIP <= VALUE_LEFT_DIP,
        VALUE_RIGHT_DIP <= TIME_COLUMN_LEFT_DIP,
{
}

pub open spec fn label_area(top: int) -> Area {
    Area {
        left: MARGIN_DIP,
        top: top as i64,
        right: LABEL_RIGHT_DIP,
        bottom: (top + ROW_HEIGHT_DIP) as i64,
    }
}

pub open spec fn value_area(top: int) -> Area {
    Area {
        left: VALUE_LEFT_DIP,
        top: top as i64,
        right: VALUE_RIGHT_DIP,
        bottom: (top + ROW_HEIGHT_DIP) as i64,
    }
}

pub open spec fn time_area(top: int, width: int, padding: int) -> Area {
    Area {
        left: TIME_COLUMN_LEFT_DIP,
        top: top as i64,
        right: (width - padding) as i64,
        bottom: (top + ROW_HEIGHT_DIP) as i64,
    }
}

pub open spec fn body(text: Seq<char>, brush: Brush, area: Area) -> Run {
    Run { text, font: Font::Body, brush, area }
}

/// The right edges of the columns can be counted.
pub open spec fn is_panel_width(width: int) -> bool {
    i64::MIN + MARGIN_DIP <= width <= i64::MAX
}

/// The lower edge of the row can be counted.
pub open spec fn is_row_top(top: int) -> bool {
    i64::MIN <= top <= i64::MAX - ROW_HEIGHT_DIP
}

fn push_run(out: &mut Vec<TextRun>, text: String, font: Font, brush: Brush, area: Area)
    ensures
        runs_of(final(out)@) == runs_of(old(out)@).push(Run { text: text@, font, brush, area }),
{
    let ghost shown = Run { text: text@, font, brush, area };
    out.push(TextRun { text, font, brush, area });
    assert(runs_of(out@) =~= runs_of(old(out)@).push(shown));
}

fn push_label(out: &mut Vec<TextRun>, label: &str, top: i64)
    requires
        is_row_top(top as int),
    ensures
        runs_of(final(out)@) == runs_of(old(out)@).push(
            body(label@, Brush::SecondaryText, label_area(top as int)),
        ),
{
    push_run(
        out,
        label.to_owned(),
        Font::Body,
        Brush::SecondaryText,
        Area {
            left: MARGIN_DIP,
            top,
            right: LABEL_RIGHT_DIP,
            bottom: top + ROW_HEIGHT_DIP,
        },
    );
}

fn push_value(out: &mut Vec<TextRun>, value: String, brush: Brush, top: i64)
    requires
        is_row_top(top as int),
    ensures
        runs_of(final(out)@) == runs_of(old(out)@).push(
            body(value@, brush, value_area(top as int)),
        ),
{
    push_run(
        out,
        value,
        Font::Body,
        brush,
        Area { left: VALUE_LEFT_DIP, top, right: VALUE_RIGHT_DIP, bottom: top + ROW_HEIGHT_DIP },
    );
}

fn push_time(
    out: &mut Vec<TextRun>,
    value: String,
    brush: Brush,
    top: i64,
    width: i64,
    padding: i64,
)
    requires
        is_row_top(top as int),
        is_panel_width(width as int),
        0 <= padding <= MARGIN_DIP,
    ensures
        runs_of(final(out)@) == runs_of(old(out)@).push(
            body(value@, brush, time_area(top as int, width as int, padding as int)),
        ),
{
    push_run(
        out,
        value,
        Font::Body,
        brush,
        Area {
            left: TIME_COLUMN_LEFT_DIP,
            top,
            right: width - padding,
            bottom: top + ROW_HEIGHT_DIP,
        },
    );
}

/// The title, and beside it the plan's badge where there is one.
pub open spec fn title_runs(state: &AppState, width: int) -> Seq<Run> {
    let has_plan = state.status is Online && state.plan_type is Some;
    let title = Run {
        text: presentation::headline(state.status),
        font: Font::Title,
        brush: Brush::PrimaryText,
        area: Area {
            left: MARGIN_DIP,
            top: TITLE_TOP_DIP,
            right: if has_plan {
                PLAN_LEFT_DIP
            } else {
                (width - MARGIN_DIP) as i64
            },
            bottom: TITLE_BOTTOM_DIP,
        },
    };
    if has_plan {
        seq![
            title,
            Run {
                text: presentation::plan_name(state.plan_type->0@),
                font: Font::Title,
                brush: plan_brush(presentation::plan_accent(state.plan_type->0@)),
                area: Area {
                    left: PLAN_LEFT_DIP,
                    top: TITLE_TOP_DIP,
                    right: (width - MARGIN_DIP) as i64,
                    bottom: TITLE_BOTTOM_DIP,
                },
            },
        ]
    } else {
        seq![title]
    }
}

pub fn draw_title(out: &mut Vec<TextRun>, state: &AppState, width: i64)
    requires
        is_panel_width(width as int),
    ensures
        runs_of(final(out)@) == runs_of(old(out)@) + title_runs(state, width as int),
{
    let (status, plan_type) = panel_title(state);
    let right: i64 = match plan_type {
        Some(_) => PLAN_LEFT_DIP,
        None => width - MARGIN_DIP,
    };
    push_run(
        out,
        status.to_owned(),
        Font::Title,
        Brush::PrimaryText,
        Area { left: MARGIN_DIP, top: TITLE_TOP_DIP, right, bottom: TITLE_BOTTOM_DIP },
    );
    if let Some(plan) = plan_type {
        push_run(
            out,
            plan_type_label(plan).to_owned(),
            Font::Title,
            brush_for_plan_type(plan),
            Area {
                left: PLAN_LEFT_DIP,
                top: TITLE_TOP_DIP,
                right: width - MARGIN_DIP,
                bottom: TITLE_BOTTOM_DIP,
            },
        );
    }
    assert(runs_of(out@) =~= runs_of(old(out)@) + title_runs(state, width as int));
}

/// A percentage without decimals.
pub open spec fn percent_text(remaining: int) -> Seq<char> {
    text::decimal(text::nearest_even(remaining as nat, PERCENT as nat)) + "%"@
}

/// A quota row: its name, and either what is left and when it starts over, or `--`.
pub open spec fn quota_row(
    label: Seq<char>,
    window: Option<&QuotaWindow>,
    top: int,
    width: int,
    show_countdown: bool,
    now: SystemTime,
    local: Option<CalendarTime>,
) -> Seq<Run> {
    let name = body(label, Brush::SecondaryText, label_area(top));
    let column = time_area(top, width, RESET_COLUMN_PADDING_DIP as int);
    match window {
        Some(w) => seq![
            name,
            body(percent_text(w.remaining()), quota_brush(w.color_of()), value_area(top)),
            body(
                presentation::reset_text(w.resets_at, now, show_countdown, local),
                Brush::SecondaryText,
                column,
            ),
        ],
        None => seq![name, body("--"@, Brush::Unknown, column)],
    }
}

pub fn draw_quota_row(
    out: &mut Vec<TextRun>,
    label: &str,
    window: Option<&QuotaWindow>,
    top: i64,
    width: i64,
    show_countdown: bool,
    now: SystemTime,
    local: Option<CalendarTime>,
)
    requires
        is_row_top(top as int),
        is_panel_width(width as int),
    ensures
        runs_of(final(out)@) == runs_of(old(out)@) + quota_row(
            label@,
            window,
            top as int,
            width as int,
            show_countdown,
            now,
            local,
        ),
{
    push_label(out, label, top);
    match window {
        Some(w) => {
            let mut percent = decimal_string(
                round_half_even(w.remaining_percent() as u128, PERCENT as u128),
            );
            percent.append("%");
            push_value(out, percent, brush_for(w.color()), top);
            push_time(
                out,
                format_reset_column(w, now, show_countdown, local),
                Brush::SecondaryText,
                top,
                width,
                RESET_COLUMN_PADDING_DIP,
            );
        },
        None => {
            push_time(
                out,
                "--".to_owned(),
                Brush::Unknown,
                top,
                width,
                RESET_COLUMN_PADDING_DIP,
            );
        },
    }
    assert(runs_of(out@) =~= runs_of(old(out)@) + quota_row(
        label@,
        window,
        top as int,
        width as int,
        show_countdown,
        now,
        local,
    ));
}

/// A known amount is shown in `brush`, an unknown one in grey.
pub open spec fn known_brush(is_known: bool, brush: Brush) -> Brush {
    if is_known {
        brush
    } else {
        Brush::Unknown
    }
}

/// A usage row: its name, its value in dollars, and its tokens. A row without a value column
/// lets its name take that space.
pub open spec fn usage_row(
    label: Seq<char>,
    tokens: Option<u64>,
    cost: Option<Option<i64>>,
    top: int,
    width: int,
    unit: UnitStyle,
) -> Seq<Run> {
    let count = body(
        presentation::usage_text(tokens, unit),
        known_brush(tokens is Some, Brush::SecondaryText),
        time_area(top, width, MARGIN_DIP as int),
    );
    match cost {
        Some(value) => seq![
            body(label, Brush::SecondaryText, label_area(top)),
            body(
                presentation::usd_text(value),
                known_brush(value is Some, Brush::Healthy),
                value_area(top),
            ),
            count,
        ],
        None => seq![
            body(
                label,
                Brush::SecondaryText,
                Area { right: TIME_COLUMN_LEFT_DIP, ..label_area(top) },
            ),
            count,
        ],
    }
}

pub fn draw_token_usage_row(
    out: &mut Vec<TextRun>,
    label: &str,
    tokens: Option<u64>,
    cost: Option<Option<i64>>,
    top: i64,
    width: i64,
    unit: UnitStyle,
)
    requires
        is_row_top(top as int),
        is_panel_width(width as int),
    ensures
        runs_of(final(out)@) == runs_of(old(out)@) + usage_row(
            label@,
            tokens,
            cost,
            top as int,
            width as int,
            unit,
        ),
{
    match cost {
        Some(value) => {
            push_label(out, label, top);
            let brush = if value.is_some() {
                Brush::Healthy
            } else {
                Brush::Unknown
            };
            push_value(out, format_usd(value), brush, top);
        },
        None => {
            push_run(
                out,
                label.to_owned(),
                Font::Body,
                Brush::SecondaryText,
                Area {
                    left: MARGIN_DIP,
                    top,
                    right: TIME_COLUMN_LEFT_DIP,
                    bottom: top + ROW_HEIGHT_DIP,
                },
            );
        },
    }
    let brush = if tokens.is_some() {
        Brush::SecondaryText
    } else {
        Brush::Unknown
    };
    push_time(out, format_token_usage(tokens, unit), brush, top, width, MARGIN_DIP);
    assert(runs_of(out@) =~= runs_of(old(out)@) + usage_row(
        label@,
        tokens,
        cost,
        top as int,
        width as int,
        unit,
    ));
}

/// The token estimate as the row shows it.
pub open spec fn estimate_tokens(state: &AppState, now: SystemTime) -> Option<u64> {
    match presentation::shown_token_estimate(state, now) {
        Some(tokens) => Some(tokens as u64),
        None => None,
    }
}

/// The dollar estimate as the row shows it.
pub open spec fn estimate_value(state: &AppState, now: SystemTime) -> Option<i64> {
    if presentation::shown_windows(state, now).1 is Some {
        state.period_total_value_estimate
    } else {
        None
    }
}

/// The estimate row: what a full window is worth, in dollars and in tokens.
pub open spec fn estimate_row(
    state: &AppState,
    label: Seq<char>,
    top: int,
    width: int,
    now: SystemTime,
) -> Seq<Run> {
    usage_row(
        label,
        estimate_tokens(state, now),
        Some(estimate_value(state, now)),
        top,
        width,
        state.token_unit,
    )
}

pub fn draw_period_total_value_row(
    out: &mut Vec<TextRun>,
    state: &AppState,
    label: &str,
    top: i64,
    width: i64,
    now: SystemTime,
)
    requires
        is_row_top(top as int),
        is_panel_width(width as int),
    ensures
        runs_of(final(out)@) == runs_of(old(out)@) + estimate_row(
            state,
            label@,
            top as int,
            width as int,
            now,
        ),
{
    let estimate = display_period_total_value(state, now);
    let tokens = display_period_total_token_estimate(state, now);
    assert(tokens == estimate_tokens(state, now));
    draw_token_usage_row(out, label, tokens, Some(estimate), top, width, state.token_unit);
}

/// When the data is from, with a note once it is stale.
pub open spec fn update_text(
    state: &AppState,
    now: SystemTime,
    received: Option<CalendarTime>,
) -> Seq<char> {
    if state.snapshot is None {
        "--"@
    } else if state.stale(now) {
        presentation::timestamp_text(received) + " · 已过期"@
    } else {
        presentation::timestamp_text(received)
    }
}

/// The row that says when the data is from.
pub open spec fn update_row(
    state: &AppState,
    top: int,
    width: int,
    now: SystemTime,
    received: Option<CalendarTime>,
) -> Seq<Run> {
    seq![
        body("更新时间"@, Brush::SecondaryText, label_area(top)),
        body(
            update_text(state, now, received),
            if state.stale(now) {
                Brush::Warning
            } else {
                Brush::SecondaryText
            },
            time_area(top, width, MARGIN_DIP as int),
        ),
    ]
}

pub fn draw_update_row(
    out: &mut Vec<TextRun>,
    state: &AppState,
    top: i64,
    width: i64,
    now: SystemTime,
    received: Option<CalendarTime>,
)
    requires
        is_row_top(top as int),
        is_panel_width(width as int),
    ensures
        runs_of(final(out)@) == runs_of(old(out)@) + update_row(
            state,
            top as int,
            width as int,
            now,
            received,
        ),
{
    push_label(out, "更新时间", top);
    let stale = state.is_stale(now);
    let value = match &state.snapshot {
        Some(_) => {
            let mut shown = format_local_timestamp(received);
            if stale {
                shown.append(" · 已过期");
            }
            shown
        },
        None => "--".to_owned(),
    };
    let brush = if stale {
        Brush::Warning
    } else {
        Brush::SecondaryText
    };
    push_time(out, value, brush, top, width, MARGIN_DIP);
    assert(runs_of(out@) =~= runs_of(old(out)@) + update_row(
        state,
        top as int,
        width as int,
        now,
        received,
    ));
}

/// The times that the panel shows, still to be put on the local calendar.
#[derive(Clone, Copy, Debug, PartialEq, Eq, Structural)]
pub struct PanelTimes {
    pub short_reset: Option<SystemTime>,
    pub long_reset: Option<SystemTime>,
    pub received: Option<SystemTime>,
}

/// The same times on the local calendar.
#[derive(Clone, Copy, Debug, PartialEq, Eq, Structural)]
pub struct PanelCalendar {
    pub short_reset: Option<CalendarTime>,
    pub long_reset: Option<CalendarTime>,
    pub received: Option<CalendarTime>,
}

pub open spec fn reset_of(window: Option<&QuotaWindow>) -> Option<SystemTime> {
    match window {
        Some(w) => Some(w.resets_at),
        None => None,
    }
}

/// Which times the panel needs on the local calendar.
pub fn panel_times(state: &AppState, now: SystemTime) -> (times: PanelTimes)
    ensures
        times.short_reset == reset_of(presentation::shown_windows(state, now).0),
        times.long_reset == reset_of(presentation::shown_windows(state, now).1),
        times.received == (match state.snapshot {
            Some(snapshot) => Some(snapshot.received_at),
            None => None,
        }),
{
    let (short_term, long_term) = display_windows(state, now);
    PanelTimes {
        short_reset: match short_term {
            Some(w) => Some(w.resets_at),
            None => None,
        },
        long_reset: match long_term {
            Some(w) => Some(w.resets_at),
            None => None,
        },
        received: match &state.snapshot {
            Some(snapshot) => Some(snapshot.received_at),
            None => None,
        },
    }
}

/// Top of a row, counted from zero.
pub open spec fn row_top(row: int) -> int {
    FIRST_ROW_TOP_DIP + row * ROW_STEP_DIP
}

/// The account is on the free plan.
pub open spec fn on_free_plan(state: &AppState) -> bool {
    state.plan_type is Some && state.plan_type->0@ == "free"@
}

/// Everything the panel shows, from top to bottom. Overflow rows take no space while there is
/// nothing to say.
pub open spec fn panel_content(
    state: &AppState,
    width: int,
    now: SystemTime,
    calendar: PanelCalendar,
) -> Seq<Run> {
    let (short_term, long_term) = presentation::shown_windows(state, now);
    let free = on_free_plan(state);
    let period = presentation::period_name(long_term, free);
    let today_over = presentation::overflows(
        state.today_overflow_tokens,
        state.today_overflow_cost,
    );
    let period_over = presentation::overflows(
        state.current_period_overflow_tokens,
        state.current_period_overflow_cost,
    );
    let period_row = if today_over {
        4int
    } else {
        3
    };
    let estimate = if period_over {
        period_row + 2
    } else {
        period_row + 1
    };
    title_runs(state, width) + quota_row(
        presentation::row_name(short_term, free, true),
        short_term,
        row_top(0),
        width,
        state.show_reset_countdown,
        now,
        calendar.short_reset,
    ) + quota_row(
        presentation::row_name(long_term, free, false),
        long_term,
        row_top(1),
        width,
        state.show_reset_countdown,
        now,
        calendar.long_reset,
    ) + usage_row(
        "今日使用"@,
        state.today_tokens,
        Some(state.today_cost),
        row_top(2),
        width,
        state.token_unit,
    ) + (if today_over {
        usage_row(
            "今日超额"@,
            state.today_overflow_tokens,
            Some(state.today_overflow_cost),
            row_top(3),
            width,
            state.token_unit,
        )
    } else {
        Seq::empty()
    }) + usage_row(
        period + "使用"@,
        state.current_period_tokens,
        Some(state.current_period_cost),
        row_top(period_row),
        width,
        state.token_unit,
    ) + (if period_over {
        usage_row(
            period + "超额"@,
            state.current_period_overflow_tokens,
            Some(state.current_period_overflow_cost),
            row_top(period_row + 1),
            width,
            state.token_unit,
        )
    } else {
        Seq::empty()
    }) + estimate_row(state, period + "估值"@, row_top(estimate), width, now) + update_row(
        state,
        row_top(estimate + 1),
        width,
        now,
        calendar.received,
    )
}

/// Lays out the panel; `calendar` holds its times on the local calendar.
pub fn draw_panel_content(
    state: &AppState,
    width: i64,
    now: SystemTime,
    calendar: &PanelCalendar,
) -> (runs: Vec<TextRun>)
    requires
        is_panel_width(width as int),
    ensures
        runs_of(runs@) == panel_content(state, width as int, now, *calendar),
{
    let mut out: Vec<TextRun> = Vec::new();
    assert(runs_of(out@) =~= Seq::<Run>::empty());
    draw_title(&mut out, state, width);
    let plan_type: Option<&str> = match &state.plan_type {
        Some(plan) => Some(plan.as_str()),
        None => None,
    };
    let (short_term, long_term) = display_windows(state, now);
    let short_label = quota_window_label(short_term, plan_type, true);
    let long_label = quota_window_label(long_term, plan_type, false);
    let period = period_labels(long_term, plan_type);
    let mut top: i64 = FIRST_ROW_TOP_DIP;
    draw_quota_row(
        &mut out,
        short_label.as_str(),
        short_term,
        top,
        width,
        state.show_reset_countdown,
        now,
        calendar.short_reset,
    );
    top = top + ROW_STEP_DIP;
    draw_quota_row(
        &mut out,
        long_label.as_str(),
        long_term,
        top,
        width,
        state.show_reset_countdown,
        now,
        calendar.long_reset,
    );
    top = top + ROW_STEP_DIP;
    draw_token_usage_row(
        &mut out,
        "今日使用",
        state.today_tokens,
        Some(state.today_cost),
        top,
        width,
        state.token_unit,
    );
    top = top + ROW_STEP_DIP;
    let ghost through_today = runs_of(out@);
    if today_overflow_visible(state) {
        draw_token_usage_row(
            &mut out,
            "今日超额",
            state.today_overflow_tokens,
            Some(state.today_overflow_cost),
            top,
            width,
            state.token_unit,
        );
        top = top + ROW_STEP_DIP;
    } else {
        assert(runs_of(out@) =~= through_today + Seq::<Run>::empty());
    }
    draw_token_usage_row(
        &mut out,
        period.usage.as_str(),
        state.current_period_tokens,
        Some(state.current_period_cost),
        top,
        width,
        state.token_unit,
    );
    top = top + ROW_STEP_DIP;
    let ghost through_period = runs_of(out@);
    if period_overflow_visible(state) {
        draw_token_usage_row(
            &mut out,
            period.overflow.as_str(),
            state.current_period_overflow_tokens,
            Some(state.current_period_overflow_cost),
            top,
            width,
            state.token_unit,
        );
        top = top + ROW_STEP_DIP;
    } else {
        assert(runs_of(out@) =~= through_period + Seq::<Run>::empty());
    }
    draw_period_total_value_row(&mut out, state, period.estimate.as_str(), top, width, now);
    top = top + ROW_STEP_DIP;
    draw_update_row(&mut out, state, top, width, now, calendar.received);
    assert(runs_of(out@) =~= panel_content(state, width as int, now, *calendar));
    out
}

/// Whether every text lies on a panel of this size, clear of its lower margin.
pub open spec fn all_fit(runs: Seq<Run>, width: int, height: int) -> bool {
    forall|i: int| 0 <= i < runs.len() ==> fits(#[trigger] runs[i].area, width, height)
}

pub open spec fn fits(area: Area, width: int, height: int) -> bool {
    &&& 0 <= area.left <= area.right <= width
    &&& 0 <= area.top <= area.bottom
    &&& area.bottom + ROW_STEP_DIP <= height
}

proof fn lemma_all_fit_together(a: Seq<Run>, b: Seq<Run>, width: int, height: int)
    requires
        all_fit(a, width, height),
        all_fit(b, width, height),
    ensures
        all_fit(a + b, width, height),
{
    assert forall|i: int| 0 <= i < (a + b).len() implies fits(
        #[trigger] (a + b)[i].area,
        width,
        height,
    ) by {
        if i < a.len() {
            assert((a + b)[i] == a[i]);
        } else {
            assert((a + b)[i] == b[i - a.len()]);
        }
    }
}

/// The panel is exactly as high as its rows need: every text lies on it, clear of its margins,
/// whichever rows are shown.
pub proof fn law_panel_content_fits(
    state: &AppState,
    width: int,
    now: SystemTime,
    calendar: PanelCalendar,
)
    requires
        TIME_COLUMN_LEFT_DIP + MARGIN_DIP <= width,
        is_panel_width(width),
    ensures
        all_fit(
            panel_content(state, width, now, calendar),
            width,
            presentation::height_of_rows(presentation::panel_rows(state)),
        ),
{
    let height = presentation::height_of_rows(presentation::panel_rows(state));
    let (short_term, long_term) = presentation::shown_windows(state, now);
    let free = on_free_plan(state);
    let period = presentation::period_name(long_term, free);
    let today_over = presentation::overflows(
        state.today_overflow_tokens,
        state.today_overflow_cost,
    );
    let period_over = presentation::overflows(
        state.current_period_overflow_tokens,
        state.current_period_overflow_cost,
    );
    let period_row = if today_over {
        4int
    } else {
        3
    };
    let estimate = if period_over {
        period_row + 2
    } else {
        period_row + 1
    };
    let a = title_runs(state, width);
    let b = quota_row(
        presentation::row_name(short_term, free, true),
        short_term,
        row_top(0),
        width,
        state.show_reset_countdown,
        now,
        calendar.short_reset,
    );
    let c = quota_row(
        presentation::row_name(long_term, free, false),
        long_term,
        row_top(1),
        width,
        state.show_reset_countdown,
        now,
        calendar.long_reset,
    );
    let d = usage_row(
        "今日使用"@,
        state.today_tokens,
        Some(state.today_cost),
        row_top(2),
        width,
        state.token_unit,
    );
    let e = if today_over {
        usage_row(
            "今日超额"@,
            state.today_overflow_tokens,
            Some(state.today_overflow_cost),
            row_top(3),
            width,
            state.token_unit,
        )
    } else {
        Seq::<Run>::empty()
    };
    let f = usage_row(
        period + "使用"@,
        state.current_period_tokens,
        Some(state.current_period_cost),
        row_top(period_row),
        width,
        state.token_unit,
    );
    let g = if period_over {
        usage_row(
            period + "超额"@,
            state.current_period_overflow_tokens,
            Some(state.current_period_overflow_cost),
            row_top(period_row + 1),
            width,
            state.token_unit,
        )
    } else {
        Seq::<Run>::empty()
    };
    let h = estimate_row(state, period + "估值"@, row_top(estimate), width, now);
    let k = update_row(state, row_top(estimate + 1), width, now, calendar.received);
    lemma_all_fit_together(a, b, width, height);
    lemma_all_fit_together(a + b, c, width, height);
    lemma_all_fit_together(a + b + c, d, width, height);
    lemma_all_fit_together(a + b + c + d, e, width, height);
    lemma_all_fit_together(a + b + c + d + e, f, width, height);
    lemma_all_fit_together(a + b + c + d + e + f, g, width, height);
    lemma_all_fit_together(a + b + c + d + e + f + g, h, width, height);
    lemma_all_fit_together(a + b + c + d + e + f + g + h, k, width, height);
}

/// What is healthy is green, what is critical red, and a warning yellow, in either style; text is
/// brighter than what it stands on, and a surface under the pointer brighter than before. Only the
/// three quota colours change with the style, and all but the surfaces are opaque.
pub proof fn law_colours_mean_something(
    style: ColorStyle,
    other: ColorStyle,
    brush: Brush,
    color: Color,
    restyled: Color,
    healthy: Color,
    warning: Color,
    critical: Color,
)
    requires
        call_ensures(brush_color, (Brush::Healthy, style), healthy),
        call_ensures(brush_color, (Brush::Warning, style), warning),
        call_ensures(brush_color, (Brush::Critical, style), critical),
        call_ensures(brush_color, (brush, style), color),
        call_ensures(brush_color, (brush, other), restyled),
    ensures
        healthy.green > healthy.red && healthy.green > healthy.blue,
        critical.red > critical.green && critical.red > critical.blue,
        warning.red > warning.blue && warning.green > warning.blue && warning.green
            > critical.green,
        color.alpha_percent == 100 <==> !(brush is Background || brush is BackgroundHover || brush
            is Track || brush is TrackHover),
        color != restyled <==> style != other && (brush is Healthy || brush is Warning || brush
            is Critical),
{
}

/// Text is brighter than the background, and under the pointer background and track brighten.
pub proof fn law_hovering_brightens(
    style: ColorStyle,
    background: Color,
    hovered: Color,
    track: Color,
    hovered_track: Color,
    text: Color,
    small: Color,
)
    requires
        call_ensures(brush_color, (Brush::Background, style), background),
        call_ensures(brush_color, (Brush::BackgroundHover, style), hovered),
        call_ensures(brush_color, (Brush::Track, style), track),
        call_ensures(brush_color, (Brush::TrackHover, style), hovered_track),
        call_ensures(brush_color, (Brush::PrimaryText, style), text),
        call_ensures(brush_color, (Brush::SecondaryText, style), small),
    ensures
        is_brighter(hovered, background),
        is_brighter(hovered_track, track),
        is_brighter(track, hovered),
        is_brighter(small, hovered_track),
        is_brighter(text, small),
        hovered.alpha_percent > background.alpha_percent,
        hovered_track.alpha_percent > track.alpha_percent,
{
}

pub open spec fn is_brighter(a: Color, b: Color) -> bool {
    a.red > b.red && a.green > b.green && a.blue > b.blue
}

/// Every quota colour and every plan's accent has its own brush; what is not known is grey.
pub proof fn law_brushes_follow_their_colours(
    color: QuotaColor,
    brush: Brush,
    plan_type: &str,
    accent: PlanColor,
    plan: Brush,
)
    requires
        call_ensures(brush_for, (color,), brush),
        call_ensures(plan_type_color, (plan_type,), accent),
        call_ensures(brush_for_plan_type, (plan_type,), plan),
    ensures
        brush is Healthy <==> color is Healthy,
        brush is Warning <==> color is Warning,
        brush is Critical <==> color is Critical,
        brush is Unknown <==> color is Unknown,
        plan is PlanNeutral <==> accent is Neutral,
        plan is PlanPlus <==> accent is Plus,
        plan is PlanPro <==> accent is Pro,
        plan is PlanBusiness <==> accent is Business,
        plan is PlanEnterprise <==> accent is Enterprise,
        plan is PlanEdu <==> accent is Edu,
        plan is Unknown <==> accent is Unknown,
{
}

/// A text of a row, from `left` to `right` device-independent pixels (millionths).
pub open spec fn is_cell(
    run: TextRun,
    text: Seq<char>,
    brush: Brush,
    left: int,
    right: int,
    top: int,
) -> bool {
    &&& run.text@ == text
    &&& run.font is Body
    &&& run.brush == brush
    &&& run.area.left == left
    &&& run.area.right == right
    &&& run.area.top == top
    &&& run.area.bottom == top + 23_000_000
}

proof fn lemma_runs(runs: Seq<TextRun>, i: int)
    requires
        0 <= i < runs.len(),
    ensures
        runs_of(runs).len() == runs.len(),
        runs_of(runs)[i] == runs[i]@,
{
}

/// The title says how the link stands, over the whole width; where the plan is known it makes room
/// for the plan's name in the plan's colour.
pub proof fn law_the_title_makes_room_for_the_plan(
    out: &mut Vec<TextRun>,
    state: &AppState,
    width: i64,
    title: (&str, Option<&str>),
    name: &str,
    brush: Brush,
)
    requires
        is_panel_width(width as int),
        old(out)@.len() == 0,
        call_ensures(draw_title, (out, state, width), ()),
        call_ensures(panel_title, (state,), title),
        title.1 is Some ==> call_ensures(plan_type_label, (title.1->0,), name),
        title.1 is Some ==> call_ensures(brush_for_plan_type, (title.1->0,), brush),
    ensures
        ({
            let runs = final(out)@;
            &&& runs.len() == (if title.1 is Some {
                2int
            } else {
                1
            })
            &&& runs[0].text@ == title.0@
            &&& runs[0].font is Title
            &&& runs[0].brush is PrimaryText
            &&& runs[0].area.left == 18_000_000
            &&& runs[0].area.right == (if title.1 is Some {
                64_000_000
            } else {
                width - 18_000_000
            })
            &&& runs[0].area.top == 14_000_000 && runs[0].area.bottom == 36_000_000
            &&& title.1 is Some ==> {
                &&& runs[1].text@ == name@
                &&& runs[1].font is Title
                &&& runs[1].brush == brush
                &&& runs[1].area.left == 64_000_000
                &&& runs[1].area.right == width - 18_000_000
                &&& runs[1].area.top == 14_000_000 && runs[1].area.bottom == 36_000_000
            }
        }),
{
    let shown = runs_of(final(out)@);
    assert(runs_of(old(out)@) =~= Seq::<Run>::empty());
    assert(shown =~= title_runs(state, width as int));
    assert(shown.len() == final(out)@.len());
    lemma_runs(final(out)@, 0);
    if title.1 is Some {
        lemma_runs(final(out)@, 1);
    }
}

/// A quota row shows its name, what is left to the nearest whole percent in the window's colour,
/// and when the window starts over; without a window only a dash.
pub proof fn law_a_quota_row_shows_its_window(
    out: &mut Vec<TextRun>,
    label: &str,
    window: Option<&QuotaWindow>,
    top: i64,
    width: i64,
    show_countdown: bool,
    now: SystemTime,
    local: Option<CalendarTime>,
    left: i64,
    color: QuotaColor,
    brush: Brush,
    reset: String,
)
    requires
        is_row_top(top as int),
        is_panel_width(width as int),
        old(out)@.len() == 0,
        call_ensures(
            draw_quota_row,
            (out, label, window, top, width, show_countdown, now, local),
            (),
        ),
        window is Some ==> call_ensures(QuotaWindow::remaining_percent, (window->0,), left),
        window is Some ==> call_ensures(QuotaWindow::color, (window->0,), color),
        call_ensures(brush_for, (color,), brush),
        window is Some ==> call_ensures(
            format_reset_column,
            (window->0, now, show_countdown, local),
            reset,
        ),
    ensures
        ({
            let runs = final(out)@;
            let t = top as int;
            &&& is_cell(runs[0], label@, Brush::SecondaryText, 18_000_000, 94_000_000, t)
            &&& window is None ==> runs.len() == 2 && is_cell(
                runs[1],
                "--"@,
                Brush::Unknown,
                148_000_000,
                width - 10_000_000,
                t,
            )
            &&& window is Some ==> {
                &&& runs.len() == 3
                &&& exists|percent: nat|
                    #![trigger text::decimal(percent)]
                    is_cell(
                        runs[1],
                        text::decimal(percent) + "%"@,
                        brush,
                        96_000_000,
                        140_000_000,
                        t,
                    ) && -1_000_000 <= 2 * (percent * 1_000_000 - left) <= 1_000_000
                &&& is_cell(
                    runs[2],
                    reset@,
                    Brush::SecondaryText,
                    148_000_000,
                    width - 10_000_000,
                    t,
                )
            }
        }),
{
    let shown = runs_of(final(out)@);
    assert(runs_of(old(out)@) =~= Seq::<Run>::empty());
    assert(shown =~= quota_row(
        label@,
        window,
        top as int,
        width as int,
        show_countdown,
        now,
        local,
    ));
    assert(shown.len() == final(out)@.len());
    lemma_runs(final(out)@, 0);
    lemma_runs(final(out)@, 1);
    if window is Some {
        lemma_runs(final(out)@, 2);
        let percent = text::nearest_even(left as nat, 1_000_000);
        assert(-1_000_000 <= 2 * (percent * 1_000_000 - left) <= 1_000_000);
        assert(is_cell(
            final(out)@[1],
            text::decimal(percent) + "%"@,
            brush,
            96_000_000,
            140_000_000,
            top as int,
        ));
    }
}

/// A usage row shows its name, its money in green and its tokens; what is not known is grey, and
/// without a column for money the name takes its place.
pub proof fn law_a_usage_row_shows_money_and_tokens(
    out: &mut Vec<TextRun>,
    label: &str,
    tokens: Option<u64>,
    cost: Option<Option<i64>>,
    top: i64,
    width: i64,
    unit: UnitStyle,
    money: String,
    count: String,
)
    requires
        is_row_top(top as int),
        is_panel_width(width as int),
        old(out)@.len() == 0,
        call_ensures(
            draw_token_usage_row,
            (out, label, tokens, cost, top, width, unit),
            (),
        ),
        cost is Some ==> call_ensures(format_usd, (cost->0,), money),
        call_ensures(format_token_usage, (tokens, unit), count),
    ensures
        ({
            let runs = final(out)@;
            let t = top as int;
            &&& runs.len() == (if cost is Some {
                3int
            } else {
                2
            })
            &&& cost is Some ==> is_cell(
                runs[0],
                label@,
                Brush::SecondaryText,
                18_000_000,
                94_000_000,
                t,
            ) && is_cell(
                runs[1],
                money@,
                if cost->0 is Some {
                    Brush::Healthy
                } else {
                    Brush::Unknown
                },
                96_000_000,
                140_000_000,
                t,
            )
            &&& cost is None ==> is_cell(
                runs[0],
                label@,
                Brush::SecondaryText,
                18_000_000,
                148_000_000,
                t,
            )
            &&& is_cell(
                runs[runs.len() - 1],
                count@,
                if tokens is Some {
                    Brush::SecondaryText
                } else {
                    Brush::Unknown
                },
                148_000_000,
                width - 18_000_000,
                t,
            )
        }),
{
    let shown = runs_of(final(out)@);
    assert(runs_of(old(out)@) =~= Seq::<Run>::empty());
    assert(shown =~= usage_row(label@, tokens, cost, top as int, width as int, unit));
    assert(shown.len() == final(out)@.len());
    lemma_runs(final(out)@, 0);
    lemma_runs(final(out)@, 1);
    if cost is Some {
        lemma_runs(final(out)@, 2);
    }
}

/// The estimate row is a usage row of what the panel estimates a full window to be worth.
pub proof fn law_the_estimate_row_shows_the_estimates(
    out: &mut Vec<TextRun>,
    usage: &mut Vec<TextRun>,
    state: &AppState,
    label: &str,
    top: i64,
    width: i64,
    now: SystemTime,
    value: Option<i64>,
    tokens: Option<u64>,
)
    requires
        is_row_top(top as int),
        is_panel_width(width as int),
        old(out)@.len() == 0,
        old(usage)@.len() == 0,
        call_ensures(draw_period_total_value_row, (out, state, label, top, width, now), ()),
        call_ensures(display_period_total_value, (state, now), value),
        call_ensures(display_period_total_token_estimate, (state, now), tokens),
        call_ensures(
            draw_token_usage_row,
            (usage, label, tokens, Some(value), top, width, state.token_unit),
            (),
        ),
    ensures
        runs_of(final(out)@) == runs_of(final(usage)@),
{
    assert(runs_of(old(out)@) =~= runs_of(old(usage)@));
    assert(tokens == estimate_tokens(state, now));
}

/// The last row says when the data is from, and in yellow that it is stale once it is.
pub proof fn law_the_update_row_warns_of_stale_data(
    out: &mut Vec<TextRun>,
    state: &AppState,
    top: i64,
    width: i64,
    now: SystemTime,
    received: Option<CalendarTime>,
    stale: bool,
    stamp: String,
)
    requires
        is_row_top(top as int),
        is_panel_width(width as int),
        old(out)@.len() == 0,
        call_ensures(draw_update_row, (out, state, top, width, now, received), ()),
        call_ensures(AppState::is_stale, (state, now), stale),
        call_ensures(format_local_timestamp, (received,), stamp),
    ensures
        ({
            let runs = final(out)@;
            let t = top as int;
            &&& runs.len() == 2
            &&& is_cell(runs[0], "更新时间"@, Brush::SecondaryText, 18_000_000, 94_000_000, t)
            &&& is_cell(
                runs[1],
                if state.snapshot is None {
                    "--"@
                } else if stale {
                    stamp@ + " · 已过期"@
                } else {
                    stamp@
                },
                if stale {
                    Brush::Warning
                } else {
                    Brush::SecondaryText
                },
                148_000_000,
                width - 18_000_000,
                t,
            )
        }),
{
    let shown = runs_of(final(out)@);
    assert(runs_of(old(out)@) =~= Seq::<Run>::empty());
    assert(shown =~= update_row(state, top as int, width as int, now, received));
    assert(shown.len() == final(out)@.len());
    lemma_runs(final(out)@, 0);
    lemma_runs(final(out)@, 1);
}

/// The times to put on the calendar are the resets of the windows that are shown and the time that
/// the data is from.
pub proof fn law_the_panel_shows_the_times_of_its_windows(
    state: &AppState,
    now: SystemTime,
    times: PanelTimes,
    shown: (Option<&QuotaWindow>, Option<&QuotaWindow>),
)
    requires
        call_ensures(panel_times, (state, now), times),
        call_ensures(display_windows, (state, now), shown),
    ensures
        times.short_reset is Some <==> shown.0 is Some,
        times.short_reset is Some ==> times.short_reset->0 == shown.0->0.resets_at,
        times.long_reset is Some <==> shown.1 is Some,
        times.long_reset is Some ==> times.long_reset->0 == shown.1->0.resets_at,
        times.received is Some <==> state.snapshot is Some,
        times.received is Some ==> times.received->0 == state.snapshot->0.received_at,
{
}

/// The panel is its rows one under the other, the first at 42 and each 27 device-independent pixels
/// below the last: the short-term and the long-term window, what was used today and what overflowed
/// of it, the same of the period, what a full period is worth, and when the data is from. A row
/// about overflow is there only where something overflowed, and the rows below it move up where it
/// is not.
#[verifier::spinoff_prover]
#[verifier::rlimit(50)]
pub proof fn law_rows_stand_in_their_order(
    state: &AppState,
    width: i64,
    now: SystemTime,
    calendar: &PanelCalendar,
    runs: Vec<TextRun>,
    shown: (Option<&QuotaWindow>, Option<&QuotaWindow>),
    plan_type: Option<&str>,
    short_label: String,
    long_label: String,
    labels: presentation::PeriodLabels,
    names: (&str, &str, &str, &str, &str),
    today_over: bool,
    period_over: bool,
    next: i64,
    title: &mut Vec<TextRun>,
    short: &mut Vec<TextRun>,
    long: &mut Vec<TextRun>,
    today: &mut Vec<TextRun>,
    today_extra: &mut Vec<TextRun>,
    period: &mut Vec<TextRun>,
    period_extra: &mut Vec<TextRun>,
    estimate: &mut Vec<TextRun>,
    update: &mut Vec<TextRun>,
)
    requires
        is_panel_width(width as int),
        call_ensures(draw_panel_content, (state, width, now, calendar), runs),
        call_ensures(display_windows, (state, now), shown),
        call_ensures(today_overflow_visible, (state,), today_over),
        call_ensures(period_overflow_visible, (state,), period_over),
        state.plan_type is Some <==> plan_type is Some,
        plan_type is Some ==> plan_type->0@ == state.plan_type->0@,
        call_ensures(quota_window_label, (shown.0, plan_type, true), short_label),
        call_ensures(quota_window_label, (shown.1, plan_type, false), long_label),
        call_ensures(period_labels, (shown.1, plan_type), labels),
        names.0@ == short_label@ && names.1@ == long_label@,
        names.2@ == labels.usage@ && names.3@ == labels.overflow@ && names.4@ == labels.estimate@,
        old(title)@.len() == 0 && old(short)@.len() == 0 && old(long)@.len() == 0,
        old(today)@.len() == 0 && old(today_extra)@.len() == 0 && old(period)@.len() == 0,
        old(period_extra)@.len() == 0 && old(estimate)@.len() == 0 && old(update)@.len() == 0,
        call_ensures(draw_title, (title, state, width), ()),
        call_ensures(
            draw_quota_row,
            (
                short,
                names.0,
                shown.0,
                42_000_000,
                width,
                state.show_reset_countdown,
                now,
                calendar.short_reset,
            ),
            (),
        ),
        call_ensures(
            draw_quota_row,
            (
                long,
                names.1,
                shown.1,
                69_000_000,
                width,
                state.show_reset_countdown,
                now,
                calendar.long_reset,
            ),
            (),
        ),
        call_ensures(
            draw_token_usage_row,
            (
                today,
                "今日使用",
                state.today_tokens,
                Some(state.today_cost),
                96_000_000,
                width,
                state.token_unit,
            ),
            (),
        ),
        call_ensures(
            draw_token_usage_row,
            (
                today_extra,
                "今日超额",
                state.today_overflow_tokens,
                Some(state.today_overflow_cost),
                123_000_000,
                width,
                state.token_unit,
            ),
            (),
        ),
        next == (if today_over {
            150_000_000int
        } else {
            123_000_000
        }),
        call_ensures(
            draw_token_usage_row,
            (
                period,
                names.2,
                state.current_period_tokens,
                Some(state.current_period_cost),
                next,
                width,
                state.token_unit,
            ),
            (),
        ),
        call_ensures(
            draw_token_usage_row,
            (
                period_extra,
                names.3,
                state.current_period_overflow_tokens,
                Some(state.current_period_overflow_cost),
                (next + 27_000_000) as i64,
                width,
                state.token_unit,
            ),
            (),
        ),
        call_ensures(
            draw_period_total_value_row,
            (
                estimate,
                state,
                names.4,
                (next + (if period_over {
                    54_000_000
                } else {
                    27_000_000int
                })) as i64,
                width,
                now,
            ),
            (),
        ),
        call_ensures(
            draw_update_row,
            (
                update,
                state,
                (next + (if period_over {
                    81_000_000
                } else {
                    54_000_000int
                })) as i64,
                width,
                now,
                calendar.received,
            ),
            (),
        ),
    ensures
        ({
            let nothing = Seq::<Run>::empty();
            runs_of(runs@) == runs_of(final(title)@) + runs_of(final(short)@) + runs_of(
                final(long)@,
            ) + runs_of(final(today)@) + (if today_over {
                runs_of(final(today_extra)@)
            } else {
                nothing
            }) + runs_of(final(period)@) + (if period_over {
                runs_of(final(period_extra)@)
            } else {
                nothing
            }) + runs_of(final(estimate)@) + runs_of(final(update)@)
        }),
{
    let none = Seq::<Run>::empty();
    assert(runs_of(old(title)@) =~= none && runs_of(old(short)@) =~= none);
    assert(runs_of(old(long)@) =~= none && runs_of(old(today)@) =~= none);
    assert(runs_of(old(today_extra)@) =~= none && runs_of(old(period)@) =~= none);
    assert(runs_of(old(period_extra)@) =~= none && runs_of(old(estimate)@) =~= none);
    assert(runs_of(old(update)@) =~= none);
    let (short_term, long_term) = presentation::shown_windows(state, now);
    let free = on_free_plan(state);
    assert(none + title_runs(state, width as int) =~= title_runs(state, width as int));
    assert(runs_of(final(title)@) =~= title_runs(state, width as int));
    assert(runs_of(final(short)@) =~= quota_row(
        presentation::row_name(short_term, free, true),
        short_term,
        row_top(0),
        width as int,
        state.show_reset_countdown,
        now,
        calendar.short_reset,
    ));
    assert(runs_of(final(long)@) =~= quota_row(
        presentation::row_name(long_term, free, false),
        long_term,
        row_top(1),
        width as int,
        state.show_reset_countdown,
        now,
        calendar.long_reset,
    ));
    assert(runs_of(final(today)@) =~= usage_row(
        "今日使用"@,
        state.today_tokens,
        Some(state.today_cost),
        row_top(2),
        width as int,
        state.token_unit,
    ));
    assert(runs_of(final(today_extra)@) =~= usage_row(
        "今日超额"@,
        state.today_overflow_tokens,
        Some(state.today_overflow_cost),
        row_top(3),
        width as int,
        state.token_unit,
    ));
    assert(runs_of(final(period)@) =~= usage_row(
        names.2@,
        state.current_period_tokens,
        Some(state.current_period_cost),
        next as int,
        width as int,
        state.token_unit,
    ));
    assert(runs_of(final(period_extra)@) =~= usage_row(
        names.3@,
        state.current_period_overflow_tokens,
        Some(state.current_period_overflow_cost),
        next + 27_000_000,
        width as int,
        state.token_unit,
    ));
    let last = if period_over {
        next + 54_000_000
    } else {
        next + 27_000_000
    };
    assert(runs_of(final(estimate)@) =~= estimate_row(
        state,
        names.4@,
        last,
        width as int,
        now,
    ));
    assert(runs_of(final(update)@) =~= update_row(
        state,
        last + 27_000_000,
        width as int,
        now,
        calendar.received,
    ));
}

} // verus!
