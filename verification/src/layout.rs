//! Where the ball and the panel go: docking, expansion, collapse and hit testing.
use vstd::prelude::*;

use crate::config::{AnchorEdge, AppConfigV1};
use crate::fixed;
use crate::fixed::{clamp_i32, clamp_i64, round_div, saturate_i32, saturating_diff, DIP, UNIT};

verus! {

/// Side of the collapsed window, a square around the ball.
pub const COLLAPSED_DIP: i64 = 56_000_000;

/// Width of the expanded panel.
pub const PANEL_WIDTH_DIP: i64 = 288_000_000;

/// Radius of the drawn ball, and of its hit circle.
pub const BALL_RADIUS_DIP: i64 = 27_000_000;

/// Corner radius of the panel.
pub const PANEL_CORNER_DIP: i64 = 16_000_000;

/// The resolution at which one device-independent pixel is one physical pixel.
pub const BASE_DPI: u32 = 96;

/// A position on the virtual screen, in physical pixels.
#[derive(Clone, Copy, Debug, Default, PartialEq, Eq, Hash, Structural)]
pub struct Point {
    pub x: i32,
    pub y: i32,
}

/// A rectangle on the virtual screen; `right` and `bottom` lie just outside.
#[derive(Clone, Copy, Debug, Default, PartialEq, Eq, Hash, Structural)]
pub struct Rect {
    pub left: i32,
    pub top: i32,
    pub right: i32,
    pub bottom: i32,
}

/// Which end of the ball the expanded panel lines up with, along the docked edge.
#[derive(Clone, Copy, Debug, PartialEq, Eq, Hash, Structural)]
pub enum ExpansionAlignment {
    Start,
    End,
}

impl Default for ExpansionAlignment {
    fn default() -> (alignment: ExpansionAlignment)
        ensures
            alignment == ExpansionAlignment::Start,
    {
        ExpansionAlignment::Start
    }
}

/// Physical pixels of a length in device-independent pixels.
pub open spec fn pixels(value: int, dpi: int) -> int {
    fixed::saturated(fixed::nearest(value * dpi, BASE_DPI * DIP))
}

/// Device-independent pixels (millionths) of a length in physical pixels.
pub open spec fn dips(value: int, dpi: int) -> int {
    fixed::nearest(value * (BASE_DPI * DIP), if dpi < 1 {
        1
    } else {
        dpi
    })
}

pub fn dip_to_px(value: i64, dpi: u32) -> (px: i32)
    ensures
        px == pixels(value as int, dpi as int),
{
    proof {
        assert(-0x8000_0000_0000_0000 * 0x1_0000_0000 <= value * dpi <= 0x8000_0000_0000_0000
            * 0x1_0000_0000) by (nonlinear_arith)
            requires
                -0x8000_0000_0000_0000 <= value <= 0x7fff_ffff_ffff_ffff,
                0 <= dpi <= 0xffff_ffff,
        ;
    }
    saturate_i32(round_div(value as i128 * dpi as i128, 96_000_000))
}

pub fn px_to_dip(value: i32, dpi: u32) -> (dip: i64)
    ensures
        dip == dips(value as int, dpi as int),
{
    let scale: u32 = if dpi < 1 {
        1
    } else {
        dpi
    };
    let product: i128 = value as i128 * 96_000_000;
    let dip: i128 = round_div(product, scale as i128);
    proof {
        let bound: int = 206_158_430_208_000_000;
        fixed::law_nearest_is_within_half_a_step(product as int, scale as int);
        assert(-2 * bound <= dip <= 2 * bound) by (nonlinear_arith)
            requires
                2 * fixed::magnitude(product - dip * scale) <= scale,
                -bound <= product <= bound,
                bound == 206_158_430_208_000_000,
                scale >= 1,
        ;
    }
    dip as i64
}

/// A length measured in pixels survives the trip through device-independent pixels, at every
/// resolution a monitor can report.
pub proof fn law_pixels_survive_the_round_trip(value: i32, dpi: u32)
    requires
        1 <= dpi < 96_000_000,
    ensures
        pixels(dips(value as int, dpi as int), dpi as int) == value,
{
    let d = dpi as int;
    let step: int = 96_000_000;
    let n = value * step;
    let k = fixed::nearest(n, d);
    fixed::law_nearest_is_within_half_a_step(n, d);
    // k * d is within d / 2 of value * step, so it rounds back to value.
    let m = k * d;
    assert(2 * fixed::magnitude(n - m) <= d);
    lemma_nearest_of_a_close_value(m, value as int, step);
}

proof fn lemma_nearest_of_a_close_value(m: int, value: int, step: int)
    requires
        step > 0,
        2 * fixed::magnitude(value * step - m) < step,
    ensures
        fixed::nearest(m, step) == value,
{
    let r = fixed::nearest(m, step);
    fixed::law_nearest_is_within_half_a_step(m, step);
    assert(-step < (value - r) * step < step) by (nonlinear_arith)
        requires
            step > 0,
            2 * fixed::magnitude(value * step - m) < step,
            2 * fixed::magnitude(m - r * step) <= step,
    ;
    assert(value == r) by (nonlinear_arith)
        requires
            step > 0,
            -step < (value - r) * step < step,
    ;
}

/// The value `progress` billionths of the way from `start` to `end`.
pub open spec fn between(start: int, end: int, progress: int) -> int {
    start + fixed::nearest((end - start) * fixed::clamped(progress, 0, UNIT as int), UNIT as int)
}

/// An interpolated value lies between its ends, starts at the first and arrives at the second.
pub proof fn law_between_stays_between(start: int, end: int, progress: int)
    ensures
        start <= end ==> start <= between(start, end, progress) <= end,
        end <= start ==> end <= between(start, end, progress) <= start,
        progress <= 0 ==> between(start, end, progress) == start,
        progress >= UNIT ==> between(start, end, progress) == end,
{
    let d = end - start;
    let p = fixed::clamped(progress, 0, UNIT as int);
    let u = UNIT as int;
    fixed::law_nearest_of_a_multiple(0, u);
    fixed::law_nearest_of_a_multiple(d, u);
    assert(0 * u == 0);
    if d >= 0 {
        assert(0 <= d * p <= d * u) by (nonlinear_arith)
            requires
                d >= 0,
                0 <= p <= u,
        ;
        fixed::law_nearest_is_monotonic(0, d * p, u);
        fixed::law_nearest_is_monotonic(d * p, d * u, u);
    } else {
        assert(d * u <= d * p <= 0) by (nonlinear_arith)
            requires
                d < 0,
                0 <= p <= u,
        ;
        fixed::law_nearest_is_monotonic(d * p, 0, u);
        fixed::law_nearest_is_monotonic(d * u, d * p, u);
    }
    if progress <= 0 {
        assert(d * p == 0) by (nonlinear_arith)
            requires
                p == 0,
        ;
    }
}

/// Interpolates between two values; `progress` is kept within zero and one.
pub fn lerp(start: i64, end: i64, progress: i64) -> (value: i64)
    ensures
        value == between(start as int, end as int, progress as int),
{
    let kept: i64 = clamp_i64(progress, 0, UNIT);
    let span: i128 = end as i128 - start as i128;
    proof {
        assert(-0x1_0000_0000_0000_0000 * 1_000_000_000 <= span * kept <= 0x1_0000_0000_0000_0000
            * 1_000_000_000) by (nonlinear_arith)
            requires
                -0x1_0000_0000_0000_0000 <= span <= 0x1_0000_0000_0000_0000,
                0 <= kept <= 1_000_000_000,
        ;
        law_between_stays_between(start as int, end as int, progress as int);
    }
    let step: i128 = round_div(span * kept as i128, UNIT as i128);
    (start as i128 + step) as i64
}

/// `position` moved so that `extent` pixels from it stay within the work area; a panel that
/// does not fit starts at the near end of the work area.
pub open spec fn axis_within(position: int, extent: int, work_start: int, work_end: int) -> int {
    if extent >= fixed::saturated(work_end - work_start) {
        work_start
    } else {
        fixed::clamped(position, work_start, work_end - extent)
    }
}

pub fn clamp_axis(position: i32, extent: i32, work_start: i32, work_end: i32) -> (kept: i32)
    requires
        extent < fixed::saturated(work_end - work_start) ==> work_end - extent <= i32::MAX,
    ensures
        kept == axis_within(position as int, extent as int, work_start as int, work_end as int),
{
    let available: i32 = saturating_diff(work_end, work_start);
    if extent >= available {
        work_start
    } else {
        clamp_i32(position, work_start, work_end - extent)
    }
}

/// Keeping a position within the work area twice changes nothing more.
pub proof fn law_axis_within_is_idempotent(
    position: i32,
    extent: i32,
    work_start: i32,
    work_end: i32,
)
    ensures
        ({
            let once = axis_within(
                position as int,
                extent as int,
                work_start as int,
                work_end as int,
            );
            axis_within(once, extent as int, work_start as int, work_end as int) == once
        }),
{
}

/// What fits the work area ends up inside it.
pub proof fn law_axis_within_stays_inside(
    position: int,
    extent: int,
    work_start: int,
    work_end: int,
)
    requires
        0 <= extent <= work_end - work_start <= i32::MAX,
    ensures
        work_start <= axis_within(position, extent, work_start, work_end),
        axis_within(position, extent, work_start, work_end) + extent <= work_end,
{
}

/// Whether a panel of `extent` pixels fits when it starts where the ball starts.
pub open spec fn start_fits(start: int, extent: int, work_start: int, work_end: int) -> bool {
    start >= work_start && extent <= fixed::saturated(work_end - start)
}

/// Whether a panel of `extent` pixels fits when it ends where the ball ends.
pub open spec fn end_fits(end: int, extent: int, work_start: int, work_end: int) -> bool {
    fixed::saturated(end - extent) >= work_start && end <= work_end
}

/// Along the docked edge the panel starts with the ball where that fits (or where nothing
/// fits), and otherwise ends with it.
pub open spec fn expansion_along(
    start: int,
    end: int,
    extent: int,
    work_start: int,
    work_end: int,
) -> (int, ExpansionAlignment) {
    if start_fits(start, extent, work_start, work_end) || !end_fits(
        end,
        extent,
        work_start,
        work_end,
    ) {
        (axis_within(start, extent, work_start, work_end), ExpansionAlignment::Start)
    } else {
        (
            axis_within(fixed::saturated(end - extent), extent, work_start, work_end),
            ExpansionAlignment::End,
        )
    }
}

/// Extents of windows and panels, for which no position in the work area overflows.
pub open spec fn extent_is_valid(extent: int, work_start: int, work_end: int) -> bool {
    extent < fixed::saturated(work_end - work_start) ==> work_end - extent <= i32::MAX
}

pub fn expansion_axis(
    start: i32,
    end: i32,
    extent: i32,
    work_start: i32,
    work_end: i32,
) -> (placed: (i32, ExpansionAlignment))
    requires
        extent_is_valid(extent as int, work_start as int, work_end as int),
    ensures
        (placed.0 as int, placed.1) == expansion_along(
            start as int,
            end as int,
            extent as int,
            work_start as int,
            work_end as int,
        ),
{
    let end_aligned: i32 = saturating_diff(end, extent);
    let at_start = start >= work_start && extent <= saturating_diff(work_end, start);
    let at_end = end_aligned >= work_start && end <= work_end;
    if at_start || !at_end {
        (clamp_axis(start, extent, work_start, work_end), ExpansionAlignment::Start)
    } else {
        (clamp_axis(end_aligned, extent, work_start, work_end), ExpansionAlignment::End)
    }
}

/// Top-left corner of the expanded panel: flush with the docked edge, and along that edge as
/// [`expansion_along`] says.
pub open spec fn expansion_target(
    rect: Rect,
    edge: AnchorEdge,
    width: int,
    height: int,
    work: Rect,
) -> (int, int, ExpansionAlignment) {
    match edge {
        AnchorEdge::Left | AnchorEdge::Right => {
            let (y, alignment) = expansion_along(
                rect.top as int,
                rect.bottom as int,
                height,
                work.top as int,
                work.bottom as int,
            );
            let x = if edge == AnchorEdge::Left {
                rect.left as int
            } else {
                fixed::saturated(rect.right - width)
            };
            (axis_within(x, width, work.left as int, work.right as int), y, alignment)
        },
        AnchorEdge::Top | AnchorEdge::Bottom => {
            let (x, alignment) = expansion_along(
                rect.left as int,
                rect.right as int,
                width,
                work.left as int,
                work.right as int,
            );
            let y = if edge == AnchorEdge::Top {
                rect.top as int
            } else {
                fixed::saturated(rect.bottom - height)
            };
            (x, axis_within(y, height, work.top as int, work.bottom as int), alignment)
        },
    }
}

/// Whether a window of this size can be placed in the work area without overflow.
pub open spec fn size_is_valid(width: int, height: int, work: Rect) -> bool {
    &&& extent_is_valid(width, work.left as int, work.right as int)
    &&& extent_is_valid(height, work.top as int, work.bottom as int)
}

pub fn expanded_destination(
    rect: Rect,
    edge: AnchorEdge,
    width: i32,
    height: i32,
    work: Rect,
) -> (placed: (Point, ExpansionAlignment))
    requires
        size_is_valid(width as int, height as int, work),
    ensures
        (placed.0.x as int, placed.0.y as int, placed.1) == expansion_target(
            rect,
            edge,
            width as int,
            height as int,
            work,
        ),
{
    match edge {
        AnchorEdge::Left | AnchorEdge::Right => {
            let (y, alignment) = expansion_axis(
                rect.top,
                rect.bottom,
                height,
                work.top,
                work.bottom,
            );
            let x: i32 = if edge == AnchorEdge::Left {
                rect.left
            } else {
                saturating_diff(rect.right, width)
            };
            (Point { x: clamp_axis(x, width, work.left, work.right), y }, alignment)
        },
        AnchorEdge::Top | AnchorEdge::Bottom => {
            let (x, alignment) = expansion_axis(
                rect.left,
                rect.right,
                width,
                work.left,
                work.right,
            );
            let y: i32 = if edge == AnchorEdge::Top {
                rect.top
            } else {
                saturating_diff(rect.bottom, height)
            };
            (Point { x, y: clamp_axis(y, height, work.top, work.bottom) }, alignment)
        },
    }
}

/// Horizontal position of a window of `width` that keeps the anchored side of `rect`.
pub open spec fn anchored_x(
    rect: Rect,
    edge: AnchorEdge,
    width: int,
    alignment: ExpansionAlignment,
) -> int {
    match edge {
        AnchorEdge::Left => rect.left as int,
        AnchorEdge::Right => fixed::saturated(rect.right - width),
        _ => match alignment {
            ExpansionAlignment::Start => rect.left as int,
            ExpansionAlignment::End => fixed::saturated(rect.right - width),
        },
    }
}

/// Vertical position of a window of `height` that keeps the anchored side of `rect`.
pub open spec fn anchored_y(
    rect: Rect,
    edge: AnchorEdge,
    height: int,
    alignment: ExpansionAlignment,
) -> int {
    match edge {
        AnchorEdge::Top => rect.top as int,
        AnchorEdge::Bottom => fixed::saturated(rect.bottom - height),
        _ => match alignment {
            ExpansionAlignment::Start => rect.top as int,
            ExpansionAlignment::End => fixed::saturated(rect.bottom - height),
        },
    }
}

/// Where a window resized to `width` by `height` goes: it keeps the docked edge and the end it
/// was aligned with, and stays within the work area.
pub open spec fn anchor_target(
    rect: Rect,
    edge: AnchorEdge,
    width: int,
    height: int,
    work: Rect,
    alignment: ExpansionAlignment,
) -> (int, int) {
    (
        axis_within(
            anchored_x(rect, edge, width, alignment),
            width,
            work.left as int,
            work.right as int,
        ),
        axis_within(
            anchored_y(rect, edge, height, alignment),
            height,
            work.top as int,
            work.bottom as int,
        ),
    )
}

pub fn anchored_destination(
    rect: Rect,
    edge: AnchorEdge,
    width: i32,
    height: i32,
    work: Rect,
    alignment: ExpansionAlignment,
) -> (placed: Point)
    requires
        size_is_valid(width as int, height as int, work),
    ensures
        (placed.x as int, placed.y as int) == anchor_target(
            rect,
            edge,
            width as int,
            height as int,
            work,
            alignment,
        ),
{
    let mut x: i32 = match alignment {
        ExpansionAlignment::Start => rect.left,
        ExpansionAlignment::End => saturating_diff(rect.right, width),
    };
    let mut y: i32 = match alignment {
        ExpansionAlignment::Start => rect.top,
        ExpansionAlignment::End => saturating_diff(rect.bottom, height),
    };
    match edge {
        AnchorEdge::Left => x = rect.left,
        AnchorEdge::Right => x = saturating_diff(rect.right, width),
        AnchorEdge::Top => y = rect.top,
        AnchorEdge::Bottom => y = saturating_diff(rect.bottom, height),
    }
    Point {
        x: clamp_axis(x, width, work.left, work.right),
        y: clamp_axis(y, height, work.top, work.bottom),
    }
}

/// A work area as a monitor reports it: not inverted, and no wider than an `i32` counts.
pub open spec fn is_work_area(work: Rect) -> bool {
    &&& 0 <= work.right - work.left <= i32::MAX
    &&& 0 <= work.bottom - work.top <= i32::MAX
}

/// Whether `inner` lies within `outer`.
pub open spec fn lies_within(inner: Rect, outer: Rect) -> bool {
    &&& outer.left <= inner.left <= inner.right <= outer.right
    &&& outer.top <= inner.top <= inner.bottom <= outer.bottom
}

/// The rectangle of a window of `width` by `height` at `at`.
pub open spec fn rect_at(at: Point, width: int, height: int) -> Rect {
    Rect {
        left: at.x,
        top: at.y,
        right: (at.x + width) as i32,
        bottom: (at.y + height) as i32,
    }
}

/// An expanded panel that fits the work area lies within it.
pub proof fn law_expansion_stays_inside(
    rect: Rect,
    edge: AnchorEdge,
    width: i32,
    height: i32,
    work: Rect,
)
    requires
        is_work_area(work),
        0 <= width <= work.right - work.left,
        0 <= height <= work.bottom - work.top,
    ensures
        ({
            let (x, y, _) = expansion_target(rect, edge, width as int, height as int, work);
            &&& work.left <= x && x + width <= work.right
            &&& work.top <= y && y + height <= work.bottom
        }),
{
}

/// Collapsing undoes expanding: with the alignment that the expansion chose, the ball comes
/// back to exactly where it was, whenever the ball lay in the work area, the panel is no
/// smaller than the ball, and the panel fits beside or on the ball's docked side.
pub proof fn law_collapse_undoes_expansion(
    ball: Rect,
    edge: AnchorEdge,
    width: i32,
    height: i32,
    work: Rect,
)
    requires
        is_work_area(work),
        lies_within(ball, work),
        ball.right - ball.left <= width <= work.right - work.left,
        ball.bottom - ball.top <= height <= work.bottom - work.top,
        match edge {
            AnchorEdge::Left => ball.left + width <= work.right,
            AnchorEdge::Right => ball.right - width >= work.left,
            AnchorEdge::Top => ball.top + height <= work.bottom,
            AnchorEdge::Bottom => ball.bottom - height >= work.top,
        },
        match edge {
            AnchorEdge::Left | AnchorEdge::Right => ball.top + height <= work.bottom || ball.bottom
                - height >= work.top,
            AnchorEdge::Top | AnchorEdge::Bottom => ball.left + width <= work.right || ball.right
                - width >= work.left,
        },
    ensures
        ({
            let (x, y, alignment) = expansion_target(
                ball,
                edge,
                width as int,
                height as int,
                work,
            );
            let panel = rect_at(Point { x: x as i32, y: y as i32 }, width as int, height as int);
            anchor_target(
                panel,
                edge,
                ball.right - ball.left,
                ball.bottom - ball.top,
                work,
                alignment,
            ) == (ball.left as int, ball.top as int)
        }),
{
}

/// Where the ball docks: `offset` pixels along `edge`, kept within the work area.
pub open spec fn docked_at(edge: AnchorEdge, offset: int, work: Rect, side: int) -> (int, int) {
    let along_y = fixed::clamped(work.top + offset, work.top as int, work.bottom - side);
    let along_x = fixed::clamped(work.left + offset, work.left as int, work.right - side);
    match edge {
        AnchorEdge::Left => (work.left as int, along_y),
        AnchorEdge::Right => (work.right - side, along_y),
        AnchorEdge::Top => (along_x, work.top as int),
        AnchorEdge::Bottom => (along_x, work.bottom - side),
    }
}

/// The configured distance along the edge, in pixels; a negative one counts as zero.
pub open spec fn offset_pixels(offset_dip: i64, dpi: u32) -> int {
    pixels(if offset_dip < 0 {
        0
    } else {
        offset_dip as int
    }, dpi as int)
}

pub fn position_from_config(config: &AppConfigV1, work: Rect, side: i32, dpi: u32) -> (at: Point)
    requires
        is_work_area(work),
        0 <= side <= work.right - work.left,
        0 <= side <= work.bottom - work.top,
        work.top + offset_pixels(config.placement.offset_dip, dpi) <= i32::MAX,
        work.left + offset_pixels(config.placement.offset_dip, dpi) <= i32::MAX,
    ensures
        (at.x as int, at.y as int) == docked_at(
            config.placement.edge,
            offset_pixels(config.placement.offset_dip, dpi),
            work,
            side as int,
        ),
{
    let offset_dip: i64 = if config.placement.offset_dip < 0 {
        0
    } else {
        config.placement.offset_dip
    };
    let offset: i32 = dip_to_px(offset_dip, dpi);
    proof {
        fixed::law_nearest_is_monotonic(0, offset_dip * dpi, 96_000_000);
        assert(0 <= offset_dip * dpi) by (nonlinear_arith)
            requires
                offset_dip >= 0,
                dpi >= 0,
        ;
        fixed::law_nearest_of_a_multiple(0, 96_000_000);
    }
    match config.placement.edge {
        AnchorEdge::Left => Point {
            x: work.left,
            y: clamp_i32(work.top + offset, work.top, work.bottom - side),
        },
        AnchorEdge::Right => Point {
            x: work.right - side,
            y: clamp_i32(work.top + offset, work.top, work.bottom - side),
        },
        AnchorEdge::Top => Point {
            x: clamp_i32(work.left + offset, work.left, work.right - side),
            y: work.top,
        },
        AnchorEdge::Bottom => Point {
            x: clamp_i32(work.left + offset, work.left, work.right - side),
            y: work.bottom - side,
        },
    }
}

/// Wherever it is configured to dock, the ball lies within the work area.
pub proof fn law_docking_stays_inside(edge: AnchorEdge, offset: int, work: Rect, side: int)
    requires
        is_work_area(work),
        0 <= side <= work.right - work.left,
        0 <= side <= work.bottom - work.top,
    ensures
        ({
            let (x, y) = docked_at(edge, offset, work, side);
            &&& work.left <= x && x + side <= work.right
            &&& work.top <= y && y + side <= work.bottom
        }),
{
}

/// Centre of the corner circle that governs a coordinate, if it lies in a corner band.
pub open spec fn corner_center(at: int, extent: int, radius: int) -> Option<int> {
    if at < radius {
        Some(radius)
    } else if at >= extent - radius {
        Some(extent - radius - 1)
    } else {
        None
    }
}

pub open spec fn squared(n: int) -> int {
    n * n
}

/// Whether a point lies in a rectangle with rounded corners, both given from its top-left
/// corner: within the bounds, and in a corner square within the corner circle.
pub open spec fn rounded_rect_contains(
    x: int,
    y: int,
    width: int,
    height: int,
    radius: int,
) -> bool {
    &&& 0 <= x < width
    &&& 0 <= y < height
    &&& match (corner_center(x, width, radius), corner_center(y, height, radius)) {
        (Some(cx), Some(cy)) => squared(x - cx) + squared(y - cy) <= squared(radius),
        _ => true,
    }
}

pub fn point_in_rounded_rect(x: i32, y: i32, width: i32, height: i32, radius: i32) -> (inside: bool)
    ensures
        inside == rounded_rect_contains(
            x as int,
            y as int,
            width as int,
            height as int,
            radius as int,
        ),
{
    if x < 0 || y < 0 || x >= width || y >= height {
        return false;
    }
    let (px, py) = (x as i64, y as i64);
    let (w, h, r) = (width as i64, height as i64, radius as i64);
    let corner_x: i64 = if px < r {
        r
    } else if px >= w - r {
        w - r - 1
    } else {
        return true;
    };
    let corner_y: i64 = if py < r {
        r
    } else if py >= h - r {
        h - r - 1
    } else {
        return true;
    };
    circle_contains(px - corner_x, py - corner_y, r)
}

fn circle_contains(dx: i64, dy: i64, radius: i64) -> (inside: bool)
    requires
        -0x4_0000_0000 <= dx <= 0x4_0000_0000,
        -0x4_0000_0000 <= dy <= 0x4_0000_0000,
        -0x4_0000_0000 <= radius <= 0x4_0000_0000,
    ensures
        inside == (squared(dx as int) + squared(dy as int) <= squared(radius as int)),
{
    let bound: Ghost<int> = Ghost(0x4_0000_0000);
    proof {
        assert forall|n: int| -bound@ <= n <= bound@ implies 0 <= #[trigger] squared(n)
            <= 0x10_0000_0000_0000_0000 by {
            assert(0 <= n * n <= 0x4_0000_0000 * 0x4_0000_0000) by (nonlinear_arith)
                requires
                    -0x4_0000_0000 <= n <= 0x4_0000_0000,
            ;
        }
        assert(squared(dx as int) <= 0x10_0000_0000_0000_0000);
        assert(squared(dy as int) <= 0x10_0000_0000_0000_0000);
        assert(squared(radius as int) <= 0x10_0000_0000_0000_0000);
    }
    dx as i128 * dx as i128 + dy as i128 * dy as i128 <= radius as i128 * radius as i128
}

/// A rounded rectangle looks the same from the left and from the right.
pub proof fn law_rounded_rect_is_mirror_symmetric(
    x: int,
    y: int,
    width: int,
    height: int,
    radius: int,
)
    requires
        0 <= radius,
        2 * radius <= width,
        2 * radius <= height,
    ensures
        rounded_rect_contains(width - 1 - x, y, width, height, radius) == rounded_rect_contains(
            x,
            y,
            width,
            height,
            radius,
        ),
        rounded_rect_contains(x, height - 1 - y, width, height, radius) == rounded_rect_contains(
            x,
            y,
            width,
            height,
            radius,
        ),
{
    assert forall|a: int, b: int| a == -b implies #[trigger] squared(a) == #[trigger] squared(
        b,
    ) by {
        assert(a * a == b * b) by (nonlinear_arith)
            requires
                a == -b,
        ;
    }
    match corner_center(x, width, radius) {
        Some(cx) => {
            let mx = width - 1 - x;
            assert(corner_center(mx, width, radius) is Some);
            assert(squared(mx - corner_center(mx, width, radius)->0) == squared(x - cx));
        },
        None => {},
    }
    match corner_center(y, height, radius) {
        Some(cy) => {
            let my = height - 1 - y;
            assert(corner_center(my, height, radius) is Some);
            assert(squared(my - corner_center(my, height, radius)->0) == squared(y - cy));
        },
        None => {},
    }
}

/// Whether a click at `point` misses the panel shown in `rect`.
pub fn point_is_outside_rounded_rect(point: Point, rect: Rect, radius: i32) -> (outside: bool)
    requires
        i32::MIN <= point.x - rect.left <= i32::MAX,
        i32::MIN <= point.y - rect.top <= i32::MAX,
        i32::MIN <= rect.right - rect.left <= i32::MAX,
        i32::MIN <= rect.bottom - rect.top <= i32::MAX,
    ensures
        outside == !rounded_rect_contains(
            point.x - rect.left,
            point.y - rect.top,
            rect.right - rect.left,
            rect.bottom - rect.top,
            radius as int,
        ),
{
    !point_in_rounded_rect(
        point.x - rect.left,
        point.y - rect.top,
        rect.right - rect.left,
        rect.bottom - rect.top,
        radius,
    )
}

/// Half of a length, rounded towards zero.
pub open spec fn half(n: int) -> int {
    if n < 0 {
        -((-n) / 2)
    } else {
        n / 2
    }
}

/// The middle of a side.
fn middle(start: i32, end: i32) -> (at: i32)
    requires
        i32::MIN <= end - start <= i32::MAX,
    ensures
        at == start + half(end - start),
{
    let extent: i64 = end as i64 - start as i64;
    (start as i64 + half_of(extent)) as i32
}

/// The middle of a rectangle.
pub fn center(rect: Rect) -> (at: Point)
    requires
        i32::MIN <= rect.right - rect.left <= i32::MAX,
        i32::MIN <= rect.bottom - rect.top <= i32::MAX,
    ensures
        at.x == rect.left + half(rect.right - rect.left),
        at.y == rect.top + half(rect.bottom - rect.top),
{
    Point { x: middle(rect.left, rect.right), y: middle(rect.top, rect.bottom) }
}

/// A longer length is no shorter in pixels.
pub proof fn law_pixels_are_monotonic(a: int, b: int, dpi: int)
    requires
        a <= b,
        dpi >= 0,
    ensures
        pixels(a, dpi) <= pixels(b, dpi),
{
    assert(a * dpi <= b * dpi) by (nonlinear_arith)
        requires
            a <= b,
            dpi >= 0,
    ;
    fixed::law_nearest_is_monotonic(a * dpi, b * dpi, 96_000_000);
}

/// Lengths stay nonnegative in pixels.
pub proof fn law_pixels_are_nonnegative(value: int, dpi: int)
    requires
        value >= 0,
        dpi >= 0,
    ensures
        0 <= pixels(value, dpi) <= i32::MAX,
{
    assert(0 <= value * dpi) by (nonlinear_arith)
        requires
            value >= 0,
            dpi >= 0,
    ;
    fixed::law_nearest_is_monotonic(0, value * dpi, 96_000_000);
    fixed::law_nearest_of_a_multiple(0, 96_000_000);
}

/// Whether a point lies in the ball: the circle of `radius` around the middle of the window.
pub open spec fn ball_contains(x: int, y: int, width: int, height: int, radius: int) -> bool {
    squared(x - half(width)) + squared(y - half(height)) <= squared(radius)
}

fn half_of(n: i64) -> (h: i64)
    requires
        n > i64::MIN,
    ensures
        h == half(n as int),
{
    if n < 0 {
        -((-n) / 2)
    } else {
        n / 2
    }
}

pub fn point_in_ball(x: i32, y: i32, width: i32, height: i32, radius: i32) -> (inside: bool)
    ensures
        inside == ball_contains(x as int, y as int, width as int, height as int, radius as int),
{
    circle_contains(
        x as i64 - half_of(width as i64),
        y as i64 - half_of(height as i64),
        radius as i64,
    )
}

/// Ninety-six dots per inch make one pixel of one device-independent pixel, and a length in pixels
/// is the nearest whole number to that.
pub proof fn law_pixels_are_the_nearest(value: i64, dpi: u32, px: i32)
    requires
        call_ensures(dip_to_px, (value, dpi), px),
    ensures
        i32::MIN < px < i32::MAX ==> -96_000_000 <= 2 * (px * 96_000_000 - value * dpi)
            <= 96_000_000,
        px == i32::MAX ==> 2 * (value * dpi) >= (2 * i32::MAX - 1) * 96_000_000,
        px == i32::MIN ==> 2 * (value * dpi) <= (2 * i32::MIN + 1) * 96_000_000,
{
    fixed::law_nearest_is_within_half_a_step(value * dpi, 96_000_000);
}

/// A length in pixels is turned into the nearest millionth of a device-independent pixel.
pub proof fn law_dips_are_the_nearest(value: i32, dpi: u32, dip: i64)
    requires
        call_ensures(px_to_dip, (value, dpi), dip),
    ensures
        dpi >= 1 ==> -dpi <= 2 * (dip * dpi - value * 96_000_000) <= dpi,
        dpi == 0 ==> dip == value * 96_000_000,
{
    if dpi >= 1 {
        fixed::law_nearest_is_within_half_a_step(value * 96_000_000, dpi as int);
    } else {
        fixed::law_nearest_of_a_multiple(value * 96_000_000, 1);
        assert(value * 96_000_000 * 1 == value * 96_000_000);
    }
}

/// An interpolated value is the nearest to the exact one.
pub proof fn law_interpolation_is_proportional(start: i64, end: i64, progress: i64, value: i64)
    requires
        call_ensures(lerp, (start, end, progress), value),
    ensures
        progress <= 0 ==> value == start,
        progress >= 1_000_000_000 ==> value == end,
        0 <= progress <= 1_000_000_000 ==> -1_000_000_000 <= 2 * ((value - start) * 1_000_000_000
            - (end - start) * progress) <= 1_000_000_000,
{
    law_between_stays_between(start as int, end as int, progress as int);
    fixed::law_nearest_is_within_half_a_step(
        (end - start) * fixed::clamped(progress as int, 0, UNIT as int),
        1_000_000_000,
    );
}

/// What fits the work area is moved no further than into it, and stays where it is where it
/// already lies within; what does not fit starts where the work area starts.
pub proof fn law_an_axis_is_moved_just_inside(
    position: i32,
    extent: i32,
    work_start: i32,
    work_end: i32,
    kept: i32,
)
    requires
        call_ensures(clamp_axis, (position, extent, work_start, work_end), kept),
        0 <= extent,
        0 <= work_end - work_start <= i32::MAX,
    ensures
        extent >= work_end - work_start ==> kept == work_start,
        extent <= work_end - work_start ==> {
            &&& work_start <= position && position + extent <= work_end ==> kept == position
            &&& position < work_start ==> kept == work_start
            &&& position + extent > work_end ==> kept + extent == work_end
        },
{
}

/// Along its edge a panel starts where the ball starts if that fits, otherwise ends where the ball
/// ends if that fits, and otherwise goes as close to the start as the work area allows.
pub proof fn law_a_panel_lines_up_with_the_ball(
    start: i32,
    end: i32,
    extent: i32,
    work_start: i32,
    work_end: i32,
    placed: (i32, ExpansionAlignment),
)
    requires
        call_ensures(expansion_axis, (start, end, extent, work_start, work_end), placed),
        0 <= extent <= work_end - work_start <= i32::MAX,
        i32::MIN <= end - extent,
        work_end - start <= i32::MAX,
    ensures
        ({
            let with_start = work_start <= start && start + extent <= work_end;
            let with_end = work_start <= end - extent && end <= work_end;
            &&& with_start ==> placed == (start, ExpansionAlignment::Start)
            &&& !with_start && with_end ==> placed == (
                (end - extent) as i32,
                ExpansionAlignment::End,
            )
            &&& !with_start && !with_end && start < work_start ==> placed == (
                work_start,
                ExpansionAlignment::Start,
            )
            &&& !with_start && !with_end && start >= work_start ==> placed == (
                (work_end - extent) as i32,
                ExpansionAlignment::Start,
            )
        }),
{
}

/// A panel opens away from the edge that its ball is docked to, along which it lines up with the
/// ball.
pub proof fn law_a_panel_opens_away_from_its_edge(
    rect: Rect,
    edge: AnchorEdge,
    width: i32,
    height: i32,
    work: Rect,
    placed: (Point, ExpansionAlignment),
    along_x: (i32, ExpansionAlignment),
    along_y: (i32, ExpansionAlignment),
)
    requires
        is_work_area(work),
        lies_within(rect, work),
        0 <= width <= work.right - work.left,
        0 <= height <= work.bottom - work.top,
        call_ensures(expanded_destination, (rect, edge, width, height, work), placed),
        call_ensures(
            expansion_axis,
            (rect.left, rect.right, width, work.left, work.right),
            along_x,
        ),
        call_ensures(
            expansion_axis,
            (rect.top, rect.bottom, height, work.top, work.bottom),
            along_y,
        ),
    ensures
        edge is Left || edge is Right ==> placed.0.y == along_y.0 && placed.1 == along_y.1,
        edge is Top || edge is Bottom ==> placed.0.x == along_x.0 && placed.1 == along_x.1,
        edge is Left && rect.left + width <= work.right ==> placed.0.x == rect.left,
        edge is Right && rect.right - width >= work.left ==> placed.0.x + width == rect.right,
        edge is Top && rect.top + height <= work.bottom ==> placed.0.y == rect.top,
        edge is Bottom && rect.bottom - height >= work.top ==> placed.0.y + height == rect.bottom,
        work.left <= placed.0.x && placed.0.x + width <= work.right,
        work.top <= placed.0.y && placed.0.y + height <= work.bottom,
{
}

/// A window that changes its size keeps the side it is docked with, and along that the end it is
/// aligned with, unless it would leave the work area.
pub proof fn law_a_resized_window_keeps_its_anchor(
    rect: Rect,
    edge: AnchorEdge,
    width: i32,
    height: i32,
    work: Rect,
    alignment: ExpansionAlignment,
    placed: Point,
)
    requires
        is_work_area(work),
        lies_within(rect, work),
        0 <= width <= work.right - work.left,
        0 <= height <= work.bottom - work.top,
        call_ensures(
            anchored_destination,
            (rect, edge, width, height, work, alignment),
            placed,
        ),
    ensures
        ({
            let keeps_left = edge is Left || (!(edge is Right) && alignment is Start);
            let keeps_top = edge is Top || (!(edge is Bottom) && alignment is Start);
            &&& keeps_left && rect.left + width <= work.right ==> placed.x == rect.left
            &&& keeps_left && rect.left + width > work.right ==> placed.x + width == work.right
            &&& !keeps_left && rect.right - width >= work.left ==> placed.x + width == rect.right
            &&& !keeps_left && rect.right - width < work.left ==> placed.x == work.left
            &&& keeps_top && rect.top + height <= work.bottom ==> placed.y == rect.top
            &&& keeps_top && rect.top + height > work.bottom ==> placed.y + height == work.bottom
            &&& !keeps_top && rect.bottom - height >= work.top ==> placed.y + height == rect.bottom
            &&& !keeps_top && rect.bottom - height < work.top ==> placed.y == work.top
        }),
{
}

/// At the start the ball touches the configured edge, as far along it as configured or as the work
/// area reaches.
pub proof fn law_the_ball_starts_where_it_was_left(
    config: &AppConfigV1,
    work: Rect,
    side: i32,
    dpi: u32,
    at: Point,
    offset: i32,
)
    requires
        is_work_area(work),
        0 <= side <= work.right - work.left,
        0 <= side <= work.bottom - work.top,
        call_ensures(position_from_config, (config, work, side, dpi), at),
        config.placement.offset_dip >= 0 ==> call_ensures(
            dip_to_px,
            (config.placement.offset_dip, dpi),
            offset,
        ),
        config.placement.offset_dip < 0 ==> offset == 0,
    ensures
        match config.placement.edge {
            AnchorEdge::Left => at.x == work.left,
            AnchorEdge::Right => at.x + side == work.right,
            AnchorEdge::Top => at.y == work.top,
            AnchorEdge::Bottom => at.y + side == work.bottom,
        },
        ({
            let (along, room) = match config.placement.edge {
                AnchorEdge::Left | AnchorEdge::Right => (
                    at.y - work.top,
                    work.bottom - work.top - side,
                ),
                AnchorEdge::Top | AnchorEdge::Bottom => (
                    at.x - work.left,
                    work.right - work.left - side,
                ),
            };
            &&& offset <= room ==> along == offset
            &&& offset > room ==> along == room
        }),
{
    let kept = if config.placement.offset_dip < 0 {
        0
    } else {
        config.placement.offset_dip as int
    };
    law_pixels_are_nonnegative(kept, dpi as int);
    fixed::law_nearest_of_a_multiple(0, 96_000_000);
    assert(0 * (dpi as int) == 0);
}

/// A rounded rectangle is its bounds without the parts of the corner squares that lie outside the
/// corner circles.
pub proof fn law_only_corners_are_cut_off(
    x: i32,
    y: i32,
    width: i32,
    height: i32,
    radius: i32,
    inside: bool,
)
    requires
        call_ensures(point_in_rounded_rect, (x, y, width, height, radius), inside),
        0 <= radius,
    ensures
        inside ==> 0 <= x < width && 0 <= y < height,
        ({
            let bounded = 0 <= x < width && 0 <= y < height;
            let r = radius as int;
            let from_left = x - r;
            let from_right = x - (width - r - 1);
            let from_top = y - r;
            let from_bottom = y - (height - r - 1);
            &&& bounded && (r <= x < width - r || r <= y < height - r) ==> inside
            &&& bounded && x < r && y < r ==> (inside <==> from_left * from_left + from_top
                * from_top <= r * r)
            &&& bounded && x < r && r <= y && height - r <= y ==> (inside <==> from_left * from_left
                + from_bottom * from_bottom <= r * r)
            &&& bounded && r <= x && width - r <= x && y < r ==> (inside <==> from_right * from_right
                + from_top * from_top <= r * r)
            &&& bounded && r <= x && width - r <= x && r <= y && height - r <= y ==> (inside
                <==> from_right * from_right + from_bottom * from_bottom <= r * r)
        }),
{
}

/// A click is outside exactly where the panel, moved to the origin, does not hold it.
pub proof fn law_outside_is_not_inside(
    point: Point,
    rect: Rect,
    radius: i32,
    outside: bool,
    x: i32,
    y: i32,
    width: i32,
    height: i32,
    inside: bool,
)
    requires
        call_ensures(point_is_outside_rounded_rect, (point, rect, radius), outside),
        x == point.x - rect.left,
        y == point.y - rect.top,
        width == rect.right - rect.left,
        height == rect.bottom - rect.top,
        call_ensures(point_in_rounded_rect, (x, y, width, height, radius), inside),
    ensures
        outside == !inside,
{
}

/// The ball is the disc around the middle of its window.
pub proof fn law_the_ball_is_a_disc(
    x: i32,
    y: i32,
    width: i32,
    height: i32,
    radius: i32,
    inside: bool,
)
    requires
        call_ensures(point_in_ball, (x, y, width, height, radius), inside),
        width >= 0,
        height >= 0,
    ensures
        ({
            let dx = x - width / 2;
            let dy = y - height / 2;
            inside <==> dx * dx + dy * dy <= radius * radius
        }),
{
}

/// The middle of a rectangle is as far from one side as from the other, but for an odd pixel.
pub proof fn law_the_middle_is_in_the_middle(rect: Rect, at: Point)
    requires
        call_ensures(center, (rect,), at),
        0 <= rect.right - rect.left <= i32::MAX,
        0 <= rect.bottom - rect.top <= i32::MAX,
    ensures
        0 <= (rect.right - at.x) - (at.x - rect.left) <= 1,
        0 <= (rect.bottom - at.y) - (at.y - rect.top) <= 1,
{
}

} // verus!
