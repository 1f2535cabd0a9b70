//! The pointer: hovering, dragging, docking to an edge, and clicks outside the panel.
use vstd::prelude::*;

use crate::ball::BALL_CORNER_DIP;
use crate::commands::{WM_LBUTTONDOWN, WM_MBUTTONDOWN, WM_RBUTTONDOWN, WM_XBUTTONDOWN};
use crate::config::{AnchorEdge, AppConfigV1, Placement};
use crate::fixed;
use crate::fixed::clamp_i32;
use crate::layout;
use crate::layout::{
    anchored_destination, dip_to_px, lerp, point_in_ball, point_in_rounded_rect,
    point_is_outside_rounded_rect, px_to_dip, Point, Rect, BALL_RADIUS_DIP, PANEL_CORNER_DIP,
};
use crate::motion;
use crate::motion::{animation_shape_fits, animation_shape_rect};
use crate::overlay::Frame;
use crate::snap;
use crate::snap::{DragVelocity, SnapAnimation, Velocity};
use crate::time::Instant;
use crate::window;
use crate::window::{keep_dpi, AppWindow};

verus! {

/// What to do about the watch on clicks outside.
#[derive(Clone, Copy, Debug, PartialEq, Eq, Structural)]
pub enum HookStep {
    Keep,
    Install,
    Remove,
}

/// What pressing the button leads to.
#[derive(Clone, Copy, Debug, PartialEq, Eq, Structural)]
pub enum PressStep {
    /// The panel is moving and cannot be taken hold of.
    Refused,
    /// Put the ball where it was sliding to, then take hold of it.
    Land(Point),
    /// Take hold of the ball.
    Ready,
}

/// What a moving pointer does to the highlight.
#[derive(Clone, Copy, Debug, PartialEq, Eq, Structural)]
pub enum HoverStep {
    Same,
    /// Redraw, and ask to be told when the pointer leaves.
    Entered,
    /// Redraw.
    Left,
}

/// What letting go leads to.
#[derive(Clone, Copy, Debug, PartialEq, Eq, Structural)]
pub enum ReleaseStep {
    Nothing,
    /// Slide to the edge, starting at this speed.
    Snap(Velocity),
    /// It was a click: expand or collapse.
    Toggle,
}

/// Where a pointer position counts.
#[derive(Clone, Copy, Debug, PartialEq, Eq, Structural)]
pub enum Hit {
    /// On the window.
    Client,
    /// On what lies behind the window.
    Transparent,
}

/// A frame of the slide to the edge.
#[derive(Clone, Copy, Debug, PartialEq, Eq, Structural)]
pub struct SnapFrame {
    pub frame: Frame,
    /// The slide ends with this frame.
    pub finished: bool,
}

/// Whether a position can be counted from the corner of a window, and the window has a size.
pub open spec fn is_in_reach(point: Point, rect: Rect) -> bool {
    &&& i32::MIN <= point.x - rect.left <= i32::MAX
    &&& i32::MIN <= point.y - rect.top <= i32::MAX
    &&& i32::MIN <= rect.right - rect.left <= i32::MAX
    &&& i32::MIN <= rect.bottom - rect.top <= i32::MAX
}

pub fn can_reach(point: Point, rect: Rect) -> (fits: bool)
    ensures
        fits == is_in_reach(point, rect),
{
    point.x.checked_sub(rect.left).is_some() && point.y.checked_sub(rect.top).is_some()
        && rect.right.checked_sub(rect.left).is_some() && rect.bottom.checked_sub(
        rect.top,
    ).is_some()
}

/// Whether a window at `rect` showing the ball is hit.
pub open spec fn hits_ball(point: Point, rect: Rect, dpi: u32) -> bool {
    layout::ball_contains(
        point.x - rect.left,
        point.y - rect.top,
        rect.right - rect.left,
        rect.bottom - rect.top,
        layout::pixels(BALL_RADIUS_DIP as int, dpi as int),
    )
}

/// Whether a window at `rect` with corners of this radius is hit.
pub open spec fn hits_rounded(point: Point, rect: Rect, radius: int) -> bool {
    layout::rounded_rect_contains(
        point.x - rect.left,
        point.y - rect.top,
        rect.right - rect.left,
        rect.bottom - rect.top,
        radius,
    )
}

/// The messages of a button that goes down.
pub open spec fn is_press(event: u32) -> bool {
    event == WM_LBUTTONDOWN || event == WM_MBUTTONDOWN || event == WM_RBUTTONDOWN || event
        == WM_XBUTTONDOWN
}

pub fn is_mouse_button_down(event: u32) -> (down: bool)
    ensures
        down == is_press(event),
{
    event == WM_LBUTTONDOWN || event == WM_MBUTTONDOWN || event == WM_RBUTTONDOWN || event
        == WM_XBUTTONDOWN
}

/// Whether a mouse event anywhere on the screen collapses the panel: a button goes down outside
/// of it. `panel` is where the watched panel is and its resolution, if there is one.
pub fn outside_click_mouse_proc(
    code: i32,
    event: u32,
    point: Point,
    panel: Option<(Rect, u32)>,
) -> (collapses: bool)
    requires
        code >= 0 && is_press(event) && panel is Some ==> is_in_reach(point, (panel->0).0),
    ensures
        collapses == (code >= 0 && is_press(event) && (panel matches Some((rect, dpi))
            && !hits_rounded(
            point,
            rect,
            layout::pixels(PANEL_CORNER_DIP as int, window::dpi_in_use(dpi) as int),
        ))),
{
    if code < 0 || !is_mouse_button_down(event) {
        return false;
    }
    match panel {
        Some((rect, dpi)) => point_is_outside_rounded_rect(
            point,
            rect,
            dip_to_px(PANEL_CORNER_DIP, keep_dpi(dpi)),
        ),
        None => false,
    }
}

/// Distance of a window's side from the same side of the work area.
pub open spec fn edge_distance(rect: Rect, work: Rect, edge: AnchorEdge) -> int {
    fixed::magnitude(
        match edge {
            AnchorEdge::Left => rect.left - work.left,
            AnchorEdge::Right => work.right - rect.right,
            AnchorEdge::Top => rect.top - work.top,
            AnchorEdge::Bottom => work.bottom - rect.bottom,
        },
    )
}

/// The edge closest to a window; of equally close ones the first of left, right, top, bottom.
pub open spec fn nearest_edge(rect: Rect, work: Rect) -> AnchorEdge {
    let left = edge_distance(rect, work, AnchorEdge::Left);
    let right = edge_distance(rect, work, AnchorEdge::Right);
    let top = edge_distance(rect, work, AnchorEdge::Top);
    let bottom = edge_distance(rect, work, AnchorEdge::Bottom);
    if left <= right && left <= top && left <= bottom {
        AnchorEdge::Left
    } else if right <= top && right <= bottom {
        AnchorEdge::Right
    } else if top <= bottom {
        AnchorEdge::Top
    } else {
        AnchorEdge::Bottom
    }
}

fn span(a: i32, b: i32) -> (distance: i64)
    ensures
        distance == fixed::magnitude(a - b),
{
    let d: i64 = a as i64 - b as i64;
    if d < 0 {
        -d
    } else {
        d
    }
}

fn closest_edge(rect: Rect, work: Rect) -> (edge: AnchorEdge)
    ensures
        edge == nearest_edge(rect, work),
{
    let left: i64 = span(rect.left, work.left);
    let right: i64 = span(work.right, rect.right);
    let top: i64 = span(rect.top, work.top);
    let bottom: i64 = span(work.bottom, rect.bottom);
    if left <= right && left <= top && left <= bottom {
        AnchorEdge::Left
    } else if right <= top && right <= bottom {
        AnchorEdge::Right
    } else if top <= bottom {
        AnchorEdge::Top
    } else {
        AnchorEdge::Bottom
    }
}

/// No edge is closer than the one that a window docks to.
pub proof fn law_docks_to_the_closest_edge(rect: Rect, work: Rect, edge: AnchorEdge)
    ensures
        edge_distance(rect, work, nearest_edge(rect, work)) <= edge_distance(rect, work, edge),
{
}

/// Where a window goes when it docks: against the nearest edge, and along it where it is, as far
/// as the work area reaches.
pub open spec fn dock_target(rect: Rect, work: Rect) -> (int, int) {
    let width = rect.right - rect.left;
    let height = rect.bottom - rect.top;
    let edge = nearest_edge(rect, work);
    (
        match edge {
            AnchorEdge::Left => work.left as int,
            AnchorEdge::Right => work.right - width,
            _ => fixed::clamped(rect.left as int, work.left as int, work.right - width),
        },
        match edge {
            AnchorEdge::Top => work.top as int,
            AnchorEdge::Bottom => work.bottom - height,
            _ => fixed::clamped(rect.top as int, work.top as int, work.bottom - height),
        },
    )
}

/// Distance along the edge of a window docked at `at`, in pixels.
pub open spec fn dock_offset(edge: AnchorEdge, at: (int, int), work: Rect) -> int {
    match edge {
        AnchorEdge::Left | AnchorEdge::Right => at.1 - work.top,
        AnchorEdge::Top | AnchorEdge::Bottom => at.0 - work.left,
    }
}

/// A window that fits the work area and has a size.
pub open spec fn can_dock(rect: Rect, work: Rect) -> bool {
    &&& layout::is_work_area(work)
    &&& 0 <= rect.right - rect.left <= work.right - work.left
    &&& 0 <= rect.bottom - rect.top <= work.bottom - work.top
}

/// A docked window lies within the work area and touches the nearest edge.
pub proof fn law_docked_window_touches_its_edge(rect: Rect, work: Rect)
    requires
        can_dock(rect, work),
    ensures
        ({
            let (x, y) = dock_target(rect, work);
            let width = rect.right - rect.left;
            let height = rect.bottom - rect.top;
            &&& work.left <= x && x + width <= work.right
            &&& work.top <= y && y + height <= work.bottom
            &&& match nearest_edge(rect, work) {
                AnchorEdge::Left => x == work.left,
                AnchorEdge::Right => x + width == work.right,
                AnchorEdge::Top => y == work.top,
                AnchorEdge::Bottom => y + height == work.bottom,
            }
        }),
{
}

/// What docking remembers is where the ball is put when the application starts again.
pub proof fn law_docking_is_remembered(rect: Rect, work: Rect, dpi: u32)
    requires
        can_dock(rect, work),
        rect.right - rect.left == rect.bottom - rect.top,
        1 <= dpi < 96_000_000,
    ensures
        ({
            let edge = nearest_edge(rect, work);
            let offset = dock_offset(edge, dock_target(rect, work), work);
            let remembered = layout::dips(offset, dpi as int);
            layout::docked_at(
                edge,
                layout::offset_pixels(remembered as i64, dpi),
                work,
                rect.right - rect.left,
            ) == dock_target(rect, work)
        }),
{
    law_docked_window_touches_its_edge(rect, work);
    let edge = nearest_edge(rect, work);
    let offset = dock_offset(edge, dock_target(rect, work), work);
    let remembered = layout::dips(offset, dpi as int);
    assert(0 <= offset <= i32::MAX);
    layout::law_pixels_survive_the_round_trip(offset as i32, dpi);
    lemma_dips_fit(offset, dpi as int);
}

proof fn lemma_dips_fit(offset: int, dpi: int)
    requires
        0 <= offset <= i32::MAX,
        dpi >= 1,
    ensures
        0 <= layout::dips(offset, dpi) <= i64::MAX,
{
    let n = offset * 96_000_000;
    let bound: int = 206_158_430_208_000_000;
    fixed::law_nearest_of_a_multiple(0, dpi);
    fixed::law_nearest_is_monotonic(0, n, dpi);
    fixed::law_nearest_of_a_multiple(bound, dpi);
    assert(n <= bound * dpi) by (nonlinear_arith)
        requires
            n <= bound,
            bound >= 0,
            dpi >= 1,
    ;
    fixed::law_nearest_is_monotonic(n, bound * dpi, dpi);
}

impl AppWindow {
    /// Clicks outside are watched while the panel stands open and collapses on them.
    pub open spec fn wants_hook(self) -> bool {
        self.visible && self.overlay_active && self.expanded && self.animation is None
            && self.config.collapse_on_outside_click
    }

    /// Brings the watch on clicks outside into line with the window's state. Whether an
    /// installation succeeded is reported with [`AppWindow::install_outside_click_hook`].
    pub fn update_outside_click_hook(&mut self) -> (step: HookStep)
        requires
            old(self).well_formed(),
        ensures
            final(self).well_formed(),
            step == (if old(self).wants_hook() && !old(self).hook_installed {
                HookStep::Install
            } else if !old(self).wants_hook() && old(self).hook_installed {
                HookStep::Remove
            } else {
                HookStep::Keep
            }),
            *final(self) == (AppWindow {
                hook_installed: old(self).hook_installed && old(self).wants_hook(),
                ..*old(self)
            }),
    {
        let wanted = self.visible && self.overlay_active && self.expanded
            && self.animation.is_none() && self.config.collapse_on_outside_click;
        if wanted && !self.hook_installed {
            HookStep::Install
        } else if !wanted && self.remove_outside_click_hook() {
            HookStep::Remove
        } else {
            HookStep::Keep
        }
    }

    /// An installation that was asked for has been tried.
    pub fn install_outside_click_hook(&mut self, succeeded: bool)
        requires
            old(self).well_formed(),
            old(self).overlay_active,
        ensures
            final(self).well_formed(),
            *final(self) == (AppWindow { hook_installed: succeeded, ..*old(self) }),
    {
        self.hook_installed = succeeded;
    }

    /// Says whether there was a watch to remove.
    pub fn remove_outside_click_hook(&mut self) -> (removed: bool)
        requires
            old(self).well_formed(),
        ensures
            final(self).well_formed(),
            removed == old(self).hook_installed,
            *final(self) == (AppWindow { hook_installed: false, ..*old(self) }),
    {
        let removed = self.hook_installed;
        self.hook_installed = false;
        removed
    }

    /// The button goes down. A slide still under way ends first, so that the drag starts where
    /// the ball comes to rest.
    pub fn begin_drag(&mut self) -> (step: PressStep)
        requires
            old(self).well_formed(),
        ensures
            final(self).well_formed(),
            step == (if old(self).animation is Some {
                PressStep::Refused
            } else {
                match old(self).snap {
                    Some(slide) => PressStep::Land(slide.to),
                    None => PressStep::Ready,
                }
            }),
            *final(self) == (if old(self).animation is Some {
                *old(self)
            } else {
                AppWindow { snap: None, drag_velocity: DragVelocity::at_rest(), ..*old(self) }
            }),
    {
        if self.animation.is_some() {
            return PressStep::Refused;
        }
        let landing = self.finish_snap();
        self.drag_velocity.reset();
        match landing {
            Some(at) => PressStep::Land(at),
            None => PressStep::Ready,
        }
    }

    /// The pointer has been captured over the window at `rect`.
    pub fn hold(&mut self, cursor: Point, rect: Rect)
        requires
            old(self).well_formed(),
        ensures
            final(self).well_formed(),
            *final(self) == (AppWindow {
                pointer_down: true,
                dragging: false,
                drag_cursor_origin: cursor,
                drag_window_origin: Point { x: rect.left, y: rect.top },
                ..*old(self)
            }),
    {
        self.pointer_down = true;
        self.dragging = false;
        self.drag_cursor_origin = cursor;
        self.drag_window_origin = Point { x: rect.left, y: rect.top };
    }

    /// Whether the pointer at `cursor` drags the window: it holds it, and has once moved further
    /// than a click may.
    pub open spec fn drags(self, cursor: Point, threshold_x: i32, threshold_y: i32) -> bool {
        self.pointer_down && (self.dragging || fixed::magnitude(
            cursor.x - self.drag_cursor_origin.x,
        ) > threshold_x || fixed::magnitude(cursor.y - self.drag_cursor_origin.y) > threshold_y)
    }

    /// Where the pointer at `cursor` drags the window to.
    pub open spec fn dragged_to(self, cursor: Point) -> (int, int) {
        (
            self.drag_window_origin.x + (cursor.x - self.drag_cursor_origin.x),
            self.drag_window_origin.y + (cursor.y - self.drag_cursor_origin.y),
        )
    }

    /// The pointer moves; says where the window has to follow to, if it does.
    pub fn update_drag(
        &mut self,
        cursor: Point,
        threshold_x: i32,
        threshold_y: i32,
        now: Instant,
    ) -> (moved: Option<Point>)
        requires
            old(self).well_formed(),
            old(self).drags(cursor, threshold_x, threshold_y) ==> {
                &&& i32::MIN <= old(self).dragged_to(cursor).0 <= i32::MAX
                &&& i32::MIN <= old(self).dragged_to(cursor).1 <= i32::MAX
            },
        ensures
            final(self).well_formed(),
            moved is Some <==> old(self).drags(cursor, threshold_x, threshold_y),
            moved matches Some(at) ==> (at.x as int, at.y as int) == old(self).dragged_to(cursor),
            *final(self) == (if moved is Some {
                AppWindow {
                    dragging: true,
                    drag_velocity: DragVelocity {
                        last: Some((cursor, now)),
                        velocity: old(self).drag_velocity.velocity_after(cursor, now),
                    },
                    ..*old(self)
                }
            } else {
                *old(self)
            }),
    {
        if !self.pointer_down {
            return None;
        }
        let dx: i64 = cursor.x as i64 - self.drag_cursor_origin.x as i64;
        let dy: i64 = cursor.y as i64 - self.drag_cursor_origin.y as i64;
        if !self.dragging && span(cursor.x, self.drag_cursor_origin.x) <= threshold_x as i64
            && span(cursor.y, self.drag_cursor_origin.y) <= threshold_y as i64 {
            return None;
        }
        self.dragging = true;
        self.drag_velocity.sample(cursor, now);
        Some(
            Point {
                x: (self.drag_window_origin.x as i64 + dx) as i32,
                y: (self.drag_window_origin.y as i64 + dy) as i32,
            },
        )
    }

    /// Whether the pointer is on the ball now. `pointer` holds the pointer and the window, where
    /// both are known.
    pub fn cursor_is_over_ball(&self, pointer: Option<(Point, Rect)>) -> (over: bool)
        requires
            pointer matches Some((cursor, rect)) ==> is_in_reach(cursor, rect),
        ensures
            over == (pointer matches Some((cursor, rect)) && hits_ball(cursor, rect, self.dpi)),
    {
        match pointer {
            Some((cursor, rect)) => point_in_ball(
                cursor.x - rect.left,
                cursor.y - rect.top,
                rect.right - rect.left,
                rect.bottom - rect.top,
                dip_to_px(BALL_RADIUS_DIP, self.dpi),
            ),
            None => false,
        }
    }

    /// The pointer moves. During a drag that alone does not put it on the ball, so its position
    /// decides.
    pub fn handle_mouse_move(&mut self, pointer: Option<(Point, Rect)>) -> (step: HoverStep)
        requires
            old(self).well_formed(),
            pointer matches Some((cursor, rect)) ==> is_in_reach(cursor, rect),
        ensures
            final(self).well_formed(),
            ({
                let over = pointer matches Some((cursor, rect)) && hits_ball(
                    cursor,
                    rect,
                    old(self).dpi,
                );
                &&& *final(self) == (AppWindow { hovered: over, ..*old(self) })
                &&& step == (if over == old(self).hovered {
                    HoverStep::Same
                } else if over {
                    HoverStep::Entered
                } else {
                    HoverStep::Left
                })
            }),
    {
        let over = self.cursor_is_over_ball(pointer);
        if over == self.hovered {
            return HoverStep::Same;
        }
        self.hovered = over;
        if over {
            HoverStep::Entered
        } else {
            HoverStep::Left
        }
    }

    /// The pointer has left; says whether to redraw.
    pub fn handle_mouse_leave(&mut self) -> (redraw: bool)
        requires
            old(self).well_formed(),
        ensures
            final(self).well_formed(),
            redraw == old(self).hovered,
            *final(self) == (AppWindow { hovered: false, ..*old(self) }),
    {
        let redraw = self.hovered;
        self.hovered = false;
        redraw
    }

    /// The button goes up: after a drag the ball slides to the edge from the hand's own speed,
    /// and otherwise it was a click.
    pub fn end_drag(&mut self, now: Instant) -> (step: ReleaseStep)
        requires
            old(self).well_formed(),
        ensures
            final(self).well_formed(),
            step == (if !old(self).pointer_down {
                ReleaseStep::Nothing
            } else if old(self).dragging {
                ReleaseStep::Snap(old(self).drag_velocity.released(now))
            } else {
                ReleaseStep::Toggle
            }),
            *final(self) == (AppWindow {
                pointer_down: false,
                dragging: old(self).dragging && !old(self).pointer_down,
                ..*old(self)
            }),
    {
        if !self.pointer_down {
            return ReleaseStep::Nothing;
        }
        self.pointer_down = false;
        if self.dragging {
            self.dragging = false;
            ReleaseStep::Snap(self.drag_velocity.release_velocity(now))
        } else {
            ReleaseStep::Toggle
        }
    }

    /// Docks the window at `rect` to the nearest edge of the work area of the monitor called
    /// `device`, remembers the place, and says where the window goes.
    #[verifier::spinoff_prover]
    #[verifier::rlimit(40)]
    pub fn place_at_edge(&mut self, rect: Rect, work: Rect, device: String) -> (to: Point)
        requires
            old(self).well_formed(),
            can_dock(rect, work),
        ensures
            final(self).well_formed(),
            (to.x as int, to.y as int) == dock_target(rect, work),
            ({
                let edge = nearest_edge(rect, work);
                let offset = dock_offset(edge, dock_target(rect, work), work);
                *final(self) == (AppWindow {
                    config: AppConfigV1 {
                        placement: Placement {
                            monitor_device: device,
                            edge,
                            offset_dip: layout::dips(offset, old(self).dpi as int) as i64,
                        },
                        ..old(self).config
                    },
                    ..*old(self)
                })
            }),
    {
        let edge = closest_edge(rect, work);
        let last_x: i32 = work.right - (rect.right - rect.left);
        let last_y: i32 = work.bottom - (rect.bottom - rect.top);
        let mut x: i32 = clamp_i32(rect.left, work.left, last_x);
        let mut y: i32 = clamp_i32(rect.top, work.top, last_y);
        match edge {
            AnchorEdge::Left => x = work.left,
            AnchorEdge::Right => x = last_x,
            AnchorEdge::Top => y = work.top,
            AnchorEdge::Bottom => y = last_y,
        }
        let offset: i32 = match edge {
            AnchorEdge::Left | AnchorEdge::Right => y - work.top,
            AnchorEdge::Top | AnchorEdge::Bottom => x - work.left,
        };
        assert((x as int, y as int) == dock_target(rect, work));
        assert(offset == dock_offset(edge, dock_target(rect, work), work));
        self.config.placement.edge = edge;
        self.config.placement.monitor_device = device;
        self.config.placement.offset_dip = px_to_dip(offset, self.dpi);
        Point { x, y }
    }

    /// Whether a slide to `to` is worth its frames: there is a way to go, the system allows
    /// motion, and the ball is there to be seen.
    pub open spec fn slides(self, from: Point, to: Point) -> bool {
        from != to && self.animations_enabled && self.visible && !self.expanded
    }

    /// Starts the slide to `to`, or says that the ball goes there at once.
    pub fn start_snap(&mut self, from: Point, to: Point, velocity: Velocity, now: Instant) -> (slides:
        bool)
        requires
            old(self).well_formed(),
        ensures
            final(self).well_formed(),
            slides == old(self).slides(from, to),
            !slides ==> *final(self) == *old(self),
            slides ==> {
                let slide = final(self).snap->0;
                &&& *final(self) == (AppWindow { snap: Some(slide), ..*old(self) })
                &&& slide.started_at == now
                &&& slide.from == from
                &&& slide.to == to
                &&& snap::is_slide_millis(from, to, slide.millis())
                &&& slide.velocity.x == snap::speed_towards(
                    to.x - from.x,
                    slide.millis(),
                    velocity.x as int,
                )
                &&& slide.velocity.y == snap::speed_towards(
                    to.y - from.y,
                    slide.millis(),
                    velocity.y as int,
                )
            },
    {
        let slide = SnapAnimation::new(from, to, velocity, now);
        if slide.is_noop() || !self.animations_enabled || !self.visible || self.expanded {
            return false;
        }
        self.snap = Some(slide);
        true
    }

    /// The next frame of the slide, if one is under way.
    pub fn render_snap_frame(&mut self, now: Instant, panel_height: i64) -> (next: Option<SnapFrame>)
        requires
            old(self).well_formed(),
        ensures
            final(self).well_formed(),
            next is Some <==> old(self).snap is Some,
            next matches Some(step) ==> {
                let sample = old(self).snap->0.at(now);
                &&& step.frame.destination == sample.destination
                &&& (step.frame.width as int, step.frame.height as int) == old(self).wanted_size(
                    panel_height as int,
                )
                &&& step.finished == sample.finished
            },
            *final(self) == (if next is Some && next->0.finished {
                AppWindow { snap: None, ..*old(self) }
            } else {
                *old(self)
            }),
    {
        match self.snap {
            Some(slide) => {
                let sample = slide.sample(now);
                if sample.finished {
                    self.snap = None;
                }
                let (width, height) = self.desired_size(panel_height);
                Some(
                    SnapFrame {
                        frame: Frame { destination: sample.destination, width, height },
                        finished: sample.finished,
                    },
                )
            },
            None => None,
        }
    }

    /// Ends a slide under way; says where the ball then has to be put.
    pub fn finish_snap(&mut self) -> (landing: Option<Point>)
        requires
            old(self).well_formed(),
        ensures
            final(self).well_formed(),
            landing == (match old(self).snap {
                Some(slide) => Some(slide.to),
                None => None,
            }),
            *final(self) == (AppWindow { snap: None, ..*old(self) }),
    {
        match self.snap {
            Some(slide) => {
                self.snap = None;
                Some(slide.destination())
            },
            None => None,
        }
    }

    /// The resolution has changed. Whatever was moving has ended before.
    pub fn handle_dpi_changed(&mut self, new_dpi: u32)
        requires
            old(self).well_formed(),
        ensures
            final(self).well_formed(),
            *final(self) == (AppWindow {
                animation: None,
                dpi: window::dpi_in_use(new_dpi),
                ..*old(self)
            }),
    {
        self.animation = None;
        self.dpi = keep_dpi(new_dpi);
    }

    /// Where the window goes at a new resolution, from the place suggested for it.
    pub fn place_for_dpi(&self, target: Rect, work: Rect, panel_height: i64) -> (frame: Frame)
        requires
            panel_height >= 0,
        ensures
            (frame.width as int, frame.height as int) == self.wanted_size(panel_height as int),
            (frame.destination.x as int, frame.destination.y as int) == layout::anchor_target(
                target,
                self.config.placement.edge,
                self.wanted_size(panel_height as int).0,
                self.wanted_size(panel_height as int).1,
                work,
                self.expansion_alignment,
            ),
    {
        proof {
            self.lemma_wanted_size_is_nonnegative(panel_height as int);
        }
        let (width, height) = self.desired_size(panel_height);
        let destination = anchored_destination(
            target,
            self.config.placement.edge,
            width,
            height,
            work,
            self.expansion_alignment,
        );
        Frame { destination, width, height }
    }

    /// Whether a position hits what the window shows at `now`.
    pub open spec fn hits(self, cursor: Point, rect: Rect, now: Instant, panel_height: int) -> bool {
        let dpi = self.dpi as int;
        match self.animation {
            Some(animation) => {
                let expansion = animation.frame(now).expansion as int;
                let (left, top, right, bottom) = self.shape_at(animation, expansion, panel_height);
                layout::rounded_rect_contains(
                    cursor.x - left,
                    cursor.y - top,
                    right - left,
                    bottom - top,
                    layout::pixels(
                        layout::between(BALL_CORNER_DIP as int, PANEL_CORNER_DIP as int, expansion),
                        dpi,
                    ),
                )
            },
            None => if self.expanded {
                hits_rounded(cursor, rect, layout::pixels(PANEL_CORNER_DIP as int, dpi))
            } else {
                hits_ball(cursor, rect, self.dpi)
            },
        }
    }

    /// Whether the position can be held against what the window shows.
    pub open spec fn can_hit_test(
        self,
        cursor: Point,
        rect: Rect,
        now: Instant,
        panel_height: int,
    ) -> bool {
        &&& is_in_reach(cursor, rect)
        &&& self.animation matches Some(animation) ==> {
            let expansion = animation.frame(now).expansion as int;
            let (left, top, right, bottom) = self.shape_at(animation, expansion, panel_height);
            &&& self.shape_fits(animation, expansion, panel_height)
            &&& i32::MIN <= cursor.x - left <= i32::MAX
            &&& i32::MIN <= cursor.y - top <= i32::MAX
        }
    }

    /// Whether a place can be tested without overflow.
    pub fn can_test(
        &self,
        cursor: Point,
        rect: Rect,
        now: Instant,
        panel_height: i64,
    ) -> (fits: bool)
        requires
            self.well_formed(),
        ensures
            fits == self.can_hit_test(cursor, rect, now, panel_height as int),
    {
        if !can_reach(cursor, rect) {
            return false;
        }
        let animation = match self.animation {
            Some(animation) => animation,
            None => return true,
        };
        let expansion: i64 = animation.sample(now).expansion;
        let edge = self.config.placement.edge;
        let alignment = self.expansion_alignment;
        if !animation_shape_fits(animation, expansion, self.dpi, panel_height, edge, alignment) {
            return false;
        }
        let shape = animation_shape_rect(
            animation,
            expansion,
            self.dpi,
            panel_height,
            edge,
            alignment,
        );
        cursor.x.checked_sub(shape.left).is_some() && cursor.y.checked_sub(shape.top).is_some()
    }

    /// What a pointer position hits: the shape that is drawn, whose corners the pointer falls
    /// through. Where the position is not known, it counts as a hit.
    pub fn hit_test(&self, pointer: Option<(Point, Rect)>, now: Instant, panel_height: i64) -> (hit:
        Hit)
        requires
            self.well_formed(),
            panel_height >= 0,
            pointer matches Some((cursor, rect)) ==> self.can_hit_test(
                cursor,
                rect,
                now,
                panel_height as int,
            ),
        ensures
            hit == (match pointer {
                Some((cursor, rect)) => if self.hits(cursor, rect, now, panel_height as int) {
                    Hit::Client
                } else {
                    Hit::Transparent
                },
                None => Hit::Client,
            }),
    {
        let (cursor, rect) = match pointer {
            Some(known) => known,
            None => {
                return Hit::Client;
            },
        };
        let inside = match self.animation {
            Some(animation) => {
                let sample = animation.sample(now);
                let shape = animation_shape_rect(
                    animation,
                    sample.expansion,
                    self.dpi,
                    panel_height,
                    self.config.placement.edge,
                    self.expansion_alignment,
                );
                let radius: i64 = lerp(BALL_CORNER_DIP, PANEL_CORNER_DIP, sample.expansion);
                point_in_rounded_rect(
                    cursor.x - shape.left,
                    cursor.y - shape.top,
                    shape.right - shape.left,
                    shape.bottom - shape.top,
                    dip_to_px(radius, self.dpi),
                )
            },
            None => if self.expanded {
                point_in_rounded_rect(
                    cursor.x - rect.left,
                    cursor.y - rect.top,
                    rect.right - rect.left,
                    rect.bottom - rect.top,
                    dip_to_px(PANEL_CORNER_DIP, self.dpi),
                )
            } else {
                self.cursor_is_over_ball(pointer)
            },
        };
        if inside {
            Hit::Client
        } else {
            Hit::Transparent
        }
    }

    /// Where the pointer highlights the ball at rest, it also hits it.
    pub proof fn law_highlight_and_hit_agree(
        self,
        cursor: Point,
        rect: Rect,
        now: Instant,
        panel_height: int,
    )
        requires
            self.animation is None,
            !self.expanded,
        ensures
            self.hits(cursor, rect, now, panel_height) == hits_ball(cursor, rect, self.dpi),
    {
    }

    /// A click on the standing panel is never taken for one outside of it.
    pub proof fn law_clicks_on_the_panel_do_not_collapse_it(
        self,
        cursor: Point,
        rect: Rect,
        now: Instant,
        panel_height: int,
    )
        requires
            self.well_formed(),
            self.wants_hook(),
        ensures
            self.hits(cursor, rect, now, panel_height) == hits_rounded(
                cursor,
                rect,
                layout::pixels(PANEL_CORNER_DIP as int, window::dpi_in_use(self.dpi) as int),
            ),
    {
    }

    /// A drag follows the pointer exactly: the point of the window under the pointer stays there.
    pub proof fn law_drag_follows_the_pointer(self, cursor: Point, rect: Rect, at: Point)
        ensures
            ({
                let held = AppWindow {
                    drag_cursor_origin: cursor,
                    drag_window_origin: Point { x: rect.left, y: rect.top },
                    ..self
                };
                let (x, y) = held.dragged_to(at);
                at.x - x == cursor.x - rect.left && at.y - y == cursor.y - rect.top
            }),
    {
    }
}

/// Docking moves a window towards the closest of the four edges and not along it: where the window
/// already lies within the work area along that edge, it keeps its place there, and otherwise it
/// goes just as far as it must.
pub proof fn law_docking_does_not_move_along_the_edge(
    window: &mut AppWindow,
    rect: Rect,
    work: Rect,
    device: String,
    to: Point,
)
    requires
        can_dock(rect, work),
        call_ensures(AppWindow::place_at_edge, (window, rect, work, device), to),
    ensures
        ({
            let edge = final(window).config.placement.edge;
            &&& edge is Top || edge is Bottom ==> {
                &&& work.left <= rect.left && rect.right <= work.right ==> to.x == rect.left
                &&& rect.left < work.left ==> to.x == work.left
                &&& work.right < rect.right ==> to.x + (rect.right - rect.left) == work.right
            }
            &&& edge is Left || edge is Right ==> {
                &&& work.top <= rect.top && rect.bottom <= work.bottom ==> to.y == rect.top
                &&& rect.top < work.top ==> to.y == work.top
                &&& work.bottom < rect.bottom ==> to.y + (rect.bottom - rect.top) == work.bottom
            }
            &&& match edge {
                AnchorEdge::Left => to.x == work.left,
                AnchorEdge::Right => to.x + (rect.right - rect.left) == work.right,
                AnchorEdge::Top => to.y == work.top,
                AnchorEdge::Bottom => to.y + (rect.bottom - rect.top) == work.bottom,
            }
        }),
{
}

/// A window within the work area docks to the edge that the smallest gap separates it from; of
/// equal gaps the left one counts first, then the right one, then the top one.
pub proof fn law_the_smallest_gap_decides_the_edge(
    window: &mut AppWindow,
    rect: Rect,
    work: Rect,
    device: String,
    to: Point,
)
    requires
        can_dock(rect, work),
        work.left <= rect.left && rect.right <= work.right,
        work.top <= rect.top && rect.bottom <= work.bottom,
        call_ensures(AppWindow::place_at_edge, (window, rect, work, device), to),
    ensures
        ({
            let left = rect.left - work.left;
            let right = work.right - rect.right;
            let top = rect.top - work.top;
            let bottom = work.bottom - rect.bottom;
            match final(window).config.placement.edge {
                AnchorEdge::Left => left <= right && left <= top && left <= bottom,
                AnchorEdge::Right => right < left && right <= top && right <= bottom,
                AnchorEdge::Top => top < left && top < right && top <= bottom,
                AnchorEdge::Bottom => bottom < left && bottom < right && bottom < top,
            }
        }),
{
}

/// Moving window and work area by one vector moves the place that the window docks at by it, and
/// leaves the edge and the distance along it as they were.
pub proof fn law_docking_follows_the_work_area(
    window: &mut AppWindow,
    rect: Rect,
    work: Rect,
    device: String,
    to: Point,
    moved_window: &mut AppWindow,
    moved_rect: Rect,
    moved_work: Rect,
    moved_device: String,
    moved_to: Point,
    dx: int,
    dy: int,
)
    requires
        can_dock(rect, work),
        can_dock(moved_rect, moved_work),
        moved_rect.left == rect.left + dx && moved_rect.right == rect.right + dx,
        moved_rect.top == rect.top + dy && moved_rect.bottom == rect.bottom + dy,
        moved_work.left == work.left + dx && moved_work.right == work.right + dx,
        moved_work.top == work.top + dy && moved_work.bottom == work.bottom + dy,
        old(window).dpi == old(moved_window).dpi,
        call_ensures(AppWindow::place_at_edge, (window, rect, work, device), to),
        call_ensures(
            AppWindow::place_at_edge,
            (moved_window, moved_rect, moved_work, moved_device),
            moved_to,
        ),
    ensures
        moved_to.x == to.x + dx,
        moved_to.y == to.y + dy,
        final(moved_window).config.placement.edge == final(window).config.placement.edge,
        final(moved_window).config.placement.offset_dip == final(window).config.placement.offset_dip,
{
}

/// Docking remembers the monitor, the edge and, to the nearest millionth of a device-independent
/// pixel, how far the window is from the start of that edge. It changes nothing else.
pub proof fn law_docking_remembers_the_place(
    window: &mut AppWindow,
    rect: Rect,
    work: Rect,
    device: String,
    to: Point,
)
    requires
        can_dock(rect, work),
        old(window).dpi >= 1,
        call_ensures(AppWindow::place_at_edge, (window, rect, work, device), to),
    ensures
        ({
            let placement = final(window).config.placement;
            let dpi = old(window).dpi;
            let along = if placement.edge is Left || placement.edge is Right {
                to.y - work.top
            } else {
                to.x - work.left
            };
            &&& placement.monitor_device == device
            &&& -dpi <= 2 * (placement.offset_dip * dpi - along * 96_000_000) <= dpi
            &&& *final(window) == (AppWindow {
                config: AppConfigV1 { placement, ..old(window).config },
                ..*old(window)
            })
        }),
{
    law_docked_window_touches_its_edge(rect, work);
    let edge = nearest_edge(rect, work);
    let offset = dock_offset(edge, dock_target(rect, work), work);
    let dpi = old(window).dpi as int;
    lemma_dips_fit(offset, dpi);
    fixed::law_nearest_is_within_half_a_step(offset * 96_000_000, dpi);
}

/// The panel collapses on a button that goes down outside of it, and on nothing else.
pub proof fn law_only_presses_outside_collapse(
    code: i32,
    event: u32,
    point: Point,
    panel: Option<(Rect, u32)>,
    collapses: bool,
    dpi: u32,
    radius: i32,
    outside: bool,
)
    requires
        call_ensures(outside_click_mouse_proc, (code, event, point, panel), collapses),
        panel is Some ==> {
            &&& dpi == (if (panel->0).1 < 96 {
                96
            } else {
                (panel->0).1
            })
            &&& call_ensures(dip_to_px, (16_000_000, dpi), radius)
            &&& call_ensures(
                point_is_outside_rounded_rect,
                (point, (panel->0).0, radius),
                outside,
            )
        },
    ensures
        collapses <==> {
            &&& code >= 0
            &&& event == 0x201 || event == 0x204 || event == 0x207 || event == 0x20b
            &&& panel is Some
            &&& outside
        },
{
}

/// Clicks outside are watched exactly while the panel stands open and is set to collapse on them.
pub proof fn law_clicks_are_watched_while_the_panel_stands(
    window: &mut AppWindow,
    step: HookStep,
)
    requires
        old(window).well_formed(),
        call_ensures(AppWindow::update_outside_click_hook, (window,), step),
    ensures
        ({
            let stands = {
                &&& old(window).visible
                &&& old(window).overlay_active
                &&& old(window).expanded
                &&& old(window).animation is None
                &&& old(window).config.collapse_on_outside_click
            };
            &&& step is Install <==> stands && !old(window).hook_installed
            &&& step is Remove <==> !stands && old(window).hook_installed
            &&& !stands ==> !final(window).hook_installed
            &&& stands ==> final(window).hook_installed == old(window).hook_installed
        }),
        *final(window) == (AppWindow {
            hook_installed: final(window).hook_installed,
            ..*old(window)
        }),
{
}

/// A press takes hold of the ball where it rests or will come to rest, but not of a moving panel.
pub proof fn law_a_press_stops_the_slide(window: &mut AppWindow, step: PressStep)
    requires
        old(window).well_formed(),
        call_ensures(AppWindow::begin_drag, (window,), step),
    ensures
        step is Refused <==> old(window).animation is Some,
        step is Refused ==> *final(window) == *old(window),
        step is Land ==> old(window).snap is Some && step->0 == old(window).snap->0.to,
        step is Ready ==> old(window).snap is None,
        !(step is Refused) ==> {
            &&& final(window).snap is None
            &&& final(window).drag_velocity.last is None
            &&& final(window).drag_velocity.velocity.x == 0
            &&& final(window).drag_velocity.velocity.y == 0
            &&& *final(window) == (AppWindow {
                snap: None,
                drag_velocity: final(window).drag_velocity,
                ..*old(window)
            })
        },
{
}

/// A window that is held follows the pointer once that has moved further than a click may along
/// either axis, and from then on until it is let go; it moves as far as the pointer has.
pub proof fn law_a_drag_starts_beyond_the_threshold(
    window: &mut AppWindow,
    cursor: Point,
    threshold_x: i32,
    threshold_y: i32,
    now: Instant,
    moved: Option<Point>,
)
    requires
        old(window).well_formed(),
        call_ensures(
            AppWindow::update_drag,
            (window, cursor, threshold_x, threshold_y, now),
            moved,
        ),
    ensures
        ({
            let dx = cursor.x - old(window).drag_cursor_origin.x;
            let dy = cursor.y - old(window).drag_cursor_origin.y;
            let beyond = dx > threshold_x || -dx > threshold_x || dy > threshold_y || -dy
                > threshold_y;
            &&& moved is Some <==> old(window).pointer_down && (old(window).dragging || beyond)
            &&& moved is Some ==> {
                &&& (moved->0).x - old(window).drag_window_origin.x == dx
                &&& (moved->0).y - old(window).drag_window_origin.y == dy
                &&& final(window).dragging
                &&& final(window).drag_velocity.last == Some((cursor, now))
            }
        }),
        moved is None ==> *final(window) == *old(window),
        *final(window) == (AppWindow {
            dragging: final(window).dragging,
            drag_velocity: final(window).drag_velocity,
            ..*old(window)
        }),
{
}

/// A drag samples the speed as the pointer's look-out would.
pub proof fn law_a_drag_measures_its_speed(
    window: &mut AppWindow,
    drag: &mut DragVelocity,
    cursor: Point,
    threshold_x: i32,
    threshold_y: i32,
    now: Instant,
    moved: Option<Point>,
)
    requires
        old(window).well_formed(),
        call_ensures(
            AppWindow::update_drag,
            (window, cursor, threshold_x, threshold_y, now),
            moved,
        ),
        moved is Some,
        *old(drag) == old(window).drag_velocity,
        call_ensures(DragVelocity::sample, (drag, cursor, now), ()),
    ensures
        final(window).drag_velocity == *final(drag),
{
}

/// Letting go of a dragged ball lets it slide with the hand's speed; letting go of one that did not
/// move is a click; and letting go of nothing is nothing.
pub proof fn law_letting_go_ends_the_drag(
    window: &mut AppWindow,
    now: Instant,
    step: ReleaseStep,
    velocity: Velocity,
)
    requires
        old(window).well_formed(),
        call_ensures(AppWindow::end_drag, (window, now), step),
        call_ensures(DragVelocity::release_velocity, (&old(window).drag_velocity, now), velocity),
    ensures
        step is Nothing <==> !old(window).pointer_down,
        step is Snap <==> old(window).pointer_down && old(window).dragging,
        step is Toggle <==> old(window).pointer_down && !old(window).dragging,
        step is Snap ==> step->0 == velocity,
        !(step is Nothing) ==> !final(window).pointer_down && !final(window).dragging,
        step is Nothing ==> *final(window) == *old(window),
        *final(window) == (AppWindow {
            pointer_down: final(window).pointer_down,
            dragging: final(window).dragging,
            ..*old(window)
        }),
{
}

/// The ball is highlighted exactly while the pointer is in its disc, and each change is drawn once.
pub proof fn law_the_highlight_follows_the_pointer(
    window: &mut AppWindow,
    pointer: Option<(Point, Rect)>,
    over: bool,
    step: HoverStep,
)
    requires
        old(window).well_formed(),
        call_ensures(AppWindow::cursor_is_over_ball, (old(window), pointer), over),
        call_ensures(AppWindow::handle_mouse_move, (window, pointer), step),
    ensures
        final(window).hovered == over,
        step is Entered <==> over && !old(window).hovered,
        step is Left <==> !over && old(window).hovered,
        *final(window) == (AppWindow { hovered: over, ..*old(window) }),
{
}

/// The pointer is over the ball where it is in the disc of 27 device-independent pixels around the
/// middle of the window.
pub proof fn law_the_ball_is_hit_in_its_disc(
    window: &AppWindow,
    cursor: Point,
    rect: Rect,
    over: bool,
    radius: i32,
    x: i32,
    y: i32,
    width: i32,
    height: i32,
    inside: bool,
)
    requires
        call_ensures(AppWindow::cursor_is_over_ball, (window, Some((cursor, rect))), over),
        call_ensures(dip_to_px, (27_000_000, window.dpi), radius),
        x == cursor.x - rect.left && y == cursor.y - rect.top,
        width == rect.right - rect.left && height == rect.bottom - rect.top,
        call_ensures(point_in_ball, (x, y, width, height, radius), inside),
    ensures
        over == inside,
{
}

/// The ball slides where there is a way to go and someone can see it; otherwise it goes at once.
pub proof fn law_slides_are_worth_their_frames(
    window: &mut AppWindow,
    from: Point,
    to: Point,
    velocity: Velocity,
    now: Instant,
    slides: bool,
)
    requires
        old(window).well_formed(),
        call_ensures(AppWindow::start_snap, (window, from, to, velocity, now), slides),
    ensures
        slides <==> {
            &&& from.x != to.x || from.y != to.y
            &&& old(window).animations_enabled
            &&& old(window).visible
            &&& !old(window).expanded
        },
        !slides ==> *final(window) == *old(window),
        slides ==> final(window).snap is Some && *final(window) == (AppWindow {
            snap: final(window).snap,
            ..*old(window)
        }),
        slides ==> ({
            let slide = final(window).snap->0;
            &&& slide.started_at == now
            &&& slide.from == from
            &&& slide.to == to
            &&& snap::takes(from, to, slide.duration)
            &&& snap::is_kept_towards(
                to.x - from.x,
                slide.duration.nanos as int / 1_000_000,
                velocity.x as int,
                slide.velocity.x as int,
            )
            &&& snap::is_kept_towards(
                to.y - from.y,
                slide.duration.nanos as int / 1_000_000,
                velocity.y as int,
                slide.velocity.y as int,
            )
        }),
{
    if slides {
        let slide = final(window).snap->0;
        snap::lemma_kept_towards(to.x - from.x, slide.millis(), velocity.x as int);
        snap::lemma_kept_towards(to.y - from.y, slide.millis(), velocity.y as int);
    }
}

/// A frame of the slide shows the ball where the slide has come to; the last one ends it.
pub proof fn law_the_last_frame_ends_the_slide(
    window: &mut AppWindow,
    now: Instant,
    panel_height: i64,
    next: Option<SnapFrame>,
    sample: snap::SnapSample,
    size: (i32, i32),
)
    requires
        old(window).well_formed(),
        call_ensures(AppWindow::render_snap_frame, (window, now, panel_height), next),
        old(window).snap is Some ==> call_ensures(
            SnapAnimation::sample,
            (old(window).snap->0, now),
            sample,
        ),
        call_ensures(AppWindow::desired_size, (old(window), panel_height), size),
    ensures
        next is Some <==> old(window).snap is Some,
        next is Some ==> {
            &&& next->0.frame.destination == sample.destination
            &&& next->0.frame.width == size.0
            &&& next->0.frame.height == size.1
            &&& next->0.finished == sample.finished
        },
        next is Some && sample.finished ==> *final(window) == (AppWindow {
            snap: None,
            ..*old(window)
        }),
        next is None || !sample.finished ==> *final(window) == *old(window),
{
}

/// A slide that is cut short lands where it was going.
pub proof fn law_a_slide_cut_short_lands(window: &mut AppWindow, landing: Option<Point>)
    requires
        old(window).well_formed(),
        call_ensures(AppWindow::finish_snap, (window,), landing),
    ensures
        landing is Some <==> old(window).snap is Some,
        landing is Some ==> landing->0 == old(window).snap->0.to,
        *final(window) == (AppWindow { snap: None, ..*old(window) }),
{
}

/// At a new resolution the window takes the size that belongs to it and keeps its anchor.
pub proof fn law_a_new_resolution_keeps_the_anchor(
    window: &AppWindow,
    target: Rect,
    work: Rect,
    panel_height: i64,
    frame: Frame,
    size: (i32, i32),
    at: Point,
)
    requires
        panel_height >= 0,
        call_ensures(AppWindow::place_for_dpi, (window, target, work, panel_height), frame),
        call_ensures(AppWindow::desired_size, (window, panel_height), size),
        call_ensures(
            anchored_destination,
            (
                target,
                window.config.placement.edge,
                size.0,
                size.1,
                work,
                window.expansion_alignment,
            ),
            at,
        ),
    ensures
        frame.destination == at,
        frame.width == size.0,
        frame.height == size.1,
{
}

/// What is drawn at rest is what is hit: the disc of the ball, or the panel with its corners of 16
/// device-independent pixels.
pub proof fn law_what_is_drawn_is_hit(
    window: &AppWindow,
    cursor: Point,
    rect: Rect,
    now: Instant,
    panel_height: i64,
    hit: Hit,
    over: bool,
    corner: i32,
    x: i32,
    y: i32,
    width: i32,
    height: i32,
    inside: bool,
)
    requires
        window.well_formed(),
        window.animation is None,
        call_ensures(
            AppWindow::hit_test,
            (window, Some((cursor, rect)), now, panel_height),
            hit,
        ),
        call_ensures(AppWindow::cursor_is_over_ball, (window, Some((cursor, rect))), over),
        call_ensures(dip_to_px, (16_000_000, window.dpi), corner),
        x == cursor.x - rect.left && y == cursor.y - rect.top,
        width == rect.right - rect.left && height == rect.bottom - rect.top,
        call_ensures(point_in_rounded_rect, (x, y, width, height, corner), inside),
    ensures
        !window.expanded ==> (hit is Client <==> over),
        window.expanded ==> (hit is Client <==> inside),
{
}

/// While the panel opens or closes the shape of the moment is hit, with corners that go from 28 to
/// 16 device-independent pixels as it grows.
pub proof fn law_a_moving_shape_is_hit_where_it_is(
    window: &AppWindow,
    cursor: Point,
    rect: Rect,
    now: Instant,
    panel_height: i64,
    hit: Hit,
    sample: motion::AnimationSample,
    shape: Rect,
    radius: i64,
    corner: i32,
    x: i32,
    y: i32,
    width: i32,
    height: i32,
    inside: bool,
)
    requires
        window.well_formed(),
        window.animation is Some,
        call_ensures(
            AppWindow::hit_test,
            (window, Some((cursor, rect)), now, panel_height),
            hit,
        ),
        call_ensures(motion::PanelAnimation::sample, (window.animation->0, now), sample),
        call_ensures(
            animation_shape_rect,
            (
                window.animation->0,
                sample.expansion,
                window.dpi,
                panel_height,
                window.config.placement.edge,
                window.expansion_alignment,
            ),
            shape,
        ),
        call_ensures(lerp, (28_000_000, 16_000_000, sample.expansion), radius),
        call_ensures(dip_to_px, (radius, window.dpi), corner),
        x == cursor.x - shape.left && y == cursor.y - shape.top,
        width == shape.right - shape.left && height == shape.bottom - shape.top,
        call_ensures(point_in_rounded_rect, (x, y, width, height, corner), inside),
    ensures
        hit is Client <==> inside,
{
}

/// A position that is not known counts as a hit.
pub proof fn law_an_unknown_position_is_a_hit(
    window: &AppWindow,
    now: Instant,
    panel_height: i64,
    hit: Hit,
)
    requires
        window.well_formed(),
        call_ensures(AppWindow::hit_test, (window, None, now, panel_height), hit),
    ensures
        hit is Client,
{
}

/// A position is in reach of a window where its distances from the corner, and the window's sides,
/// can be counted in 32 bits; a button goes down with one of four messages.
pub proof fn law_reach_is_counted_in_32_bits(
    point: Point,
    rect: Rect,
    fits: bool,
    event: u32,
    down: bool,
)
    requires
        call_ensures(can_reach, (point, rect), fits),
        call_ensures(is_mouse_button_down, (event,), down),
    ensures
        ({
            let counts = |n: int| -2_147_483_648 <= n <= 2_147_483_647;
            fits <==> counts(point.x - rect.left) && counts(point.y - rect.top) && counts(
                rect.right - rect.left,
            ) && counts(rect.bottom - rect.top)
        }),
        down <==> event == 513 || event == 516 || event == 519 || event == 523,
{
}

/// A place can be tested where it is in reach of the window and, while the panel moves, of the
/// shape of the moment.
pub proof fn law_moving_shapes_are_tested_in_reach(
    window: &AppWindow,
    cursor: Point,
    rect: Rect,
    now: Instant,
    panel_height: i64,
    fits: bool,
    reach: bool,
    sample: motion::AnimationSample,
    shape_fits: bool,
    shape: Rect,
)
    requires
        window.well_formed(),
        call_ensures(AppWindow::can_test, (window, cursor, rect, now, panel_height), fits),
        call_ensures(can_reach, (cursor, rect), reach),
        window.animation is Some ==> call_ensures(
            motion::PanelAnimation::sample,
            (window.animation->0, now),
            sample,
        ),
        window.animation is Some ==> call_ensures(
            animation_shape_fits,
            (
                window.animation->0,
                sample.expansion,
                window.dpi,
                panel_height,
                window.config.placement.edge,
                window.expansion_alignment,
            ),
            shape_fits,
        ),
        window.animation is Some && shape_fits ==> call_ensures(
            animation_shape_rect,
            (
                window.animation->0,
                sample.expansion,
                window.dpi,
                panel_height,
                window.config.placement.edge,
                window.expansion_alignment,
            ),
            shape,
        ),
    ensures
        window.animation is None ==> fits == reach,
        window.animation is Some ==> (fits <==> {
            &&& reach
            &&& shape_fits
            &&& -2_147_483_648 <= cursor.x - shape.left <= 2_147_483_647
            &&& -2_147_483_648 <= cursor.y - shape.top <= 2_147_483_647
        }),
{
}

/// What is reported of the watch, of a captured or leaving pointer and of a new resolution is taken
/// over, and changes nothing else.
pub proof fn law_reports_are_taken_over(
    hooked: &mut AppWindow,
    unhooked: &mut AppWindow,
    held: &mut AppWindow,
    left: &mut AppWindow,
    resized: &mut AppWindow,
    succeeded: bool,
    removed: bool,
    cursor: Point,
    rect: Rect,
    redraw: bool,
    dpi: u32,
    kept: u32,
)
    requires
        old(hooked).well_formed(),
        old(unhooked).well_formed(),
        old(held).well_formed(),
        old(left).well_formed(),
        old(resized).well_formed(),
        call_ensures(AppWindow::install_outside_click_hook, (hooked, succeeded), ()),
        call_ensures(AppWindow::remove_outside_click_hook, (unhooked,), removed),
        call_ensures(AppWindow::hold, (held, cursor, rect), ()),
        call_ensures(AppWindow::handle_mouse_leave, (left,), redraw),
        call_ensures(AppWindow::handle_dpi_changed, (resized, dpi), ()),
        call_ensures(keep_dpi, (dpi,), kept),
    ensures
        *final(hooked) == (AppWindow { hook_installed: succeeded, ..*old(hooked) }),
        removed <==> old(unhooked).hook_installed,
        *final(unhooked) == (AppWindow { hook_installed: false, ..*old(unhooked) }),
        *final(held) == (AppWindow {
            pointer_down: true,
            dragging: false,
            drag_cursor_origin: cursor,
            drag_window_origin: final(held).drag_window_origin,
            ..*old(held)
        }),
        final(held).drag_window_origin.x == rect.left,
        final(held).drag_window_origin.y == rect.top,
        redraw <==> old(left).hovered,
        *final(left) == (AppWindow { hovered: false, ..*old(left) }),
        *final(resized) == (AppWindow { animation: None, dpi: kept, ..*old(resized) }),
{
}

} // verus!
