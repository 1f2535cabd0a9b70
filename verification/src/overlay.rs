//! Drawing the overlay: its size, its frames, expanding and collapsing.
use vstd::prelude::*;

use crate::fixed;
use crate::layout;
use crate::layout::{
    anchored_destination, center, dip_to_px, expanded_destination, px_to_dip, ExpansionAlignment,
    Point, Rect, COLLAPSED_DIP, PANEL_WIDTH_DIP,
};
use crate::motion;
use crate::motion::{
    animation_shape_fits, animation_shape_rect, PanelAnimation, COLLAPSE_ANIMATION_MILLIS,
    EXPAND_ANIMATION_MILLIS,
};
use crate::panel::Area;
use crate::presentation;
use crate::presentation::{panel_height_dip, COMPACT_PANEL_HEIGHT_DIP};
use crate::quota::AppState;
use crate::time::{Duration, Instant};
use crate::window::AppWindow;

verus! {

/// Where a frame is drawn, and how large it is.
#[derive(Clone, Copy, Debug, PartialEq, Eq, Structural)]
pub struct Frame {
    pub destination: Point,
    pub width: i32,
    pub height: i32,
}

/// What a frame at rest shows.
#[derive(Clone, Copy, Debug, PartialEq, Eq, Structural)]
pub enum Visual {
    Collapsed,
    Expanded,
}

/// What a frame of the panel animation shows; lengths are counted from the frame's corner in
/// device-independent pixels.
#[derive(Clone, Copy, Debug, PartialEq, Eq, Structural)]
pub struct TransitionVisual {
    pub expansion: i64,
    pub ball_opacity: i64,
    pub panel_opacity: i64,
    pub ball_center_x: i64,
    pub ball_center_y: i64,
    pub shape_bounds: Area,
}

/// A frame of the panel animation.
#[derive(Clone, Copy, Debug, PartialEq, Eq, Structural)]
pub struct TransitionFrame {
    pub frame: Frame,
    pub visual: TransitionVisual,
    /// The animation ends with this frame.
    pub finished: bool,
}

/// How to redraw.
#[derive(Clone, Copy, Debug, PartialEq, Eq, Structural)]
pub enum RenderStep {
    Nothing,
    /// The next frame of the panel animation.
    AnimationFrame,
    /// The window as it is, where it is.
    Still,
}

/// What to do with the frame timer.
#[derive(Clone, Copy, Debug, PartialEq, Eq, Structural)]
pub enum RingStep {
    Keep,
    Stop,
    Start(u32),
}

/// How to go between ball and panel.
#[derive(Clone, Copy, Debug, PartialEq, Eq, Structural)]
pub enum ExpandStep {
    Nothing,
    /// An animation is under way: finish it, then ask again.
    FinishFirst,
    /// Start an animation.
    Animate,
    /// Change over at once.
    Jump,
}

/// Height of the expanded panel; without a readable state, that of a panel without extra rows.
pub fn panel_height(state: Option<&AppState>) -> (height: i64)
    ensures
        height == (match state {
            Some(state) => presentation::height_of_rows(presentation::panel_rows(state)),
            None => COMPACT_PANEL_HEIGHT_DIP as int,
        }),
        height >= COMPACT_PANEL_HEIGHT_DIP,
{
    match state {
        Some(state) => panel_height_dip(state),
        None => COMPACT_PANEL_HEIGHT_DIP,
    }
}

/// The window as it is.
pub fn still_frame(rect: Rect) -> (frame: Frame)
    requires
        i32::MIN <= rect.right - rect.left <= i32::MAX,
        i32::MIN <= rect.bottom - rect.top <= i32::MAX,
    ensures
        frame.destination == (Point { x: rect.left, y: rect.top }),
        frame.width == rect.right - rect.left,
        frame.height == rect.bottom - rect.top,
{
    Frame {
        destination: Point { x: rect.left, y: rect.top },
        width: rect.right - rect.left,
        height: rect.bottom - rect.top,
    }
}

/// Whether a point and the sides of a shape can be counted from a corner.
pub open spec fn offsets_fit(corner: Point, point: Point, sides: (int, int, int, int)) -> bool {
    let (left, top, right, bottom) = sides;
    &&& i32::MIN <= point.x - corner.x <= i32::MAX
    &&& i32::MIN <= point.y - corner.y <= i32::MAX
    &&& i32::MIN <= left - corner.x <= i32::MAX
    &&& i32::MIN <= top - corner.y <= i32::MAX
    &&& i32::MIN <= right - corner.x <= i32::MAX
    &&& i32::MIN <= bottom - corner.y <= i32::MAX
}

proof fn lemma_offsets_within_a_work_area_fit(
    corner: Point,
    point: Point,
    sides: (int, int, int, int),
    work: Rect,
)
    requires
        layout::is_work_area(work),
        work.left <= corner.x <= work.right,
        work.top <= corner.y <= work.bottom,
        work.left <= point.x <= work.right,
        work.top <= point.y <= work.bottom,
        work.left <= sides.0 <= sides.2 <= work.right,
        work.top <= sides.1 <= sides.3 <= work.bottom,
    ensures
        offsets_fit(corner, point, sides),
{
}

impl AppWindow {
    /// Width and height of the window in its present state.
    pub open spec fn wanted_size(self, panel_height: int) -> (int, int) {
        let side = layout::pixels(COLLAPSED_DIP as int, self.dpi as int);
        if self.expanded {
            (
                layout::pixels(PANEL_WIDTH_DIP as int, self.dpi as int),
                layout::pixels(panel_height, self.dpi as int),
            )
        } else {
            (side, side)
        }
    }

    pub fn desired_size(&self, panel_height: i64) -> (size: (i32, i32))
        ensures
            (size.0 as int, size.1 as int) == self.wanted_size(panel_height as int),
    {
        if self.expanded {
            (dip_to_px(PANEL_WIDTH_DIP, self.dpi), dip_to_px(panel_height, self.dpi))
        } else {
            let side: i32 = dip_to_px(COLLAPSED_DIP, self.dpi);
            (side, side)
        }
    }

    pub proof fn lemma_wanted_size_is_nonnegative(self, panel_height: int)
        requires
            panel_height >= 0,
        ensures
            0 <= self.wanted_size(panel_height).0 <= i32::MAX,
            0 <= self.wanted_size(panel_height).1 <= i32::MAX,
    {
        layout::law_pixels_are_nonnegative(COLLAPSED_DIP as int, self.dpi as int);
        layout::law_pixels_are_nonnegative(PANEL_WIDTH_DIP as int, self.dpi as int);
        layout::law_pixels_are_nonnegative(panel_height, self.dpi as int);
    }

    pub fn render(&self) -> (step: RenderStep)
        ensures
            step == (if !self.overlay_active {
                RenderStep::Nothing
            } else if self.animation is Some {
                RenderStep::AnimationFrame
            } else {
                RenderStep::Still
            }),
    {
        if !self.overlay_active {
            RenderStep::Nothing
        } else if self.animation.is_some() {
            RenderStep::AnimationFrame
        } else {
            RenderStep::Still
        }
    }

    /// What a frame at rest shows now.
    pub fn render_at(&self) -> (visual: Visual)
        ensures
            visual == (if self.expanded {
                Visual::Expanded
            } else {
                Visual::Collapsed
            }),
    {
        if self.expanded {
            Visual::Expanded
        } else {
            Visual::Collapsed
        }
    }

    /// The ball may move: it is there to be seen, no one drags it, and the system allows it.
    pub open spec fn ring_may_move(self) -> bool {
        self.overlay_active && self.visible && !self.expanded && !self.dragging
            && self.animations_enabled
    }

    pub fn ring_animations_allowed(&self) -> (allowed: bool)
        ensures
            allowed == self.ring_may_move(),
    {
        self.overlay_active && self.visible && !self.expanded && !self.dragging
            && self.animations_enabled
    }

    /// The frame interval that the ball's motion calls for now.
    pub open spec fn ring_interval(self, renderer: Option<u32>) -> Option<u32> {
        if self.ring_may_move() {
            renderer
        } else {
            None
        }
    }

    /// Sets the frame timer by what the renderer asks for. It is touched only when the interval
    /// changes: a timer that every frame sets anew would never fire.
    pub fn sync_ring_frames(&mut self, renderer: Option<u32>) -> (step: RingStep)
        requires
            old(self).well_formed(),
        ensures
            final(self).well_formed(),
            *final(self) == (AppWindow {
                ring_frame_millis: old(self).ring_interval(renderer),
                ..*old(self)
            }),
            step == (if old(self).ring_interval(renderer) == old(self).ring_frame_millis {
                RingStep::Keep
            } else {
                match old(self).ring_interval(renderer) {
                    Some(millis) => RingStep::Start(millis),
                    None => RingStep::Stop,
                }
            }),
    {
        let desired: Option<u32> = if self.ring_animations_allowed() {
            renderer
        } else {
            None
        };
        if desired == self.ring_frame_millis {
            return RingStep::Keep;
        }
        match desired {
            Some(millis) => {
                self.ring_frame_millis = Some(millis);
                RingStep::Start(millis)
            },
            None => {
                self.stop_ring_frames();
                RingStep::Stop
            },
        }
    }

    /// The frame timer is gone, or could not be had.
    pub fn stop_ring_frames(&mut self)
        ensures
            *final(self) == (AppWindow { ring_frame_millis: None, ..*old(self) }),
    {
        self.ring_frame_millis = None;
    }

    /// Sides of the animated shape, grown so far.
    pub open spec fn shape_at(
        self,
        animation: PanelAnimation,
        expansion: int,
        panel_height: int,
    ) -> (int, int, int, int) {
        motion::shape_of(
            animation,
            expansion,
            self.dpi as int,
            panel_height,
            self.config.placement.edge,
            self.expansion_alignment,
        )
    }

    /// Whether the animated shape can be placed without overflow.
    pub open spec fn shape_fits(
        self,
        animation: PanelAnimation,
        expansion: int,
        panel_height: int,
    ) -> bool {
        motion::shape_is_valid(
            animation,
            expansion,
            self.dpi as int,
            panel_height,
            self.config.placement.edge,
            self.expansion_alignment,
        )
    }

    /// Whether everything in the frame can be counted from the frame's corner.
    pub open spec fn frame_fits(
        self,
        animation: PanelAnimation,
        expansion: int,
        panel_height: int,
    ) -> bool {
        &&& self.shape_fits(animation, expansion, panel_height)
        &&& offsets_fit(
            animation.canvas_destination,
            animation.ball_center_screen,
            self.shape_at(animation, expansion, panel_height),
        )
    }

    /// The frame of the panel animation at `now`.
    pub open spec fn transition_at(
        self,
        animation: PanelAnimation,
        now: Instant,
        panel_height: int,
    ) -> TransitionFrame {
        let sample = animation.frame(now);
        let at = animation.canvas_destination;
        let dpi = self.dpi as int;
        let (left, top, right, bottom) = self.shape_at(
            animation,
            sample.expansion as int,
            panel_height,
        );
        TransitionFrame {
            frame: Frame {
                destination: at,
                width: layout::pixels(PANEL_WIDTH_DIP as int, dpi) as i32,
                height: layout::pixels(panel_height, dpi) as i32,
            },
            visual: TransitionVisual {
                expansion: sample.expansion,
                ball_opacity: sample.ball_opacity,
                panel_opacity: sample.panel_opacity,
                ball_center_x: layout::dips(animation.ball_center_screen.x - at.x, dpi) as i64,
                ball_center_y: layout::dips(animation.ball_center_screen.y - at.y, dpi) as i64,
                shape_bounds: Area {
                    left: layout::dips(left - at.x, dpi) as i64,
                    top: layout::dips(top - at.y, dpi) as i64,
                    right: layout::dips(right - at.x, dpi) as i64,
                    bottom: layout::dips(bottom - at.y, dpi) as i64,
                },
            },
            finished: sample.finished,
        }
    }

    /// Whether the next frame of the panel animation can be drawn without overflow.
    pub fn can_draw_frame(&self, now: Instant, panel_height: i64) -> (fits: bool)
        requires
            self.well_formed(),
        ensures
            fits == (self.animation is Some ==> self.frame_fits(
                self.animation->0,
                self.animation->0.frame(now).expansion as int,
                panel_height as int,
            )),
    {
        let animation = match self.animation {
            Some(animation) => animation,
            None => return true,
        };
        let expansion: i64 = animation.sample(now).expansion;
        let edge = self.config.placement.edge;
        let alignment = self.expansion_alignment;
        if !animation_shape_fits(animation, expansion, self.dpi, panel_height, edge, alignment) {
            return false;
        }
        let shape = animation_shape_rect(
            animation,
            expansion,
            self.dpi,
            panel_height,
            edge,
            alignment,
        );
        let at = animation.canvas_destination;
        let ball = animation.ball_center_screen;
        ball.x.checked_sub(at.x).is_some() && ball.y.checked_sub(at.y).is_some()
            && shape.left.checked_sub(at.x).is_some() && shape.top.checked_sub(at.y).is_some()
            && shape.right.checked_sub(at.x).is_some() && shape.bottom.checked_sub(at.y).is_some()
    }

    /// The next frame of the panel animation, if one is under way. After its last frame, the
    /// application finishes the animation.
    pub fn render_animation_frame(&self, now: Instant, panel_height: i64) -> (next: Option<
        TransitionFrame,
    >)
        requires
            self.well_formed(),
            self.animation is Some ==> self.frame_fits(
                self.animation->0,
                self.animation->0.frame(now).expansion as int,
                panel_height as int,
            ),
        ensures
            next == (match self.animation {
                Some(animation) => Some(self.transition_at(animation, now, panel_height as int)),
                None => None,
            }),
    {
        match self.animation {
            Some(animation) => {
                let sample = animation.sample(now);
                let shape = animation_shape_rect(
                    animation,
                    sample.expansion,
                    self.dpi,
                    panel_height,
                    self.config.placement.edge,
                    self.expansion_alignment,
                );
                let at = animation.canvas_destination;
                Some(
                    TransitionFrame {
                        frame: Frame {
                            destination: at,
                            width: dip_to_px(PANEL_WIDTH_DIP, self.dpi),
                            height: dip_to_px(panel_height, self.dpi),
                        },
                        visual: TransitionVisual {
                            expansion: sample.expansion,
                            ball_opacity: sample.ball_opacity,
                            panel_opacity: sample.panel_opacity,
                            ball_center_x: px_to_dip(
                                animation.ball_center_screen.x - at.x,
                                self.dpi,
                            ),
                            ball_center_y: px_to_dip(
                                animation.ball_center_screen.y - at.y,
                                self.dpi,
                            ),
                            shape_bounds: Area {
                                left: px_to_dip(shape.left - at.x, self.dpi),
                                top: px_to_dip(shape.top - at.y, self.dpi),
                                right: px_to_dip(shape.right - at.x, self.dpi),
                                bottom: px_to_dip(shape.bottom - at.y, self.dpi),
                            },
                        },
                        finished: sample.finished,
                    },
                )
            },
            None => None,
        }
    }

    /// Whether the window at `rect` still has to grow into the panel.
    pub open spec fn outgrows(self, rect: Rect, panel_height: int) -> bool {
        let (width, height) = self.wanted_size(panel_height);
        self.expanded && (rect.right - rect.left != width || rect.bottom - rect.top != height)
    }

    /// Where the window goes in its present state, and the end it is then aligned with.
    pub open spec fn resized(self, rect: Rect, work: Rect, panel_height: int) -> (
        int,
        int,
        ExpansionAlignment,
    ) {
        let (width, height) = self.wanted_size(panel_height);
        let edge = self.config.placement.edge;
        if self.outgrows(rect, panel_height) {
            layout::expansion_target(rect, edge, width, height, work)
        } else {
            let (x, y) = layout::anchor_target(
                rect,
                edge,
                width,
                height,
                work,
                self.expansion_alignment,
            );
            (x, y, self.expansion_alignment)
        }
    }

    /// Gives the window at `rect` the size of its present state. A panel that grows out of the
    /// ball chooses the end it lines up with; otherwise the window keeps the end it has.
    pub fn resize_for_state(&mut self, rect: Rect, work: Rect, panel_height: i64) -> (frame: Frame)
        requires
            old(self).well_formed(),
            panel_height >= 0,
            i32::MIN <= rect.right - rect.left <= i32::MAX,
            i32::MIN <= rect.bottom - rect.top <= i32::MAX,
        ensures
            final(self).well_formed(),
            (frame.width as int, frame.height as int) == old(self).wanted_size(
                panel_height as int,
            ),
            ({
                let (x, y, alignment) = old(self).resized(rect, work, panel_height as int);
                &&& (frame.destination.x as int, frame.destination.y as int) == (x, y)
                &&& *final(self) == (AppWindow { expansion_alignment: alignment, ..*old(self) })
            }),
    {
        proof {
            self.lemma_wanted_size_is_nonnegative(panel_height as int);
        }
        let (width, height) = self.desired_size(panel_height);
        let changes = rect.right - rect.left != width || rect.bottom - rect.top != height;
        let edge = self.config.placement.edge;
        let destination = if self.expanded && changes {
            let (at, alignment) = expanded_destination(rect, edge, width, height, work);
            self.expansion_alignment = alignment;
            at
        } else {
            anchored_destination(rect, edge, width, height, work, self.expansion_alignment)
        };
        Frame { destination, width, height }
    }

    /// What becomes of a wish to expand or collapse.
    pub open spec fn expand_step(self, expanded: bool) -> ExpandStep {
        if !self.overlay_active {
            ExpandStep::Nothing
        } else if self.animation is Some {
            ExpandStep::FinishFirst
        } else if self.expanded == expanded {
            ExpandStep::Nothing
        } else if self.animations_enabled && self.visible {
            ExpandStep::Animate
        } else {
            ExpandStep::Jump
        }
    }

    /// Expands or collapses. Where the state changes, clicks outside are no longer watched until
    /// the new shape has settled.
    pub fn set_expanded(&mut self, expanded: bool) -> (step: ExpandStep)
        requires
            old(self).well_formed(),
        ensures
            final(self).well_formed(),
            step == old(self).expand_step(expanded),
            *final(self) == (match step {
                ExpandStep::Nothing | ExpandStep::FinishFirst => *old(self),
                _ => AppWindow { expanded, hook_installed: false, ..*old(self) },
            }),
    {
        if !self.overlay_active {
            return ExpandStep::Nothing;
        }
        if self.animation.is_some() {
            return ExpandStep::FinishFirst;
        }
        if self.expanded == expanded {
            return ExpandStep::Nothing;
        }
        self.expanded = expanded;
        self.hook_installed = false;
        if self.animations_enabled && self.visible {
            ExpandStep::Animate
        } else {
            ExpandStep::Jump
        }
    }

    pub fn toggle_expanded(&mut self) -> (step: ExpandStep)
        requires
            old(self).well_formed(),
        ensures
            final(self).well_formed(),
            step == old(self).expand_step(!old(self).expanded),
            *final(self) == (match step {
                ExpandStep::Nothing | ExpandStep::FinishFirst => *old(self),
                _ => AppWindow {
                    expanded: !old(self).expanded,
                    hook_installed: false,
                    ..*old(self)
                },
            }),
    {
        let wanted = !self.expanded;
        self.set_expanded(wanted)
    }

    /// The panel's corner during an animation that starts at `rect`, and the end it lines up
    /// with.
    pub open spec fn canvas_from(
        self,
        expanding: bool,
        rect: Rect,
        work: Rect,
        panel_height: int,
    ) -> (int, int, ExpansionAlignment) {
        if expanding {
            layout::expansion_target(
                rect,
                self.config.placement.edge,
                layout::pixels(PANEL_WIDTH_DIP as int, self.dpi as int),
                layout::pixels(panel_height, self.dpi as int),
                work,
            )
        } else {
            (rect.left as int, rect.top as int, self.expansion_alignment)
        }
    }

    /// The middle of the ball at its end of the animation.
    pub open spec fn ball_center(self, expanding: bool, rect: Rect, work: Rect) -> (int, int) {
        let side = layout::pixels(COLLAPSED_DIP as int, self.dpi as int);
        if expanding {
            (
                rect.left + layout::half(rect.right - rect.left),
                rect.top + layout::half(rect.bottom - rect.top),
            )
        } else {
            let (x, y) = layout::anchor_target(
                rect,
                self.config.placement.edge,
                side,
                side,
                work,
                self.expansion_alignment,
            );
            (x + layout::half(side), y + layout::half(side))
        }
    }

    /// Starts the animation that expands or collapses the window at `rect`.
    pub fn start_animation(
        &mut self,
        expanding: bool,
        rect: Rect,
        work: Rect,
        panel_height: i64,
        now: Instant,
    )
        requires
            old(self).well_formed(),
            old(self).overlay_active,
            panel_height >= 0,
            i32::MIN <= rect.right - rect.left <= i32::MAX,
            i32::MIN <= rect.bottom - rect.top <= i32::MAX,
            old(self).ball_center(expanding, rect, work).0 <= i32::MAX,
            old(self).ball_center(expanding, rect, work).1 <= i32::MAX,
        ensures
            final(self).well_formed(),
            ({
                let (x, y, alignment) = old(self).canvas_from(
                    expanding,
                    rect,
                    work,
                    panel_height as int,
                );
                let (center_x, center_y) = old(self).ball_center(expanding, rect, work);
                *final(self) == (AppWindow {
                    expansion_alignment: alignment,
                    animation: Some(
                        PanelAnimation {
                            started_at: now,
                            duration: final(self).animation->0.duration,
                            anchor_rect: rect,
                            work_area: work,
                            canvas_destination: Point { x: x as i32, y: y as i32 },
                            ball_center_screen: Point { x: center_x as i32, y: center_y as i32 },
                            expanding,
                        },
                    ),
                    ..*old(self)
                })
            }),
            final(self).animation->0.duration.nanos == 1_000_000 * (if expanding {
                EXPAND_ANIMATION_MILLIS
            } else {
                COLLAPSE_ANIMATION_MILLIS
            }),
    {
        proof {
            layout::law_pixels_are_nonnegative(COLLAPSED_DIP as int, self.dpi as int);
            layout::law_pixels_are_nonnegative(PANEL_WIDTH_DIP as int, self.dpi as int);
            layout::law_pixels_are_nonnegative(panel_height as int, self.dpi as int);
        }
        let edge = self.config.placement.edge;
        let side: i32 = dip_to_px(COLLAPSED_DIP, self.dpi);
        let ball_center_screen = if expanding {
            center(rect)
        } else {
            let ball = anchored_destination(
                rect,
                edge,
                side,
                side,
                work,
                self.expansion_alignment,
            );
            Point { x: ball.x + side / 2, y: ball.y + side / 2 }
        };
        let canvas_destination = if expanding {
            let (at, alignment) = expanded_destination(
                rect,
                edge,
                dip_to_px(PANEL_WIDTH_DIP, self.dpi),
                dip_to_px(panel_height, self.dpi),
                work,
            );
            self.expansion_alignment = alignment;
            at
        } else {
            Point { x: rect.left, y: rect.top }
        };
        let duration = if expanding {
            Duration::from_millis(EXPAND_ANIMATION_MILLIS)
        } else {
            Duration::from_millis(COLLAPSE_ANIMATION_MILLIS)
        };
        self.animation = Some(
            PanelAnimation {
                started_at: now,
                duration,
                anchor_rect: rect,
                work_area: work,
                canvas_destination,
                ball_center_screen,
                expanding,
            },
        );
    }

    /// Ends the panel animation; says whether one was under way, in which case its timer stops
    /// and the window takes its final size.
    pub fn finish_animation(&mut self) -> (was_moving: bool)
        requires
            old(self).well_formed(),
        ensures
            final(self).well_formed(),
            was_moving == (old(self).animation is Some),
            *final(self) == (AppWindow { animation: None, ..*old(self) }),
    {
        let was_moving = self.animation.is_some();
        self.animation = None;
        was_moving
    }

    /// Once an animation has been finished, a wish to expand or collapse is decided at once.
    pub proof fn law_finishing_lets_expansion_proceed(self, expanded: bool)
        ensures
            (AppWindow { animation: None, ..self }).expand_step(expanded) != ExpandStep::FinishFirst,
    {
    }

    /// Every frame of an animation that starts with the window in the work area can be drawn,
    /// and shows the shape within the work area, as long as the panel fits there.
    pub proof fn law_started_animation_can_be_drawn(
        self,
        expanding: bool,
        rect: Rect,
        work: Rect,
        panel_height: int,
        animation: PanelAnimation,
        expansion: int,
    )
        requires
            layout::is_work_area(work),
            layout::lies_within(rect, work),
            COLLAPSED_DIP <= panel_height,
            layout::pixels(PANEL_WIDTH_DIP as int, self.dpi as int) <= work.right - work.left,
            layout::pixels(panel_height, self.dpi as int) <= work.bottom - work.top,
            animation.work_area == work,
            animation.anchor_rect == rect,
            ({
                let (x, y, alignment) = self.canvas_from(expanding, rect, work, panel_height);
                let (center_x, center_y) = self.ball_center(expanding, rect, work);
                &&& animation.canvas_destination == (Point { x: x as i32, y: y as i32 })
                &&& animation.ball_center_screen == (Point {
                    x: center_x as i32,
                    y: center_y as i32,
                })
            }),
        ensures
            ({
                let (x, y, alignment) = self.canvas_from(expanding, rect, work, panel_height);
                let started = AppWindow { expansion_alignment: alignment, ..self };
                let (left, top, right, bottom) = started.shape_at(animation, expansion, panel_height);
                &&& started.frame_fits(animation, expansion, panel_height)
                &&& work.left <= left <= right <= work.right
                &&& work.top <= top <= bottom <= work.bottom
            }),
    {
        let (x, y, alignment) = self.canvas_from(expanding, rect, work, panel_height);
        self.lemma_canvas_and_ball_lie_inside(expanding, rect, work, panel_height);
        let started = AppWindow { expansion_alignment: alignment, ..self };
        started.lemma_frames_inside_can_be_drawn(animation, expansion, panel_height);
    }

    proof fn lemma_frames_inside_can_be_drawn(
        self,
        animation: PanelAnimation,
        expansion: int,
        panel_height: int,
    )
        requires
            layout::is_work_area(animation.work_area),
            COLLAPSED_DIP <= panel_height,
            layout::pixels(PANEL_WIDTH_DIP as int, self.dpi as int) <= animation.work_area.right
                - animation.work_area.left,
            layout::pixels(panel_height, self.dpi as int) <= animation.work_area.bottom
                - animation.work_area.top,
            animation.work_area.left <= animation.canvas_destination.x
                <= animation.work_area.right,
            animation.work_area.top <= animation.canvas_destination.y
                <= animation.work_area.bottom,
            animation.work_area.left <= animation.ball_center_screen.x
                <= animation.work_area.right,
            animation.work_area.top <= animation.ball_center_screen.y
                <= animation.work_area.bottom,
        ensures
            self.frame_fits(animation, expansion, panel_height),
            ({
                let work = animation.work_area;
                let sides = self.shape_at(animation, expansion, panel_height);
                &&& work.left <= sides.0 <= sides.2 <= work.right
                &&& work.top <= sides.1 <= sides.3 <= work.bottom
            }),
    {
        motion::law_animated_shape_stays_inside(
            animation,
            expansion,
            self.dpi as int,
            panel_height,
            self.config.placement.edge,
            self.expansion_alignment,
        );
        lemma_offsets_within_a_work_area_fit(
            animation.canvas_destination,
            animation.ball_center_screen,
            self.shape_at(animation, expansion, panel_height),
            animation.work_area,
        );
    }

    proof fn lemma_canvas_and_ball_lie_inside(
        self,
        expanding: bool,
        rect: Rect,
        work: Rect,
        panel_height: int,
    )
        requires
            layout::is_work_area(work),
            layout::lies_within(rect, work),
            COLLAPSED_DIP <= panel_height,
            layout::pixels(PANEL_WIDTH_DIP as int, self.dpi as int) <= work.right - work.left,
            layout::pixels(panel_height, self.dpi as int) <= work.bottom - work.top,
        ensures
            ({
                let (x, y, alignment) = self.canvas_from(expanding, rect, work, panel_height);
                let (center_x, center_y) = self.ball_center(expanding, rect, work);
                &&& work.left <= x <= work.right
                &&& work.top <= y <= work.bottom
                &&& work.left <= center_x <= work.right
                &&& work.top <= center_y <= work.bottom
            }),
    {
        let dpi = self.dpi as int;
        let edge = self.config.placement.edge;
        let (width, height) = (
            layout::pixels(PANEL_WIDTH_DIP as int, dpi),
            layout::pixels(panel_height, dpi),
        );
        let side = layout::pixels(COLLAPSED_DIP as int, dpi);
        layout::law_pixels_are_nonnegative(COLLAPSED_DIP as int, dpi);
        layout::law_pixels_are_monotonic(COLLAPSED_DIP as int, PANEL_WIDTH_DIP as int, dpi);
        layout::law_pixels_are_monotonic(COLLAPSED_DIP as int, panel_height, dpi);
        if expanding {
            layout::law_expansion_stays_inside(rect, edge, width as i32, height as i32, work);
        } else {
            let alignment = self.expansion_alignment;
            layout::law_axis_within_stays_inside(
                layout::anchored_x(rect, edge, side, alignment),
                side,
                work.left as int,
                work.right as int,
            );
            layout::law_axis_within_stays_inside(
                layout::anchored_y(rect, edge, side, alignment),
                side,
                work.top as int,
                work.bottom as int,
            );
        }
    }

    /// While the ball does not have to move, its frame timer does not run.
    pub proof fn law_resting_ball_draws_no_frames(self, renderer: Option<u32>)
        ensures
            !self.animations_enabled || self.expanded || self.dragging || !self.visible
                || !self.overlay_active ==> self.ring_interval(renderer) is None,
            renderer is None ==> self.ring_interval(renderer) is None,
    {
    }
}

/// The ball's window is a square of 56 device-independent pixels, the panel 288 wide and as high as
/// its rows.
pub proof fn law_windows_have_the_size_of_their_state(
    window: &AppWindow,
    panel_height: i64,
    size: (i32, i32),
    side: i32,
    width: i32,
    height: i32,
)
    requires
        call_ensures(AppWindow::desired_size, (window, panel_height), size),
        call_ensures(dip_to_px, (56_000_000, window.dpi), side),
        call_ensures(dip_to_px, (288_000_000, window.dpi), width),
        call_ensures(dip_to_px, (panel_height, window.dpi), height),
    ensures
        window.expanded ==> size == (width, height),
        !window.expanded ==> size == (side, side),
{
}

/// Without a readable state the panel has the height of one without extra rows.
pub proof fn law_an_unreadable_state_has_a_compact_panel(
    state: Option<&AppState>,
    height: i64,
    of_state: i64,
)
    requires
        call_ensures(panel_height, (state,), height),
        state is Some ==> call_ensures(panel_height_dip, (state->0,), of_state),
    ensures
        state is Some ==> height == of_state,
        state is None ==> height == 227_000_000,
{
}

/// Nothing is drawn of an overlay that is not there, the animation while one is under way, and
/// otherwise what the window is.
pub proof fn law_what_is_there_is_drawn(window: &AppWindow, step: RenderStep, visual: Visual)
    requires
        call_ensures(AppWindow::render, (window,), step),
        call_ensures(AppWindow::render_at, (window,), visual),
    ensures
        step is Nothing <==> !window.overlay_active,
        step is AnimationFrame <==> window.overlay_active && window.animation is Some,
        step is Still <==> window.overlay_active && window.animation is None,
        visual is Expanded <==> window.expanded,
{
}

/// The frame timer runs at the interval asked for while the ball is there to be seen, at rest under
/// the hand and allowed to move; it is touched only where the interval changes.
pub proof fn law_the_frame_timer_follows_the_ball(
    window: &mut AppWindow,
    allowed: bool,
    renderer: Option<u32>,
    step: RingStep,
)
    requires
        old(window).well_formed(),
        call_ensures(AppWindow::ring_animations_allowed, (old(window),), allowed),
        call_ensures(AppWindow::sync_ring_frames, (window, renderer), step),
    ensures
        allowed <==> {
            &&& old(window).overlay_active
            &&& old(window).visible
            &&& !old(window).expanded
            &&& !old(window).dragging
            &&& old(window).animations_enabled
        },
        allowed ==> final(window).ring_frame_millis == renderer,
        !allowed ==> final(window).ring_frame_millis is None,
        step is Keep <==> final(window).ring_frame_millis == old(window).ring_frame_millis,
        step is Start ==> final(window).ring_frame_millis == Some(step->0),
        step is Stop ==> final(window).ring_frame_millis is None,
        *final(window) == (AppWindow {
            ring_frame_millis: final(window).ring_frame_millis,
            ..*old(window)
        }),
{
}

/// A panel that grows out of the ball is placed as an expansion and remembers the end it lines up
/// with; any other change of size keeps the window's anchor.
pub proof fn law_resizing_keeps_the_anchor_unless_it_expands(
    window: &mut AppWindow,
    rect: Rect,
    work: Rect,
    panel_height: i64,
    frame: Frame,
    size: (i32, i32),
    expanded: (Point, ExpansionAlignment),
    anchored: Point,
)
    requires
        old(window).well_formed(),
        panel_height >= 0,
        call_ensures(AppWindow::resize_for_state, (window, rect, work, panel_height), frame),
        call_ensures(AppWindow::desired_size, (old(window), panel_height), size),
        call_ensures(
            expanded_destination,
            (rect, old(window).config.placement.edge, size.0, size.1, work),
            expanded,
        ),
        call_ensures(
            anchored_destination,
            (
                rect,
                old(window).config.placement.edge,
                size.0,
                size.1,
                work,
                old(window).expansion_alignment,
            ),
            anchored,
        ),
    ensures
        frame.width == size.0,
        frame.height == size.1,
        ({
            let grows = old(window).expanded && (rect.right - rect.left != size.0 || rect.bottom
                - rect.top != size.1);
            &&& grows ==> frame.destination == expanded.0 && final(window).expansion_alignment
                == expanded.1
            &&& !grows ==> frame.destination == anchored && final(window).expansion_alignment
                == old(window).expansion_alignment
        }),
        *final(window) == (AppWindow {
            expansion_alignment: final(window).expansion_alignment,
            ..*old(window)
        }),
{
}

/// A wish to expand or collapse is acted on where there is an overlay that is not yet so and not on
/// its way; it is animated where that can be seen. Clicks outside are then no longer watched.
pub proof fn law_expanding_changes_over(window: &mut AppWindow, expanded: bool, step: ExpandStep)
    requires
        old(window).well_formed(),
        call_ensures(AppWindow::set_expanded, (window, expanded), step),
    ensures
        ({
            let acts = old(window).overlay_active && old(window).animation is None
                && old(window).expanded != expanded;
            let seen = old(window).animations_enabled && old(window).visible;
            &&& step is FinishFirst <==> old(window).overlay_active && old(window).animation is Some
            &&& step is Animate <==> acts && seen
            &&& step is Jump <==> acts && !seen
            &&& acts ==> *final(window) == (AppWindow {
                expanded,
                hook_installed: false,
                ..*old(window)
            })
            &&& !acts ==> *final(window) == *old(window)
        }),
{
}

/// Toggling asks for the opposite of what is.
pub proof fn law_toggling_twice_comes_back(
    window: &mut AppWindow,
    again: &mut AppWindow,
    step: ExpandStep,
    second: ExpandStep,
)
    requires
        old(window).well_formed(),
        call_ensures(AppWindow::toggle_expanded, (window,), step),
        *old(again) == *final(window),
        call_ensures(AppWindow::toggle_expanded, (again,), second),
        step is Animate || step is Jump,
    ensures
        final(window).expanded == !old(window).expanded,
        final(again).expanded == old(window).expanded,
        step == second,
{
}

/// Expanding takes 160 milliseconds and starts at the ball; collapsing takes 130 and ends where the
/// ball will be. The canvas is the panel's place, and the animation remembers the window and the
/// work area it started with.
pub proof fn law_an_animation_runs_between_ball_and_panel(
    window: &mut AppWindow,
    expanding: bool,
    rect: Rect,
    work: Rect,
    panel_height: i64,
    now: Instant,
    side: i32,
    width: i32,
    height: i32,
    middle: Point,
    ball: Point,
    panel: (Point, ExpansionAlignment),
)
    requires
        old(window).well_formed(),
        panel_height >= 0,
        call_ensures(
            AppWindow::start_animation,
            (window, expanding, rect, work, panel_height, now),
            (),
        ),
        call_ensures(dip_to_px, (56_000_000, old(window).dpi), side),
        call_ensures(dip_to_px, (288_000_000, old(window).dpi), width),
        call_ensures(dip_to_px, (panel_height, old(window).dpi), height),
        call_ensures(center, (rect,), middle),
        call_ensures(
            anchored_destination,
            (
                rect,
                old(window).config.placement.edge,
                side,
                side,
                work,
                old(window).expansion_alignment,
            ),
            ball,
        ),
        call_ensures(
            expanded_destination,
            (rect, old(window).config.placement.edge, width, height, work),
            panel,
        ),
        ball.x + side <= i32::MAX,
        ball.y + side <= i32::MAX,
    ensures
        final(window).animation is Some,
        ({
            let animation = final(window).animation->0;
            &&& animation.started_at == now
            &&& animation.anchor_rect == rect
            &&& animation.work_area == work
            &&& animation.expanding == expanding
            &&& expanding ==> {
                &&& animation.duration.nanos == 160_000_000
                &&& animation.ball_center_screen == middle
                &&& animation.canvas_destination == panel.0
                &&& final(window).expansion_alignment == panel.1
            }
            &&& !expanding ==> {
                &&& animation.duration.nanos == 130_000_000
                &&& animation.ball_center_screen.x == ball.x + side / 2
                &&& animation.ball_center_screen.y == ball.y + side / 2
                &&& animation.canvas_destination.x == rect.left
                &&& animation.canvas_destination.y == rect.top
                &&& final(window).expansion_alignment == old(window).expansion_alignment
            }
        }),
        *final(window) == (AppWindow {
            animation: final(window).animation,
            expansion_alignment: final(window).expansion_alignment,
            ..*old(window)
        }),
{
    layout::law_pixels_are_nonnegative(56_000_000, old(window).dpi as int);
}

/// A frame of the animation shows the sample of its moment on a canvas of the panel's size; the
/// ball and the shape are counted from the canvas's corner.
pub proof fn law_animation_frames_show_their_moment(
    window: &AppWindow,
    now: Instant,
    panel_height: i64,
    next: Option<TransitionFrame>,
    sample: motion::AnimationSample,
    shape: Rect,
    width: i32,
    height: i32,
)
    requires
        window.well_formed(),
        window.dpi >= 1,
        window.animation is Some,
        call_ensures(AppWindow::render_animation_frame, (window, now, panel_height), next),
        call_ensures(PanelAnimation::sample, (window.animation->0, now), sample),
        call_ensures(
            animation_shape_rect,
            (
                window.animation->0,
                sample.expansion,
                window.dpi,
                panel_height,
                window.config.placement.edge,
                window.expansion_alignment,
            ),
            shape,
        ),
        call_ensures(dip_to_px, (288_000_000, window.dpi), width),
        call_ensures(dip_to_px, (panel_height, window.dpi), height),
        offsets_fit(
            window.animation->0.canvas_destination,
            window.animation->0.ball_center_screen,
            (shape.left as int, shape.top as int, shape.right as int, shape.bottom as int),
        ),
    ensures
        next is Some,
        ({
            let animation = window.animation->0;
            let at = animation.canvas_destination;
            let shown = next->0.visual;
            &&& next->0.finished == sample.finished
            &&& next->0.frame.destination == at
            &&& next->0.frame.width == width
            &&& next->0.frame.height == height
            &&& shown.expansion == sample.expansion
            &&& shown.ball_opacity == sample.ball_opacity
            &&& shown.panel_opacity == sample.panel_opacity
            &&& is_dips_of(shown.ball_center_x, animation.ball_center_screen.x - at.x, window.dpi)
            &&& is_dips_of(shown.ball_center_y, animation.ball_center_screen.y - at.y, window.dpi)
            &&& is_dips_of(shown.shape_bounds.left, shape.left - at.x, window.dpi)
            &&& is_dips_of(shown.shape_bounds.top, shape.top - at.y, window.dpi)
            &&& is_dips_of(shown.shape_bounds.right, shape.right - at.x, window.dpi)
            &&& is_dips_of(shown.shape_bounds.bottom, shape.bottom - at.y, window.dpi)
        }),
{
    let animation = window.animation->0;
    let at = animation.canvas_destination;
    let dpi = window.dpi;
    lemma_is_dips(animation.ball_center_screen.x - at.x, dpi);
    lemma_is_dips(animation.ball_center_screen.y - at.y, dpi);
    lemma_is_dips(shape.left - at.x, dpi);
    lemma_is_dips(shape.top - at.y, dpi);
    lemma_is_dips(shape.right - at.x, dpi);
    lemma_is_dips(shape.bottom - at.y, dpi);
}

/// The nearest millionth of a device-independent pixel to a length in pixels.
pub open spec fn is_dips_of(dip: i64, px: int, dpi: u32) -> bool {
    -dpi <= 2 * (dip * dpi - px * 96_000_000) <= dpi
}

proof fn lemma_is_dips(px: int, dpi: u32)
    requires
        i32::MIN <= px <= i32::MAX,
        dpi >= 1,
    ensures
        is_dips_of(layout::dips(px, dpi as int) as i64, px, dpi),
{
    let d = dpi as int;
    let n = px * 96_000_000;
    let dip = layout::dips(px, d);
    fixed::law_nearest_is_within_half_a_step(n, d);
    let bound: int = 206_158_430_208_000_000;
    assert(-2 * bound <= dip <= 2 * bound) by (nonlinear_arith)
        requires
            2 * fixed::magnitude(n - dip * d) <= d,
            -bound <= n <= bound,
            bound == 206_158_430_208_000_000,
            d >= 1,
    ;
}

/// Ending an animation changes nothing but that, and says whether there was one.
pub proof fn law_finishing_leaves_the_rest_alone(window: &mut AppWindow, was_moving: bool)
    requires
        old(window).well_formed(),
        call_ensures(AppWindow::finish_animation, (window,), was_moving),
    ensures
        was_moving <==> old(window).animation is Some,
        final(window).animation is None,
        *final(window) == (AppWindow { animation: None, ..*old(window) }),
{
}

/// A frame at rest is the window as it is; a stopped frame timer changes nothing else.
pub proof fn law_a_still_frame_is_the_window(rect: Rect, frame: Frame, window: &mut AppWindow)
    requires
        call_ensures(still_frame, (rect,), frame),
        call_ensures(AppWindow::stop_ring_frames, (window,), ()),
    ensures
        frame.destination.x == rect.left,
        frame.destination.y == rect.top,
        frame.destination.x + frame.width == rect.right,
        frame.destination.y + frame.height == rect.bottom,
        *final(window) == (AppWindow { ring_frame_millis: None, ..*old(window) }),
{
}

/// A frame can be drawn where there is nothing to animate, or where the shape can be placed and it
/// and the ball can be counted from the canvas's corner in 32 bits.
pub proof fn law_frames_are_drawn_in_reach(
    window: &AppWindow,
    now: Instant,
    panel_height: i64,
    fits: bool,
    sample: motion::AnimationSample,
    shape_fits: bool,
    shape: Rect,
)
    requires
        window.well_formed(),
        call_ensures(AppWindow::can_draw_frame, (window, now, panel_height), fits),
        window.animation is Some ==> call_ensures(
            PanelAnimation::sample,
            (window.animation->0, now),
            sample,
        ),
        window.animation is Some ==> call_ensures(
            animation_shape_fits,
            (
                window.animation->0,
                sample.expansion,
                window.dpi,
                panel_height,
                window.config.placement.edge,
                window.expansion_alignment,
            ),
            shape_fits,
        ),
        window.animation is Some && shape_fits ==> call_ensures(
            animation_shape_rect,
            (
                window.animation->0,
                sample.expansion,
                window.dpi,
                panel_height,
                window.config.placement.edge,
                window.expansion_alignment,
            ),
            shape,
        ),
    ensures
        window.animation is None ==> fits,
        window.animation is Some ==> (fits <==> {
            let at = window.animation->0.canvas_destination;
            let ball = window.animation->0.ball_center_screen;
            let counts = |n: int| -2_147_483_648 <= n <= 2_147_483_647;
            &&& shape_fits
            &&& counts(ball.x - at.x) && counts(ball.y - at.y)
            &&& counts(shape.left - at.x) && counts(shape.right - at.x)
            &&& counts(shape.top - at.y) && counts(shape.bottom - at.y)
        }),
{
}

} // verus!
