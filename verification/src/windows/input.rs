//! Touch input.
//!
//! Coordinates are compared elsewhere. What a touch hits is handed in, and
//! decided upon here.

use vstd::prelude::*;

use crate::action::Action;
use crate::app_id::Patterns;
use crate::text::clone_opt;
use crate::windows::focus::SWITCH_DELAY;
use crate::windows::scene::LayoutPosition;
use crate::windows::state::{ActiveView, Clock, DragActionType, Overview, Windows};
use crate::windows::surface::{InputSurface, InputSurfaceKind};

verus! {

/// Gesture starting at the gesture handle.
#[derive(Clone, Copy, Debug, PartialEq, Eq, Structural)]
pub enum HandleGesture {
    Vertical,
    Horizontal,
}

/// State of a gesture.
#[derive(Clone, Copy, Debug, PartialEq, Eq, Structural)]
pub struct GestureState {
    /// Whether the touch is within the area of the overview.
    pub in_overview: bool,
    /// Whether the overview was pulled far enough to be opened or closed.
    pub threshold_passed: bool,
    /// Whether the finger is still down.
    pub touching: bool,
}

/// Third of the gesture handle.
#[derive(Clone, Copy, Debug, PartialEq, Eq, Structural)]
pub enum HandleZone {
    Left,
    Middle,
    Right,
}

/// Place where a dragged window is dropped.
#[derive(Clone, Copy, Debug, PartialEq, Eq, Structural)]
pub enum DropZone {
    Primary,
    Secondary,
    Elsewhere,
}

/// Touch which is dragged.
#[derive(Clone, Copy, Debug, PartialEq, Eq, Structural)]
pub struct DragState {
    /// Whether the touch moved further up or down than to the sides.
    pub vertical: bool,
    /// Window in the overview which was hit.
    pub position: Option<LayoutPosition>,
    /// Whether the touch is outside of the screen.
    pub outside: bool,
    /// Whether the overview is at its edge.
    pub at_edge: bool,
    /// Whether the overview would be at its edge when scrolled by the touch.
    pub at_edge_scrolled: bool,
}

/// Movement caused by a touch drag.
#[derive(Clone, Copy, Debug, PartialEq, Eq, Structural)]
pub enum DragMovement {
    /// Nothing moves, and nothing else happens.
    Ignored,
    /// Nothing moves in the overview.
    Still,
    /// The dragged window follows the touch, which might be clamped to the screen.
    Window { clamped: bool },
    /// The overview is scrolled.
    Scroll,
    /// A window in the overview is pulled.
    Pull,
}

/// Layer shell window with the surface of it that was hit.
#[derive(Debug, PartialEq, Eq)]
pub struct LayerHit {
    pub layer: u64,
    pub surface: InputSurface,
}

/// Surfaces at a point.
#[derive(Debug, PartialEq, Eq)]
pub struct Hits {
    /// Layers above fullscreen windows.
    pub overlay: Option<LayerHit>,
    /// The fullscreen window.
    pub fullscreen: Option<InputSurface>,
    /// The session lock window.
    pub lock: Option<InputSurface>,
    /// Layers above the layouts.
    pub foreground: Option<LayerHit>,
    /// The active layout.
    pub layouts: Option<InputSurface>,
    /// Layers below the layouts.
    pub background: Option<LayerHit>,
}

/// Start of a hold on a window in the overview.
pub open spec fn hold_start(overview: Overview, position: Option<LayoutPosition>) -> Seq<Action> {
    match position {
        Some(position) => seq![Action::StartHold { overview: overview.id, position }],
        None => Seq::empty(),
    }
}

impl Windows {
    /// State after a touch has started.
    pub open spec fn with_touch(self) -> Windows {
        match self.view {
            ActiveView::Overview(overview) => Windows {
                view: ActiveView::Overview(
                    Overview {
                        drag_action: DragActionType::Undecided,
                        drag_done: false,
                        ..overview
                    },
                ),
                ..self
            },
            _ => self,
        }
    }

    /// Work needed after a touch has started.
    pub open spec fn touching(&self, position: Option<LayoutPosition>) -> Seq<Action> {
        match self.view {
            ActiveView::Overview(overview) => hold_start(overview, position),
            _ => Seq::empty(),
        }
    }

    /// Handle start of touch input.
    ///
    /// `position` is the window in the overview which was hit. The result tells
    /// if a drag through the overview starts over.
    pub fn on_touch_start(&mut self, position: Option<LayoutPosition>, out: &mut Vec<Action>) -> (r:
        bool)
        ensures
            r == (old(self).view is Overview),
            *final(self) == old(self).with_touch(),
            final(out)@ == old(out)@ + old(self).touching(position),
            final(out)@ == old(out)@ + (match old(self).view {
                ActiveView::Overview(overview) => hold_start(overview, position),
                _ => Seq::empty(),
            }),
    {
        let overview: Overview = match &self.view {
            ActiveView::Overview(overview) => *overview,
            _ => {
                return false;
            },
        };
        // Hold on overview window stages it for D&D.
        if let Some(position) = position {
            out.push(Action::StartHold { overview: overview.id, position });
        }
        self.view = ActiveView::Overview(
            Overview {
                id: overview.id,
                opened: overview.opened,
                dirty: overview.dirty,
                drag_action: DragActionType::Undecided,
                drag_done: false,
            },
        );
        true
    }

    /// Work needed after a tap in the overview.
    pub open spec fn overview_tap(overview: Overview, position: Option<LayoutPosition>) -> Seq<
        Action,
    > {
        seq![Action::CancelHold { overview: overview.id }] + (if position is Some {
            seq![Action::SetActive { position, clear_parents: true }]
        } else {
            Seq::empty()
        })
    }

    /// State after a tap.
    pub open spec fn with_tap(self, in_handle: bool, patterns: Patterns, clock: Clock) -> Windows {
        if self.view is Overview {
            self.with_view(ActiveView::Workspace, clock.wall_ms)
        } else if self.view is Workspace && in_handle {
            self.with_focus(patterns, clock.mono_ns)
        } else {
            self
        }
    }

    /// Whether a tap toggles the IME override, if it decides about that.
    pub open spec fn tap_toggles_ime(&self, in_handle: bool) -> Option<bool> {
        if self.view is Workspace {
            Some(in_handle && self.focus_target() is None)
        } else {
            None
        }
    }

    /// Work needed after a tap.
    pub open spec fn tapping(
        &self,
        in_handle: bool,
        position: Option<LayoutPosition>,
        patterns: Patterns,
    ) -> Seq<Action> {
        match self.view {
            ActiveView::Overview(overview) => Self::overview_tap(overview, position),
            ActiveView::Workspace if in_handle => self.focusing(patterns),
            _ => Seq::empty(),
        }
    }

    /// Hand quick touch input.
    ///
    /// A tap in the overview opens the window which was hit and returns to the
    /// workspace. In the workspace, a tap on the gesture handle toggles the IME
    /// override as long as nothing has the focus.
    pub fn on_tap(
        &mut self,
        in_handle: bool,
        position: Option<LayoutPosition>,
        toggle_ime: &mut bool,
        patterns: &Patterns,
        clock: Clock,
        out: &mut Vec<Action>,
    )
        requires
            clock.mono_ns + SWITCH_DELAY <= u64::MAX,
        ensures
            *final(self) == old(self).with_tap(in_handle, *patterns, clock),
            *final(toggle_ime) == (match old(self).tap_toggles_ime(in_handle) {
                Some(toggles) => toggles,
                None => *old(toggle_ime),
            }),
            final(out)@ == old(out)@ + old(self).tapping(in_handle, position, *patterns),
            *final(self) == (match old(self).view {
                ActiveView::Overview(_) => old(self).with_view(
                    ActiveView::Workspace,
                    clock.wall_ms,
                ),
                ActiveView::Workspace if in_handle => old(self).with_focus(
                    *patterns,
                    clock.mono_ns,
                ),
                _ => *old(self),
            }),
            *final(toggle_ime) == (match old(self).view {
                ActiveView::Workspace => in_handle && old(self).focus_target() is None,
                _ => *old(toggle_ime),
            }),
            final(out)@ == old(out)@ + (match old(self).view {
                ActiveView::Overview(overview) => Self::overview_tap(overview, position),
                ActiveView::Workspace if in_handle => old(self).focusing(*patterns),
                _ => Seq::empty(),
            }),
    {
        let ghost start = out@;
        let overview: Option<Overview> = match &self.view {
            ActiveView::Overview(overview) => Some(*overview),
            // Handle IME override toggle on gesture handle tap.
            ActiveView::Workspace => None,
            _ => {
                return;
            },
        };
        match overview {
            Some(overview) => {
                out.push(Action::CancelHold { overview: overview.id });

                // Click inside window opens it as new primary.
                if position.is_some() {
                    out.push(Action::SetActive { position, clear_parents: true });
                }

                // Return to workspace view.
                //
                // If the click was outside of the focused window, we just close out of the
                // Overview and return to the previous primary/secondary windows.
                self.set_view(ActiveView::Workspace, clock.wall_ms);
                assert(out@ == start + Self::overview_tap(overview, position));
            },
            None => {
                if in_handle {
                    *toggle_ime = self.focus(patterns, clock, out).is_none();
                } else {
                    *toggle_ime = false;
                }
            },
        }
    }

    /// Work needed after a double tap.
    pub open spec fn double_tapping(&self, in_handle: bool, zone: HandleZone) -> Seq<Action> {
        match zone {
            HandleZone::Right if self.view is Workspace && in_handle => seq![
                Action::CycleActive { forward: true },
            ],
            HandleZone::Left if self.view is Workspace && in_handle => seq![
                Action::CycleActive { forward: false },
            ],
            _ => Seq::empty(),
        }
    }

    /// Hand quick double-touch input.
    ///
    /// On the gesture handle, this switches to the next or previous layout.
    pub fn on_double_tap(&self, in_handle: bool, zone: HandleZone, out: &mut Vec<Action>)
        ensures
            final(out)@ == old(out)@ + self.double_tapping(in_handle, zone),
            final(out)@ == (if self.view is Workspace && in_handle && zone != HandleZone::Middle {
                old(out)@.push(Action::CycleActive { forward: zone == HandleZone::Right })
            } else {
                old(out)@
            }),
    {
        // Ensure we're in workspace view.
        let workspace = match &self.view {
            ActiveView::Workspace => true,
            _ => false,
        };
        // Ignore tap outside of gesture handle.
        if !workspace || !in_handle {
            return;
        }
        match zone {
            HandleZone::Right => out.push(Action::CycleActive { forward: true }),
            HandleZone::Left => out.push(Action::CycleActive { forward: false }),
            HandleZone::Middle => (),
        }
    }

    /// What a drag in the overview does.
    pub open spec fn drag_decided(
        &self,
        overview: Overview,
        vertical: bool,
        position: Option<LayoutPosition>,
    ) -> Overview {
        if overview.drag_action != DragActionType::Undecided {
            overview
        } else {
            let action = if !vertical {
                DragActionType::Cycle
            } else {
                match position {
                    Some(position) => match self.layouts.key_at(position) {
                        Some(window) => DragActionType::Close(window),
                        None => DragActionType::Undecided,
                    },
                    None => DragActionType::Undecided,
                }
            };
            Overview { drag_action: action, drag_done: false, ..overview }
        }
    }

    /// Movement of a drag in the overview.
    pub open spec fn movement_of(action: DragActionType) -> DragMovement {
        match action {
            DragActionType::Cycle => DragMovement::Scroll,
            DragActionType::Close(_) => DragMovement::Pull,
            DragActionType::Undecided => DragMovement::Still,
        }
    }

    /// Whether the overview is at its edge after a movement.
    pub open spec fn edge_reached(drag: DragState, movement: DragMovement) -> bool {
        if movement == DragMovement::Scroll {
            drag.at_edge_scrolled
        } else {
            drag.at_edge
        }
    }

    /// End of scrolling without touch, if there is a reason for it.
    pub open spec fn velocity_end(reason: bool) -> Seq<Action> {
        if reason {
            seq![Action::CancelVelocity]
        } else {
            Seq::empty()
        }
    }

    /// Movement caused by a drag.
    pub open spec fn drag_movement(&self, drag: DragState) -> DragMovement {
        match self.view {
            ActiveView::Overview(overview) => Self::movement_of(
                self.drag_decided(overview, drag.vertical, drag.position).drag_action,
            ),
            ActiveView::DragAndDrop(_) => DragMovement::Window { clamped: drag.outside },
            _ => DragMovement::Ignored,
        }
    }

    /// State after a drag.
    pub open spec fn with_drag_moved(self, drag: DragState) -> Windows {
        match self.view {
            ActiveView::Overview(overview) => Windows {
                view: ActiveView::Overview(
                    self.drag_decided(overview, drag.vertical, drag.position),
                ),
                dirty: true,
                ..self
            },
            ActiveView::DragAndDrop(_) => Windows { dirty: true, ..self },
            _ => self,
        }
    }

    /// Work needed after a drag.
    pub open spec fn dragging(&self, drag: DragState) -> Seq<Action> {
        match self.view {
            ActiveView::Overview(overview) => Self::velocity_end(
                Self::edge_reached(drag, self.drag_movement(drag)),
            ).push(Action::CancelHold { overview: overview.id }),
            ActiveView::DragAndDrop(_) => Self::velocity_end(drag.outside),
            _ => Seq::empty(),
        }
    }

    /// Handle a touch drag.
    ///
    /// The first movement in the overview decides what the drag does until it is
    /// released. Nothing goes on moving by itself past the edge of the screen or
    /// of the overview.
    pub fn on_drag(&mut self, drag: DragState, out: &mut Vec<Action>) -> (r: DragMovement)
        ensures
            r == old(self).drag_movement(drag),
            *final(self) == old(self).with_drag_moved(drag),
            final(out)@ == old(out)@ + old(self).dragging(drag),
            match old(self).view {
                ActiveView::Overview(overview) => {
                    let decided = old(self).drag_decided(overview, drag.vertical, drag.position);
                    &&& r == Self::movement_of(decided.drag_action)
                    &&& *final(self) == (Windows {
                        view: ActiveView::Overview(decided),
                        dirty: true,
                        ..*old(self)
                    })
                    &&& final(out)@ == (old(out)@ + Self::velocity_end(
                        Self::edge_reached(drag, r),
                    )).push(Action::CancelHold { overview: overview.id })
                },
                ActiveView::DragAndDrop(_) => {
                    &&& r == DragMovement::Window { clamped: drag.outside }
                    &&& *final(self) == (Windows { dirty: true, ..*old(self) })
                    &&& final(out)@ == old(out)@ + Self::velocity_end(drag.outside)
                },
                _ => {
                    &&& r == DragMovement::Ignored
                    &&& *final(self) == *old(self)
                    &&& final(out)@ == old(out)@
                },
            },
    {
        let mut overview: Overview = match &self.view {
            ActiveView::Overview(overview) => *overview,
            ActiveView::DragAndDrop(_) => {
                // Cancel velocity and clamp if touch position is outside the screen.
                if drag.outside {
                    out.push(Action::CancelVelocity);
                }

                // Redraw when the D&D window is moved.
                self.dirty = true;
                return DragMovement::Window { clamped: drag.outside };
            },
            _ => {
                return DragMovement::Ignored;
            },
        };

        // Lock current drag direction if it hasn't been determined yet.
        if overview.drag_action == DragActionType::Undecided {
            overview.drag_action = if drag.vertical {
                match drag.position {
                    Some(position) => match self.layouts.window_at(position) {
                        Some(window) => DragActionType::Close(window),
                        None => DragActionType::Undecided,
                    },
                    None => DragActionType::Undecided,
                }
            } else {
                DragActionType::Cycle
            };
            overview.drag_done = false;
        }
        self.view = ActiveView::Overview(overview);

        // Update drag action.
        let (movement, at_edge) = match overview.drag_action {
            DragActionType::Cycle => (DragMovement::Scroll, drag.at_edge_scrolled),
            DragActionType::Close(_) => (DragMovement::Pull, drag.at_edge),
            DragActionType::Undecided => (DragMovement::Still, drag.at_edge),
        };

        // Cancel velocity once drag actions are completed.
        if at_edge {
            out.push(Action::CancelVelocity);
        }
        out.push(Action::CancelHold { overview: overview.id });

        // Redraw when cycling through the overview.
        self.dirty = true;
        movement
    }

    /// Place of a dragged window within the layouts.
    pub open spec fn dragged_place(&self, window: u64) -> Option<LayoutPosition> {
        match self.layouts.window(window) {
            Some(w) => match self.layouts.wl_surface(w.surface) {
                Some(surface) => self.layouts.place_from(surface, 0),
                None => None,
            },
            None => None,
        }
    }

    /// State after a drag was released.
    pub open spec fn with_drag_released(self, zone: DropZone, overview: Overview, now: u64) -> Windows {
        match self.view {
            ActiveView::Overview(current) => Windows {
                view: ActiveView::Overview(Overview { drag_done: true, ..current }),
                ..self
            },
            ActiveView::DragAndDrop(dnd) => if zone == DropZone::Elsewhere {
                self.with_view(ActiveView::Overview(overview), now)
            } else if self.dragged_place(dnd.window) is Some {
                self.with_view(ActiveView::Workspace, now)
            } else {
                self
            },
            _ => self,
        }
    }

    /// Work needed after a drag was released.
    pub open spec fn drag_release(&self, zone: DropZone) -> Seq<Action> {
        match self.view {
            ActiveView::DragAndDrop(dnd) => match self.dragged_place(dnd.window) {
                Some(position) => match zone {
                    DropZone::Primary => seq![Action::SetPrimary(position)],
                    DropZone::Secondary => seq![Action::SetSecondary(position)],
                    DropZone::Elsewhere => Seq::empty(),
                },
                None => Seq::empty(),
            },
            _ => Seq::empty(),
        }
    }

    /// Handle touch drag release.
    ///
    /// A dragged window becomes the primary or secondary one, depending on
    /// where it is dropped. Otherwise this returns to `overview`.
    pub fn on_drag_release(
        &mut self,
        zone: DropZone,
        overview: Overview,
        now: u64,
        out: &mut Vec<Action>,
    )
        requires
            old(self).view matches ActiveView::DragAndDrop(dnd) ==> zone == DropZone::Elsewhere
                || old(self).surface_known(Some(dnd.window)),
        ensures
            *final(self) == old(self).with_drag_released(zone, overview, now),
            final(out)@ == old(out)@ + old(self).drag_release(zone),
    {
        let window: u64 = match &self.view {
            ActiveView::Overview(current) => {
                let current: Overview = *current;
                self.view = ActiveView::Overview(
                    Overview {
                        id: current.id,
                        opened: current.opened,
                        dirty: current.dirty,
                        drag_action: current.drag_action,
                        drag_done: true,
                    },
                );
                return;
            },
            ActiveView::DragAndDrop(dnd) => dnd.window,
            _ => {
                return;
            },
        };
        if zone == DropZone::Elsewhere {
            self.set_view(ActiveView::Overview(overview), now);
            return;
        }
        let position = match self.layouts.find(window) {
            Some(window) => match self.layouts.maybe_surface(window.surface) {
                Some(surface) => self.layouts.position(surface),
                None => None,
            },
            None => None,
        };
        if let Some(position) = position {
            if zone == DropZone::Primary {
                out.push(Action::SetPrimary(position));
            } else {
                out.push(Action::SetSecondary(position));
            }
            self.set_view(ActiveView::Workspace, now);
        }
    }

    /// Whether a gesture is about the overview which is open.
    pub open spec fn pulls_overview(&self, gesture: HandleGesture) -> bool {
        gesture == HandleGesture::Vertical && self.view is Overview
    }

    /// Whether a gesture opens the overview.
    pub open spec fn opens_overview(&self, gesture: HandleGesture, state: GestureState) -> bool {
        &&& gesture == HandleGesture::Vertical
        &&& self.view is Workspace
        &&& self.layouts.layouts.len() > 0
        &&& state.in_overview
    }

    /// Whether a gesture leaves fullscreen.
    pub open spec fn leaves_fullscreen(&self, gesture: HandleGesture, state: GestureState) -> bool {
        &&& gesture == HandleGesture::Vertical
        &&& self.view is Fullscreen
        &&& state.in_overview
    }

    /// Whether a gesture is completed without the finger being lifted.
    pub open spec fn completes_gesture(&self, gesture: HandleGesture, state: GestureState) -> bool {
        self.pulls_overview(gesture) && state.threshold_passed && !state.touching
    }

    /// State after a gesture has moved.
    pub open spec fn with_gesture(
        self,
        gesture: HandleGesture,
        state: GestureState,
        overview: Overview,
        now: u64,
    ) -> Windows {
        if self.completes_gesture(gesture, state) {
            self.with_gesture_done(gesture, state, overview, now)
        } else if self.opens_overview(gesture, state) {
            self.with_view(ActiveView::Overview(overview), now)
        } else {
            self
        }
    }

    /// Work needed after a gesture has moved.
    pub open spec fn gesturing(
        &self,
        gesture: HandleGesture,
        state: GestureState,
        now: u64,
    ) -> Seq<Action> {
        if self.completes_gesture(gesture, state) {
            seq![Action::CancelVelocity] + self.gesture_completion(gesture, state, now)
        } else {
            Seq::empty()
        }
    }

    /// Process in-progress handle gestures.
    ///
    /// `overview` is a new overview, for opening it from the workspace or for
    /// staying in it.
    pub fn on_gesture(
        &mut self,
        gesture: HandleGesture,
        state: GestureState,
        overview: Overview,
        now: u64,
        out: &mut Vec<Action>,
    )
        ensures
            *final(self) == old(self).with_gesture(gesture, state, overview, now),
            final(out)@ == old(out)@ + old(self).gesturing(gesture, state, now),
            final(out)@ == old(out)@ + (if old(self).completes_gesture(gesture, state) {
                seq![Action::CancelVelocity] + old(self).gesture_completion(gesture, state, now)
            } else {
                Seq::empty()
            }),
    {
        let ghost start = out@;
        let ghost before = *self;
        let (in_overview_view, in_workspace) = match &self.view {
            ActiveView::Overview(_) => (true, false),
            ActiveView::Workspace => (false, true),
            _ => (false, false),
        };
        if gesture == HandleGesture::Vertical && in_overview_view {
            // Ensure we don't keep processing velocity after completion.
            if state.threshold_passed && !state.touching {
                out.push(Action::CancelVelocity);
                self.on_gesture_done(gesture, state, overview, now, out);
                assert(out@ == start + (seq![Action::CancelVelocity] + before.gesture_completion(
                    gesture,
                    state,
                    now,
                )));
            }
        } else if gesture == HandleGesture::Vertical && in_workspace && self.layouts.layouts.len()
            > 0 {
            // Ignore overview gesture until changes are required.
            if state.in_overview {
                self.set_view(ActiveView::Overview(overview), now);
            }
        }
    }

    /// State after a gesture was completed.
    pub open spec fn with_gesture_done(
        self,
        gesture: HandleGesture,
        state: GestureState,
        overview: Overview,
        now: u64,
    ) -> Windows {
        if gesture == HandleGesture::Horizontal {
            self
        } else {
            match self.view {
                ActiveView::Overview(current) => if current.opened {
                    if state.threshold_passed {
                        self.with_view(ActiveView::Workspace, now)
                    } else {
                        self.with_view(ActiveView::Overview(overview), now)
                    }
                } else if state.threshold_passed {
                    Windows {
                        view: ActiveView::Overview(Overview { opened: true, ..current }),
                        ..self
                    }
                } else {
                    self.with_view(ActiveView::Workspace, now)
                },
                ActiveView::Fullscreen(_) if state.in_overview => self.with_view(
                    ActiveView::Workspace,
                    now,
                ),
                _ => self,
            }
        }
    }

    /// Work needed after a gesture was completed.
    pub open spec fn gesture_completion(
        &self,
        gesture: HandleGesture,
        state: GestureState,
        now: u64,
    ) -> Seq<Action> {
        if self.pulls_overview(gesture) && self.view->Overview_0.opened && state.threshold_passed {
            seq![Action::SetActive { position: None, clear_parents: true }]
        } else if self.leaves_fullscreen(gesture, state) {
            seq![
                Action::SetFullscreen { window: self.view->Fullscreen_0, fullscreen: false },
            ] + self.with_view(ActiveView::Workspace, now).visible_resize()
        } else {
            Seq::empty()
        }
    }

    /// Process completion of handle gestures.
    ///
    /// The overview is opened or closed, and fullscreen is left by dragging up.
    pub fn on_gesture_done(
        &mut self,
        gesture: HandleGesture,
        state: GestureState,
        overview: Overview,
        now: u64,
        out: &mut Vec<Action>,
    )
        ensures
            *final(self) == old(self).with_gesture_done(gesture, state, overview, now),
            final(out)@ == old(out)@ + old(self).gesture_completion(gesture, state, now),
    {
        if gesture == HandleGesture::Horizontal {
            return;
        }
        let ghost before = *self;
        let ghost start = out@;
        match &self.view {
            ActiveView::Overview(current) => {
                let current: Overview = *current;
                if current.opened {
                    if state.threshold_passed {
                        // Switch back to workspace view.
                        out.push(Action::SetActive { position: None, clear_parents: true });
                        self.set_view(ActiveView::Workspace, now);
                    } else {
                        // Stay in overview.
                        self.set_view(ActiveView::Overview(overview), now);
                    }
                } else if state.threshold_passed {
                    self.view = ActiveView::Overview(
                        Overview {
                            id: current.id,
                            opened: true,
                            dirty: current.dirty,
                            drag_action: current.drag_action,
                            drag_done: current.drag_done,
                        },
                    );
                } else {
                    self.set_view(ActiveView::Workspace, now);
                }
            },
            // Leave fullscreen on "drag up".
            ActiveView::Fullscreen(window) => {
                // Require drag end to be above the gesture handle.
                if state.in_overview {
                    // Unset XDG fullscreen state.
                    out.push(Action::SetFullscreen { window: *window, fullscreen: false });

                    // Change back to workspace view.
                    self.set_view(ActiveView::Workspace, now);

                    // Resize back to workspace size.
                    self.resize_visible(out);
                    assert(out@ == start + before.gesture_completion(gesture, state, now));
                }
            },
            _ => (),
        }
    }

    /// Surface of a layer, with the focus if the layer accepts it.
    pub open spec fn layer_hit(&self, hit: LayerHit) -> InputSurface {
        match self.layers.layer(hit.layer) {
            Some(layer) if !layer.deny_focus => InputSurface {
                toplevel: Some(InputSurfaceKind::Layer((layer.surface, layer.app_id))),
                ..hit.surface
            },
            _ => hit.surface,
        }
    }

    /// Surface of the fullscreen window, with the focus.
    pub open spec fn fullscreen_hit(&self, window: u64, surface: InputSurface) -> InputSurface {
        let app_id = match self.layouts.window(window) {
            Some(w) => w.app_id,
            None => None,
        };
        InputSurface { toplevel: Some(InputSurfaceKind::Layout((window, app_id))), ..surface }
    }

    /// Surface which receives a touch.
    pub open spec fn touched(&self, hits: Hits) -> Option<InputSurface> {
        match self.view {
            ActiveView::Workspace => match hits.foreground {
                Some(hit) => Some(self.layer_hit(hit)),
                None => match hits.layouts {
                    Some(surface) => Some(surface),
                    None => match hits.background {
                        Some(hit) => Some(self.layer_hit(hit)),
                        None => None,
                    },
                },
            },
            ActiveView::Fullscreen(window) => match hits.overlay {
                Some(hit) => Some(self.layer_hit(hit)),
                None => match hits.fullscreen {
                    Some(surface) => Some(self.fullscreen_hit(window, surface)),
                    None => None,
                },
            },
            ActiveView::Lock(Some(_)) => hits.lock,
            _ => None,
        }
    }

    /// Focus a layer shell surface, if the layer accepts it.
    fn focus_layer(&self, hit: LayerHit) -> (r: InputSurface)
        ensures
            r == self.layer_hit(hit),
    {
        let mut surface = hit.surface;
        // Only set new focus target if focus is accepted.
        if let Some(layer) = self.layers.find(hit.layer) {
            if !layer.deny_focus {
                surface.toplevel = Some(
                    InputSurfaceKind::Layer((layer.surface, clone_opt(&layer.app_id))),
                );
            }
        }
        surface
    }

    /// Check which surface is at a specific touch point.
    ///
    /// This filters out non-interactive surfaces: nothing can be touched in
    /// the overview, while dragging and before the lock screen has shown up.
    pub fn surface_at(&self, hits: Hits) -> (r: Option<InputSurface>)
        ensures
            r == self.touched(hits),
    {
        match &self.view {
            ActiveView::Workspace => {
                // Search for topmost clicked surface.
                if let Some(hit) = hits.foreground {
                    return Some(self.focus_layer(hit));
                }
                if let Some(surface) = hits.layouts {
                    return Some(surface);
                }
                if let Some(hit) = hits.background {
                    return Some(self.focus_layer(hit));
                }
                None
            },
            ActiveView::Fullscreen(key) => {
                if let Some(hit) = hits.overlay {
                    return Some(self.focus_layer(hit));
                }

                // Get surface of the fullscreened window.
                match hits.fullscreen {
                    Some(surface) => {
                        // Set toplevel to update focus.
                        let app_id = match self.layouts.find(*key) {
                            Some(window) => clone_opt(&window.app_id),
                            None => None,
                        };
                        let mut surface = surface;
                        surface.toplevel = Some(InputSurfaceKind::Layout((*key, app_id)));
                        Some(surface)
                    },
                    None => None,
                }
            },
            ActiveView::Lock(Some(_)) => hits.lock,
            _ => None,
        }
    }
}

} // verus!
