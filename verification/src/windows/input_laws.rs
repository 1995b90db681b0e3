//! What touches do in each view.

use vstd::prelude::*;

use crate::action::Action;
use crate::app_id::Patterns;
use crate::windows::input::{
    hold_start, DragMovement, DragState, DropZone, GestureState, HandleGesture, HandleZone, Hits,
    LayerHit,
};
use crate::windows::scene::{LayoutPosition, Window};
use crate::windows::state::{ActiveView, Clock, DragActionType, Overview, Windows};
use crate::windows::surface::{InputSurface, InputSurfaceKind};

verus! {

/// A touch in the overview starts a new drag, and a hold on the window it hits.
///
/// Touches elsewhere start nothing.
pub proof fn law_touches_start_over_in_the_overview(s: Windows, position: LayoutPosition)
    ensures
        !(s.view is Overview) ==> s.with_touch() == s,
        s.view matches ActiveView::Overview(overview) ==> {
            &&& s.with_touch().view matches ActiveView::Overview(new) && new.id == overview.id
                && new.opened == overview.opened && new.dirty == overview.dirty && new.drag_action
                == DragActionType::Undecided && !new.drag_done
            &&& s.with_touch() == (Windows { view: s.with_touch().view, ..s })
            &&& hold_start(overview, Some(position)) == seq![
                Action::StartHold { overview: overview.id, position },
            ]
            &&& hold_start(overview, None).len() == 0
        },
{
}

/// A tap in the overview opens the window it hits, and returns to the workspace in any case.
pub proof fn law_taps_leave_the_overview(
    s: Windows,
    in_handle: bool,
    position: Option<LayoutPosition>,
    patterns: Patterns,
    clock: Clock,
    overview: Overview,
)
    requires
        s.view == ActiveView::Overview(overview),
        !s.lock_pending(),
    ensures
        s.with_tap(in_handle, patterns, clock).pending() == ActiveView::Workspace,
        s.tap_toggles_ime(in_handle) is None,
        s.tapping(in_handle, position, patterns).len() >= 1,
        s.tapping(in_handle, position, patterns)[0] == (Action::CancelHold {
            overview: overview.id,
        }),
        position is Some ==> s.tapping(in_handle, position, patterns).len() == 2 && s.tapping(
            in_handle,
            position,
            patterns,
        )[1] == (Action::SetActive { position, clear_parents: true }),
        position is None ==> s.tapping(in_handle, position, patterns).len() == 1,
{
}

/// A tap on the gesture handle of the workspace toggles the IME override if nothing has the focus.
///
/// A tap next to it does not, and other views leave the override alone.
pub proof fn law_taps_on_the_handle_toggle_the_ime(
    s: Windows,
    in_handle: bool,
    position: Option<LayoutPosition>,
    patterns: Patterns,
    clock: Clock,
)
    ensures
        s.view is Workspace && in_handle && s.focus_target() is None ==> s.tap_toggles_ime(in_handle)
            == Some(true),
        s.view is Workspace && in_handle && s.focus_target() is Some ==> s.tap_toggles_ime(in_handle)
            == Some(false),
        s.view is Workspace && !in_handle ==> s.tap_toggles_ime(in_handle) == Some(false)
            && s.with_tap(in_handle, patterns, clock) == s && s.tapping(
            in_handle,
            position,
            patterns,
        ).len() == 0,
        s.view is Workspace && in_handle ==> s.with_tap(in_handle, patterns, clock) == s.with_focus(
            patterns,
            clock.mono_ns,
        ) && s.tapping(in_handle, position, patterns) == s.focusing(patterns),
        s.view is Fullscreen || s.view is Lock || s.view is DragAndDrop ==> s.tap_toggles_ime(
            in_handle,
        ) is None && s.with_tap(in_handle, patterns, clock) == s && s.tapping(
            in_handle,
            position,
            patterns,
        ).len() == 0,
{
}

/// A double tap on the right of the gesture handle goes on, and one on the left goes back.
///
/// Nothing happens in the middle, next to the handle or outside of the workspace.
pub proof fn law_double_taps_cycle(s: Windows, in_handle: bool, zone: HandleZone)
    ensures
        s.view is Workspace && in_handle && zone is Right ==> s.double_tapping(in_handle, zone)
            == seq![Action::CycleActive { forward: true }],
        s.view is Workspace && in_handle && zone is Left ==> s.double_tapping(in_handle, zone)
            == seq![Action::CycleActive { forward: false }],
        zone is Middle || !in_handle || !(s.view is Workspace) ==> s.double_tapping(
            in_handle,
            zone,
        ).len() == 0,
{
}

/// The first movement in the overview decides what a drag does until it is released.
///
/// Sideways it scrolls. Up or down it closes the window which was hit, and
/// nothing is decided without such a window.
pub proof fn law_first_movement_decides(s: Windows, drag: DragState, later: DragState)
    requires
        s.view is Overview,
    ensures
        s.with_drag_moved(drag).dirty,
        s.with_drag_moved(drag).view matches ActiveView::Overview(o) && o.id == s.view->Overview_0.id
            && o.opened == s.view->Overview_0.opened,
        s.view->Overview_0.drag_action is Undecided ==> {
            &&& !drag.vertical ==> s.drag_movement(drag) is Scroll
            &&& drag.vertical && drag.position is None ==> s.drag_movement(drag) is Still
            &&& drag.vertical ==> (drag.position matches Some(position) ==> {
                &&& s.layouts.key_at(position) is None ==> s.drag_movement(drag) is Still
                &&& s.layouts.key_at(position) matches Some(key) ==> s.drag_movement(drag) is Pull
                    && s.with_drag_moved(drag).view->Overview_0.drag_action == DragActionType::Close(key)
            })
        },
        s.view->Overview_0.drag_action is Cycle ==> s.drag_movement(drag) is Scroll
            && s.with_drag_moved(drag).view == s.view,
        s.view->Overview_0.drag_action is Close ==> s.drag_movement(drag) is Pull
            && s.with_drag_moved(drag).view == s.view,
        !(s.drag_movement(drag) is Still) ==> s.with_drag_moved(drag).drag_movement(later)
            == s.drag_movement(drag),
{
}

/// Every drag in the overview ends the hold, and scrolling ends at the edge.
pub proof fn law_drags_end_holds(s: Windows, drag: DragState, overview: Overview)
    requires
        s.view == ActiveView::Overview(overview),
    ensures
        ({
            let edge = if s.drag_movement(drag) is Scroll {
                drag.at_edge_scrolled
            } else {
                drag.at_edge
            };
            let all = s.dragging(drag);
            &&& edge ==> all == seq![
                Action::CancelVelocity,
                Action::CancelHold { overview: overview.id },
            ]
            &&& !edge ==> all == seq![Action::CancelHold { overview: overview.id }]
        }),
{
}

/// A dragged window follows the touch up to the edge of the screen, and other views ignore drags.
pub proof fn law_dragged_windows_follow(s: Windows, drag: DragState)
    ensures
        s.view is DragAndDrop ==> {
            &&& s.drag_movement(drag) == DragMovement::Window { clamped: drag.outside }
            &&& s.with_drag_moved(drag) == (Windows { dirty: true, ..s })
            &&& drag.outside ==> s.dragging(drag) == seq![Action::CancelVelocity]
            &&& !drag.outside ==> s.dragging(drag).len() == 0
        },
        s.view is Workspace || s.view is Fullscreen || s.view is Lock ==> {
            &&& s.drag_movement(drag) is Ignored
            &&& s.with_drag_moved(drag) == s
            &&& s.dragging(drag).len() == 0
        },
{
}

/// A dropped window goes where it is dropped, and a window dropped elsewhere stays in the overview.
pub proof fn law_dropped_windows_find_their_place(
    s: Windows,
    zone: DropZone,
    overview: Overview,
    now: u64,
    w: Window,
    surface: u64,
)
    requires
        s.view is DragAndDrop,
        s.layouts.window(s.view->DragAndDrop_0.window) == Some(w),
        s.layouts.wl_surface(w.surface) == Some(surface),
        !s.lock_pending(),
    ensures
        zone is Elsewhere ==> s.with_drag_released(zone, overview, now).view
            == ActiveView::Overview(overview) && s.drag_release(zone).len() == 0,
        s.layouts.place_from(surface, 0) matches Some(place) ==> {
            &&& zone is Primary ==> s.drag_release(zone) == seq![Action::SetPrimary(place)]
            &&& zone is Secondary ==> s.drag_release(zone) == seq![Action::SetSecondary(place)]
            &&& !(zone is Elsewhere) ==> s.with_drag_released(zone, overview, now).pending()
                == ActiveView::Workspace
        },
        s.layouts.place_from(surface, 0) is None && !(zone is Elsewhere) ==> s.with_drag_released(
            zone,
            overview,
            now,
        ) == s && s.drag_release(zone).len() == 0,
{
}

/// A drag through the overview is done when it is released, and nothing else changes.
pub proof fn law_released_drags_are_done(
    s: Windows,
    zone: DropZone,
    overview: Overview,
    now: u64,
)
    ensures
        s.view matches ActiveView::Overview(current) ==> {
            let t = s.with_drag_released(zone, overview, now);
            &&& t.view matches ActiveView::Overview(new) && new.drag_done && new.id == current.id
                && new.drag_action == current.drag_action && new.opened == current.opened
                && new.dirty == current.dirty
            &&& t == (Windows { view: t.view, ..s })
        },
        !(s.view is DragAndDrop) ==> s.drag_release(zone).len() == 0,
        s.view is Workspace || s.view is Fullscreen || s.view is Lock ==> s.with_drag_released(
            zone,
            overview,
            now,
        ) == s,
{
}

/// A vertical gesture opens the overview from the workspace, as soon as it has left the handle.
///
/// It takes a layout to show. Horizontal gestures do nothing.
pub proof fn law_vertical_gestures_open_the_overview(
    s: Windows,
    gesture: HandleGesture,
    state: GestureState,
    overview: Overview,
    now: u64,
)
    requires
        !s.lock_pending(),
    ensures
        gesture is Vertical && s.view is Workspace && s.layouts.layouts.len() > 0
            && state.in_overview ==> s.with_gesture(gesture, state, overview, now).view
            == ActiveView::Overview(overview),
        s.view is Workspace && (gesture is Horizontal || s.layouts.layouts.len() == 0
            || !state.in_overview) ==> s.with_gesture(gesture, state, overview, now) == s,
        gesture is Horizontal ==> s.with_gesture(gesture, state, overview, now) == s
            && s.with_gesture_done(gesture, state, overview, now) == s && s.gesture_completion(
            gesture,
            state,
            now,
        ).len() == 0,
        !(s.view is Overview) ==> !s.completes_gesture(gesture, state),
        s.view is Overview && gesture is Vertical ==> (s.completes_gesture(gesture, state)
            <==> state.threshold_passed && !state.touching),
        s.view is Overview && (state.touching || !state.threshold_passed) ==> s.with_gesture(
            gesture,
            state,
            overview,
            now,
        ) == s,
        s.completes_gesture(gesture, state) ==> s.with_gesture(gesture, state, overview, now)
            == s.with_gesture_done(gesture, state, overview, now),
{
}

/// A pull past the threshold opens the overview or closes it again, and any other one is undone.
pub proof fn law_pulls_open_and_close_the_overview(
    s: Windows,
    state: GestureState,
    overview: Overview,
    now: u64,
    current: Overview,
)
    requires
        !s.lock_pending(),
        s.view == ActiveView::Overview(current),
    ensures
        ({
            let t = s.with_gesture_done(HandleGesture::Vertical, state, overview, now);
            let all = s.gesture_completion(HandleGesture::Vertical, state, now);
            &&& current.opened && state.threshold_passed ==> t.pending() == ActiveView::Workspace
                && all == seq![Action::SetActive { position: None, clear_parents: true }]
            &&& current.opened && !state.threshold_passed ==> t.view == ActiveView::Overview(
                overview,
            ) && all.len() == 0
            &&& !current.opened && state.threshold_passed ==> t == (Windows {
                view: ActiveView::Overview(Overview { opened: true, ..current }),
                ..s
            }) && all.len() == 0
            &&& !current.opened && !state.threshold_passed ==> t.pending() == ActiveView::Workspace
                && all.len() == 0
        }),
{
}

/// Dragging up from the handle leaves fullscreen, with the window told and everything resized.
pub proof fn law_dragging_up_leaves_fullscreen(
    s: Windows,
    state: GestureState,
    overview: Overview,
    now: u64,
    key: u64,
)
    requires
        !s.lock_pending(),
        s.view == ActiveView::Fullscreen(key),
    ensures
        ({
            let t = s.with_gesture_done(HandleGesture::Vertical, state, overview, now);
            let all = s.gesture_completion(HandleGesture::Vertical, state, now);
            &&& state.in_overview ==> {
                &&& t.pending() == ActiveView::Workspace
                &&& all.len() > 0
                &&& all[0] == Action::SetFullscreen { window: key, fullscreen: false }
                &&& all.skip(1) == t.visible_resize()
            }
            &&& !state.in_overview ==> t == s && all.len() == 0
        }),
{
    let t = s.with_gesture_done(HandleGesture::Vertical, state, overview, now);
    if state.in_overview {
        assert(s.gesture_completion(HandleGesture::Vertical, state, now).skip(1)
            =~= t.visible_resize());
    }
}

/// The topmost surface of the workspace is touched: layers above, then the layout, then layers
/// below.
pub proof fn law_topmost_surface_is_touched(s: Windows, hits: Hits)
    requires
        s.view is Workspace,
    ensures
        hits.foreground matches Some(hit) ==> s.touched(hits) == Some(s.layer_hit(hit)),
        hits.foreground is None ==> (hits.layouts matches Some(surface) ==> s.touched(hits) == Some(
            surface,
        )),
        hits.foreground is None && hits.layouts is None ==> (hits.background matches Some(hit)
            ==> s.touched(hits) == Some(s.layer_hit(hit))),
        hits.foreground is None && hits.layouts is None && hits.background is None ==> s.touched(
            hits,
        ) is None,
{
}

/// A touch in fullscreen goes to overlays first, and then to the window, which gets the focus.
pub proof fn law_fullscreen_window_is_touched(s: Windows, hits: Hits, key: u64, w: Window)
    requires
        s.view == ActiveView::Fullscreen(key),
        s.layouts.window(key) == Some(w),
    ensures
        hits.overlay matches Some(hit) ==> s.touched(hits) == Some(s.layer_hit(hit)),
        hits.overlay is None ==> (hits.fullscreen matches Some(surface) ==> (s.touched(
            hits,
        ) matches Some(touched) && touched.toplevel == Some(
            InputSurfaceKind::Layout((key, w.app_id)),
        ) && touched == (InputSurface { toplevel: touched.toplevel, ..surface }))),
        hits.overlay is None && hits.fullscreen is None ==> s.touched(hits) is None,
{
}

/// A touched layer gets the focus unless it denies it.
pub proof fn law_layers_can_deny_the_focus(s: Windows, hit: LayerHit)
    ensures
        s.layers.layer(hit.layer) is None ==> s.layer_hit(hit) == hit.surface,
        s.layers.layer(hit.layer) matches Some(layer) ==> {
            &&& layer.deny_focus ==> s.layer_hit(hit) == hit.surface
            &&& !layer.deny_focus ==> s.layer_hit(hit) == (InputSurface {
                toplevel: Some(InputSurfaceKind::Layer((layer.surface, layer.app_id))),
                ..hit.surface
            })
        },
{
}

/// Nothing can be touched in the overview or while dragging, and only the lock surface of a
/// locked session.
pub proof fn law_some_views_cannot_be_touched(s: Windows, hits: Hits)
    ensures
        s.view is Overview || s.view is DragAndDrop || s.view == ActiveView::Lock(None)
            ==> s.touched(hits) is None,
        s.view matches ActiveView::Lock(Some(_)) ==> s.touched(hits) == hits.lock,
{
}

/// Only a touch in the overview starts a hold, on the window it hits.
pub proof fn law_holds_start_in_the_overview(s: Windows, position: Option<LayoutPosition>)
    ensures
        !(s.view is Overview) || position is None ==> s.touching(position).len() == 0,
        s.view matches ActiveView::Overview(overview) ==> (position matches Some(place)
            ==> s.touching(position) == seq![
            Action::StartHold { overview: overview.id, position: place },
        ]),
{
}

/// A gesture which is completed without the finger stops moving first, and a gesture which goes
/// on needs no work.
pub proof fn law_completed_gestures_stop(
    s: Windows,
    gesture: HandleGesture,
    state: GestureState,
    now: u64,
)
    ensures
        gesture is Vertical && s.view is Overview && state.threshold_passed && !state.touching ==> {
            let all = s.gesturing(gesture, state, now);
            &&& all.len() > 0
            &&& all[0] == Action::CancelVelocity
            &&& all.skip(1) == s.gesture_completion(gesture, state, now)
        },
        gesture is Horizontal || !(s.view is Overview) || !state.threshold_passed || state.touching
            ==> s.gesturing(gesture, state, now).len() == 0,
{
    assert((seq![Action::CancelVelocity] + s.gesture_completion(gesture, state, now)).skip(1)
        =~= s.gesture_completion(gesture, state, now));
}

} // verus!
