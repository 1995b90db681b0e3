//! What a change of the view does, and which windows are resized with it.

use vstd::prelude::*;

use crate::action::{Action, Area, Target};
use crate::lists::{collect_all, lemma_collect_single};
use crate::windows::state::{layer_update, window_update, ActiveView, Windows};

verus! {

/// The overview is shown at once, and every other view once its transaction is done.
///
/// A transaction which was on its way to another view stays in the overview.
/// Nothing but the view is changed.
pub proof fn law_only_the_overview_is_shown_at_once(s: Windows, view: ActiveView, now: u64)
    requires
        !(s.pending() is Lock),
    ensures
        ({
            let t = s.with_view(view, now);
            &&& t.pending() == view
            &&& view is Overview ==> t.view == view && t.timer == s.timer
            &&& view is Overview && s.transaction is None ==> t.dirty && t.transaction is None
            &&& view is Overview && s.transaction is Some ==> t.dirty == s.dirty
                && t.transaction is Some
            &&& !(view is Overview) ==> t.view == s.view && t.dirty == s.dirty && t.transaction
                is Some
            &&& !(view is Overview) && s.timer.start != 0 ==> t.timer.start == s.timer.start
            &&& !(view is Overview) && s.timer.start == 0 ==> t.timer.start == now
            &&& t == (Windows {
                view: t.view,
                timer: t.timer,
                transaction: t.transaction,
                dirty: t.dirty,
                ..s
            })
        }),
{
}

/// A requested transaction keeps the view it ends in, and its start if it is running.
pub proof fn law_requests_join_the_transaction(s: Windows, now: u64)
    ensures
        s.with_transaction(now).pending() == s.pending(),
        s.with_transaction(now).view == s.view,
        s.with_transaction(now).transaction is Some,
        s.timer.start == 0 ==> s.with_transaction(now).timer.start == now,
        s.timer.start != 0 ==> s.with_transaction(now).timer.start == s.timer.start,
        s.with_transaction(now).layouts == s.layouts,
        s.with_transaction(now).layers == s.layers,
        s.with_transaction(now).dirty == s.dirty,
{
}

/// Visible windows are resized to where they are shown.
///
/// In fullscreen, that is the window itself and the overlays above it. A locked
/// session shows the lock surface alone, on the entire output. Otherwise, it is
/// the active layout with all layers around it.
pub proof fn law_visible_windows_are_resized(s: Windows)
    ensures
        s.pending() matches ActiveView::Fullscreen(key) ==> {
            let all = s.visible_resize();
            &&& all.len() == 1 + s.layers.overlay.len()
            &&& all[0] == Action::SetDimensions {
                target: Target::Layout(key),
                area: Area::AvailableFullscreen,
            }
            &&& forall|i: int|
                0 <= i < s.layers.overlay.len() ==> all[i + 1] == Action::UpdateDimensions {
                    layer: #[trigger] s.layers.overlay[i],
                    fullscreen: true,
                }
        },
        s.pending() matches ActiveView::Lock(Some(lock)) ==> s.visible_resize() == seq![
            Action::SetDimensions { target: Target::Lock(lock.surface), area: Area::Output },
        ],
        s.pending() is Workspace || s.pending() is Overview || s.pending() is DragAndDrop
            || s.pending() == ActiveView::Lock(None) ==> {
            let all = s.visible_resize();
            &&& all.len() == 1 + s.layers.windows.len()
            &&& all[0] == Action::ResizePendingActive
            &&& forall|i: int|
                0 <= i < s.layers.windows.len() ==> all[i + 1] == Action::UpdateDimensions {
                    layer: (#[trigger] s.layers.windows[i]).surface,
                    fullscreen: false,
                }
        },
{
    let overlays = s.layers.overlay@;
    let layers = s.layers.windows@;
    lemma_collect_single(overlays, layer_update(true), overlays.len() as int);
    lemma_collect_single(layers, window_update(false), layers.len() as int);
}

/// Everything is resized but a layout which shows the fullscreen window.
///
/// Layers are resized last, overlays above a fullscreen window in fullscreen.
pub proof fn law_everything_is_resized(s: Windows, at: usize)
    requires
        at < s.layouts.layouts.len(),
    ensures
        ({
            let layout = s.layouts.layouts[at as int];
            let shown = s.pending() matches ActiveView::Fullscreen(key) && (s.layouts.window(
                key,
            ) matches Some(w) && (s.layouts.wl_surface(w.surface) matches Some(surface) && (
            s.layouts.key_shows(layout.primary, surface) || s.layouts.key_shows(
                layout.secondary,
                surface,
            ))));
            s.full_resize().contains(Action::ResizeLayout { index: at }) <==> !shown
        }),
        ({
            let all = s.full_resize();
            let n = all.len() - s.layers.windows.len();
            &&& n >= 0
            &&& forall|i: int|
                0 <= i < s.layers.windows.len() ==> all[n + i] == Action::UpdateDimensions {
                    layer: (#[trigger] s.layers.windows[i]).surface,
                    fullscreen: s.pending() is Fullscreen && s.layers.windows[i].layer
                        is Overlay,
                }
        }),
        s.pending() matches ActiveView::Fullscreen(key) ==> s.full_resize().len() > 0
            && s.full_resize()[0] == (Action::SetDimensions {
            target: Target::Layout(key),
            area: Area::AvailableFullscreen,
        }),
        s.pending() matches ActiveView::Lock(Some(lock)) ==> s.full_resize().len() > 0
            && s.full_resize()[0] == (Action::SetDimensions {
            target: Target::Lock(lock.surface),
            area: Area::Output,
        }),
{
    let layers = s.layers.windows@;
    let full = s.pending() is Fullscreen;
    lemma_collect_single(layers, window_update(full), layers.len() as int);
    let tail = collect_all(layers, window_update(full));
    let count = s.layouts.layouts.len() as int;
    let middle = s.layout_resizes(count);
    let action = Action::ResizeLayout { index: at };
    lemma_layout_resizes(s, count, at);
    let all = s.full_resize();
    let head = all.len() - middle.len() - tail.len();
    if middle.contains(action) {
        let k = choose|k: int| 0 <= k < middle.len() && middle[k] == action;
        assert(all[head + k] == action);
    }
    if all.contains(action) {
        let k = choose|k: int| 0 <= k < all.len() && all[k] == action;
        if k >= head + middle.len() {
            assert(all[k] == tail[k - head - middle.len()]);
        } else if k >= head {
            assert(middle[k - head] == action);
        }
    }
}

/// Whether a layout's resize is listed depends on the layout alone.
proof fn lemma_layout_resizes(s: Windows, n: int, at: usize)
    requires
        0 <= n <= s.layouts.layouts.len(),
        at < s.layouts.layouts.len(),
    ensures
        s.layout_resizes(n).contains(Action::ResizeLayout { index: at }) <==> at < n
            && !s.shows_fullscreen(s.layouts.layouts[at as int]),
    decreases n,
{
    if n > 0 {
        lemma_layout_resizes(s, n - 1, at);
        let action = Action::ResizeLayout { index: at };
        let before = s.layout_resizes(n - 1);
        let after = s.layout_resizes(n);
        if before.contains(action) {
            let k = choose|k: int| 0 <= k < before.len() && before[k] == action;
            assert(after[k] == action);
        }
        if at == n - 1 && !s.shows_fullscreen(s.layouts.layouts[n - 1]) {
            assert(after[before.len() as int] == action);
        }
        if after.contains(action) {
            let k = choose|k: int| 0 <= k < after.len() && after[k] == action;
            if k < before.len() {
                assert(before[k] == action);
            }
        }
    }
}

/// All windows can be resized once their surfaces are known.
///
/// A second window next to the fullscreen one is not looked at.
pub proof fn law_known_windows_can_be_resized(s: Windows, key: u64, at: int)
    ensures
        (forall|i: int|
            0 <= i < s.layouts.layouts.len() ==> s.surface_known(
                (#[trigger] s.layouts.layouts[i]).primary,
            ) && s.surface_known(s.layouts.layouts[i].secondary)) && !(s.pending() is Fullscreen)
            ==> s.resizable(),
        s.resizable() ==> forall|i: int|
            0 <= i < s.layouts.layouts.len() ==> s.surface_known(
                (#[trigger] s.layouts.layouts[i]).primary,
            ),
        s.resizable() && 0 <= at < s.layouts.layouts.len() && !(s.pending() is Fullscreen)
            ==> s.surface_known(s.layouts.layouts[at].secondary),
        s.resizable() && s.pending() == ActiveView::Fullscreen(key) ==> s.layouts.window(key) is Some
            && s.surface_known(Some(key)),
        s.surface_known(Some(key)) <==> (s.layouts.window(key) matches Some(w)
            ==> s.layouts.wl_surface(w.surface) is Some),
        s.surface_known(None),
{
}

} // verus!
