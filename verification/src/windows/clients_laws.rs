//! Which windows the requests and commits of clients are about.

use vstd::prelude::*;

use crate::action::{Action, Area, Target};
use crate::geometry::{Point, Rectangle};
use crate::lists::lemma_first_index;
use crate::windows::clients::{
    is_popup, layer_owns, owns, Adoption, AdoptionStep, Commit, PopupCommit, PopupCommitStep,
};
use crate::windows::scene::{LayoutPosition, LockWindow, PopupWindow, SurfaceHandle, Window};
use crate::windows::state::{ActiveView, DragAndDrop, Windows};

verus! {

/// A new lock surface is shown on the entire output, once the session is locked.
///
/// It replaces the previous one wherever that is, and is ignored otherwise.
pub proof fn law_lock_surfaces_fill_the_output(s: Windows, window: LockWindow)
    ensures
        !(s.pending() is Lock) ==> s.with_lock_window(window) == s && s.lock_sizing(
            window.surface,
        ).len() == 0,
        s.pending() is Lock ==> {
            let t = s.with_lock_window(window);
            &&& t.pending() == ActiveView::Lock(Some(window))
            &&& s.lock_sizing(window.surface) == seq![
                Action::SetDimensions { target: Target::Lock(window.surface), area: Area::Output },
            ]
            &&& t.timer == s.timer
            &&& t == (Windows { view: t.view, transaction: t.transaction, ..s })
        },
        s.pending() is Lock && s.transaction is Some && s.transaction->0.view is Some
            ==> s.with_lock_window(window).view == s.view,
        s.pending() is Lock && !(s.transaction is Some && s.transaction->0.view is Some)
            ==> s.with_lock_window(window).transaction == s.transaction,
{
}

/// A popup asks the active layout first, and then all layers.
pub proof fn law_popups_ask_the_active_layout_first(s: Windows, primary: u64, secondary: u64)
    ensures
        s.layouts.active.primary == Some(primary) && s.layouts.active.secondary == Some(secondary)
            ==> s.adoption_hosts() == seq![Target::Layout(primary), Target::Layout(secondary)]
            + s.layer_targets(),
        s.layouts.active.primary == Some(primary) && s.layouts.active.secondary is None
            ==> s.adoption_hosts() == seq![Target::Layout(primary)] + s.layer_targets(),
        s.layouts.active.primary is None && s.layouts.active.secondary == Some(secondary)
            ==> s.adoption_hosts() == seq![Target::Layout(secondary)] + s.layer_targets(),
        s.layouts.active.primary is None && s.layouts.active.secondary is None
            ==> s.adoption_hosts() == s.layer_targets(),
{
    assert(seq![Target::Layout(primary)] + seq![Target::Layout(secondary)] =~= seq![
        Target::Layout(primary),
        Target::Layout(secondary),
    ]);
    assert(Seq::<Target>::empty() + s.layer_targets() =~= s.layer_targets());
    assert(Seq::<Target>::empty() + seq![Target::Layout(secondary)] =~= seq![
        Target::Layout(secondary),
    ]);
    assert(seq![Target::Layout(primary)] + Seq::<Target>::empty() =~= seq![
        Target::Layout(primary),
    ]);
    assert(Seq::<Target>::empty() + Seq::<Target>::empty() =~= Seq::<Target>::empty());
}

/// A popup is adopted with its first commit, below the parent it has asked for.
///
/// It leaves the popups which wait, and every other one stays.
pub proof fn law_popups_are_adopted(
    s: Windows,
    adoption: Option<Adoption>,
    root: u64,
    at: int,
    popup: PopupWindow,
)
    requires
        s.adopts(adoption, root),
    ensures
        (forall|i: int|
            0 <= i < s.orphan_popups.len() ==> (#[trigger] s.orphan_popups[i]).surface != root)
            ==> adoption is None,
        0 <= at < s.orphan_popups.len() && s.orphan_popups[at].surface == root && (forall|i: int|
            0 <= i < at ==> (#[trigger] s.orphan_popups[i]).surface != root) ==> {
            &&& adoption matches Some(adoption) && adoption.popup == root && adoption.parent
                == s.orphan_popups[at].parent && adoption.refused == 0 && adoption.hosts@
                == s.adoption_hosts()
            &&& s.popups_without(at).len() == s.orphan_popups.len() - 1
            &&& popup.surface != root ==> (s.popups_without(at).contains(popup)
                <==> s.orphan_popups@.contains(popup))
        },
{
    let p = is_popup(root);
    let all = s.orphan_popups@;
    lemma_first_index(all, p, 0);
    assert forall|i: int| 0 <= i < s.orphan_popups.len() implies p(all[i]) == ((
    #[trigger] s.orphan_popups[i]).surface == root) by {}
    if 0 <= at < s.orphan_popups.len() {
        let left = s.popups_without(at);
        if all.contains(popup) && popup.surface != root && s.orphan_popups[at].surface == root {
            let k = choose|k: int| 0 <= k < all.len() && all[k] == popup;
            if k == all.len() - 1 {
                assert(left[at] == popup);
            } else {
                assert(left[k] == popup);
            }
        }
        if left.contains(popup) {
            let k = choose|k: int| 0 <= k < left.len() && left[k] == popup;
            if k == at {
                assert(all[all.len() - 1] == popup);
            } else {
                assert(all[k] == popup);
            }
        }
    }
}

/// A popup is offered to one window after the other, and dismissed if it has no parent or if no
/// window has it.
pub proof fn law_popups_are_offered_in_order(adoption: Adoption)
    ensures
        adoption.parent is None ==> adoption.next() == AdoptionStep::Dismiss,
        adoption.refused >= adoption.hosts.len() ==> adoption.next() == AdoptionStep::Dismiss,
        adoption.parent matches Some(parent) ==> adoption.refused < adoption.hosts.len()
            ==> adoption.next() == (AdoptionStep::Offer {
            host: adoption.hosts[adoption.refused as int],
            parent,
        }),
{
}

/// A commit is applied by the lock screen or by a window in the layouts whose surface it is.
pub proof fn law_commits_go_to_their_window(s: Windows, root: u64, w: Window)
    ensures
        s.pending() matches ActiveView::Lock(Some(lock)) ==> lock.surface == root
            ==> s.commit_window(root) == Some(Target::Lock(root)),
        !(s.pending() is Lock && s.pending()->Lock_0 is Some && s.pending()->Lock_0->0.surface
            == root) ==> {
            &&& s.layouts.surface_window(root) == Some(w) ==> s.commit_window(root) == Some(
                Target::Layout(w.key),
            )
            &&& s.layouts.surface_window(root) is None ==> s.commit_window(root) is None
        },
        s.layers.layer(root) is None ==> s.commit_layer(root) is None,
        s.layers.layer(root) is Some ==> (s.commit_layer(root) matches Some(layer) && layer.surface
            == root && (layer.fullscreen_active <==> s.view is Fullscreen)),
{
}

/// Windows are asked for a popup until one has it, and the layer comes only if none has.
pub proof fn law_layers_commit_last(commit: PopupCommit)
    ensures
        commit.hosts.upcoming() matches Some(host) ==> commit.next() == PopupCommitStep::Ask(host),
        commit.hosts.upcoming() is None && commit.hosts.success() is Some ==> commit.next()
            == PopupCommitStep::Done,
        commit.hosts.upcoming() is None && commit.hosts.success() is None ==> (
        commit.layer matches Some(layer) ==> commit.next() == PopupCommitStep::Layer(layer)),
        commit.hosts.upcoming() is None && commit.layer is None ==> commit.next()
            == PopupCommitStep::Done,
{
}

/// A dead layer loses the focus and gives its space back, and it is reaped by a transaction.
///
/// The focus of another layer is kept.
pub proof fn law_dead_layers_lose_the_focus(s: Windows, surface: u64, now: u64)
    ensures
        s.layers.focus matches Some(focus) ==> focus.surface == surface ==> s.with_layer_dead(
            surface,
            now,
        ).layers.focus is None,
        s.layers.focus matches Some(focus) ==> focus.surface != surface ==> s.with_layer_dead(
            surface,
            now,
        ).layers == s.layers,
        s.layers.focus is None ==> s.with_layer_dead(surface, now).layers == s.layers,
        s.timer.start == 0 ==> s.with_layer_dead(surface, now).timer.start == now,
        s.timer.start != 0 ==> s.with_layer_dead(surface, now).timer == s.timer,
        s.with_layer_dead(surface, now).layers.windows == s.layers.windows,
        s.with_layer_dead(surface, now).layouts == s.layouts,
        s.with_layer_dead(surface, now).view == s.view,
        s.layers.layer(surface) is Some ==> s.layer_reaping(surface) == seq![
            Action::ResetExclusive { layer: surface },
        ],
        s.layers.layer(surface) is None ==> s.layer_reaping(surface).len() == 0,
{
}

/// A window in the overview is dragged once it was held.
pub proof fn law_held_windows_are_dragged(s: Windows, position: LayoutPosition, id: u64, now: u64)
    ensures
        s.view is Overview && !s.lock_pending() ==> (s.layouts.key_at(position) matches Some(window)
            ==> s.with_drag(position, id, now).pending() == ActiveView::DragAndDrop(
            DragAndDrop { id, window },
        )),
        !(s.view is Overview) || s.layouts.key_at(position) is None ==> s.with_drag(
            position,
            id,
            now,
        ) == s,
{
}

/// A window asks for fullscreen by its surface, is told so, and everything is resized.
pub proof fn law_windows_enter_fullscreen(s: Windows, surface: u64, now: u64, w: Window)
    ensures
        s.layouts.surface_window(surface) is None ==> s.with_fullscreened(surface, now) == s
            && s.fullscreening(surface, now).len() == 0,
        s.layouts.surface_window(surface) == Some(w) ==> {
            let t = s.with_fullscreened(surface, now);
            let all = s.fullscreening(surface, now);
            &&& !s.lock_pending() ==> t.pending() == ActiveView::Fullscreen(w.key)
            &&& all.len() > 0
            &&& all[0] == Action::SetFullscreen { window: w.key, fullscreen: true }
            &&& all.skip(1) == t.visible_resize()
        },
{
    if s.layouts.surface_window(surface) is Some {
        assert(s.fullscreening(surface, now).skip(1) =~= s.with_fullscreened(
            surface,
            now,
        ).visible_resize());
    }
}

/// Fullscreen is left for the surface in fullscreen alone, or for any without a surface.
pub proof fn law_windows_leave_fullscreen(s: Windows, surface: Option<u64>, now: u64)
    ensures
        !(s.view is Fullscreen) ==> s.left_window(surface) is None,
        s.view matches ActiveView::Fullscreen(key) ==> {
            &&& surface is None ==> s.left_window(surface) == Some(key)
            &&& surface matches Some(own) ==> (s.left_window(surface) == Some(key) <==> (
            s.layouts.window(key) is Some && s.layouts.wl_surface(
                s.layouts.window(key)->0.surface,
            ) == Some(own)))
            &&& s.left_window(surface) is Some ==> s.left_window(surface) == Some(key)
        },
        s.left_window(surface) is None ==> s.with_fullscreen_left(surface, now) == s
            && s.fullscreen_leaving(surface, now).len() == 0,
        s.left_window(surface) matches Some(key) ==> {
            let t = s.with_fullscreen_left(surface, now);
            let all = s.fullscreen_leaving(surface, now);
            &&& !s.lock_pending() ==> t.pending() == ActiveView::Workspace
            &&& all.len() > 0
            &&& all[0] == Action::SetFullscreen { window: key, fullscreen: false }
            &&& all.skip(1) == t.visible_resize()
        },
{
    if s.left_window(surface) is Some {
        assert(s.fullscreen_leaving(surface, now).skip(1) =~= s.with_fullscreen_left(
            surface,
            now,
        ).visible_resize());
    }
}

/// A raised window becomes active where it is, and the layouts below it are kept.
pub proof fn law_raised_windows_become_active(s: Windows, surface: u64, urgent: bool)
    ensures
        s.layouts.place_from(surface, 0) matches Some(place) ==> s.raising(surface) == seq![
            Action::SetActive { position: Some(place), clear_parents: false },
        ],
        s.layouts.place_from(surface, 0) is None ==> s.raising(surface).len() == 0,
        s.layouts.surface_window(surface) matches Some(w) ==> s.urging(surface, urgent) == seq![
            Action::SetUrgent { window: w.key, urgent },
        ],
        s.layouts.surface_window(surface) is None ==> s.urging(surface, urgent).len() == 0,
{
}

/// The geometry for a surface is that of the window which owns it: the lock screen, the first
/// window in the layouts or the first layer, in this order.
///
/// Anything else fills the output.
pub proof fn law_surfaces_take_the_geometry_of_their_owner(s: Windows, surface: u64, at: int)
    ensures
        s.pending() matches ActiveView::Lock(Some(lock)) ==> lock.surfaces@.contains(surface)
            ==> s.parent_bounds(surface) == lock.bounds,
        !s.lock_pending() && 0 <= at < s.layouts.windows.len()
            && s.layouts.windows[at].surfaces@.contains(surface) && (forall|i: int|
            0 <= i < at ==> !(#[trigger] s.layouts.windows[i]).surfaces@.contains(surface))
            ==> s.parent_bounds(surface) == s.layouts.windows[at].bounds,
        !s.lock_pending() && (forall|i: int|
            0 <= i < s.layouts.windows.len() ==> !(
            #[trigger] s.layouts.windows[i]).surfaces@.contains(surface)) && 0 <= at
            < s.layers.windows.len() && s.layers.windows[at].surfaces@.contains(surface) && (
        forall|i: int|
            0 <= i < at ==> !(#[trigger] s.layers.windows[i]).surfaces@.contains(surface))
            ==> s.parent_bounds(surface) == s.layers.windows[at].bounds,
        !s.lock_pending() && (forall|i: int|
            0 <= i < s.layouts.windows.len() ==> !(
            #[trigger] s.layouts.windows[i]).surfaces@.contains(surface)) && (forall|i: int|
            0 <= i < s.layers.windows.len() ==> !(
            #[trigger] s.layers.windows[i]).surfaces@.contains(surface)) ==> s.parent_bounds(
            surface,
        ) == (Rectangle { loc: Point { x: 0, y: 0 }, size: s.output.canvas.size }),
{
    lemma_owners(s, surface);
}

proof fn lemma_owners(s: Windows, surface: u64)
    ensures
        match crate::lists::first_index(s.layouts.windows@, owns(surface), 0) {
            Some(i) => 0 <= i < s.layouts.windows.len()
                && s.layouts.windows[i].surfaces@.contains(surface) && forall|j: int|
                0 <= j < i ==> !(#[trigger] s.layouts.windows[j]).surfaces@.contains(surface),
            None => forall|j: int|
                0 <= j < s.layouts.windows.len() ==> !(
                #[trigger] s.layouts.windows[j]).surfaces@.contains(surface),
        },
        match crate::lists::first_index(s.layers.windows@, layer_owns(surface), 0) {
            Some(i) => 0 <= i < s.layers.windows.len()
                && s.layers.windows[i].surfaces@.contains(surface) && forall|j: int|
                0 <= j < i ==> !(#[trigger] s.layers.windows[j]).surfaces@.contains(surface),
            None => forall|j: int|
                0 <= j < s.layers.windows.len() ==> !(
                #[trigger] s.layers.windows[j]).surfaces@.contains(surface),
        },
{
    let p = owns(surface);
    let q = layer_owns(surface);
    lemma_first_index(s.layouts.windows@, p, 0);
    lemma_first_index(s.layers.windows@, q, 0);
    assert forall|j: int| 0 <= j < s.layouts.windows.len() implies p(s.layouts.windows@[j]) == (
    #[trigger] s.layouts.windows[j]).surfaces@.contains(surface) by {}
    assert forall|j: int| 0 <= j < s.layers.windows.len() implies q(s.layers.windows@[j]) == (
    #[trigger] s.layers.windows[j]).surfaces@.contains(surface) by {}
}

/// Surfaces of the lock screen, of visible windows and of layers are visible, and no others.
pub proof fn law_visible_surfaces(s: Windows, surface: u64, at: int)
    ensures
        s.pending() matches ActiveView::Lock(Some(lock)) ==> lock.surfaces@.contains(surface)
            ==> s.is_visible(surface),
        0 <= at < s.layouts.visible.len() ==> (s.layouts.window(
            s.layouts.visible[at],
        ) matches Some(w) ==> w.surfaces@.contains(surface) ==> s.is_visible(surface)),
        0 <= at < s.layers.windows.len() && s.layers.windows[at].surfaces@.contains(surface)
            ==> s.is_visible(surface),
        s.layouts.visible.len() == 0 && (forall|i: int|
            0 <= i < s.layers.windows.len() ==> !(
            #[trigger] s.layers.windows[i]).surfaces@.contains(surface)) && !s.lock_pending()
            ==> !s.is_visible(surface),
        (forall|i: int|
            0 <= i < s.layouts.visible.len() ==> !(s.layouts.window(
                #[trigger] s.layouts.visible[i],
            ) matches Some(w) && w.surfaces@.contains(surface))) && (forall|i: int|
            0 <= i < s.layers.windows.len() ==> !(
            #[trigger] s.layers.windows[i]).surfaces@.contains(surface)) && !s.lock_pending()
            ==> !s.is_visible(surface),
{
    lemma_owners(s, surface);
    if 0 <= at < s.layouts.visible.len() {
        assert(s.key_owns(s.layouts.visible[at], surface) ==> s.is_visible(surface));
    }
    if s.is_visible(surface) && !s.lock_pending() && exists|i: int|
        0 <= i < s.layouts.visible.len() && s.key_owns(#[trigger] s.layouts.visible[i], surface) {
        let i = choose|i: int|
            0 <= i < s.layouts.visible.len() && s.key_owns(#[trigger] s.layouts.visible[i], surface);
        assert(s.layouts.window(s.layouts.visible[i]) is Some);
    }
}

/// A dead window leaves fullscreen if it was there, and is removed from the layouts at last.
pub proof fn law_dead_windows_leave_the_layouts(s: Windows, surface: u64, now: u64)
    ensures
        s.xdg_reaping(surface, now).len() > 0,
        s.xdg_reaping(surface, now).last() == Action::ReapLayouts(SurfaceHandle::Xdg(surface)),
        s.xdg_reaping(surface, now).drop_last() == s.fullscreen_leaving(Some(surface), now),
{
    assert(s.xdg_reaping(surface, now).drop_last() =~= s.fullscreen_leaving(Some(surface), now));
}

/// Windows are resized when the space for them has changed, and only then.
pub proof fn law_changed_space_is_used(s: Windows)
    ensures
        s.exclusive_resize(true) == s.visible_resize(),
        s.exclusive_resize(false).len() == 0,
{
}

/// A surface which belongs to no window asks all windows and then all layers for its popup, before
/// its own layer comes.
pub proof fn law_commits_ask_everyone(s: Windows, commit: Commit, root: u64)
    requires
        s.commits(commit, root),
    ensures
        s.layouts.surface_window(root) matches Some(w) ==> !s.lock_pending() ==> commit
            == Commit::Window(Target::Layout(w.key)),
        s.layouts.surface_window(root) matches Some(w) ==> s.xdg_key(root) == Some(w.key),
        s.layouts.surface_window(root) is None ==> s.xdg_key(root) is None,
        s.layouts.surface_window(root) is None && !s.lock_pending() ==> (
        commit matches Commit::Popup { adoption, commit: popup } && popup.hosts.items@
            == s.layout_targets() + s.layer_targets() && popup.hosts.failed == 0
            && !popup.hosts.worked && (
        s.layers.layer(root) is Some <==> popup.layer is Some) && (popup.layer matches Some(layer)
            ==> layer.surface == root)),
{
}

} // verus!
