//! What holds of the window manager as a whole.

use vstd::prelude::*;

use crate::action::{Action, Signal, Target};
use crate::app_id::{AppIdMatcher, Patterns};
use crate::geometry::{FloatBits, Size};
use crate::lists::{collect_all, collected, first_index, lemma_first_index};
use crate::trials::law_first_success_wins;
use crate::windows::apps::primary_at;
use crate::windows::clients::{Adoption, AdoptionStep, PopupCommit, PopupCommitStep};
use crate::windows::focus::group_of;
use crate::windows::input::{DropZone, GestureState, HandleGesture, Hits};
use crate::windows::output::{is_neutral, other_scale};
use crate::windows::scene::{has_id, LayoutPosition, LockWindow, Orientation, Window};
use crate::windows::state::{
    ActiveView, Clock, LaunchCtx, Overview, ScaleOverride, TransactionTimer, WindowScale, Windows,
    MAX_LOCKED_TRANSACTION_MILLIS, MAX_TRANSACTION_MILLIS,
};
use crate::windows::surface::{configure_if, Request, Surface, ToplevelSurface};
use crate::windows::transaction::{AppliedTransaction, NANOS_PER_MILLI};

verus! {

/// A running transaction keeps its start, however often it is requested again.
pub proof fn law_transaction_starts_once(timer: TransactionTimer, now: u64, later: u64)
    requires
        now != 0,
    ensures
        timer.started(now).start != 0,
        timer.started(now).started(later) == timer.started(now),
        timer.start != 0 ==> timer.started(now) == timer,
{
}

/// A change of the view cannot unlock the session.
///
/// Nothing else happens either until the session is unlocked.
pub proof fn law_view_changes_keep_the_lock(s: Windows, view: ActiveView, now: u64)
    requires
        s.lock_pending(),
    ensures
        s.with_view(view, now) == s,
{
}

/// A locked session stays locked, whatever is requested, touched or focused,
/// and whichever window dies.
///
/// There are two exceptions. An X11 window in fullscreen which dies while the
/// lock is still pending leads back to the workspace. And a new window takes
/// the place of a lock which is shown already: only a lock which is still
/// pending survives it, see [`law_new_windows_keep_a_pending_lock`].
pub proof fn law_locked_session_stays_locked(
    s: Windows,
    app: Seq<char>,
    mapped: Option<String>,
    patterns: Patterns,
    surface: Option<u64>,
    position: LayoutPosition,
    overview: Overview,
    zone: DropZone,
    gesture: HandleGesture,
    state: GestureState,
    orientation: Orientation,
    scale: FloatBits,
    size: Size,
    window: LockWindow,
    launch: LaunchCtx,
    x11: u32,
    clock: Clock,
    id: u64,
)
    requires
        s.lock_pending(),
    ensures
        s.with_view(ActiveView::Lock(None), clock.wall_ms).lock_pending(),
        s.with_lock_window(window).lock_pending(),
        s.with_app_focused(app, patterns, clock.wall_ms).lock_pending(),
        s.with_mapped_focused(mapped, patterns, clock.wall_ms).lock_pending(),
        s.with_app_toggled(app, patterns, clock.wall_ms).lock_pending(),
        s.with_fullscreen_left(surface, clock.wall_ms).lock_pending(),
        s.with_fullscreened(id, clock.wall_ms).lock_pending(),
        s.with_drag(position, id, clock.wall_ms).lock_pending(),
        s.with_drag_released(zone, overview, clock.wall_ms).lock_pending(),
        s.with_gesture(gesture, state, overview, clock.wall_ms).lock_pending(),
        s.with_gesture_done(gesture, state, overview, clock.wall_ms).lock_pending(),
        s.with_touch().lock_pending(),
        s.with_focus(patterns, clock.mono_ns).lock_pending(),
        s.with_orientation(orientation, size, clock.wall_ms).lock_pending(),
        s.with_scale(scale, size, clock.wall_ms).lock_pending(),
        s.with_processes_updated(clock.mono_ns).lock_pending(),
        s.with_resume_executed(clock.mono_ns).lock_pending(),
        s.with_turned(orientation, size, clock.wall_ms).lock_pending(),
        s.with_orientation_lock(Some(orientation), size, clock.wall_ms).lock_pending(),
        s.with_orientation_lock(None, size, clock.wall_ms).lock_pending(),
        s.with_orientation_unlock(size, clock.wall_ms).lock_pending(),
        s.with_launch(
            launch.command,
            launch.command_key,
            launch.card_id,
            launch.pgid,
            clock.mono_ns,
        ).lock_pending(),
        s.with_chosen_focus(Some(id), surface, mapped).lock_pending(),
        s.with_layer_dead(id, clock.wall_ms).lock_pending(),
        !s.x11_fullscreen(x11) ==> s.with_x11_dead(x11, clock.wall_ms).lock_pending(),
{
}

/// Whatever is requested, touched or focused, every transaction has a start.
///
/// The clock is past the Unix epoch.
pub proof fn law_transactions_are_timed(
    s: Windows,
    app: Seq<char>,
    mapped: Option<String>,
    patterns: Patterns,
    surface: Option<u64>,
    position: LayoutPosition,
    overview: Overview,
    zone: DropZone,
    gesture: HandleGesture,
    state: GestureState,
    orientation: Orientation,
    scale: FloatBits,
    size: Size,
    window: LockWindow,
    view: ActiveView,
    applied: AppliedTransaction,
    launch: LaunchCtx,
    x11: u32,
    clock: Clock,
    id: u64,
)
    requires
        s.timed(),
        clock.wall_ms != 0,
    ensures
        s.with_transaction(clock.wall_ms).timed(),
        s.with_pending(view, clock.wall_ms).timed(),
        s.with_view(view, clock.wall_ms).timed(),
        s.with_lock_window(window).timed(),
        s.with_app_focused(app, patterns, clock.wall_ms).timed(),
        s.with_mapped_focused(mapped, patterns, clock.wall_ms).timed(),
        s.with_app_toggled(app, patterns, clock.wall_ms).timed(),
        s.with_fullscreen_left(surface, clock.wall_ms).timed(),
        s.with_fullscreened(id, clock.wall_ms).timed(),
        s.with_drag(position, id, clock.wall_ms).timed(),
        s.with_drag_released(zone, overview, clock.wall_ms).timed(),
        s.with_gesture(gesture, state, overview, clock.wall_ms).timed(),
        s.with_gesture_done(gesture, state, overview, clock.wall_ms).timed(),
        s.with_touch().timed(),
        s.with_focus(patterns, clock.mono_ns).timed(),
        s.with_orientation(orientation, size, clock.wall_ms).timed(),
        s.with_scale(scale, size, clock.wall_ms).timed(),
        s.with_processes_updated(clock.mono_ns).timed(),
        s.with_transaction_view().timed(),
        s.with_view_fixed().timed(),
        s.with_transaction_finished(applied).timed(),
        s.with_turned(orientation, size, clock.wall_ms).timed(),
        s.with_orientation_lock(Some(orientation), size, clock.wall_ms).timed(),
        s.with_orientation_lock(None, size, clock.wall_ms).timed(),
        s.with_orientation_unlock(size, clock.wall_ms).timed(),
        s.with_launch(
            launch.command,
            launch.command_key,
            launch.card_id,
            launch.pgid,
            clock.mono_ns,
        ).timed(),
        s.with_chosen_focus(Some(id), surface, mapped).timed(),
        s.with_layer_dead(id, clock.wall_ms).timed(),
        s.with_x11_dead(x11, clock.wall_ms).timed(),
{
}

/// A new window does not call off a lock which is about to be shown.
pub proof fn law_new_windows_keep_a_pending_lock(
    s: Windows,
    after: Windows,
    window: Window,
    view: ActiveView,
)
    requires
        s.window_added(after, window, view),
        s.transaction matches Some(transaction) && transaction.view matches Some(pending)
            && pending is Lock,
    ensures
        after.lock_pending(),
        after.transaction == s.transaction,
        after.timer == s.timer,
{
}

/// Completing a transaction does not unlock the session.
pub proof fn law_transactions_keep_the_lock(
    s: Windows,
    applied: AppliedTransaction,
    completed: bool,
    damaged: bool,
)
    requires
        s.lock_pending(),
    ensures
        s.with_transaction_view().lock_pending(),
        s.with_changes_seen(completed, damaged).lock_pending(),
        s.with_view_fixed().lock_pending(),
        s.with_transaction_finished(applied).lock_pending(),
{
}

/// Locking the session shows the lock once its transaction is completed.
pub proof fn law_lock_locks(s: Windows, now: u64)
    requires
        now != 0,
        s.timed(),
    ensures
        s.with_view(ActiveView::Lock(None), now).lock_pending(),
        s.with_view(ActiveView::Lock(None), now).with_transaction_view().view is Lock,
{
}

/// Unlocking the session shows the workspace once its transaction is completed.
pub proof fn law_unlock_unlocks(s: Windows, now: u64)
    requires
        now != 0,
    ensures
        !s.with_pending(ActiveView::Workspace, now).lock_pending(),
        s.with_pending(ActiveView::Workspace, now).with_transaction_view().view
            == ActiveView::Workspace,
{
}

/// While the session is locked, nothing but the lock screen is drawn, asked for
/// frames, touched or focused.
pub proof fn law_lock_hides_everything(s: Windows, hits: Hits)
    requires
        s.view is Lock,
    ensures
        forall|i: int|
            0 <= i < s.view_items().len() ==> (#[trigger] s.view_items()[i]) is Window
                && s.view_items()[i]->Window_0 is Lock,
        forall|i: int|
            0 <= i < s.frame_targets().len() ==> (#[trigger] s.frame_targets()[i]) is Window
                && s.frame_targets()[i]->Window_0 is Lock,
        s.touched(hits) is Some ==> s.touched(hits) == hits.lock,
        match s.focus_target() {
            Some(target) => s.view matches ActiveView::Lock(Some(lock)) && target.surface
                == lock.surface,
            None => s.view == ActiveView::Lock(None),
        },
{
}

/// A transaction is completed at the latest when its time is over.
///
/// Until then it is tried again in time, sooner if a session is to be locked.
pub proof fn law_transaction_ends(s: Windows, clock: Clock)
    requires
        s.timer.start != 0,
        s.timer.start <= clock.wall_ms,
    ensures
        clock.wall_ms - s.timer.start > MAX_TRANSACTION_MILLIS ==> !s.must_wait(clock.wall_ms),
        s.lock_pending() && clock.wall_ms - s.timer.start > MAX_LOCKED_TRANSACTION_MILLIS
            ==> !s.must_wait(clock.wall_ms),
        s.must_wait(clock.wall_ms) ==> s.transaction_wait(clock) <= (s.timer.start + s.timeout()
            - clock.wall_ms) * NANOS_PER_MILLI,
        s.transaction_finished() ==> !s.must_wait(clock.wall_ms),
{
}

/// A completed transaction is over: completing it again changes nothing.
pub proof fn law_transaction_completes_once(s: Windows)
    ensures
        s.with_transaction_view().timer.start == 0,
        s.timer.start != 0 ==> s.with_transaction_view().transaction is None,
        s.with_transaction_view().with_transaction_view() == s.with_transaction_view(),
        s.timer.start != 0 ==> s.with_transaction_view().pending() == s.pending(),
{
}

/// After dead windows were reaped, the view shows something that exists.
///
/// The fullscreen window is alive and in the layouts, and without any layout
/// the workspace or the lock screen is shown.
pub proof fn law_view_is_showable(s: Windows, completed: bool, damaged: bool, applied: AppliedTransaction)
    ensures
        !s.with_changes_seen(completed, damaged).with_view_fixed().fullscreen_lost(),
        ({
            let end = s.with_changes_seen(
                applied.completed,
                damaged,
            ).with_view_fixed().with_transaction_finished(applied);
            &&& !end.fullscreen_lost()
            &&& end.layouts.layouts.len() == 0 ==> !Windows::needs_windows(end.view)
        }),
{
}

/// A change of the output's orientation or scale leads to a redraw.
pub proof fn law_output_changes_are_drawn(s: Windows)
    requires
        s.canvas.orientation != s.output.canvas.orientation || !s.canvas.scale.equals(
            s.output.canvas.scale,
        ),
    ensures
        s.with_fresh_canvas().dirty,
        s.with_fresh_canvas().is_damaged(),
        s.with_fresh_canvas().canvas == s.output.canvas,
{
}

/// While the orientation is locked, turning the device changes nothing but
/// what is remembered. Unlocking turns the output to what was remembered last.
pub proof fn law_orientation_lock(
    s: Windows,
    first: Orientation,
    second: Orientation,
    size: Size,
    now: u64,
    later: u64,
)
    ensures
        ({
            let locked = s.with_orientation_lock(None, size, now);
            let turned = locked.with_turned(first, size, now).with_turned(second, size, later);
            let unlocked = turned.with_orientation_unlock(size, later);
            &&& locked.orientation_locked
            &&& locked.output == s.output
            &&& turned == (Windows { unlocked_orientation: second, ..locked })
            &&& unlocked.output.canvas.orientation == second
            &&& unlocked.output.canvas.size == size
            &&& !unlocked.orientation_locked
        }),
        s.with_orientation_lock(Some(first), size, now).output.canvas.orientation == first,
        s.with_orientation_lock(Some(first), size, now).unlocked_orientation
            == s.unlocked_orientation,
{
}

proof fn lemma_focus_settled(s: Windows, patterns: Patterns, now: u64)
    requires
        !(s.view is Lock),
    ensures
        ({
            let t = s.with_focus(patterns, now);
            &&& t.focused_window() == s.focused_window()
            &&& t.focused_key() == s.focused_key()
            &&& t.layouts.focus == s.focused_key()
        }),
{
    let t = s.with_focus(patterns, now);
    assert(t.layers == s.layers);
    assert(t.layouts.windows == s.layouts.windows);
    assert(t.layouts.loose == s.layouts.loose);
    assert(forall|key: u64| t.layouts.window(key) == s.layouts.window(key));
}

/// Determining the focus again changes nothing, unless the focused X11 window
/// was destroyed.
pub proof fn law_focus_settles(s: Windows, patterns: Patterns, now: u64, later: u64)
    requires
        s.with_focus(patterns, now).focused_surface() matches Some(surface)
            ==> s.layouts.same_surface(surface, surface),
    ensures
        s.with_focus(patterns, now).with_focus(patterns, later) == s.with_focus(patterns, now),
        s.with_focus(patterns, now).focus_target() == s.focus_target(),
        s.with_focus(patterns, now).focusing(patterns) == (match s.focused_window() {
            Some(w) if !(s.view is Lock) => seq![Action::SetUrgent { window: w.key, urgent: false }],
            _ => Seq::empty(),
        }),
{
    let t = s.with_focus(patterns, now);
    if !(s.view is Lock) {
        lemma_focus_settled(s, patterns, now);
        assert(t.layouts.x11 == s.layouts.x11);
        assert(forall|a, b| t.layouts.same_surface(a, b) == s.layouts.same_surface(a, b));
        assert(forall|a| t.layouts.wl_surface(a) == s.layouts.wl_surface(a));
        if s.activation_kept() {
            assert(t.activated == s.activated);
        } else {
            assert(t.activated == s.focused_surface());
        }
        assert(t.activation_kept());
        assert(t.focusing(patterns) =~= (match s.focused_window() {
            Some(w) => seq![Action::SetUrgent { window: w.key, urgent: false }],
            None => Seq::empty(),
        }));
    }
}

/// When another window gets the focus, the activation goes from the previous
/// surface to the new one, and both are told.
pub proof fn law_activation_follows_the_focus(s: Windows, patterns: Patterns, now: u64)
    requires
        !(s.view is Lock),
        !s.activation_kept(),
    ensures
        s.with_focus(patterns, now).activated == s.focused_surface(),
        s.activated matches Some(surface) ==> s.focusing(patterns).contains(
            Action::SetActivated { surface, activated: false },
        ),
        s.focused_surface() matches Some(surface) ==> s.focusing(patterns).contains(
            Action::SetActivated { surface, activated: true },
        ),
{
    let all = s.focusing(patterns);
    let first: int = if s.focused_window() is Some {
        1
    } else {
        0
    };
    if let Some(surface) = s.activated {
        assert(all[first] == Action::SetActivated { surface, activated: false });
    }
    if let Some(surface) = s.focused_surface() {
        assert(all[first + s.resting().len()] == Action::SetActivated { surface, activated: true });
    }
}

/// The processes of a window which gets the focus go on: they are continued at
/// once and not stopped later, or their resume is pending.
pub proof fn law_focused_processes_run(s: Windows, patterns: Patterns, now: u64, pgid: i32)
    requires
        !(s.view is Lock),
        !s.activation_kept(),
        group_of(s.focused_window()) == Some(pgid),
    ensures
        ({
            let t = s.with_focus(patterns, now);
            if s.resume_delayed(patterns) {
                t.pending_resume matches Some(pending) && pending.pgid == pgid
            } else {
                &&& s.focusing(patterns).contains(
                    Action::SendSignal { pgid, signal: Signal::Continue },
                )
                &&& t.pending_resume is None
                &&& t.pending_suspend matches Some(pending) ==> pending.pgid != pgid
            }
        }),
{
    if !s.resume_delayed(patterns) {
        let w = s.focused_window()->0;
        let all = s.focusing(patterns);
        let i = 2 + s.resting().len();
        assert(all[i as int] == Action::SendSignal { pgid, signal: Signal::Continue });
    }
}

/// A process group which is due to be suspended and resumed ends up running.
pub proof fn law_resume_comes_last(s: Windows, now: u64)
    requires
        s.suspend_due(now),
        s.resume_due(now),
    ensures
        ({
            let all = s.process_updates(now);
            &&& all[0] == Action::SendSignal {
                pgid: s.pending_suspend->0.pgid,
                signal: Signal::Stop,
            }
            &&& all[1] == Action::SendSignal {
                pgid: s.pending_resume->0.pgid,
                signal: Signal::Continue,
            }
            &&& all.len() == 4
        }),
        s.with_processes_updated(now).pending_suspend is None,
        s.with_processes_updated(now).pending_resume is None,
{
}

/// Whether no pattern has two scales.
pub open spec fn one_scale_each(scales: Seq<ScaleOverride>) -> bool {
    forall|i: int, j: int|
        0 <= i < j < scales.len() ==> (#[trigger] scales[i]).app_id.base@ != (
        #[trigger] scales[j]).app_id.base@
}

proof fn lemma_other_scales(scales: Seq<ScaleOverride>, base: Seq<char>, n: int)
    requires
        0 <= n <= scales.len(),
        one_scale_each(scales),
    ensures
        one_scale_each(collected(scales, other_scale(base), n)),
        forall|k: int|
            0 <= k < collected(scales, other_scale(base), n).len() ==> (#[trigger] collected(
                scales,
                other_scale(base),
                n,
            )[k]).app_id.base@ != base && exists|i: int|
                0 <= i < n && #[trigger] scales[i] == collected(scales, other_scale(base), n)[k],
        forall|i: int|
            0 <= i < n && (#[trigger] scales[i]).app_id.base@ != base ==> collected(
                scales,
                other_scale(base),
                n,
            ).contains(scales[i]),
    decreases n,
{
    if n > 0 {
        lemma_other_scales(scales, base, n - 1);
        let f = other_scale(base);
        let before = collected(scales, f, n - 1);
        let after = collected(scales, f, n);
        if scales[n - 1].app_id.base@ != base {
            assert(after == before + seq![scales[n - 1]]);
            assert(after =~= before.push(scales[n - 1]));
            assert forall|k: int| 0 <= k < after.len() implies (#[trigger] after[k]).app_id.base@
                != base && exists|i: int| 0 <= i < n && #[trigger] scales[i] == after[k] by {
                if k < before.len() {
                    assert(after[k] == before[k]);
                    let i = choose|i: int| 0 <= i < n - 1 && #[trigger] scales[i] == before[k];
                    assert(scales[i] == after[k]);
                } else {
                    assert(scales[n - 1] == after[k]);
                }
            }
            assert forall|i: int, j: int| 0 <= i < j < after.len() implies (
            #[trigger] after[i]).app_id.base@ != (#[trigger] after[j]).app_id.base@ by {
                if j < before.len() {
                    assert(after[i] == before[i] && after[j] == before[j]);
                } else {
                    assert(after[i] == before[i]);
                    let m = choose|m: int| 0 <= m < n - 1 && #[trigger] scales[m] == before[i];
                    assert(scales[m].app_id.base@ != scales[n - 1].app_id.base@);
                }
            }
            assert forall|i: int|
                0 <= i < n && (#[trigger] scales[i]).app_id.base@ != base implies after.contains(
                scales[i],
            ) by {
                if i < n - 1 {
                    assert(before.contains(scales[i]));
                    let k = choose|k: int| 0 <= k < before.len() && before[k] == scales[i];
                    assert(after[k] == scales[i]);
                } else {
                    assert(after[before.len() as int] == scales[i]);
                }
            }
        } else {
            assert(after =~= before);
            assert forall|k: int| 0 <= k < after.len() implies (#[trigger] after[k]).app_id.base@
                != base && exists|i: int| 0 <= i < n && #[trigger] scales[i] == after[k] by {
                let i = choose|i: int| 0 <= i < n - 1 && #[trigger] scales[i] == before[k];
                assert(scales[i] == after[k]);
            }
        }
    }
}

/// Every pattern keeps at most one scale, and adding a scale replaces exactly
/// the one for the same pattern.
pub proof fn law_one_scale_per_pattern(s: Windows, app_id: AppIdMatcher, scale: WindowScale)
    requires
        one_scale_each(s.window_scales@),
    ensures
        one_scale_each(s.scales_with(app_id, scale)),
        s.scales_with(app_id, scale).contains(ScaleOverride { app_id, scale })
            <==> !is_neutral(scale),
        forall|i: int|
            0 <= i < s.window_scales.len() && (#[trigger] s.window_scales[i]).app_id.base@
                != app_id.base@ ==> s.scales_with(app_id, scale).contains(s.window_scales[i]),
{
    let scales = s.window_scales@;
    let n = scales.len() as int;
    lemma_other_scales(scales, app_id.base@, n);
    let others = collect_all(scales, other_scale(app_id.base@));
    let after = s.scales_with(app_id, scale);
    if !is_neutral(scale) {
        assert(after[others.len() as int] == ScaleOverride { app_id, scale });
        assert forall|i: int, j: int| 0 <= i < j < after.len() implies (
        #[trigger] after[i]).app_id.base@ != (#[trigger] after[j]).app_id.base@ by {
            assert(after[i] == others[i]);
            if j < others.len() {
                assert(after[j] == others[j]);
            }
        }
        assert forall|i: int|
            0 <= i < scales.len() && (#[trigger] s.window_scales[i]).app_id.base@
                != app_id.base@ implies after.contains(s.window_scales[i]) by {
            assert(others.contains(scales[i]));
            let k = choose|k: int| 0 <= k < others.len() && others[k] == scales[i];
            assert(after[k] == scales[i]);
        }
    } else {
        if after.contains(ScaleOverride { app_id, scale }) {
            let k = choose|k: int|
                0 <= k < after.len() && after[k] == ScaleOverride { app_id, scale };
            assert(others[k].app_id.base@ != app_id.base@);
        }
        assert forall|i: int|
            0 <= i < scales.len() && (#[trigger] s.window_scales[i]).app_id.base@
                != app_id.base@ implies after.contains(s.window_scales[i]) by {
            assert(others.contains(scales[i]));
        }
    }
}

proof fn lemma_app_found(s: Windows, app: Seq<char>, patterns: Patterns, at: int, from: int)
    requires
        0 <= from <= at < s.layouts.layouts.len(),
        s.key_named(app, patterns, s.layouts.layouts[at].primary),
    ensures
        s.app_place(app, patterns, from) is Some,
    decreases at - from,
{
    if from < at && !s.key_named(app, patterns, s.layouts.layouts[from].primary) && !s.key_named(
        app,
        patterns,
        s.layouts.layouts[from].secondary,
    ) {
        lemma_app_found(s, app, patterns, at, from + 1);
    }
}

/// Toggling the overlay off returns to the layout that it covers.
///
/// The overlay was put above the active layout, which was remembered as the last
/// parent and which is still there.
pub proof fn law_overlay_returns_to_its_parent(
    before: Windows,
    covered: Windows,
    overlay: Seq<char>,
    patterns: Patterns,
    position: LayoutPosition,
    now: u64,
    at: int,
)
    requires
        before.app_place(overlay, patterns, 0) == Some(position),
        before.overlay_at(position),
        covered.is_active(overlay, patterns),
        covered.layouts.parent_layouts.len() > 0,
        covered.layouts.parent_layouts@.last() == before.layouts.active.id,
        0 <= at < covered.layouts.layouts.len(),
        covered.layouts.layouts[at].id == before.layouts.active.id,
    ensures
        before.app_focusing(overlay, patterns, now)[0] == Action::PushActiveToParent,
        before.app_focusing(overlay, patterns, now)[1] == (Action::SetActive {
            position: Some(position),
            clear_parents: false,
        }),
        ({
            let back = covered.hiding_place(patterns);
            &&& back matches Some(place) && !place.secondary && place.index
                < covered.layouts.layouts.len()
                && covered.layouts.layouts[place.index as int].id == before.layouts.active.id
            &&& (forall|i: int|
                0 <= i < at ==> (#[trigger] covered.layouts.layouts[i]).id
                    != before.layouts.active.id) ==> back == primary_at(at)
            &&& covered.app_toggling(overlay, patterns, now).last() == (Action::SetActive {
                position: back,
                clear_parents: true,
            })
        }),
{
    let id = before.layouts.active.id;
    lemma_first_index(covered.layouts.layouts@, has_id(id), 0);
    assert(has_id(id)(covered.layouts.layouts@[at]));
}

/// What was launched with a command or for a card is focused instead of being
/// launched again, once its window has shown up in a layout.
///
/// This takes an App ID which works as a pattern that accepts itself.
pub proof fn law_launched_apps_are_found(
    launched: Windows,
    added: Windows,
    shown: Windows,
    window: Window,
    view: ActiveView,
    patterns: Patterns,
    at: int,
)
    requires
        launched.wf(),
        launched.window_added(added, window, view),
        launched.pending_launch is Some,
        shown.command_map == added.command_map,
        shown.card_map == added.card_map,
        0 <= at < shown.layouts.layouts.len(),
        shown.layouts.resolved(shown.layouts.layouts[at].primary) matches Some(w) && w.final_id()
            == window.final_id(),
        window.final_id() matches Some(id) && patterns.compiles(id@) && patterns.accepts(
            id@,
            Some(id@),
        ),
    ensures
        launched.pending_launch->0.command_key matches Some(key) ==> shown.mapped_found(
            shown.command_map.lookup(key@),
            patterns,
        ),
        launched.pending_launch->0.card_id matches Some(card) ==> shown.mapped_found(
            shown.card_map.lookup(card@),
            patterns,
        ),
{
    let ctx = launched.pending_launch->0;
    let id = window.final_id()->0;
    lemma_app_found(shown, id@, patterns, at, 0);
    if let Some(key) = ctx.command_key {
        assert(added.command_map@.contains_key(key@));
        assert(added.command_map@[key@] == id@);
    }
    if let Some(card) = ctx.card_id {
        assert(added.card_map@.contains_key(card@));
        assert(added.card_map@[card@] == id@);
    }
}

/// A toplevel is told nothing before its initial configure, which it gets once.
pub proof fn law_initial_configure_comes_first(
    toplevel: ToplevelSurface,
    size: Size,
    fullscreen: bool,
    activated: bool,
)
    requires
        !toplevel.configured(),
    ensures
        toplevel.size_request(size) == Request::Nothing,
        toplevel.fullscreen_request(fullscreen) == Request::Nothing,
        toplevel.activated_request(activated) == Request::Nothing,
        configure_if(!toplevel.configured()) == Request::Configure,
        configure_if(!(ToplevelSurface { initial_configure_sent: true, ..toplevel }).configured())
            == Request::Nothing,
{
}

/// A popup finds its window or is dismissed, after asking each window once.
pub proof fn law_adoption_ends(adoption: Adoption)
    requires
        adoption.refused >= adoption.hosts.len() || adoption.parent is None,
    ensures
        adoption.next() == AdoptionStep::Dismiss,
{
}

/// A commit reaches the first window which has the popup, and a layer shell
/// window only if none has it.
pub proof fn law_popup_commit_ends(commit: PopupCommit, has_popup: spec_fn(Target) -> bool)
    requires
        !commit.hosts.worked,
    ensures
        ({
            let end = PopupCommit { hosts: commit.hosts.settled(has_popup), ..commit };
            let host = first_index(commit.hosts.items@, has_popup, commit.hosts.failed as int);
            &&& host matches Some(i) ==> end.hosts.success() == Some(commit.hosts.items[i])
                && end.next() == PopupCommitStep::Done
            &&& host is None ==> end.next() == (match commit.layer {
                Some(layer) => PopupCommitStep::Layer(layer),
                None => PopupCommitStep::Done,
            })
        }),
{
    law_first_success_wins(commit.hosts, has_popup);
}

} // verus!
