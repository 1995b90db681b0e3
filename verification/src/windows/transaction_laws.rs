//! When transactions wait, and what they do once they are applied.

use vstd::prelude::*;

use crate::action::{Action, Signal, Target};
use crate::app_id::Patterns;
use crate::lists::{collect_all, lemma_collected};
use crate::windows::apps::primary_at;
use crate::windows::state::{ActiveView, Clock, Windows};
use crate::windows::transaction::{layer_exclusion, window_exclusion, AppliedTransaction};

verus! {

/// The view after the transaction is the one it asks for, or else the current one.
pub proof fn law_pending_view(s: Windows)
    ensures
        s.transaction is None ==> s.pending() == s.view,
        s.transaction matches Some(t) && t.view is None ==> s.pending() == s.view,
        s.transaction matches Some(t) && t.view is Some ==> s.transaction->0.view == Some(s.pending()),
        s.lock_pending() <==> s.pending() is Lock,
        s.pending() is Lock ==> s.timeout() == 100,
        !(s.pending() is Lock) ==> s.timeout() == 1000,
{
}

/// A running transaction waits for everyone until its time is up.
///
/// A single window in the layouts, a single layer shell window or the lock
/// surface which is not done holds it up. Nothing but a due resume happens in
/// the meantime. Once all of them are done, it is applied.
pub proof fn law_transaction_waits_for_everyone(s: Windows, clock: Clock)
    requires
        s.timer.start != 0,
        s.timer.start <= clock.wall_ms,
        clock.wall_ms - s.timer.start <= 1000,
        s.pending() is Lock ==> clock.wall_ms - s.timer.start <= 100,
    ensures
        forall|i: int|
            0 <= i < s.layouts.windows.len() && !(
            #[trigger] s.layouts.windows[i]).transaction_done ==> s.must_wait(clock.wall_ms),
        forall|i: int|
            0 <= i < s.layers.windows.len() && !(
            #[trigger] s.layers.windows[i]).transaction_done ==> s.must_wait(clock.wall_ms),
        s.pending() matches ActiveView::Lock(Some(lock)) && !lock.transaction_done ==> s.must_wait(
            clock.wall_ms,
        ),
        s.pending() == ActiveView::Lock(None) ==> s.must_wait(clock.wall_ms),
        (forall|i: int|
            0 <= i < s.layouts.windows.len() ==> (
            #[trigger] s.layouts.windows[i]).transaction_done) && (forall|i: int|
            0 <= i < s.layers.windows.len() ==> (#[trigger] s.layers.windows[i]).transaction_done)
            && (s.pending() matches ActiveView::Lock(lock) ==> lock matches Some(lock)
            && lock.transaction_done) ==> !s.must_wait(clock.wall_ms),
        s.with_resume_executed(clock.mono_ns).view == s.view,
        s.with_resume_executed(clock.mono_ns).timer == s.timer,
        s.with_resume_executed(clock.mono_ns).transaction == s.transaction,
        s.with_resume_executed(clock.mono_ns).layouts == s.layouts,
        s.with_resume_executed(clock.mono_ns).layers == s.layers,
{
}

/// A transaction which waits is tried again when its time is up, or sooner if a resume is due by
/// then.
pub proof fn law_waiting_ends_in_time(s: Windows, clock: Clock)
    requires
        s.must_wait(clock.wall_ms),
        s.timer.start <= clock.wall_ms,
    ensures
        ({
            let limit: int = if s.pending() is Lock {
                100
            } else {
                1000
            };
            let left = (limit - (clock.wall_ms - s.timer.start)) * 1_000_000;
            let wait = s.with_resume_executed(clock.mono_ns).transaction_wait(clock);
            &&& wait <= left
            &&& s.pending_resume is None ==> wait == left
            &&& s.pending_resume matches Some(pending) ==> pending.time <= clock.mono_ns ==> wait
                == left
            &&& s.pending_resume matches Some(pending) ==> pending.time > clock.mono_ns ==> {
                &&& wait <= pending.time - clock.mono_ns
                &&& wait == left || wait == pending.time - clock.mono_ns
            }
        }),
{
}

/// A resume is executed by a transaction as soon as its time has come, and kept until then.
pub proof fn law_due_resumes_are_executed(s: Windows, now: u64)
    ensures
        s.pending_resume is None ==> s.resume_execution(now).len() == 0 && s.with_resume_executed(
            now,
        ).pending_resume is None,
        s.pending_resume matches Some(pending) ==> now < pending.time ==> s.resume_execution(
            now,
        ).len() == 0 && s.with_resume_executed(now).pending_resume == s.pending_resume,
        s.pending_resume matches Some(pending) ==> pending.time <= now ==> {
            &&& s.with_resume_executed(now).pending_resume is None
            &&& s.resume_execution(now) == seq![
                Action::SendSignal { pgid: pending.pgid, signal: Signal::Continue },
                Action::CorkAudio { app_id: pending.app_id, cork: false },
            ]
        },
        s.with_resume_executed(now) == (Windows {
            pending_resume: s.with_resume_executed(now).pending_resume,
            ..s
        }),
        s.pending_resume matches Some(pending) ==> now < pending.time ==> s.resume_wait(now) == Some(
            (pending.time - now) as u64,
        ),
        s.pending_resume matches Some(pending) ==> pending.time <= now ==> s.resume_wait(now) is None,
        s.pending_resume is None ==> s.resume_wait(now) is None,
{
}

/// Processes are stopped and continued exactly when their time has come.
///
/// Whatever was executed is not pending anymore, and everything else still is.
pub proof fn law_processes_switch_in_time(s: Windows, now: u64)
    ensures
        ({
            let t = s.with_processes_updated(now);
            let all = s.process_updates(now);
            &&& s.pending_suspend matches Some(p) ==> now < p.time ==> t.pending_suspend
                == s.pending_suspend
            &&& s.pending_resume matches Some(p) ==> now < p.time ==> t.pending_resume
                == s.pending_resume
            &&& s.pending_suspend matches Some(p) ==> p.time <= now ==> {
                &&& t.pending_suspend is None
                &&& all.len() > 0
                &&& all[0] == Action::SendSignal { pgid: p.pgid, signal: Signal::Stop }
            }
            &&& s.pending_resume matches Some(p) ==> p.time <= now ==> {
                let n = all.len() as int;
                &&& t.pending_resume is None
                &&& n >= 3
                &&& all[n - 3] == Action::SendSignal { pgid: p.pgid, signal: Signal::Continue }
                &&& all[n - 2] == Action::CorkAudio { app_id: p.app_id, cork: false }
                &&& all[n - 1] == Action::ControlMedia { app_id: p.app_id, pause: false }
            }
            &&& t == (Windows {
                pending_suspend: t.pending_suspend,
                pending_resume: t.pending_resume,
                ..s
            })
            &&& all.len() == (if t.pending_suspend == s.pending_suspend {
                0int
            } else {
                1
            }) + (if t.pending_resume == s.pending_resume {
                0int
            } else {
                3
            })
        }),
{
}

/// Completing a transaction shows the view it asked for, and that has to be drawn.
///
/// Without any running transaction nothing changes.
pub proof fn law_completion_switches_the_view(s: Windows, wall: u64)
    ensures
        s.timer.start == 0 ==> s.with_transaction_view() == s && s.switch_trace(wall).len() == 0,
        s.timer.start != 0 ==> {
            let t = s.with_transaction_view();
            &&& t.view == s.pending()
            &&& t.timer.start == 0
            &&& t.transaction is None
            &&& (s.transaction is Some && s.transaction->0.view is Some) ==> t.dirty
            &&& !(s.transaction is Some && s.transaction->0.view is Some) ==> t.dirty == s.dirty
            &&& t == (Windows {
                view: t.view,
                timer: t.timer,
                transaction: t.transaction,
                dirty: t.dirty,
                ..s
            })
        },
        !s.trace_scene_enabled ==> s.switch_trace(wall).len() == 0,
        s.timer.start != 0 && s.timer.start <= wall && s.trace_scene_enabled && s.transaction is Some
            && s.transaction->0.view is Some ==> {
            &&& s.switch_trace(wall).len() == 2
            &&& s.switch_trace(wall)[0] matches Action::LogSwitch { from, to, elapsed_ms }
                && elapsed_ms + s.timer.start == wall && (from is Workspace
                <==> s.view is Workspace) && (from is Lock <==> s.view is Lock) && (to is Workspace
                <==> s.pending() is Workspace) && (to is Lock <==> s.pending() is Lock)
            &&& s.switch_trace(wall)[1] == Action::LogScene
        },
{
}

/// Windows are left out of transactions exactly if they were not done when the time was up.
pub proof fn law_only_late_windows_are_excluded(s: Windows, clock: Clock, target: Target)
    requires
        !s.must_wait(clock.wall_ms),
        s.timer.start != 0 ==> s.timer.start <= clock.wall_ms,
    ensures
        s.transaction_application(clock.wall_ms).contains(Action::IgnoreTransactions { target })
            <==> {
            &&& s.timer.start != 0
            &&& clock.wall_ms - s.timer.start > (if s.pending() is Lock {
                100int
            } else {
                1000
            })
            &&& {
                ||| exists|i: int|
                    0 <= i < s.layouts.windows.len() && !(
                    #[trigger] s.layouts.windows[i]).transaction_done && target == Target::Layout(
                        s.layouts.windows[i].key,
                    )
                ||| exists|i: int|
                    0 <= i < s.layers.windows.len() && !(
                    #[trigger] s.layers.windows[i]).transaction_done && target == Target::Layer(
                        s.layers.windows[i].surface,
                    )
            }
        },
{
    let action = Action::IgnoreTransactions { target };
    let all = s.transaction_application(clock.wall_ms);
    let a = collect_all(s.layouts.windows@, window_exclusion());
    let b = collect_all(s.layers.windows@, layer_exclusion());
    let rest = s.switch_trace(clock.wall_ms) + s.with_transaction_view().change_application();
    lemma_collected(s.layouts.windows@, window_exclusion(), s.layouts.windows.len() as int);
    lemma_collected(s.layers.windows@, layer_exclusion(), s.layers.windows.len() as int);
    assert(!rest.contains(action));
    assert forall|i: int|
        0 <= i < s.layouts.windows.len() && !(#[trigger] s.layouts.windows[i]).transaction_done
            && target == Target::Layout(s.layouts.windows[i].key) implies a.contains(action) by {
        assert(window_exclusion()(s.layouts.windows@[i])[0] == action);
        assert(window_exclusion()(s.layouts.windows@[i]).contains(action));
    }
    assert forall|i: int|
        0 <= i < s.layers.windows.len() && !(#[trigger] s.layers.windows[i]).transaction_done
            && target == Target::Layer(s.layers.windows[i].surface) implies b.contains(action) by {
        assert(layer_exclusion()(s.layers.windows@[i])[0] == action);
        assert(layer_exclusion()(s.layers.windows@[i]).contains(action));
    }
    if a.contains(action) {
        let i = choose|i: int|
            0 <= i < s.layouts.windows.len() && window_exclusion()(
                #[trigger] s.layouts.windows@[i],
            ).contains(action);
        assert(!s.layouts.windows[i].transaction_done);
    }
    if b.contains(action) {
        let i = choose|i: int|
            0 <= i < s.layers.windows.len() && layer_exclusion()(
                #[trigger] s.layers.windows@[i],
            ).contains(action);
        assert(!s.layers.windows[i].transaction_done);
    }
    if s.timed_out(clock.wall_ms) {
        assert(all =~= a + b + rest);
        if a.contains(action) {
            let k = choose|k: int| 0 <= k < a.len() && a[k] == action;
            assert(all[k] == action);
        }
        if b.contains(action) {
            let k = choose|k: int| 0 <= k < b.len() && b[k] == action;
            assert(all[a.len() + k] == action);
        }
        if all.contains(action) {
            let k = choose|k: int| 0 <= k < all.len() && all[k] == action;
            if k < a.len() {
                assert(a[k] == action);
            } else if k < a.len() + b.len() {
                assert(b[k - a.len()] == action);
            } else {
                assert(rest[k - a.len() - b.len()] == action);
            }
        }
    } else {
        assert(all =~= rest);
    }
}

/// Pending changes are applied to the layouts, to the layers and to a lock surface on screen, at
/// the very end.
pub proof fn law_changes_are_applied(s: Windows, wall: u64)
    ensures
        ({
            let all = s.transaction_application(wall);
            let n = all.len() as int;
            let shown = s.with_transaction_view().view;
            match shown {
                ActiveView::Lock(Some(lock)) => {
                    &&& n >= 3
                    &&& all[n - 3] == Action::ApplyLayouts
                    &&& all[n - 2] == Action::ApplyLayers
                    &&& all[n - 1] == Action::ApplyTransaction { target: Target::Lock(lock.surface) }
                },
                _ => {
                    &&& n >= 2
                    &&& all[n - 2] == Action::ApplyLayouts
                    &&& all[n - 1] == Action::ApplyLayers
                },
            }
        }),
{
}

/// A fullscreen window is shown as long as it is alive and its surface is shown in the layouts.
///
/// Once that is over, the workspace is shown with the layout to return to, or
/// else the home screen.
pub proof fn law_lost_fullscreen_leads_back(s: Windows, patterns: Patterns)
    ensures
        !(s.view is Fullscreen) ==> s.with_view_fixed() == s && s.view_fixing(patterns).len() == 0,
        s.view matches ActiveView::Fullscreen(key) ==> {
            let shown = s.layouts.window(key) matches Some(w) && w.alive && (s.layouts.wl_surface(
                w.surface,
            ) matches Some(surface) && s.layouts.surface_window(surface) is Some);
            let t = s.with_view_fixed();
            &&& shown ==> t == s && s.view_fixing(patterns).len() == 0
            &&& !shown ==> {
                &&& t == (Windows { view: ActiveView::Workspace, ..s })
                &&& s.view_fixing(patterns).len() == 1
                &&& s.view_fixing(patterns)[0] == Action::SetActive {
                    position: match s.parent_index() {
                        Some(index) => primary_at(index),
                        None => s.home_place(patterns),
                    },
                    clear_parents: true,
                }
            }
        },
{
}

/// The canvas is that of the output at the end of every transaction, and a change of its
/// orientation or scale is drawn.
pub proof fn law_canvas_follows_the_output(s: Windows)
    ensures
        s.with_fresh_canvas().canvas == s.output.canvas,
        s.dirty ==> s.with_fresh_canvas().dirty,
        s.canvas.orientation != s.output.canvas.orientation ==> s.with_fresh_canvas().dirty,
        !s.canvas.scale.equals(s.output.canvas.scale) ==> s.with_fresh_canvas().dirty,
        !s.dirty && s.canvas.orientation == s.output.canvas.orientation && s.canvas.scale.equals(
            s.output.canvas.scale,
        ) ==> !s.with_fresh_canvas().dirty,
        s.with_fresh_canvas() == (Windows {
            canvas: s.output.canvas,
            dirty: s.with_fresh_canvas().dirty,
            ..s
        }),
{
}

/// Without any layout, whatever needs one is closed. Nothing else is.
pub proof fn law_empty_views_are_closed(s: Windows)
    ensures
        s.layouts.layouts.len() > 0 ==> s.with_empty_closed() == s,
        s.layouts.layouts.len() == 0 && (s.view is Overview || s.view is DragAndDrop
            || s.view is Fullscreen) ==> s.with_empty_closed() == (Windows {
            view: ActiveView::Workspace,
            ..s
        }),
        s.view is Lock || s.view is Workspace ==> s.with_empty_closed() == s,
{
}

/// A frame is drawn after a transaction if anything on screen has changed.
///
/// A window of the active layout or a layer shell window which is gone is
/// noticed by its number, and damage is kept in any case.
pub proof fn law_lost_windows_are_drawn(
    s: Windows,
    applied: AppliedTransaction,
    damaged: bool,
)
    ensures
        s.dirty ==> s.with_transaction_finished(applied).dirty,
        applied.layer_count != s.layers.windows.len() ==> s.with_transaction_finished(applied).dirty,
        ((if s.layouts.active.primary is Some {
            1int
        } else {
            0
        }) + (if s.layouts.active.secondary is Some {
            1int
        } else {
            0
        }) != applied.layout_count) ==> s.with_transaction_finished(applied).dirty,
        !applied.completed && s.with_transaction_finished(applied).dirty && !s.dirty ==> {
            ||| applied.layer_count != s.layers.windows.len()
            ||| s.layouts.active.count() != applied.layout_count
        },
        applied.completed ==> s.with_transaction_finished(applied).canvas == s.output.canvas,
        !applied.completed ==> s.with_transaction_finished(applied).canvas == s.canvas
            && s.with_transaction_finished(applied).view == s.view,
        damaged ==> s.with_changes_seen(applied.completed, damaged).dirty,
        s.dirty ==> s.with_changes_seen(applied.completed, damaged).dirty,
        !applied.completed ==> s.with_changes_seen(applied.completed, damaged).canvas
            == s.output.canvas,
        applied.completed ==> s.with_changes_seen(applied.completed, damaged) == (Windows {
            dirty: s.dirty || damaged,
            ..s
        }),
{
}

/// What is applied tells if a transaction was running, and counts what was on screen.
pub proof fn law_applied_changes_count_windows(s: Windows)
    ensures
        s.applied().completed <==> s.timer.start != 0,
        s.applied().layer_count == s.layers.windows.len(),
        s.applied().layout_count == (if s.layouts.active.primary is Some {
            1int
        } else {
            0
        }) + (if s.layouts.active.secondary is Some {
            1int
        } else {
            0
        }),
{
}

/// Only without transaction there is a resume to wait for.
pub proof fn law_resumes_are_waited_for(s: Windows, applied: AppliedTransaction, now: u64)
    ensures
        applied.completed ==> s.finished_wait(applied, now) is None,
        !applied.completed ==> (s.pending_resume matches Some(pending) ==> pending.time > now
            ==> s.finished_wait(applied, now) == Some((pending.time - now) as u64)),
        s.pending_resume is None ==> s.finished_wait(applied, now) is None,
{
}

} // verus!
