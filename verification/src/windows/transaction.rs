//! Completion of transactions, and processes waiting for their time.

use vstd::prelude::*;

use crate::action::{Action, Signal, Target};
use crate::app_id::Patterns;
use crate::lists::{collect_all, collected};
use crate::text::clone_opt;
use crate::windows::apps::primary_at;
use crate::windows::log::kind_of;
use crate::windows::log::view_kind;
use crate::windows::scene::{LayerWindow, LayoutPosition, Window};
use crate::windows::state::{
    ActiveView, Clock, PendingResume, TransactionTimer, Windows,
};

verus! {

/// Nanoseconds in a millisecond.
pub const NANOS_PER_MILLI: u64 = 1_000_000;

/// What was on screen before pending changes were applied.
#[derive(Clone, Copy, Debug, PartialEq, Eq, Structural)]
pub struct AppliedTransaction {
    /// Whether a transaction was completed, as opposed to reaping without any.
    pub completed: bool,
    /// Windows in the active layout.
    pub layout_count: usize,
    /// Layer shell windows.
    pub layer_count: usize,
}

/// Next step for the pending transaction.
#[derive(Clone, Copy, Debug, PartialEq, Eq, Structural)]
pub enum TransactionStep {
    /// Try again after some nanoseconds.
    Wait(u64),
    /// Pending changes are applied, [`Windows::reap_view`] comes next.
    Apply(AppliedTransaction),
}

/// Exclusion of a window in the layouts which held up a transaction.
pub open spec fn window_exclusion() -> spec_fn(Window) -> Seq<Action> {
    |w: Window|
        if w.transaction_done {
            Seq::empty()
        } else {
            seq![Action::IgnoreTransactions { target: Target::Layout(w.key) }]
        }
}

/// Exclusion of a layer shell window which held up a transaction.
pub open spec fn layer_exclusion() -> spec_fn(LayerWindow) -> Seq<Action> {
    |w: LayerWindow|
        if w.transaction_done {
            Seq::empty()
        } else {
            seq![Action::IgnoreTransactions { target: Target::Layer(w.surface) }]
        }
}

/// Smaller of two durations.
fn shorter(a: u64, b: u64) -> (r: u64)
    ensures
        r == (if a < b {
            a
        } else {
            b
        }),
{
    if a < b {
        a
    } else {
        b
    }
}

impl Windows {
    /// Whether a pending resume is due.
    pub open spec fn resume_due(&self, now: u64) -> bool {
        self.pending_resume matches Some(pending) && now >= pending.time
    }

    /// Whether a pending suspend is due.
    pub open spec fn suspend_due(&self, now: u64) -> bool {
        self.pending_suspend matches Some(pending) && now >= pending.time
    }

    /// State after due suspends and resumes were executed.
    pub open spec fn with_processes_updated(self, now: u64) -> Windows {
        Windows {
            pending_suspend: if self.suspend_due(now) {
                None
            } else {
                self.pending_suspend
            },
            pending_resume: if self.resume_due(now) {
                None
            } else {
                self.pending_resume
            },
            ..self
        }
    }

    /// Work needed to execute due suspends and resumes.
    pub open spec fn process_updates(&self, now: u64) -> Seq<Action> {
        (if self.suspend_due(now) {
            seq![Action::SendSignal { pgid: self.pending_suspend->0.pgid, signal: Signal::Stop }]
        } else {
            Seq::empty()
        }) + (if self.resume_due(now) {
            let pending = self.pending_resume->0;
            seq![
                Action::SendSignal { pgid: pending.pgid, signal: Signal::Continue },
                Action::CorkAudio { app_id: pending.app_id, cork: false },
                Action::ControlMedia { app_id: pending.app_id, pause: false },
            ]
        } else {
            Seq::empty()
        })
    }

    /// Update pending state (suspend/resume).
    pub fn update_pending_state(&mut self, clock: Clock, out: &mut Vec<Action>)
        ensures
            *final(self) == old(self).with_processes_updated(clock.mono_ns),
            final(out)@ == old(out)@ + old(self).process_updates(clock.mono_ns),
    {
        let ghost before = *self;
        let ghost start = out@;

        // Handle pending suspend.
        if let Some(pending) = self.pending_suspend {
            if clock.mono_ns >= pending.time {
                out.push(Action::SendSignal { pgid: pending.pgid, signal: Signal::Stop });
                self.pending_suspend = None;
            }
        }

        // Handle pending resume.
        let due: Option<PendingResume> = match &self.pending_resume {
            Some(pending) => {
                if clock.mono_ns >= pending.time {
                    Some(
                        PendingResume {
                            pgid: pending.pgid,
                            time: pending.time,
                            app_id: clone_opt(&pending.app_id),
                        },
                    )
                } else {
                    None
                }
            },
            None => None,
        };
        if let Some(pending) = due {
            out.push(Action::SendSignal { pgid: pending.pgid, signal: Signal::Continue });
            out.push(Action::CorkAudio { app_id: clone_opt(&pending.app_id), cork: false });
            out.push(Action::ControlMedia { app_id: pending.app_id, pause: false });
            self.pending_resume = None;
        }
        assert(out@ == start + before.process_updates(clock.mono_ns));
    }

    /// Whether the fullscreen window is gone.
    ///
    /// It has to be alive, with its surface shown by a window in the layouts.
    pub open spec fn fullscreen_lost(&self) -> bool {
        self.view matches ActiveView::Fullscreen(key) && match self.layouts.window(key) {
            Some(w) => !w.alive || match self.layouts.wl_surface(w.surface) {
                Some(surface) => self.layouts.surface_window(surface) is None,
                None => true,
            },
            None => true,
        }
    }

    /// Place to go to after the fullscreen window was lost.
    pub open spec fn lost_place(&self, patterns: Patterns) -> Option<LayoutPosition> {
        match self.parent_index() {
            Some(index) => primary_at(index),
            None => self.home_place(patterns),
        }
    }

    /// State with a view that can be shown.
    pub open spec fn with_view_fixed(self) -> Windows {
        if self.fullscreen_lost() {
            Windows { view: ActiveView::Workspace, ..self }
        } else {
            self
        }
    }

    /// Work needed after the fullscreen window was lost.
    pub open spec fn view_fixing(&self, patterns: Patterns) -> Seq<Action> {
        if self.fullscreen_lost() {
            seq![
                Action::SetActive { position: self.lost_place(patterns), clear_parents: true },
            ]
        } else {
            Seq::empty()
        }
    }

    /// Return to the layouts if the fullscreen window is gone.
    ///
    /// This leads back to the layout below the window, to the home screen or to
    /// the first layout.
    pub fn fix_view_after_reap(&mut self, patterns: &Patterns, out: &mut Vec<Action>)
        ensures
            *final(self) == old(self).with_view_fixed(),
            final(out)@ == old(out)@ + old(self).view_fixing(*patterns),
    {
        let lost = match &self.view {
            ActiveView::Fullscreen(key) => match self.layouts.find(*key) {
                Some(window) => {
                    if !window.alive {
                        true
                    } else {
                        match self.layouts.maybe_surface(window.surface) {
                            Some(surface) => self.layouts.find_window(surface).is_none(),
                            None => true,
                        }
                    }
                },
                None => true,
            },
            _ => false,
        };
        if !lost {
            return;
        }
        let position = match self.find_parent() {
            Some(index) => Some(LayoutPosition { index, secondary: false }),
            None => self.find_home_place(patterns),
        };
        self.view = ActiveView::Workspace;
        out.push(Action::SetActive { position, clear_parents: true });
    }

    /// Whether the session lock does not hold up the transaction.
    pub open spec fn lock_ready(&self) -> bool {
        match self.pending() {
            ActiveView::Lock(Some(lock)) => lock.transaction_done,
            ActiveView::Lock(None) => false,
            _ => true,
        }
    }

    /// Whether all participants of the transaction are ready.
    pub open spec fn transaction_finished(&self) -> bool {
        &&& self.lock_ready()
        &&& forall|i: int|
            0 <= i < self.layouts.windows.len()
                ==> #[trigger] self.layouts.windows[i].transaction_done
        &&& forall|i: int|
            0 <= i < self.layers.windows.len() ==> #[trigger] self.layers.windows[i].transaction_done
    }

    /// Whether the transaction has to wait for its participants.
    pub open spec fn must_wait(&self, wall: u64) -> bool {
        &&& self.timer.start != 0
        &&& wall - self.timer.start <= self.timeout()
        &&& !self.transaction_finished()
    }

    /// Whether the transaction took too long.
    pub open spec fn timed_out(&self, wall: u64) -> bool {
        self.timer.start != 0 && wall - self.timer.start > self.timeout()
    }

    /// Nanoseconds until a pending resume is due, if it lies in the future.
    pub open spec fn resume_wait(&self, now: u64) -> Option<u64> {
        match self.pending_resume {
            Some(pending) if pending.time > now => Some((pending.time - now) as u64),
            _ => None,
        }
    }

    /// Nanoseconds until the transaction is tried again.
    pub open spec fn transaction_wait(&self, clock: Clock) -> u64 {
        let remaining = ((self.timeout() - (clock.wall_ms - self.timer.start))
            * NANOS_PER_MILLI) as u64;
        match self.resume_wait(clock.mono_ns) {
            Some(wait) if wait < remaining => wait,
            _ => remaining,
        }
    }

    /// State after a due resume was executed.
    pub open spec fn with_resume_executed(self, now: u64) -> Windows {
        Windows {
            pending_resume: if self.resume_due(now) {
                None
            } else {
                self.pending_resume
            },
            ..self
        }
    }

    /// Work needed to execute a due resume. Media players are left alone.
    pub open spec fn resume_execution(&self, now: u64) -> Seq<Action> {
        if self.resume_due(now) {
            let pending = self.pending_resume->0;
            seq![
                Action::SendSignal { pgid: pending.pgid, signal: Signal::Continue },
                Action::CorkAudio { app_id: pending.app_id, cork: false },
            ]
        } else {
            Seq::empty()
        }
    }

    /// State after the transaction's view was switched to.
    pub open spec fn with_transaction_view(self) -> Windows {
        if self.timer.start == 0 {
            self
        } else {
            let ended = Windows {
                timer: TransactionTimer { start: 0 },
                transaction: None,
                ..self
            };
            match self.transaction {
                Some(transaction) => match transaction.view {
                    Some(view) => Windows { dirty: true, view: view, ..ended },
                    None => ended,
                },
                None => ended,
            }
        }
    }

    /// Whether completing the transaction switches the view.
    pub open spec fn switches_view(&self) -> bool {
        &&& self.timer.start != 0
        &&& self.transaction matches Some(transaction) && transaction.view is Some
    }

    /// Trace of a view switch in the log, with the time since its request.
    pub open spec fn switch_trace(&self, wall: u64) -> Seq<Action> {
        if self.switches_view() && self.trace_scene_enabled {
            seq![
                Action::LogSwitch {
                    from: kind_of(self.view),
                    to: kind_of(self.with_transaction_view().view),
                    elapsed_ms: (wall - self.timer.start) as u64,
                },
                Action::LogScene,
            ]
        } else {
            Seq::empty()
        }
    }

    /// Applying of pending changes to all windows.
    pub open spec fn change_application(&self) -> Seq<Action> {
        seq![Action::ApplyLayouts, Action::ApplyLayers] + (match self.view {
            ActiveView::Lock(Some(lock)) => seq![
                Action::ApplyTransaction { target: Target::Lock(lock.surface) },
            ],
            _ => Seq::empty(),
        })
    }

    /// Work needed to apply all pending changes.
    pub open spec fn transaction_application(&self, wall: u64) -> Seq<Action> {
        (if self.timed_out(wall) {
            collect_all(self.layouts.windows@, window_exclusion()) + collect_all(
                self.layers.windows@,
                layer_exclusion(),
            )
        } else {
            Seq::empty()
        }) + self.switch_trace(wall) + self.with_transaction_view().change_application()
    }

    /// Check if all participants of the transaction are ready.
    fn check_finished(&self) -> (r: bool)
        ensures
            r == self.transaction_finished(),
    {
        let lock_ready = match self.pending_view() {
            // Check if lock surface transaction is done.
            ActiveView::Lock(Some(lock)) => lock.transaction_done,
            // Wait for timeout to allow surface creation.
            ActiveView::Lock(None) => false,
            _ => true,
        };
        if !lock_ready {
            return false;
        }
        let mut i: usize = 0;
        while i < self.layouts.windows.len()
            invariant
                i <= self.layouts.windows.len(),
                forall|j: int| 0 <= j < i ==> #[trigger] self.layouts.windows[j].transaction_done,
            decreases self.layouts.windows.len() - i,
        {
            if !self.layouts.windows[i].transaction_done {
                return false;
            }
            i += 1;
        }
        let mut i: usize = 0;
        while i < self.layers.windows.len()
            invariant
                i <= self.layers.windows.len(),
                forall|j: int| 0 <= j < i ==> #[trigger] self.layers.windows[j].transaction_done,
            decreases self.layers.windows.len() - i,
        {
            if !self.layers.windows[i].transaction_done {
                return false;
            }
            i += 1;
        }
        true
    }

    /// Blacklist windows which caused transaction failure.
    fn exclude_unfinished(&self, out: &mut Vec<Action>)
        ensures
            final(out)@ == old(out)@ + collect_all(self.layouts.windows@, window_exclusion())
                + collect_all(self.layers.windows@, layer_exclusion()),
    {
        let ghost start = out@;
        let mut i: usize = 0;
        while i < self.layouts.windows.len()
            invariant
                i <= self.layouts.windows.len(),
                out@ == start + collected(self.layouts.windows@, window_exclusion(), i as int),
            decreases self.layouts.windows.len() - i,
        {
            let window = &self.layouts.windows[i];
            if !window.transaction_done {
                out.push(Action::IgnoreTransactions { target: Target::Layout(window.key) });
            }
            i += 1;
        }
        let ghost middle = out@;
        let mut i: usize = 0;
        while i < self.layers.windows.len()
            invariant
                i <= self.layers.windows.len(),
                out@ == middle + collected(self.layers.windows@, layer_exclusion(), i as int),
            decreases self.layers.windows.len() - i,
        {
            let window = &self.layers.windows[i];
            if !window.transaction_done {
                out.push(Action::IgnoreTransactions { target: Target::Layer(window.surface) });
            }
            i += 1;
        }
    }

    /// Execute a due resume.
    fn execute_resume(&mut self, now: u64, out: &mut Vec<Action>)
        ensures
            *final(self) == old(self).with_resume_executed(now),
            final(out)@ == old(out)@ + old(self).resume_execution(now),
    {
        let due = match &self.pending_resume {
            Some(pending) => {
                if now >= pending.time {
                    out.push(
                        Action::SendSignal { pgid: pending.pgid, signal: Signal::Continue },
                    );
                    out.push(
                        Action::CorkAudio { app_id: clone_opt(&pending.app_id), cork: false },
                    );
                    true
                } else {
                    false
                }
            },
            None => false,
        };
        if due {
            self.pending_resume = None;
        }
    }

    /// Get nanoseconds until a pending resume is due, if it lies in the future.
    fn wait_for_resume(&self, now: u64) -> (r: Option<u64>)
        ensures
            r == self.resume_wait(now),
    {
        match &self.pending_resume {
            Some(pending) => {
                if pending.time > now {
                    Some(pending.time - now)
                } else {
                    None
                }
            },
            None => None,
        }
    }

    /// Switch to the transaction's view, ending the transaction.
    fn switch_view(&mut self, wall: u64, out: &mut Vec<Action>)
        requires
            old(self).timer.start <= wall,
        ensures
            *final(self) == old(self).with_transaction_view(),
            final(out)@ == old(out)@ + old(self).switch_trace(wall),
    {
        if self.timer.start == 0 {
            return;
        }
        let elapsed_ms: u64 = wall - self.timer.start;

        // Clear transaction timer.
        self.timer = TransactionTimer { start: 0 };

        // Switch active view.
        if let Some(transaction) = self.transaction.take() {
            if let Some(view) = transaction.view {
                let from = view_kind(&self.view);
                self.dirty = true;
                self.view = view;
                if self.trace_scene_enabled {
                    let to = view_kind(&self.view);
                    out.push(Action::LogSwitch { from, to, elapsed_ms });
                    out.push(Action::LogScene);
                }
            }
        }
    }

    /// Apply pending changes to all windows.
    fn apply_changes(&self, out: &mut Vec<Action>)
        ensures
            final(out)@ == old(out)@ + self.change_application(),
    {
        // Apply layout/liveliness changes.
        out.push(Action::ApplyLayouts);
        // Update layer shell windows.
        out.push(Action::ApplyLayers);
        // Update session lock window.
        if let ActiveView::Lock(Some(lock)) = &self.view {
            out.push(Action::ApplyTransaction { target: Target::Lock(lock.surface) });
        }
    }

    /// What is on screen before pending changes are applied.
    pub open spec fn applied(&self) -> AppliedTransaction {
        AppliedTransaction {
            completed: self.timer.start != 0,
            layout_count: self.layouts.active.count() as usize,
            layer_count: self.layers.windows.len(),
        }
    }

    /// Attempt to execute pending transactions.
    ///
    /// This will return the duration until the transaction should be timed out
    /// when there is an active transaction but it cannot be completed yet.
    ///
    /// Pending changes are applied otherwise, even without any transaction to
    /// reap dead windows. Once that is done, [`Windows::reap_view`] and
    /// [`Windows::finish_transaction`] bring the view and the damage up to
    /// date.
    pub fn update_transaction(&mut self, clock: Clock, out: &mut Vec<Action>) -> (r: TransactionStep)
        requires
            old(self).timer.start != 0 ==> old(self).timer.start <= clock.wall_ms,
        ensures
            old(self).timer.start != 0 && clock.wall_ms - old(self).timer.start <= (if old(
                self,
            ).pending() is Lock {
                100int
            } else {
                1000
            }) && {
                ||| exists|i: int|
                    0 <= i < old(self).layouts.windows.len() && !(#[trigger] old(
                        self,
                    ).layouts.windows[i]).transaction_done
                ||| exists|i: int|
                    0 <= i < old(self).layers.windows.len() && !(#[trigger] old(
                        self,
                    ).layers.windows[i]).transaction_done
                ||| old(self).pending() is Lock && !(old(self).pending()->Lock_0 is Some && old(
                    self,
                ).pending()->Lock_0->0.transaction_done)
            } ==> {
                &&& r is Wait
                &&& final(self).view == old(self).view
                &&& final(self).timer == old(self).timer
                &&& final(self).transaction == old(self).transaction
            },
            old(self).must_wait(clock.wall_ms) ==> {
                &&& r == TransactionStep::Wait(
                    old(self).with_resume_executed(clock.mono_ns).transaction_wait(clock),
                )
                &&& *final(self) == old(self).with_resume_executed(clock.mono_ns)
                &&& final(out)@ == old(out)@ + old(self).resume_execution(clock.mono_ns)
            },
            !old(self).must_wait(clock.wall_ms) ==> r == TransactionStep::Apply(old(self).applied()),
            !old(self).must_wait(clock.wall_ms) ==> {
                &&& r == TransactionStep::Apply(
                    AppliedTransaction {
                        completed: old(self).timer.start != 0,
                        layout_count: old(self).layouts.active.count() as usize,
                        layer_count: old(self).layers.windows.len(),
                    },
                )
                &&& *final(self) == old(self).with_resume_executed(
                    clock.mono_ns,
                ).with_transaction_view()
                &&& final(out)@ == old(out)@ + old(self).resume_execution(clock.mono_ns) + old(
                    self,
                ).transaction_application(clock.wall_ms)
            },
    {
        let ghost before = *self;
        let ghost start = out@;
        self.execute_resume(clock.mono_ns, out);
        let ghost resumed = *self;
        let ghost base = out@;
        assert(resumed.pending() == before.pending());
        assert(resumed.transaction_finished() == before.transaction_finished());

        let completed = self.timer.start != 0;
        if completed {
            // Check if the transaction requires updating.
            let elapsed: u64 = clock.wall_ms - self.timer.start;
            let timeout: u64 = self.transaction_timeout();
            if elapsed <= timeout {
                // Abort if the transaction is still pending.
                if !self.check_finished() {
                    let remaining: u64 = (timeout - elapsed) * NANOS_PER_MILLI;
                    return TransactionStep::Wait(
                        match self.wait_for_resume(clock.mono_ns) {
                            Some(wait) => shorter(wait, remaining),
                            None => remaining,
                        },
                    );
                }
            } else {
                self.exclude_unfinished(out);
            }
        }
        // Store old visible window count to see if we need to redraw.
        let layout_count: usize = self.layouts.active.window_count();
        let layer_count: usize = self.layers.windows.len();

        self.switch_view(clock.wall_ms, out);
        self.apply_changes(out);
        assert(out@ == base + before.transaction_application(clock.wall_ms));
        TransactionStep::Apply(AppliedTransaction { completed, layout_count, layer_count })
    }

    /// State with the output's present canvas.
    pub open spec fn with_fresh_canvas(self) -> Windows {
        Windows {
            canvas: self.output.canvas,
            dirty: self.dirty || self.canvas.orientation != self.output.canvas.orientation
                || !self.canvas.scale.equals(self.output.canvas.scale),
            ..self
        }
    }

    /// Whether the view shows windows other than the active layout.
    pub open spec fn needs_windows(view: ActiveView) -> bool {
        view is Overview || view is DragAndDrop || view is Fullscreen
    }

    /// State with the workspace shown if there is no layout.
    pub open spec fn with_empty_closed(self) -> Windows {
        if self.layouts.layouts.len() == 0 && Self::needs_windows(self.view) {
            Windows { view: ActiveView::Workspace, ..self }
        } else {
            self
        }
    }

    /// Update canvas and force redraw on orientation change.
    fn refresh_canvas(&mut self)
        ensures
            *final(self) == old(self).with_fresh_canvas(),
    {
        let old_canvas = self.canvas;
        self.canvas = self.output.canvas;
        self.dirty = self.dirty || old_canvas.orientation != self.canvas.orientation
            || !old_canvas.scale.same(self.canvas.scale);
    }

    /// Close overview if all layouts died.
    fn close_empty(&mut self)
        ensures
            *final(self) == old(self).with_empty_closed(),
    {
        let needs_windows = match &self.view {
            ActiveView::Overview(_) | ActiveView::DragAndDrop(_) | ActiveView::Fullscreen(_) => true,
            _ => false,
        };
        if self.layouts.layouts.len() == 0 && needs_windows {
            self.view = ActiveView::Workspace;
        }
    }

    /// State before the view is checked after changes were applied.
    pub open spec fn with_changes_seen(self, completed: bool, damaged: bool) -> Windows {
        let seen = Windows { dirty: self.dirty || damaged, ..self };
        if completed {
            seen
        } else {
            seen.with_fresh_canvas().with_empty_closed()
        }
    }

    /// Ensure the view is consistent after pending changes were applied.
    ///
    /// The layouts, the layers and the output are those after the changes.
    /// `damaged` tells if applying them damaged the layouts.
    pub fn reap_view(
        &mut self,
        applied: AppliedTransaction,
        damaged: bool,
        patterns: &Patterns,
        out: &mut Vec<Action>,
    )
        ensures
            *final(self) == old(self).with_changes_seen(
                applied.completed,
                damaged,
            ).with_view_fixed(),
            final(out)@ == old(out)@ + old(self).with_changes_seen(
                applied.completed,
                damaged,
            ).view_fixing(*patterns),
    {
        self.dirty = self.dirty || damaged;
        if !applied.completed {
            self.refresh_canvas();
            self.close_empty();
        }
        self.fix_view_after_reap(patterns, out);
    }

    /// State at the end of a transaction.
    pub open spec fn with_transaction_finished(self, applied: AppliedTransaction) -> Windows {
        let done = if applied.completed {
            self.with_fresh_canvas().with_empty_closed()
        } else {
            self
        };
        Windows {
            dirty: done.dirty || applied.layout_count != done.layouts.active.count()
                || applied.layer_count != done.layers.windows.len(),
            ..done
        }
    }

    /// Nanoseconds until a resume is due after pending changes were applied without transaction.
    pub open spec fn finished_wait(&self, applied: AppliedTransaction, now: u64) -> Option<u64> {
        if applied.completed {
            None
        } else {
            self.resume_wait(now)
        }
    }

    /// Finish the execution of a transaction.
    ///
    /// A visible window which has died leads to a redraw. Without any
    /// transaction, this will return the duration until a pending resume.
    pub fn finish_transaction(&mut self, applied: AppliedTransaction, clock: Clock) -> (r: Option<
        u64,
    >)
        ensures
            *final(self) == old(self).with_transaction_finished(applied),
            r == old(self).finished_wait(applied, clock.mono_ns),
            r == (if applied.completed {
                None
            } else {
                old(self).resume_wait(clock.mono_ns)
            }),
    {
        if applied.completed {
            self.refresh_canvas();
            self.close_empty();
        }
        self.dirty = self.dirty || applied.layout_count != self.layouts.active.window_count()
            || applied.layer_count != self.layers.windows.len();
        if applied.completed {
            None
        } else {
            self.wait_for_resume(clock.mono_ns)
        }
    }
}

} // verus!
