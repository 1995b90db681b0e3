//! State of the window manager, its views and its transactions.

use vstd::prelude::*;

use crate::action::{Action, Area, Target};
use crate::app_id::AppIdMatcher;
use crate::geometry::FloatBits;
use crate::lists::{collect_all, collected};
use crate::string_map::StringMap;
use crate::windows::scene::{
    Canvas, Layer, LayerWindow, Layers, Layout, Layouts, LockWindow, Orientation, Output,
    PopupWindow, SurfaceHandle, Window,
};

verus! {

/// Transaction timeout for locked sessions.
pub const MAX_LOCKED_TRANSACTION_MILLIS: u64 = 100;

/// Maximum time before a transaction is cancelled.
pub const MAX_TRANSACTION_MILLIS: u64 = 1000;

/// Present time.
#[derive(Clone, Copy, Debug, PartialEq, Eq, Structural)]
pub struct Clock {
    /// Milliseconds since the Unix epoch.
    pub wall_ms: u64,
    /// Nanoseconds of a clock which never goes back.
    pub mono_ns: u64,
}

/// Transaction timer in milliseconds since the Unix epoch.
#[derive(Clone, Copy, Debug, PartialEq, Eq, Structural)]
pub struct TransactionTimer {
    /// Start of the running transaction, zero without any.
    pub start: u64,
}

impl TransactionTimer {
    /// Timer after a transaction was requested.
    pub open spec fn started(self, now: u64) -> TransactionTimer {
        if self.start != 0 {
            self
        } else {
            TransactionTimer { start: now }
        }
    }
}

/// Start a new transaction.
///
/// This will reset the transaction start to the current system time if there's
/// no transaction pending, setting up the timeout for the transaction.
pub fn start_transaction(timer: &mut TransactionTimer, now: u64)
    ensures
        *final(timer) == old(timer).started(now),
{
    if timer.start != 0 {
        return;
    }
    timer.start = now;
}

/// What an ongoing drag in the overview does.
#[derive(Clone, Copy, Debug, PartialEq, Eq, Structural)]
pub enum DragActionType {
    /// Not decided yet.
    Undecided,
    /// Cycle through the windows.
    Cycle,
    /// Close a window.
    Close(u64),
}

/// List of all open windows.
#[derive(Clone, Copy, Debug, PartialEq, Eq, Structural)]
pub struct Overview {
    /// Identity of the overview.
    pub id: u64,
    /// Whether the overview was opened completely.
    pub opened: bool,
    pub dirty: bool,
    pub drag_action: DragActionType,
    /// Whether the drag was released.
    pub drag_done: bool,
}

/// Drag and drop of a window.
#[derive(Clone, Copy, Debug, PartialEq, Eq, Structural)]
pub struct DragAndDrop {
    /// Identity of the drag.
    pub id: u64,
    /// Window which is dragged.
    pub window: u64,
}

/// Compositor window arrangements.
#[derive(Debug, PartialEq, Eq)]
pub enum ActiveView {
    /// List of all open windows.
    Overview(Overview),
    /// Drag and drop for tiling windows.
    DragAndDrop(DragAndDrop),
    /// Fullscreened window, by its key.
    Fullscreen(u64),
    /// Session lock.
    Lock(Option<LockWindow>),
    /// Currently active windows.
    Workspace,
}

/// Atomic changes to the windows.
#[derive(Debug, PartialEq, Eq)]
pub struct Transaction {
    pub view: Option<ActiveView>,
}

/// Launched application whose window has not shown up yet.
#[derive(Debug, PartialEq, Eq)]
pub struct LaunchCtx {
    pub command: String,
    pub command_key: Option<String>,
    pub card_id: Option<String>,
    /// Launch time in nanoseconds.
    pub time: u64,
    pub pid: Option<i32>,
    pub pgid: Option<i32>,
}

/// Process group waiting to be resumed.
#[derive(Debug, PartialEq, Eq)]
pub struct PendingResume {
    pub pgid: i32,
    pub time: u64,
    pub app_id: Option<String>,
}

/// Process group waiting to be suspended.
#[derive(Clone, Copy, Debug, PartialEq, Eq, Structural)]
pub struct PendingSuspend {
    pub pgid: i32,
    pub time: u64,
}

/// Last launched command with its launch time.
#[derive(Debug, PartialEq, Eq)]
pub struct LastLaunch {
    pub command: String,
    pub time: u64,
}

/// Scale of a window, relative to the output or fixed.
#[derive(Clone, Copy, Debug, PartialEq, Eq, Structural)]
pub enum WindowScale {
    Fixed(FloatBits),
    Additive(FloatBits),
    Multiplicative(FloatBits),
    Subtractive(FloatBits),
    Divisive(FloatBits),
}

/// Scale for the windows accepted by a pattern.
pub struct ScaleOverride {
    pub app_id: AppIdMatcher,
    pub scale: WindowScale,
}

/// Container tracking all known clients.
pub struct Windows {
    pub window_scales: Vec<ScaleOverride>,
    pub orphan_popups: Vec<PopupWindow>,
    pub layouts: Layouts,
    pub layers: Layers,
    pub view: ActiveView,
    /// Surface told to be active last.
    pub activated: Option<SurfaceHandle>,
    pub transaction: Option<Transaction>,
    pub timer: TransactionTimer,
    /// Creation time in nanoseconds.
    pub start_time: u64,
    pub output: Output,
    /// Patterns for the applications which fill a role.
    pub system_roles: StringMap,
    pub last_launch: Option<LastLaunch>,
    /// Pending launch for mapping command and card to the observed App ID.
    pub pending_launch: Option<LaunchCtx>,
    pub pending_resume: Option<PendingResume>,
    pub pending_suspend: Option<PendingSuspend>,
    /// Role of the activated window, kept when the window is destroyed.
    pub active_role: Option<String>,
    /// App ID by command key.
    pub command_map: StringMap,
    /// App ID by card.
    pub card_map: StringMap,
    /// Cached output state for rendering.
    ///
    /// This ties the transactions to their respective output size and is meant
    /// for everyone who does not talk to clients about future updates, but
    /// calculates things for the next rendered frame.
    pub canvas: Canvas,
    /// Orientation independent from the orientation lock.
    pub unlocked_orientation: Orientation,
    pub orientation_locked: bool,
    /// IME force enable/disable state.
    pub ime_override: Option<bool>,
    /// Client-independent damage.
    pub dirty: bool,
    pub trace_scene_enabled: bool,
}

/// Update of one layer shell window's size.
pub open spec fn layer_update(fullscreen: bool) -> spec_fn(u64) -> Seq<Action> {
    |layer: u64| seq![Action::UpdateDimensions { layer, fullscreen }]
}

/// Update of a layer shell window's size, in fullscreen if it is an overlay.
pub open spec fn window_update(fullscreen: bool) -> spec_fn(LayerWindow) -> Seq<Action> {
    |w: LayerWindow|
        seq![
            Action::UpdateDimensions {
                layer: w.surface,
                fullscreen: fullscreen && w.layer == Layer::Overlay,
            },
        ]
}

impl Windows {
    /// Names and values of everything are consistent.
    pub open spec fn wf(&self) -> bool {
        &&& self.system_roles.wf()
        &&& self.command_map.wf()
        &&& self.card_map.wf()
    }

    /// Every transaction has a start, so it comes to its end.
    pub open spec fn timed(&self) -> bool {
        self.transaction is Some ==> self.timer.start != 0
    }

    /// View after the pending transaction.
    pub open spec fn pending(&self) -> ActiveView {
        match self.transaction {
            Some(transaction) => match transaction.view {
                Some(view) => view,
                None => self.view,
            },
            None => self.view,
        }
    }

    /// Whether the session is locked, or about to be.
    pub open spec fn lock_pending(&self) -> bool {
        self.pending() is Lock
    }

    /// Get transaction view, or current view if no transaction is active.
    pub fn pending_view(&self) -> (r: &ActiveView)
        ensures
            *r == self.pending(),
    {
        match &self.transaction {
            Some(transaction) => match &transaction.view {
                Some(view) => view,
                None => &self.view,
            },
            None => &self.view,
        }
    }

    /// State after a transaction was requested.
    pub open spec fn with_transaction(self, now: u64) -> Windows {
        Windows {
            timer: self.timer.started(now),
            transaction: Some(
                match self.transaction {
                    Some(transaction) => transaction,
                    None => Transaction { view: None },
                },
            ),
            ..self
        }
    }

    /// State after a view was put into the transaction.
    pub open spec fn with_pending(self, view: ActiveView, now: u64) -> Windows {
        Windows {
            timer: self.timer.started(now),
            transaction: Some(Transaction { view: Some(view) }),
            ..self
        }
    }

    /// Start a new transaction.
    pub fn start_transaction(&mut self, now: u64)
        ensures
            *final(self) == old(self).with_transaction(now),
    {
        start_transaction(&mut self.timer, now);
        if self.transaction.is_none() {
            self.transaction = Some(Transaction { view: None });
        }
    }

    /// Start a new transaction which ends in a view.
    pub fn start_view_transaction(&mut self, view: ActiveView, now: u64)
        ensures
            *final(self) == old(self).with_pending(view, now),
    {
        self.start_transaction(now);
        self.transaction = Some(Transaction { view: Some(view) });
    }

    /// State after the active view was changed.
    pub open spec fn with_view(self, view: ActiveView, now: u64) -> Windows {
        if self.lock_pending() {
            self
        } else if view is Overview {
            match self.transaction {
                Some(_) => Windows {
                    transaction: Some(Transaction { view: None }),
                    view: view,
                    ..self
                },
                None => Windows { dirty: true, view: view, ..self },
            }
        } else {
            self.with_pending(view, now)
        }
    }

    /// Change the active view.
    ///
    /// A locked session is left alone, use [`Windows::unlock`] to leave it.
    /// The overview is shown at once, everything else once its transaction is
    /// done.
    pub fn set_view(&mut self, view: ActiveView, now: u64)
        ensures
            *final(self) == old(self).with_view(view, now),
    {
        if let ActiveView::Lock(_) = self.pending_view() {
            return;
        }
        let overview = match &view {
            ActiveView::Overview(_) => true,
            _ => false,
        };
        if overview {
            if self.transaction.is_some() {
                self.transaction = Some(Transaction { view: None });
            } else {
                self.dirty = true;
            }
            self.view = view;
        } else {
            self.start_view_transaction(view, now);
        }
    }

    /// Lock the session.
    pub fn lock(&mut self, now: u64)
        ensures
            *final(self) == old(self).with_view(ActiveView::Lock(None), now),
    {
        self.set_view(ActiveView::Lock(None), now);
    }

    /// Unlock the session.
    pub fn unlock(&mut self, now: u64)
        ensures
            *final(self) == old(self).with_pending(ActiveView::Workspace, now),
    {
        self.start_view_transaction(ActiveView::Workspace, now);
    }

    /// Timeout before transactions are forcefully applied.
    pub open spec fn timeout(&self) -> u64 {
        if self.lock_pending() {
            MAX_LOCKED_TRANSACTION_MILLIS
        } else {
            MAX_TRANSACTION_MILLIS
        }
    }

    /// Get timeout before transactions will be forcefully applied.
    pub fn transaction_timeout(&self) -> (r: u64)
        ensures
            r == self.timeout(),
    {
        match self.pending_view() {
            ActiveView::Lock(_) => MAX_LOCKED_TRANSACTION_MILLIS,
            _ => MAX_TRANSACTION_MILLIS,
        }
    }

    /// Work needed to give all visible windows their expected size.
    pub open spec fn visible_resize(&self) -> Seq<Action> {
        match self.pending() {
            ActiveView::Fullscreen(window) => seq![
                Action::SetDimensions {
                    target: Target::Layout(window),
                    area: Area::AvailableFullscreen,
                },
            ] + collect_all(self.layers.overlay@, layer_update(true)),
            ActiveView::Lock(Some(lock)) => seq![
                Action::SetDimensions { target: Target::Lock(lock.surface), area: Area::Output },
            ],
            _ => seq![Action::ResizePendingActive] + collect_all(
                self.layers.windows@,
                window_update(false),
            ),
        }
    }

    /// Resize visible windows to their expected size.
    pub fn resize_visible(&self, out: &mut Vec<Action>)
        ensures
            final(out)@ == old(out)@ + self.visible_resize(),
    {
        match self.pending_view() {
            ActiveView::Fullscreen(window) => {
                out.push(
                    Action::SetDimensions {
                        target: Target::Layout(*window),
                        area: Area::AvailableFullscreen,
                    },
                );
                let ghost base = out@;
                let mut i: usize = 0;
                while i < self.layers.overlay.len()
                    invariant
                        i <= self.layers.overlay.len(),
                        out@ == base + collected(
                            self.layers.overlay@,
                            layer_update(true),
                            i as int,
                        ),
                    decreases self.layers.overlay.len() - i,
                {
                    out.push(
                        Action::UpdateDimensions { layer: self.layers.overlay[i], fullscreen: true },
                    );
                    i += 1;
                }
            },
            ActiveView::Lock(Some(lock)) => {
                out.push(
                    Action::SetDimensions {
                        target: Target::Lock(lock.surface),
                        area: Area::Output,
                    },
                );
            },
            _ => {
                out.push(Action::ResizePendingActive);
                self.resize_layers(false, out);
            },
        }
    }

    /// Resize all layer shell windows.
    fn resize_layers(&self, fullscreen: bool, out: &mut Vec<Action>)
        ensures
            final(out)@ == old(out)@ + collect_all(self.layers.windows@, window_update(fullscreen)),
    {
        let ghost base = out@;
        let mut i: usize = 0;
        while i < self.layers.windows.len()
            invariant
                i <= self.layers.windows.len(),
                out@ == base + collected(
                    self.layers.windows@,
                    window_update(fullscreen),
                    i as int,
                ),
            decreases self.layers.windows.len() - i,
        {
            let window = &self.layers.windows[i];
            out.push(
                Action::UpdateDimensions {
                    layer: window.surface,
                    fullscreen: fullscreen && window.layer == Layer::Overlay,
                },
            );
            i += 1;
        }
    }

    /// Surface of the window in fullscreen after the pending transaction.
    pub open spec fn fullscreen_surface(&self) -> Option<u64> {
        match self.pending() {
            ActiveView::Fullscreen(window) => match self.layouts.window(window) {
                Some(window) => self.layouts.wl_surface(window.surface),
                None => None,
            },
            _ => None,
        }
    }

    /// Whether an optional window is known with its Wayland surface.
    pub open spec fn surface_known(&self, key: Option<u64>) -> bool {
        self.layouts.resolved(key) matches Some(w) ==> self.layouts.wl_surface(w.surface) is Some
    }

    /// Whether a layout shows the fullscreen window.
    pub open spec fn shows_fullscreen(&self, layout: Layout) -> bool {
        match self.fullscreen_surface() {
            Some(surface) => self.layouts.key_shows(layout.primary, surface)
                || self.layouts.key_shows(layout.secondary, surface),
            None => false,
        }
    }

    /// Whether a layout's windows can be compared with the fullscreen window.
    ///
    /// X11 windows have no surface until XWayland has announced it. The second
    /// window of a layout is only looked at if the first one is not fullscreen.
    pub open spec fn comparable(&self, layout: Layout) -> bool {
        &&& self.surface_known(layout.primary)
        &&& (self.fullscreen_surface() is Some && self.layouts.key_shows(
            layout.primary,
            self.fullscreen_surface()->0,
        )) || self.surface_known(layout.secondary)
    }

    /// Whether all windows needed for resizing have a Wayland surface.
    pub open spec fn resizable(&self) -> bool {
        &&& self.pending() is Fullscreen ==> self.fullscreen_surface() is Some
        &&& forall|i: int|
            0 <= i < self.layouts.layouts.len() ==> self.comparable(#[trigger] self.layouts.layouts[i])
    }

    /// Resizes of the first `n` layouts, without the one in fullscreen.
    pub open spec fn layout_resizes(&self, n: int) -> Seq<Action>
        decreases n,
    {
        if n <= 0 {
            Seq::empty()
        } else if self.shows_fullscreen(self.layouts.layouts[n - 1]) {
            self.layout_resizes(n - 1)
        } else {
            self.layout_resizes(n - 1).push(Action::ResizeLayout { index: (n - 1) as usize })
        }
    }

    /// Work needed to give all windows their expected size.
    pub open spec fn full_resize(&self) -> Seq<Action> {
        (match self.pending() {
            ActiveView::Fullscreen(window) => seq![
                Action::SetDimensions {
                    target: Target::Layout(window),
                    area: Area::AvailableFullscreen,
                },
            ],
            ActiveView::Lock(Some(lock)) => seq![
                Action::SetDimensions { target: Target::Lock(lock.surface), area: Area::Output },
            ],
            _ => Seq::empty(),
        }) + self.layout_resizes(self.layouts.layouts.len() as int) + collect_all(
            self.layers.windows@,
            window_update(self.pending() is Fullscreen),
        )
    }

    fn key_is(&self, key: Option<u64>, surface: Option<u64>) -> (r: bool)
        ensures
            r == (surface is Some && self.layouts.key_shows(key, surface->0)),
    {
        match (self.layouts.resolve(key), surface) {
            (Some(window), Some(surface)) => {
                match self.layouts.maybe_surface(window.surface) {
                    Some(shown) => shown == surface,
                    None => false,
                }
            },
            _ => false,
        }
    }

    /// Check if an optional window is known with its Wayland surface.
    pub fn is_surface_known(&self, key: Option<u64>) -> (r: bool)
        ensures
            r == self.surface_known(key),
    {
        match self.layouts.resolve(key) {
            Some(window) => self.layouts.maybe_surface(window.surface).is_some(),
            None => true,
        }
    }

    /// Check if all windows needed for resizing have a Wayland surface.
    pub fn can_resize_all(&self) -> (r: bool)
        ensures
            r == self.resizable(),
    {
        let fullscreen_window: Option<u64> = match self.pending_view() {
            ActiveView::Fullscreen(key) => {
                let surface: Option<u64> = match self.layouts.find(*key) {
                    Some(window) => self.layouts.maybe_surface(window.surface),
                    None => None,
                };
                if surface.is_none() {
                    return false;
                }
                surface
            },
            _ => None,
        };
        let mut i: usize = 0;
        while i < self.layouts.layouts.len()
            invariant
                i <= self.layouts.layouts.len(),
                fullscreen_window == self.fullscreen_surface(),
                forall|j: int| 0 <= j < i ==> self.comparable(#[trigger] self.layouts.layouts[j]),
            decreases self.layouts.layouts.len() - i,
        {
            let layout = self.layouts.layouts[i];
            let known = self.is_surface_known(layout.primary) && (self.key_is(
                layout.primary,
                fullscreen_window,
            ) || self.is_surface_known(layout.secondary));
            if !known {
                assert(!self.comparable(self.layouts.layouts[i as int]));
                return false;
            }
            i += 1;
        }
        true
    }

    /// Resize all windows to their expected size.
    pub fn resize_all(&self, out: &mut Vec<Action>)
        requires
            self.resizable(),
        ensures
            final(out)@ == old(out)@ + self.full_resize(),
    {
        let ghost start = out@;
        // Handle fullscreen/lock surfaces.
        let fullscreen_window: Option<u64> = match self.pending_view() {
            ActiveView::Fullscreen(key) => {
                out.push(
                    Action::SetDimensions {
                        target: Target::Layout(*key),
                        area: Area::AvailableFullscreen,
                    },
                );
                match self.layouts.find(*key) {
                    Some(window) => self.layouts.maybe_surface(window.surface),
                    None => None,
                }
            },
            ActiveView::Lock(Some(lock)) => {
                out.push(
                    Action::SetDimensions {
                        target: Target::Lock(lock.surface),
                        area: Area::Output,
                    },
                );
                None
            },
            _ => None,
        };

        // Resize XDG clients.
        let ghost base = out@;
        let mut i: usize = 0;
        while i < self.layouts.layouts.len()
            invariant
                i <= self.layouts.layouts.len(),
                fullscreen_window == self.fullscreen_surface(),
                out@ == base + self.layout_resizes(i as int),
            decreases self.layouts.layouts.len() - i,
        {
            let layout = self.layouts.layouts[i];
            // Skip resizing fullscreened layout.
            if !self.key_is(layout.primary, fullscreen_window) && !self.key_is(
                layout.secondary,
                fullscreen_window,
            ) {
                out.push(Action::ResizeLayout { index: i });
            }
            i += 1;
        }

        // Resize layer shell clients.
        self.resize_layers(fullscreen_window.is_some(), out);
        assert(out@ == start + self.full_resize());
    }
}

} // verus!
