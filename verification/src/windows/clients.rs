//! Requests and commits of clients.

use vstd::prelude::*;

use crate::action::{Action, Area, Target};
use crate::geometry::Rectangle;
use crate::lists::holds_key;
use crate::lists::{first, first_index};
use crate::trials::Trials;
use crate::windows::scene::{
    LayerWindow, Layers, LayoutPosition, LockWindow, PopupWindow, SurfaceHandle, Window,
};
use crate::windows::state::{
    start_transaction, ActiveView, DragAndDrop, Transaction, Windows,
};

verus! {

/// Popup looking for the window that it belongs to.
#[derive(Debug, PartialEq, Eq)]
pub struct Adoption {
    pub popup: u64,
    /// Surface of the parent, missing if the client has set none.
    pub parent: Option<u64>,
    /// Windows which might have the parent, in the order in which they are asked.
    pub hosts: Vec<Target>,
    /// Number of windows which do not have the parent.
    pub refused: usize,
}

/// Next step in the adoption of a popup.
#[derive(Clone, Copy, Debug, PartialEq, Eq, Structural)]
pub enum AdoptionStep {
    /// Ask a window to add the popup below a parent.
    Offer { host: Target, parent: u64 },
    /// Dismiss the popup.
    Dismiss,
}

impl Adoption {
    /// Next step in the adoption.
    pub open spec fn next(&self) -> AdoptionStep {
        match self.parent {
            Some(parent) => if self.refused < self.hosts.len() {
                AdoptionStep::Offer { host: self.hosts[self.refused as int], parent }
            } else {
                AdoptionStep::Dismiss
            },
            None => AdoptionStep::Dismiss,
        }
    }

    /// Get the next step in the adoption.
    ///
    /// A popup without parent is dismissed, as is one whose parent belongs to
    /// none of the visible windows.
    pub fn step(&self) -> (r: AdoptionStep)
        ensures
            r == self.next(),
    {
        match self.parent {
            Some(parent) => {
                if self.refused < self.hosts.len() {
                    AdoptionStep::Offer { host: self.hosts[self.refused], parent }
                } else {
                    AdoptionStep::Dismiss
                }
            },
            None => AdoptionStep::Dismiss,
        }
    }

    /// Note that the window which was asked last does not have the parent.
    pub fn refuse(&mut self)
        requires
            old(self).refused < old(self).hosts.len(),
        ensures
            *final(self) == (Adoption { refused: (old(self).refused + 1) as usize, ..*old(self) }),
    {
        self.refused = self.refused + 1;
    }
}

/// What has to be done for the commit of a surface.
#[derive(Debug, PartialEq, Eq)]
pub enum Commit {
    /// The surface belongs to a window, which applies its changes.
    Window(Target),
    /// The surface might belong to a popup.
    Popup {
        /// Popup which has to find its parent first.
        adoption: Option<Adoption>,
        commit: PopupCommit,
    },
}

/// Commit of a surface which might belong to a popup.
#[derive(Debug, PartialEq, Eq)]
pub struct PopupCommit {
    /// Windows which are asked in turn, until one of them has the popup.
    pub hosts: Trials<Target>,
    /// Layer shell window whose surface it is, if none of them has the popup.
    pub layer: Option<LayerCommit>,
}

/// Next step for the commit of a surface which might belong to a popup.
#[derive(Clone, Copy, Debug, PartialEq, Eq, Structural)]
pub enum PopupCommitStep {
    /// Ask a window to apply the changes if it has the popup.
    Ask(Target),
    /// Apply the changes of a layer shell window.
    Layer(LayerCommit),
    /// Nothing is left to do.
    Done,
}

impl PopupCommit {
    /// Next step for the commit.
    pub open spec fn next(&self) -> PopupCommitStep {
        match (self.hosts.upcoming(), self.hosts.success(), self.layer) {
            (Some(host), _, _) => PopupCommitStep::Ask(host),
            (None, None, Some(layer)) => PopupCommitStep::Layer(layer),
            _ => PopupCommitStep::Done,
        }
    }

    /// Get the next step for the commit.
    pub fn step(&self) -> (r: PopupCommitStep)
        ensures
            r == self.next(),
    {
        match (self.hosts.next(), self.hosts.result(), self.layer) {
            (Some(host), _, _) => PopupCommitStep::Ask(host),
            (None, None, Some(layer)) => PopupCommitStep::Layer(layer),
            _ => PopupCommitStep::Done,
        }
    }

    /// Note if the window which was asked has the popup.
    ///
    /// No other window is asked as soon as the popup was found.
    pub fn answered(&mut self, has_popup: bool)
        requires
            old(self).next() is Ask,
        ensures
            *final(self) == (PopupCommit {
                hosts: old(self).hosts.with_outcome(has_popup),
                ..*old(self)
            }),
    {
        self.hosts.outcome(has_popup);
    }
}

/// Commit of a layer shell window.
#[derive(Clone, Copy, Debug, PartialEq, Eq, Structural)]
pub struct LayerCommit {
    pub surface: u64,
    pub fullscreen_active: bool,
}

/// Condition on popups to have a surface.
pub open spec fn is_popup(surface: u64) -> spec_fn(PopupWindow) -> bool {
    |p: PopupWindow| p.surface == surface
}

/// Condition on windows to own a surface.
pub open spec fn owns(surface: u64) -> spec_fn(Window) -> bool {
    |w: Window| w.surfaces@.contains(surface)
}

/// Condition on layer shell windows to own a surface.
pub open spec fn layer_owns(surface: u64) -> spec_fn(LayerWindow) -> bool {
    |w: LayerWindow| w.surfaces@.contains(surface)
}

/// An optional window in the layouts as a target.
pub open spec fn optional_target(key: Option<u64>) -> Seq<Target> {
    match key {
        Some(key) => seq![Target::Layout(key)],
        None => Seq::empty(),
    }
}

impl Windows {
    /// State with another session lock window, if the session is locked.
    pub open spec fn with_lock_window(self, window: LockWindow) -> Windows {
        if !self.lock_pending() {
            self
        } else {
            match self.transaction {
                Some(Transaction { view: Some(_) }) => Windows {
                    transaction: Some(
                        Transaction { view: Some(ActiveView::Lock(Some(window))) },
                    ),
                    ..self
                },
                _ => Windows { view: ActiveView::Lock(Some(window)), ..self },
            }
        }
    }

    /// Work needed for another session lock window.
    pub open spec fn lock_sizing(&self, surface: u64) -> Seq<Action> {
        if self.lock_pending() {
            seq![Action::SetDimensions { target: Target::Lock(surface), area: Area::Output }]
        } else {
            Seq::empty()
        }
    }

    /// Update the session lock surface.
    ///
    /// This is ignored unless the session is locked, or about to be.
    pub fn set_lock_surface(&mut self, window: LockWindow, out: &mut Vec<Action>)
        ensures
            *final(self) == old(self).with_lock_window(window),
            final(out)@ == old(out)@ + old(self).lock_sizing(window.surface),
            final(out)@ == (if old(self).lock_pending() {
                old(out)@.push(
                    Action::SetDimensions {
                        target: Target::Lock(window.surface),
                        area: Area::Output,
                    },
                )
            } else {
                old(out)@
            }),
    {
        let locked = match self.pending_view() {
            ActiveView::Lock(_) => true,
            _ => false,
        };
        if !locked {
            return;
        }

        // Set lock surface size.
        out.push(
            Action::SetDimensions { target: Target::Lock(window.surface), area: Area::Output },
        );

        // Update lockscreen.
        let in_transaction = match &self.transaction {
            Some(transaction) => transaction.view.is_some(),
            None => false,
        };
        if in_transaction {
            self.transaction = Some(Transaction { view: Some(ActiveView::Lock(Some(window))) });
        } else {
            self.view = ActiveView::Lock(Some(window));
        }
    }

    /// Key of the XDG shell window with a surface.
    pub open spec fn xdg_key(&self, root: u64) -> Option<u64> {
        match self.layouts.surface_window(root) {
            Some(window) => Some(window.key),
            None => None,
        }
    }

    /// Find the XDG shell window responsible for a specific surface.
    ///
    /// `root` is the surface's topmost ancestor.
    pub fn find_xdg(&self, root: u64) -> (r: Option<u64>)
        ensures
            r == self.xdg_key(root),
            r == (match self.layouts.surface_window(root) {
                Some(window) => Some(window.key),
                None => None,
            }),
    {
        match self.layouts.find_window(root) {
            Some(window) => Some(window.key),
            None => None,
        }
    }

    /// Windows which might have the parent of a popup.
    pub open spec fn adoption_hosts(&self) -> Seq<Target> {
        optional_target(self.layouts.active.primary) + optional_target(
            self.layouts.active.secondary,
        ) + self.layer_targets()
    }

    /// Popups after one of them has left, the last one taking its place.
    pub open spec fn popups_without(&self, index: int) -> Seq<PopupWindow> {
        self.orphan_popups@.update(index, self.orphan_popups@.last()).drop_last()
    }

    /// Whether a popup's way into the window tree is exact.
    pub open spec fn adopts(&self, adoption: Option<Adoption>, root: u64) -> bool {
        match first(self.orphan_popups@, is_popup(root)) {
            Some(popup) => {
                &&& adoption matches Some(adoption) && {
                    &&& adoption.popup == root
                    &&& adoption.parent == popup.parent
                    &&& adoption.hosts@ == self.adoption_hosts()
                    &&& adoption.refused == 0
                }
            },
            None => adoption is None,
        }
    }

    /// Handle orphan popup surface commits.
    ///
    /// After the first surface commit, every popup should have a parent set.
    /// This function puts it at the correct location in the window tree
    /// below its parent.
    ///
    /// Popups will be dismissed if a surface commit is made for them without
    /// any parent set. They will also be dismissed if the parent is not
    /// visible.
    pub fn orphan_surface_commit(&mut self, root: u64) -> (r: Option<Adoption>)
        ensures
            old(self).adopts(r, root),
            *final(self) == (Windows { orphan_popups: final(self).orphan_popups, ..*old(self) }),
            match first_index(old(self).orphan_popups@, is_popup(root), 0) {
                Some(index) => final(self).orphan_popups@ == old(self).popups_without(index),
                None => final(self).orphan_popups == old(self).orphan_popups,
            },
    {
        let mut i: usize = 0;
        while i < self.orphan_popups.len()
            invariant
                i <= self.orphan_popups.len(),
                *self == *old(self),
                first_index(self.orphan_popups@, is_popup(root), 0) == first_index(
                    self.orphan_popups@,
                    is_popup(root),
                    i as int,
                ),
            decreases self.orphan_popups.len() - i,
        {
            if self.orphan_popups[i].surface == root {
                let popup = self.orphan_popups.swap_remove(i);
                let mut hosts: Vec<Target> = Vec::new();
                // Try and add it to the primary window.
                if let Some(primary) = self.layouts.active.primary {
                    hosts.push(Target::Layout(primary));
                }
                // Try and add it to the secondary window.
                if let Some(secondary) = self.layouts.active.secondary {
                    hosts.push(Target::Layout(secondary));
                }
                // Try and add it to any layer shell windows.
                self.push_layers(&mut hosts);
                assert(hosts@ == old(self).adoption_hosts());
                return Some(
                    Adoption { popup: root, parent: popup.parent, hosts, refused: 0 },
                );
            }
            i += 1;
        }
        None
    }

    /// Window whose own surface a root surface is, without popups and layers.
    pub open spec fn commit_window(&self, root: u64) -> Option<Target> {
        match self.pending() {
            ActiveView::Lock(Some(lock)) if lock.surface == root => Some(Target::Lock(root)),
            _ => match self.layouts.surface_window(root) {
                Some(window) => Some(Target::Layout(window.key)),
                None => None,
            },
        }
    }

    /// Layer shell window whose own surface a root surface is.
    pub open spec fn commit_layer(&self, root: u64) -> Option<LayerCommit> {
        match self.layers.layer(root) {
            Some(_) => Some(
                LayerCommit { surface: root, fullscreen_active: self.view is Fullscreen },
            ),
            None => None,
        }
    }

    /// Whether the commit of a surface is exact, without its effect on waiting popups.
    pub open spec fn commits(&self, commit: Commit, root: u64) -> bool {
        match commit {
            Commit::Window(target) => self.commit_window(root) == Some(target),
            Commit::Popup { adoption, commit } => {
                &&& self.commit_window(root) is None
                &&& self.adopts(adoption, root)
                &&& commit.hosts.items@ == self.layout_targets() + self.layer_targets()
                &&& commit.hosts.failed == 0
                &&& !commit.hosts.worked
                &&& commit.layer == self.commit_layer(root)
            },
        }
    }

    /// Handle a surface commit for any window.
    ///
    /// `root` is the topmost ancestor of the surface. When the commit of a
    /// layer shell window changed the space left for other windows,
    /// [`Windows::exclusive_changed`] is next.
    pub fn surface_commit(&mut self, root: u64) -> (r: Commit)
        ensures
            old(self).commits(r, root),
            match old(self).commit_window(root) {
                Some(target) => {
                    &&& r == Commit::Window(target)
                    &&& *final(self) == *old(self)
                },
                None => {
                    &&& r matches Commit::Popup { adoption, commit } && {
                        &&& old(self).adopts(adoption, root)
                        &&& commit.hosts.items@ == old(self).layout_targets() + old(
                            self,
                        ).layer_targets()
                        &&& commit.hosts.failed == 0 && !commit.hosts.worked
                        &&& commit.layer == old(self).commit_layer(root)
                    }
                    &&& *final(self) == (Windows {
                        orphan_popups: final(self).orphan_popups,
                        ..*old(self)
                    })
                    &&& match first_index(old(self).orphan_popups@, is_popup(root), 0) {
                        Some(index) => final(self).orphan_popups@ == old(self).popups_without(
                            index,
                        ),
                        None => final(self).orphan_popups == old(self).orphan_popups,
                    }
                },
            },
    {
        // Handle session lock surface commits.
        if let ActiveView::Lock(Some(lock)) = self.pending_view() {
            if lock.surface == root {
                return Commit::Window(Target::Lock(root));
            }
        }

        // Handle XDG surface commits.
        if let Some(window) = self.layouts.find_window(root) {
            return Commit::Window(Target::Layout(window.key));
        }

        // Handle popup orphan adoption.
        let adoption = self.orphan_surface_commit(root);

        // Apply popup surface commits.
        let mut hosts: Vec<Target> = Vec::new();
        self.push_layouts(&mut hosts);
        self.push_layers(&mut hosts);
        assert(hosts@ == old(self).layout_targets() + old(self).layer_targets());

        // Handle layer shell surface commits.
        let fullscreen_active = match &self.view {
            ActiveView::Fullscreen(_) => true,
            _ => false,
        };
        let layer = match self.layers.find(root) {
            Some(_) => Some(LayerCommit { surface: root, fullscreen_active }),
            None => None,
        };
        Commit::Popup { adoption, commit: PopupCommit { hosts: Trials::new(hosts), layer } }
    }

    /// Work needed after the space for other windows might have changed.
    pub open spec fn exclusive_resize(&self, changed: bool) -> Seq<Action> {
        if changed {
            self.visible_resize()
        } else {
            Seq::empty()
        }
    }

    /// Resize windows after exclusive zone changes.
    pub fn exclusive_changed(&self, changed: bool, out: &mut Vec<Action>)
        ensures
            final(out)@ == old(out)@ + self.exclusive_resize(changed),
            final(out)@ == old(out)@ + (if changed {
                self.visible_resize()
            } else {
                Seq::empty()
            }),
    {
        if changed {
            self.resize_visible(out);
        }
    }

    /// State without focus on a layer surface.
    pub open spec fn without_focus_on(self, surface: u64) -> Windows {
        match self.layers.focus {
            Some(focus) if focus.surface == surface => Windows {
                layers: Layers { focus: None, ..self.layers },
                ..self
            },
            _ => self,
        }
    }

    /// State after the death of a layer shell window.
    pub open spec fn with_layer_dead(self, surface: u64, now: u64) -> Windows {
        Windows { timer: self.timer.started(now), ..self.without_focus_on(surface) }
    }

    /// Work needed after the death of a layer shell window.
    pub open spec fn layer_reaping(&self, surface: u64) -> Seq<Action> {
        match self.layers.layer(surface) {
            Some(_) => seq![Action::ResetExclusive { layer: surface }],
            None => Seq::empty(),
        }
    }

    /// Stage dead layer shell window for reaping.
    ///
    /// When this changed the space left for other windows,
    /// [`Windows::exclusive_changed`] is next.
    pub fn reap_layer(&mut self, surface: u64, now: u64, out: &mut Vec<Action>)
        ensures
            *final(self) == old(self).with_layer_dead(surface, now),
            final(out)@ == old(out)@ + old(self).layer_reaping(surface),
            final(out)@ == (if old(self).layers.layer(surface) is Some {
                old(out)@.push(Action::ResetExclusive { layer: surface })
            } else {
                old(out)@
            }),
    {
        // Start transaction to ensure window is reaped even without any resize.
        start_transaction(&mut self.timer, now);

        // Clear focus if this layer was focused.
        let focused = match &self.layers.focus {
            Some(focus) => focus.surface == surface,
            None => false,
        };
        if focused {
            self.layers.focus = None;
        }

        // Handle layer shell death.
        if self.layers.find(surface).is_some() {
            out.push(Action::ResetExclusive { layer: surface });
        }
    }

    /// Work needed after the death of an XDG shell window.
    pub open spec fn xdg_reaping(&self, surface: u64, now: u64) -> Seq<Action> {
        self.fullscreen_leaving(Some(surface), now) + seq![
            Action::ReapLayouts(SurfaceHandle::Xdg(surface)),
        ]
    }

    /// Stage dead XDG shell window for reaping.
    pub fn reap_xdg(&mut self, surface: u64, now: u64, out: &mut Vec<Action>)
        ensures
            final(out)@ == old(out)@ + old(self).xdg_reaping(surface, now),
            *final(self) == old(self).with_fullscreen_left(Some(surface), now),
            final(out)@ == (old(out)@ + old(self).fullscreen_leaving(Some(surface), now)).push(
                Action::ReapLayouts(SurfaceHandle::Xdg(surface)),
            ),
    {
        // Remove fullscreen if this client was fullscreened.
        self.unfullscreen(Some(surface), now, out);

        // Reap layout windows.
        out.push(Action::ReapLayouts(SurfaceHandle::Xdg(surface)));
    }

    /// State after the drag of a window was started.
    pub open spec fn with_drag(self, position: LayoutPosition, id: u64, now: u64) -> Windows {
        match self.layouts.key_at(position) {
            Some(window) if self.view is Overview => self.with_view(
                ActiveView::DragAndDrop(DragAndDrop { id, window }),
                now,
            ),
            _ => self,
        }
    }

    /// Start Overview window Drag & Drop.
    ///
    /// `id` is the identity of the new drag.
    pub fn start_dnd(&mut self, layout_position: LayoutPosition, id: u64, now: u64)
        ensures
            *final(self) == old(self).with_drag(layout_position, id, now),
    {
        let overview = match &self.view {
            ActiveView::Overview(_) => true,
            _ => false,
        };
        if !overview {
            return;
        }

        // Convert layout position to window.
        if let Some(window) = self.layouts.window_at(layout_position) {
            self.set_view(ActiveView::DragAndDrop(DragAndDrop { id, window }), now);
        }
    }

    /// State after a surface was put in fullscreen.
    pub open spec fn with_fullscreened(self, surface: u64, now: u64) -> Windows {
        match self.layouts.surface_window(surface) {
            Some(window) => self.with_view(ActiveView::Fullscreen(window.key), now),
            None => self,
        }
    }

    /// Work needed to put a surface in fullscreen.
    pub open spec fn fullscreening(&self, surface: u64, now: u64) -> Seq<Action> {
        match self.layouts.surface_window(surface) {
            Some(window) => seq![
                Action::SetFullscreen { window: window.key, fullscreen: true },
            ] + self.with_fullscreened(surface, now).visible_resize(),
            None => Seq::empty(),
        }
    }

    /// Fullscreen the supplied XDG surface.
    pub fn fullscreen(&mut self, surface: u64, now: u64, out: &mut Vec<Action>)
        ensures
            *final(self) == old(self).with_fullscreened(surface, now),
            final(out)@ == old(out)@ + old(self).fullscreening(surface, now),
    {
        let ghost start = out@;
        let ghost before = *self;
        let key: u64 = match self.layouts.find_window(surface) {
            Some(window) => window.key,
            None => {
                return;
            },
        };
        // Update window's XDG state.
        out.push(Action::SetFullscreen { window: key, fullscreen: true });

        // Resize windows and change view.
        self.set_view(ActiveView::Fullscreen(key), now);
        self.resize_visible(out);
        assert(out@ == start + before.fullscreening(surface, now));
    }

    /// Fullscreen window which is left for a surface, or for any without one.
    pub open spec fn left_window(&self, surface: Option<u64>) -> Option<u64> {
        match self.view {
            ActiveView::Fullscreen(key) => match surface {
                Some(surface) => if self.layouts.key_shows(Some(key), surface) {
                    Some(key)
                } else {
                    None
                },
                None => Some(key),
            },
            _ => None,
        }
    }

    /// State after fullscreen was left.
    pub open spec fn with_fullscreen_left(self, surface: Option<u64>, now: u64) -> Windows {
        if self.left_window(surface) is Some {
            self.with_view(ActiveView::Workspace, now)
        } else {
            self
        }
    }

    /// Work needed to leave fullscreen.
    pub open spec fn fullscreen_leaving(&self, surface: Option<u64>, now: u64) -> Seq<Action> {
        match self.left_window(surface) {
            Some(window) => seq![
                Action::SetFullscreen { window, fullscreen: false },
            ] + self.with_fullscreen_left(surface, now).visible_resize(),
            None => Seq::empty(),
        }
    }

    /// Switch from fullscreen back to workspace view.
    ///
    /// If a surface is supplied, the view will not be changed unless the
    /// supplied surface matches the current fullscreen surface.
    pub fn unfullscreen(&mut self, surface: Option<u64>, now: u64, out: &mut Vec<Action>)
        ensures
            *final(self) == old(self).with_fullscreen_left(surface, now),
            final(out)@ == old(out)@ + old(self).fullscreen_leaving(surface, now),
    {
        let ghost start = out@;
        let ghost before = *self;
        let key: u64 = match &self.view {
            ActiveView::Fullscreen(key) => *key,
            _ => {
                return;
            },
        };
        let match_found = match surface {
            Some(surface) => match self.layouts.find(key) {
                Some(window) => match self.layouts.maybe_surface(window.surface) {
                    Some(shown) => shown == surface,
                    None => false,
                },
                None => false,
            },
            None => true,
        };
        if match_found {
            // Update window's XDG state.
            out.push(Action::SetFullscreen { window: key, fullscreen: false });

            // Resize windows and change view.
            self.set_view(ActiveView::Workspace, now);
            self.resize_visible(out);
            assert(out@ == start + before.fullscreen_leaving(surface, now));
        }
    }

    /// Work needed to raise a surface's window.
    pub open spec fn raising(&self, surface: u64) -> Seq<Action> {
        match self.layouts.place_from(surface, 0) {
            Some(position) => seq![
                Action::SetActive { position: Some(position), clear_parents: false },
            ],
            None => Seq::empty(),
        }
    }

    /// Raise a surface's window to the foreground.
    pub fn raise(&self, surface: u64, out: &mut Vec<Action>)
        ensures
            final(out)@ == old(out)@ + self.raising(surface),
            final(out)@ == (match self.layouts.place_from(surface, 0) {
                Some(position) => old(out)@.push(
                    Action::SetActive { position: Some(position), clear_parents: false },
                ),
                None => old(out)@,
            }),
    {
        if let Some(position) = self.layouts.position(surface) {
            out.push(Action::SetActive { position: Some(position), clear_parents: false });
        }
    }

    /// Work needed to change the urgency of a surface's window.
    pub open spec fn urging(&self, surface: u64, urgent: bool) -> Seq<Action> {
        match self.layouts.surface_window(surface) {
            Some(window) => seq![Action::SetUrgent { window: window.key, urgent }],
            None => Seq::empty(),
        }
    }

    /// Mark a surface's window as urgent.
    pub fn set_urgent(&self, surface: u64, urgent: bool, out: &mut Vec<Action>)
        ensures
            final(out)@ == old(out)@ + self.urging(surface, urgent),
            final(out)@ == (match self.layouts.surface_window(surface) {
                Some(window) => old(out)@.push(
                    Action::SetUrgent { window: window.key, urgent },
                ),
                None => old(out)@,
            }),
    {
        if let Some(window) = self.layouts.find_window(surface) {
            out.push(Action::SetUrgent { window: window.key, urgent });
        }
    }

    /// Bounds of the window in the layouts which owns a surface.
    pub open spec fn owner_bounds(&self, surface: u64) -> Option<Rectangle> {
        match self.pending() {
            ActiveView::Lock(Some(lock)) if lock.surfaces@.contains(surface) => Some(lock.bounds),
            _ => match first(self.layouts.windows@, owns(surface)) {
                Some(window) => Some(window.bounds),
                None => match first(self.layers.windows@, layer_owns(surface)) {
                    Some(layer) => Some(layer.bounds),
                    None => None,
                },
            },
        }
    }

    /// Geometry of the window owning a surface, or else of the output.
    pub open spec fn parent_bounds(&self, surface: u64) -> Rectangle {
        match self.owner_bounds(surface) {
            Some(bounds) => bounds,
            None => Rectangle::of_size(self.output.canvas.size),
        }
    }

    /// Get parent geometry of the window owning a surface.
    ///
    /// This defaults to the full output size.
    pub fn parent_geometry(&self, surface: u64) -> (r: Rectangle)
        ensures
            r == self.parent_bounds(surface),
            r == (match self.owner_bounds(surface) {
                Some(bounds) => bounds,
                None => Rectangle::of_size(self.output.canvas.size),
            }),
    {
        if let ActiveView::Lock(Some(lock)) = self.pending_view() {
            if holds_key(&lock.surfaces, surface) {
                return lock.bounds;
            }
        }
        let mut i: usize = 0;
        while i < self.layouts.windows.len()
            invariant
                i <= self.layouts.windows.len(),
                first_index(self.layouts.windows@, owns(surface), 0) == first_index(
                    self.layouts.windows@,
                    owns(surface),
                    i as int,
                ),
                !(self.pending() matches ActiveView::Lock(Some(lock)) && lock.surfaces@.contains(
                    surface,
                )),
            decreases self.layouts.windows.len() - i,
        {
            if holds_key(&self.layouts.windows[i].surfaces, surface) {
                return self.layouts.windows[i].bounds;
            }
            i += 1;
        }
        let mut i: usize = 0;
        while i < self.layers.windows.len()
            invariant
                i <= self.layers.windows.len(),
                first(self.layouts.windows@, owns(surface)) is None,
                first_index(self.layers.windows@, layer_owns(surface), 0) == first_index(
                    self.layers.windows@,
                    layer_owns(surface),
                    i as int,
                ),
                !(self.pending() matches ActiveView::Lock(Some(lock)) && lock.surfaces@.contains(
                    surface,
                )),
            decreases self.layers.windows.len() - i,
        {
            if holds_key(&self.layers.windows[i].surfaces, surface) {
                return self.layers.windows[i].bounds;
            }
            i += 1;
        }
        Rectangle::from_size(self.output.canvas.size)
    }

    /// Whether a window in the layouts owns a surface.
    pub open spec fn key_owns(&self, key: u64, surface: u64) -> bool {
        self.layouts.window(key) matches Some(w) && w.surfaces@.contains(surface)
    }

    /// Whether a surface is on screen.
    pub open spec fn is_visible(&self, surface: u64) -> bool {
        ||| self.pending() matches ActiveView::Lock(Some(lock)) && lock.surfaces@.contains(surface)
        ||| exists|i: int|
            0 <= i < self.layouts.visible.len() && self.key_owns(
                #[trigger] self.layouts.visible[i],
                surface,
            )
        ||| first_index(self.layers.windows@, layer_owns(surface), 0) is Some
    }

    /// Check if a surface is currently visible.
    pub fn surface_visible(&self, surface: u64) -> (r: bool)
        ensures
            r == self.is_visible(surface),
    {
        if let ActiveView::Lock(Some(lock)) = self.pending_view() {
            if holds_key(&lock.surfaces, surface) {
                return true;
            }
        }
        let mut i: usize = 0;
        while i < self.layouts.visible.len()
            invariant
                i <= self.layouts.visible.len(),
                forall|j: int|
                    0 <= j < i ==> !self.key_owns(#[trigger] self.layouts.visible[j], surface),
            decreases self.layouts.visible.len() - i,
        {
            let owned = match self.layouts.find(self.layouts.visible[i]) {
                Some(window) => holds_key(&window.surfaces, surface),
                None => false,
            };
            if owned {
                assert(self.key_owns(self.layouts.visible[i as int], surface));
                return true;
            }
            i += 1;
        }
        let mut i: usize = 0;
        while i < self.layers.windows.len()
            invariant
                i <= self.layers.windows.len(),
                first_index(self.layers.windows@, layer_owns(surface), 0) == first_index(
                    self.layers.windows@,
                    layer_owns(surface),
                    i as int,
                ),
            decreases self.layers.windows.len() - i,
        {
            if holds_key(&self.layers.windows[i].surfaces, surface) {
                return true;
            }
            i += 1;
        }
        false
    }
}

} // verus!
