//! Keyboard focus, and the processes which run or rest with it.

use vstd::prelude::*;

use crate::action::{Action, Signal};
use crate::app_id::{AppIdMatcher, Patterns};
use crate::lists::{first, first_index};
use crate::string_map::Entry;
use crate::text::{clone_opt, opt_text_is};
use crate::text::opt_view;
use crate::windows::scene::{LayerWindow, Layers, Layouts, SurfaceFocus, SurfaceHandle, Window};
use crate::windows::state::{ActiveView, Clock, PendingResume, PendingSuspend, Windows};

verus! {

/// Delay before processes are suspended or resumed, in nanoseconds.
pub const SWITCH_DELAY: u64 = 100_000_000;

/// Condition on roles to be filled by a window in the layouts.
pub open spec fn role_of_window(patterns: Patterns, w: Window) -> spec_fn(Entry) -> bool {
    |e: Entry|
        {
            ||| w.app_id is Some && patterns.accepts(e.value@, opt_view(w.app_id))
            ||| w.title is Some && patterns.accepts(e.value@, opt_view(w.title))
        }
}

/// Condition on roles to be filled by a layer shell window.
pub open spec fn role_of_layer(patterns: Patterns, w: LayerWindow) -> spec_fn(Entry) -> bool {
    |e: Entry|
        {
            ||| patterns.accepts(e.value@, opt_view(w.final_id()))
            ||| w.title is Some && patterns.accepts(e.value@, opt_view(w.title))
        }
}

/// Name of the role that an entry is about.
pub open spec fn role_name(entry: Option<Entry>) -> Option<String> {
    match entry {
        Some(entry) => Some(entry.key),
        None => None,
    }
}

/// Process group of a window which can be suspended and resumed.
pub open spec fn group_of(w: Option<Window>) -> Option<i32> {
    match w {
        Some(w) => match w.process_group {
            Some(pgid) if pgid > 0 => Some(pgid),
            _ => None,
        },
        None => None,
    }
}

impl Windows {
    /// Focused window in the layouts.
    ///
    /// A focused layer takes the focus from the layouts. If the focused window
    /// perished, the primary window takes its place.
    pub open spec fn focused_window(&self) -> Option<Window> {
        if self.layers.focus is Some {
            None
        } else {
            match self.layouts.focus {
                Some(key) => match self.layouts.window(key) {
                    Some(w) => Some(w),
                    None => self.layouts.resolved(self.layouts.pending_active.primary),
                },
                None => None,
            }
        }
    }

    /// Focused key after a perished window was replaced.
    pub open spec fn focused_key(&self) -> Option<u64> {
        match self.layouts.focus {
            Some(key) if self.layers.focus is None && self.layouts.window(key) is None =>
            match self.layouts.resolved(self.layouts.pending_active.primary) {
                Some(_) => self.layouts.pending_active.primary,
                None => None,
            },
            focus => focus,
        }
    }

    /// Surface of the focused window.
    pub open spec fn focused_surface(&self) -> Option<SurfaceHandle> {
        match self.focused_window() {
            Some(w) => Some(w.surface),
            None => None,
        }
    }

    /// Whether the focused window is already the activated one.
    pub open spec fn activation_kept(&self) -> bool {
        match (self.activated, self.focused_surface()) {
            (Some(old_surface), Some(new_surface)) => self.layouts.same_surface(
                old_surface,
                new_surface,
            ),
            (None, None) => true,
            _ => false,
        }
    }

    /// Window which lost the activation, if its processes have to rest.
    pub open spec fn resting_window(&self) -> Option<Window> {
        match self.activated {
            Some(handle) => match self.layouts.handle_window(handle) {
                Some(w) if group_of(Some(w)) is Some => Some(w),
                _ => None,
            },
            None => None,
        }
    }

    /// Role of what has the focus.
    pub open spec fn focused_role(&self, patterns: Patterns) -> Option<String> {
        match self.focused_window() {
            Some(w) => role_name(first(self.system_roles.entries@, role_of_window(patterns, w))),
            None => match self.layers.focus {
                Some(focus) => match self.layers.layer(focus.surface) {
                    Some(layer) => role_name(
                        first(self.system_roles.entries@, role_of_layer(patterns, layer)),
                    ),
                    None => None,
                },
                None => None,
            },
        }
    }

    /// Whether a role's application is named by an App ID.
    pub open spec fn fills_role(&self, patterns: Patterns, role: Seq<char>, id: Seq<char>) -> bool {
        self.role_matcher(role) matches Some(m) && m.accepts(&patterns, Some(id))
    }

    /// Condition on layers to have a surface and to fill a system role.
    pub open spec fn system_layer(&self, patterns: Patterns, surface: u64) -> spec_fn(
        LayerWindow,
    ) -> bool {
        |l: LayerWindow|
            l.surface == surface && match l.app_id {
                Some(id) => self.fills_role(patterns, "nav"@, id@) || self.fills_role(
                    patterns,
                    "home"@,
                    id@,
                ),
                None => false,
            }
    }

    /// Whether the activated surface was a layer in a system role.
    pub open spec fn from_system_layer(&self, patterns: Patterns) -> bool {
        self.activated matches Some(handle) && self.layouts.wl_surface(handle) matches Some(surface)
            && first_index(self.layers.windows@, self.system_layer(patterns, surface), 0) is Some
    }

    /// Whether the processes of the focused window are resumed with a delay.
    ///
    /// This is the case when the focus comes from the navigation or home
    /// screen, unless it goes to the home screen.
    pub open spec fn resume_delayed(&self, patterns: Patterns) -> bool {
        ||| (opt_view(self.active_role) == Some("nav"@) || opt_view(self.active_role) == Some(
            "home"@,
        )) && opt_view(self.focused_role(patterns)) != Some("home"@)
        ||| self.from_system_layer(patterns)
    }

    /// Pending suspend once the window which lost the activation was handled.
    pub open spec fn next_suspend(&self, now: u64) -> Option<PendingSuspend> {
        match group_of(self.resting_window()) {
            Some(pgid) => Some(PendingSuspend { pgid, time: (now + SWITCH_DELAY) as u64 }),
            None => self.pending_suspend,
        }
    }

    /// State after the focus was determined.
    pub open spec fn with_focus(self, patterns: Patterns, now: u64) -> Windows {
        if self.view is Lock {
            self
        } else if self.activation_kept() {
            Windows { layouts: Layouts { focus: self.focused_key(), ..self.layouts }, ..self }
        } else {
            let suspend = self.next_suspend(now);
            let delayed = self.resume_delayed(patterns);
            let group = group_of(self.focused_window());
            Windows {
                layouts: Layouts { focus: self.focused_key(), ..self.layouts },
                activated: self.focused_surface(),
                active_role: self.focused_role(patterns),
                pending_suspend: match (group, suspend) {
                    (Some(pgid), Some(pending)) if !delayed && pending.pgid == pgid => None,
                    _ => suspend,
                },
                pending_resume: match self.focused_window() {
                    Some(w) => match group {
                        Some(pgid) if delayed => Some(
                            PendingResume {
                                pgid,
                                time: (now + SWITCH_DELAY) as u64,
                                app_id: w.app_id,
                            },
                        ),
                        _ => None,
                    },
                    None => self.pending_resume,
                },
                ..self
            }
        }
    }

    /// Change of a surface's activation, if there is a surface.
    pub open spec fn activation(surface: Option<SurfaceHandle>, activated: bool) -> Seq<Action> {
        match surface {
            Some(surface) => seq![Action::SetActivated { surface, activated }],
            None => Seq::empty(),
        }
    }

    /// Work needed to deactivate, mute and pause what lost the activation.
    pub open spec fn resting(&self) -> Seq<Action> {
        Self::activation(self.activated, false) + (match self.resting_window() {
            Some(w) => seq![
                Action::CorkAudio { app_id: w.app_id, cork: true },
                Action::ControlMedia { app_id: w.app_id, pause: true },
            ],
            None => Seq::empty(),
        })
    }

    /// Work needed to activate the focused window, and to resume its processes
    /// unless that is delayed.
    pub open spec fn waking(&self, patterns: Patterns) -> Seq<Action> {
        Self::activation(self.focused_surface(), true) + (match self.focused_window() {
            Some(w) => match group_of(Some(w)) {
                Some(pgid) if !self.resume_delayed(patterns) => seq![
                    Action::SendSignal { pgid, signal: Signal::Continue },
                    Action::CorkAudio { app_id: w.app_id, cork: false },
                    Action::ControlMedia { app_id: w.app_id, pause: false },
                ],
                _ => Seq::empty(),
            },
            None => Seq::empty(),
        })
    }

    /// Work needed after the focus was determined.
    pub open spec fn focusing(&self, patterns: Patterns) -> Seq<Action> {
        if self.view is Lock {
            Seq::empty()
        } else {
            (match self.focused_window() {
                Some(w) => seq![Action::SetUrgent { window: w.key, urgent: false }],
                None => Seq::empty(),
            }) + (if self.activation_kept() {
                Seq::empty()
            } else {
                self.resting() + self.waking(patterns)
            })
        }
    }

    /// Surface which has the focus.
    pub open spec fn focus_target(&self) -> Option<SurfaceFocus> {
        match self.view {
            ActiveView::Lock(Some(lock)) => Some(
                SurfaceFocus { surface: lock.surface, app_id: lock.app_id },
            ),
            ActiveView::Lock(None) => None,
            _ => match self.focused_window() {
                Some(w) => match self.layouts.wl_surface(w.surface) {
                    Some(surface) => Some(SurfaceFocus { surface, app_id: w.app_id }),
                    None => self.layers.focus,
                },
                None => self.layers.focus,
            },
        }
    }

    /// Find the role of a window in the layouts.
    fn find_window_role(&self, patterns: &Patterns, w: &Window) -> (r: Option<String>)
        ensures
            r == role_name(first(self.system_roles.entries@, role_of_window(*patterns, *w))),
    {
        let ghost p = role_of_window(*patterns, *w);
        let mut i: usize = 0;
        while i < self.system_roles.entries.len()
            invariant
                i <= self.system_roles.entries.len(),
                p == role_of_window(*patterns, *w),
                first_index(self.system_roles.entries@, p, 0) == first_index(
                    self.system_roles.entries@,
                    p,
                    i as int,
                ),
            decreases self.system_roles.entries.len() - i,
        {
            let entry = &self.system_roles.entries[i];
            let matcher = AppIdMatcher { base: entry.value.clone() };
            if matcher.matches_some(patterns, &w.app_id) || matcher.matches_some(
                patterns,
                &w.title,
            ) {
                return Some(entry.key.clone());
            }
            i += 1;
        }
        None
    }

    /// Find the role of a layer shell window.
    fn find_layer_role(&self, patterns: &Patterns, w: &LayerWindow) -> (r: Option<String>)
        ensures
            r == role_name(first(self.system_roles.entries@, role_of_layer(*patterns, *w))),
    {
        let ghost p = role_of_layer(*patterns, *w);
        let mut i: usize = 0;
        while i < self.system_roles.entries.len()
            invariant
                i <= self.system_roles.entries.len(),
                p == role_of_layer(*patterns, *w),
                first_index(self.system_roles.entries@, p, 0) == first_index(
                    self.system_roles.entries@,
                    p,
                    i as int,
                ),
            decreases self.system_roles.entries.len() - i,
        {
            let entry = &self.system_roles.entries[i];
            let matcher = AppIdMatcher { base: entry.value.clone() };
            if matcher.matches_opt(patterns, w.preferred_id()) || matcher.matches_some(
                patterns,
                &w.title,
            ) {
                return Some(entry.key.clone());
            }
            i += 1;
        }
        None
    }

    /// Check if a role's application is named by an App ID.
    fn check_role(&self, patterns: &Patterns, role: &str, id: &String) -> (r: bool)
        ensures
            r == self.fills_role(*patterns, role@, id@),
    {
        match self.system_role(role) {
            Some(matcher) => matcher.matches(patterns, Some(id)),
            None => false,
        }
    }

    /// Check if a surface was a layer in a system role.
    fn check_system_layer(&self, patterns: &Patterns, surface: u64) -> (r: bool)
        ensures
            r == (first_index(self.layers.windows@, self.system_layer(*patterns, surface), 0)
                is Some),
    {
        let ghost p = self.system_layer(*patterns, surface);
        let mut i: usize = 0;
        while i < self.layers.windows.len()
            invariant
                i <= self.layers.windows.len(),
                p == self.system_layer(*patterns, surface),
                first_index(self.layers.windows@, p, 0) == first_index(
                    self.layers.windows@,
                    p,
                    i as int,
                ),
            decreases self.layers.windows.len() - i,
        {
            let layer = &self.layers.windows[i];
            if layer.surface == surface {
                if let Some(id) = &layer.app_id {
                    if self.check_role(patterns, "nav", id) || self.check_role(
                        patterns,
                        "home",
                        id,
                    ) {
                        return true;
                    }
                }
            }
            i += 1;
        }
        false
    }

    /// Find the focused window in the layouts.
    fn find_focused(&self) -> (r: Option<&Window>)
        ensures
            match r {
                Some(w) => self.focused_window() == Some(*w),
                None => self.focused_window() is None,
            },
    {
        if self.layers.focus.is_some() {
            return None;
        }
        match self.layouts.focus {
            Some(key) => match self.layouts.find(key) {
                Some(window) => Some(window),
                None => self.layouts.resolve(self.layouts.pending_active.primary),
            },
            None => None,
        }
    }

    /// Find the focused key, replacing a perished window by the primary one.
    fn find_focused_key(&self) -> (r: Option<u64>)
        ensures
            r == self.focused_key(),
    {
        match self.layouts.focus {
            Some(key) => {
                if self.layers.focus.is_none() && self.layouts.find(key).is_none() {
                    match self.layouts.resolve(self.layouts.pending_active.primary) {
                        Some(_) => self.layouts.pending_active.primary,
                        None => None,
                    }
                } else {
                    Some(key)
                }
            },
            None => None,
        }
    }

    /// Find the role of what has the focus.
    fn find_focused_role(&self, patterns: &Patterns) -> (r: Option<String>)
        ensures
            r == self.focused_role(*patterns),
    {
        match self.find_focused() {
            Some(window) => self.find_window_role(patterns, window),
            None => match &self.layers.focus {
                Some(focus) => match self.layers.find(focus.surface) {
                    Some(layer) => self.find_layer_role(patterns, layer),
                    None => None,
                },
                None => None,
            },
        }
    }

    /// Check if the focused window is already the activated one.
    fn check_activation(&self, new_surface: Option<SurfaceHandle>) -> (r: bool)
        requires
            new_surface == self.focused_surface(),
        ensures
            r == self.activation_kept(),
    {
        match (self.activated, new_surface) {
            (Some(old_surface), Some(new_surface)) => self.layouts.is_same_surface(
                old_surface,
                new_surface,
            ),
            (None, None) => true,
            _ => false,
        }
    }

    /// Check if the processes of the focused window are resumed with a delay.
    fn check_resume_delayed(&self, patterns: &Patterns, new_role: &Option<String>) -> (r: bool)
        requires
            *new_role == self.focused_role(*patterns),
        ensures
            r == self.resume_delayed(*patterns),
    {
        // Check cached old role, to handle destroyed surfaces.
        let from_role = opt_text_is(&self.active_role, "nav") || opt_text_is(
            &self.active_role,
            "home",
        );
        if from_role && !opt_text_is(new_role, "home") {
            return true;
        }

        // Check if the previous surface was a layer in a system role.
        match self.activated {
            Some(previous) => match self.layouts.maybe_surface(previous) {
                Some(surface) => self.check_system_layer(patterns, surface),
                None => false,
            },
            None => false,
        }
    }

    /// Find the window which lost the activation, if its processes have to rest.
    fn find_resting(&self) -> (r: Option<&Window>)
        ensures
            match r {
                Some(w) => self.resting_window() == Some(*w),
                None => self.resting_window() is None,
            },
    {
        match self.activated {
            Some(handle) => match self.layouts.find_handle(handle) {
                Some(window) => match window.process_group {
                    Some(pgid) => if pgid > 0 {
                        Some(window)
                    } else {
                        None
                    },
                    None => None,
                },
                None => None,
            },
            None => None,
        }
    }

    /// Copy the focused layer surface.
    fn layer_focus(&self) -> (r: Option<SurfaceFocus>)
        ensures
            r == self.layers.focus,
    {
        match &self.layers.focus {
            Some(focus) => Some(focus.clone()),
            None => None,
        }
    }

    /// Current window focus.
    ///
    /// Determining the focus clears the urgency of the focused window. When
    /// another window gets the focus, the previous one loses its activation and
    /// the new one gets it. The processes of the previous window are muted and
    /// scheduled to be stopped, and those of the new one continue.
    pub fn focus(&mut self, patterns: &Patterns, clock: Clock, out: &mut Vec<Action>) -> (r: Option<
        SurfaceFocus,
    >)
        requires
            clock.mono_ns + SWITCH_DELAY <= u64::MAX,
        ensures
            r == old(self).focus_target(),
            !(old(self).view is Lock) && old(self).layers.focus is None && old(self).layouts.focus
                is Some ==> (old(self).layouts.window(old(self).layouts.focus->0) matches Some(w)
                ==> (old(self).layouts.wl_surface(w.surface) matches Some(surface) ==> r == Some(
                SurfaceFocus { surface, app_id: w.app_id },
            ) && final(self).activated == Some(w.surface))),
            *final(self) == old(self).with_focus(*patterns, clock.mono_ns),
            final(out)@ == old(out)@ + old(self).focusing(*patterns),
    {
        let ghost before = *self;
        let ghost start = out@;

        // Always focus session lock surfaces.
        if let ActiveView::Lock(lock) = &self.view {
            return match lock {
                Some(lock) => Some(
                    SurfaceFocus { surface: lock.surface, app_id: clone_opt(&lock.app_id) },
                ),
                None => None,
            };
        }

        let focused_key = self.find_focused_key();
        let (new_surface, target, group, app_id) = match self.find_focused() {
            Some(window) => {
                // Clear urgency.
                out.push(Action::SetUrgent { window: window.key, urgent: false });
                let target = match self.layouts.maybe_surface(window.surface) {
                    Some(surface) => Some(
                        SurfaceFocus { surface, app_id: clone_opt(&window.app_id) },
                    ),
                    None => self.layer_focus(),
                };
                let group: Option<i32> = match window.process_group {
                    Some(pgid) => if pgid > 0 {
                        Some(pgid)
                    } else {
                        None
                    },
                    None => None,
                };
                (Some(window.surface), target, group, clone_opt(&window.app_id))
            },
            None => (None, self.layer_focus(), None, None),
        };

        if self.check_activation(new_surface) {
            self.layouts.focus = focused_key;
            assert(out@ == start + before.focusing(*patterns));
            return target;
        }

        // Clear old activated flag.
        if let Some(surface) = self.activated {
            out.push(Action::SetActivated { surface, activated: false });
        }

        // Suspend old process group.
        let pending_suspend = match self.find_resting() {
            Some(window) => {
                out.push(Action::CorkAudio { app_id: clone_opt(&window.app_id), cork: true });
                out.push(Action::ControlMedia { app_id: clone_opt(&window.app_id), pause: true });
                match window.process_group {
                    Some(pgid) => Some(
                        PendingSuspend { pgid, time: clock.mono_ns + SWITCH_DELAY },
                    ),
                    None => None,
                }
            },
            None => self.pending_suspend,
        };

        let new_role = self.find_focused_role(patterns);
        let delay = self.check_resume_delayed(patterns, &new_role);

        self.layouts.focus = focused_key;
        self.active_role = new_role;
        self.pending_suspend = pending_suspend;

        if let Some(surface) = new_surface {
            // Set new activated flag.
            out.push(Action::SetActivated { surface, activated: true });

            // Always cancel any pending resume when switching to a new window.
            self.pending_resume = None;

            // Resume new process group.
            if let Some(pgid) = group {
                if delay {
                    self.pending_resume = Some(
                        PendingResume { pgid, time: clock.mono_ns + SWITCH_DELAY, app_id },
                    );
                } else {
                    // Cancel pending suspend.
                    if let Some(pending) = self.pending_suspend {
                        if pending.pgid == pgid {
                            self.pending_suspend = None;
                        }
                    }
                    out.push(Action::SendSignal { pgid, signal: Signal::Continue });
                    out.push(Action::CorkAudio { app_id: clone_opt(&app_id), cork: false });
                    out.push(Action::ControlMedia { app_id, pause: false });
                }
            }
        }
        self.activated = new_surface;
        assert(out@ == start + before.focusing(*patterns));
        target
    }

    /// State after another focus was chosen.
    pub open spec fn with_chosen_focus(
        self,
        layout: Option<u64>,
        layer: Option<u64>,
        app_id: Option<String>,
    ) -> Windows {
        Windows {
            layouts: Layouts { focus: layout, ..self.layouts },
            layers: Layers {
                focus: match layer {
                    Some(surface) => Some(SurfaceFocus { surface, app_id }),
                    None => None,
                },
                ..self.layers
            },
            ..self
        }
    }

    /// Update the focused window.
    pub fn set_focus(&mut self, layout: Option<u64>, layer: Option<u64>, app_id: Option<String>)
        ensures
            *final(self) == old(self).with_chosen_focus(layout, layer, app_id),
    {
        self.layouts.focus = layout;
        self.layers.focus = match layer {
            Some(surface) => Some(SurfaceFocus { surface, app_id }),
            None => None,
        };
    }
}

} // verus!
